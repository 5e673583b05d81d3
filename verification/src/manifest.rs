use vstd::prelude::*;

verus! {

/// The pipeline role a shader is declared for.
#[derive(Copy, Clone, Debug, PartialEq, Eq, Structural)]
pub enum ShaderKind {
    Vertex,
    Fragment,
    Compute,
}

/// One shader declaration of a manifest: a path relative to the manifest's
/// own directory, and the declared pipeline stage.
pub struct Shader {
    pub path: String,
    pub kind: ShaderKind,
}

/// The mathematical value of a [`Shader`].
pub ghost struct ShaderView {
    pub path: Seq<char>,
    pub kind: ShaderKind,
}

impl View for Shader {
    type V = ShaderView;

    open spec fn view(&self) -> ShaderView {
        ShaderView { path: self.path@, kind: self.kind }
    }
}

/// One directory's manifest: the shaders it declares, keyed by name, and the
/// subdirectories to recurse into.
pub struct Manifest {
    pub subdirectories: Vec<String>,
    pub shaders: Vec<(String, Shader)>,
}

/// The mathematical value of a [`Manifest`].
pub ghost struct ManifestView {
    pub subdirectories: Seq<Seq<char>>,
    pub shaders: Seq<(Seq<char>, ShaderView)>,
}

impl View for Manifest {
    type V = ManifestView;

    open spec fn view(&self) -> ManifestView {
        ManifestView {
            subdirectories: self.subdirectories@.map_values(|s: String| s@),
            shaders: self.shaders@.map_values(|p: (String, Shader)| (p.0@, p.1@)),
        }
    }
}

impl ManifestView {
    /// A manifest keys its shaders by name, so its names are pairwise
    /// distinct. A manifest parsed from a name-keyed document has this by
    /// construction.
    pub open spec fn wf(self) -> bool {
        forall|i: int, j: int|
            0 <= i < j < self.shaders.len() ==> self.shaders[i].0 != self.shaders[j].0
    }
}

impl Manifest {
    /// Well-formedness of a manifest value: see [`ManifestView::wf`].
    pub open spec fn wf(&self) -> bool {
        self@.wf()
    }
}

} // verus!
