use vstd::prelude::*;

use crate::paths::{find_ext_dot, is_ext_dot, lemma_ext_dot_unique, str_eq};
use crate::Target;

verus! {

/// The shading language a source file is written in, detected from its file
/// extension alone.
#[derive(Copy, Clone, Debug, PartialEq, Eq, Structural)]
pub enum ShaderSourceKind {
    Wgsl,
    Glsl,
}

/// The extension of `p`: the characters after its extension dot, if it has
/// one.
pub open spec fn extension_spec(p: Seq<char>) -> Option<Seq<char>> {
    if exists|i: int| is_ext_dot(p, i) {
        Some(p.subrange((choose|i: int| is_ext_dot(p, i)) + 1, p.len() as int))
    } else {
        None
    }
}

/// Which source language a path's extension announces: `wgsl` or `glsl`,
/// exactly; any other extension, or none, announces nothing.
pub open spec fn guess_spec(p: Seq<char>) -> Option<ShaderSourceKind> {
    match extension_spec(p) {
        Some(e) => if e == "wgsl"@ {
            Some(ShaderSourceKind::Wgsl)
        } else if e == "glsl"@ {
            Some(ShaderSourceKind::Glsl)
        } else {
            None
        },
        None => None,
    }
}

impl ShaderSourceKind {
    /// Detect the source language of the file at `path` from its extension.
    pub fn guess(path: &str) -> (r: Option<ShaderSourceKind>)
        ensures
            r == guess_spec(path@),
    {
        let len = path.unicode_len();
        match find_ext_dot(path) {
            Some(i) => {
                proof {
                    lemma_ext_dot_unique(path@, i as int, choose|k: int| is_ext_dot(path@, k));
                }
                let ext = path.substring_char(i + 1, len);
                if str_eq(ext, "wgsl") {
                    Some(ShaderSourceKind::Wgsl)
                } else if str_eq(ext, "glsl") {
                    Some(ShaderSourceKind::Glsl)
                } else {
                    None
                }
            },
            None => None,
        }
    }
}

/// The three transformations a (source language, target format) pairing can
/// dispatch to.
#[derive(Copy, Clone, Debug, PartialEq, Eq, Structural)]
pub enum Transformation {
    /// Return the source bytes unchanged.
    Identity,
    /// Parse with the intermediate-representation front end and re-emit for
    /// the target.
    NagaIr,
    /// Delegate to the hardware-native compiler.
    NativeCompiler,
}

/// The dispatch table. The one pairing with no compilation path is GLSL
/// source to a WGSL target.
pub open spec fn compile_fn_spec(kind: ShaderSourceKind, target: Target) -> Option<
    Transformation,
> {
    match (kind, target) {
        (ShaderSourceKind::Wgsl, Target::Spirv) => Some(Transformation::NagaIr),
        (ShaderSourceKind::Wgsl, Target::Wgsl) => Some(Transformation::Identity),
        (ShaderSourceKind::Wgsl, Target::Glsl) => Some(Transformation::NagaIr),
        (ShaderSourceKind::Glsl, Target::Spirv) => Some(Transformation::NativeCompiler),
        (ShaderSourceKind::Glsl, Target::Wgsl) => None,
        (ShaderSourceKind::Glsl, Target::Glsl) => Some(Transformation::Identity),
    }
}

/// Select the transformation for a (source language, target format) pairing,
/// or report that no compilation path exists.
pub fn compile_fn(source_kind: ShaderSourceKind, target: Target) -> (r: Option<Transformation>)
    ensures
        r == compile_fn_spec(source_kind, target),
{
    match (source_kind, target) {
        (ShaderSourceKind::Wgsl, Target::Spirv) => Some(Transformation::NagaIr),
        (ShaderSourceKind::Wgsl, Target::Wgsl) => Some(Transformation::Identity),
        (ShaderSourceKind::Wgsl, Target::Glsl) => Some(Transformation::NagaIr),
        (ShaderSourceKind::Glsl, Target::Spirv) => Some(Transformation::NativeCompiler),
        (ShaderSourceKind::Glsl, Target::Wgsl) => None,
        (ShaderSourceKind::Glsl, Target::Glsl) => Some(Transformation::Identity),
    }
}

} // verus!
