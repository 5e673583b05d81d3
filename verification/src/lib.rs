pub mod discover;
pub mod dispatch;
pub mod manifest;
pub mod paths;
pub mod pipeline;

use crate::discover::ShaderToCompile;
use crate::paths::{join, join_spec, replace_ext_spec, replace_extension};
use vstd::prelude::*;

verus! {

/// The output representation a shader is compiled to.
#[derive(Copy, Clone, Debug, PartialEq, Eq, Structural)]
pub enum Target {
    Spirv,
    Wgsl,
    Glsl,
}

impl Target {
    /// The canonical file extension for output files of this target format.
    pub open spec fn extension_spec(self) -> Seq<char> {
        match self {
            Target::Spirv => "spv"@,
            Target::Wgsl => "wgsl"@,
            Target::Glsl => "glsl"@,
        }
    }

    pub fn extension(self) -> (r: &'static str)
        ensures
            r@ == self.extension_spec(),
    {
        match self {
            Target::Spirv => "spv",
            Target::Wgsl => "wgsl",
            Target::Glsl => "glsl",
        }
    }

    /// The target a command-line name stands for: `spv` and `spirv` both name
    /// the binary intermediate form; any other name is invalid.
    pub open spec fn from_str_spec(s: Seq<char>) -> Option<Target> {
        if s == "spv"@ || s == "spirv"@ {
            Some(Target::Spirv)
        } else if s == "wgsl"@ {
            Some(Target::Wgsl)
        } else if s == "glsl"@ {
            Some(Target::Glsl)
        } else {
            None
        }
    }

    pub fn from_str(s: &str) -> (r: Option<Target>)
        ensures
            r == Target::from_str_spec(s@),
    {
        if crate::paths::str_eq(s, "spv") || crate::paths::str_eq(s, "spirv") {
            Some(Target::Spirv)
        } else if crate::paths::str_eq(s, "wgsl") {
            Some(Target::Wgsl)
        } else if crate::paths::str_eq(s, "glsl") {
            Some(Target::Glsl)
        } else {
            None
        }
    }
}

/// The global options of one build: where the sources are rooted, where
/// output is written, and the requested target format.
pub struct Options {
    pub source_dir: String,
    pub target_dir: String,
    pub target: Target,
}

/// Observer of the build's lifecycle, implemented by the embedding
/// application: how many shaders were gathered, which shader is being
/// compiled, which failed and why, and when the build is done. Presentation
/// only; nothing is returned.
pub trait Logger {
    fn on_shaders_gathered(&self, num_shaders: usize);

    fn on_compiling(&self, shader: &str);

    fn on_compile_error(&self, shader: &str, error: &str);

    fn on_completed(&self);
}

/// The absolute source path of a shader: its resolved relative path joined
/// onto the source root.
pub fn source_path(shader: &ShaderToCompile, options: &Options) -> (r: String)
    ensures
        r@ == join_spec(options.source_dir@, shader@.path),
{
    join(options.source_dir.as_str(), shader.path.as_str())
}

/// Where a shader's compiled output is written: its source-relative path,
/// with the extension replaced by the target's canonical one, joined onto
/// the target directory. The output tree thereby mirrors the source tree.
pub fn output_path(shader: &ShaderToCompile, options: &Options) -> (r: String)
    ensures
        r@ == join_spec(
            options.target_dir@,
            replace_ext_spec(shader@.path, options.target.extension_spec()),
        ),
{
    let ext = options.target.extension();
    let rebased = replace_extension(shader.path.as_str(), ext);
    join(options.target_dir.as_str(), rebased.as_str())
}

/// Law: the build as a whole succeeds if and only if every shader's
/// compilation succeeded; any single failure fails the build, and nothing
/// else does.
pub fn overall_success(results: &Vec<bool>) -> (r: bool)
    ensures
        r <==> (forall|i: int| 0 <= i < results@.len() ==> results@[i]),
{
    let mut i: usize = 0;
    while i < results.len()
        invariant
            0 <= i <= results@.len(),
            forall|j: int| 0 <= j < i ==> results@[j],
        decreases results@.len() - i,
    {
        if !results[i] {
            return false;
        }
        i = i + 1;
    }
    true
}

/// The process exit code an outcome maps to: zero exactly on success.
pub fn exit_code(success: bool) -> (r: i32)
    ensures
        success ==> r == 0,
        !success ==> r == 1,
{
    if success {
        0
    } else {
        1
    }
}

} // verus!
