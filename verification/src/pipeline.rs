use vstd::prelude::*;

use crate::discover::ShaderToCompile;
use crate::dispatch::{compile_fn, compile_fn_spec, guess_spec, ShaderSourceKind, Transformation};
use crate::manifest::ShaderKind;
use crate::Target;
use naga::back::glsl::{Options as GlslOptions, PipelineOptions, Version::Desktop, Writer};
use naga::back::spv::{write_vec, Capability, Options as SpvOptions, WriterFlags};
use naga::front::wgsl::parse_str;
use naga::valid::{Capabilities, ValidationFlags, Validator};
use naga::ShaderStage::{Compute, Fragment, Vertex};

use crate::pipeline::CompileError::{Backend, Parse};
use vstd::string::StringSliceAdditionalSpecFns;
use vstd::utf8::valid_utf8;

verus! {

/// Why one shader failed to compile. Failures of one shader never concern
/// any other.
#[derive(Debug)]
pub enum CompileError {
    /// The file's extension names no known source language.
    UnknownSourceKind,
    /// The dispatch table has no transformation for this (source language,
    /// target format) pairing.
    Dispatch,
    /// The front end rejected the source text; the diagnostic is passed
    /// through.
    Parse(String),
    /// A back end failed while re-emitting the parsed module; the diagnostic
    /// is passed through.
    Backend(String),
}

/// Whether the WGSL front end accepts the source text whose UTF-8 bytes are
/// `s`. The front end's verdict depends on the text alone.
pub uninterp spec fn wgsl_parses(s: Seq<u8>) -> bool;

/// Whether, for WGSL text (bytes `s`) that the front end accepts, the
/// validator and the SPIR-V back end also accept its module. The verdict
/// depends on the text alone; the writer options are fixed.
pub uninterp spec fn spv_ok(s: Seq<u8>) -> bool;

/// The binary-intermediate-form bytes emitted for the WGSL text with bytes
/// `s`, under the fixed writer options. A function of the text alone on a
/// given platform; meaningful where `spv_ok(s)`.
pub uninterp spec fn spv_bytes_of(s: Seq<u8>) -> Seq<u8>;

/// Whether, for WGSL text (bytes `s`) that the front end accepts, the
/// validator and the GLSL back end accept its module for the given stage
/// (the entry point `main` of that stage must exist, among else). The
/// verdict depends on the text and the stage alone.
pub uninterp spec fn glsl_ok(s: Seq<u8>, kind: ShaderKind) -> bool;

/// The GLSL text bytes emitted for the WGSL text with bytes `s` and the
/// given stage, under the fixed desktop-450 profile and entry point `main`.
/// A function of the text and stage alone; meaningful where
/// `glsl_ok(s, kind)`.
pub uninterp spec fn glsl_bytes_of(s: Seq<u8>, kind: ShaderKind) -> Seq<u8>;

/// Relies on core::str::from_utf8: `Ok` exactly on UTF-8 input, and the
/// returned text views those same bytes.
#[verifier::external_body]
fn bytes_to_str(v: &[u8]) -> (r: Result<&str, String>)
    ensures
        r is Ok <==> valid_utf8(v@),
        r matches Ok(s) ==> s.spec_bytes() == v@,
{
    match core::str::from_utf8(v) {
        Ok(s) => Ok(s),
        Err(e) => Err(format!("{}", e)),
    }
}

/// Relies on naga::front::wgsl::parse_str, naga::valid::Validator::validate
/// and naga::back::spv::write_vec, with bytemuck::cast_slice for the
/// word-to-byte cast: one emission of WGSL text as the binary intermediate
/// form, with debug information embedded and the capability set {Shader}.
/// Each step is a deterministic function of the text (the options are
/// fixed), so the verdicts and the emitted bytes are named functions of it;
/// a parse failure is reported apart from the back end's. On success the
/// word stream starts with the five header words, so the bytes are never
/// empty, and the cast yields four bytes per word.
#[verifier::external_body]
fn emit_spirv(source: &str) -> (r: Result<Vec<u8>, CompileError>)
    ensures
        (r is Err && r->Err_0 is Parse) <==> !wgsl_parses(source.spec_bytes()),
        r is Ok <==> (wgsl_parses(source.spec_bytes()) && spv_ok(source.spec_bytes())),
        r matches Ok(v) ==> (v@ == spv_bytes_of(source.spec_bytes()) && v@.len() % 4 == 0
            && v@.len() > 0),
        r matches Err(e) ==> (e is Parse || e is Backend),
{
    let module = parse_str(source).map_err(|e| Parse(e.emit_to_string(source)))?;
    let info = Validator::new(ValidationFlags::all(), Capabilities::all()).validate(&module)
        .map_err(|e| Backend(format!("{e:?}")))?;
    let mut caps = naga::FastHashSet::default();
    caps.insert(Capability::Shader);
    let options = SpvOptions { flags: WriterFlags::DEBUG, capabilities: Some(caps), ..Default::default() };
    let words = write_vec(&module, &info, &options, None).map_err(|e| Backend(format!("{e:?}")))?;
    Ok(bytemuck::cast_slice(&words).to_vec())
}

/// Relies on naga::front::wgsl::parse_str, naga::valid::Validator::validate
/// and naga::back::glsl::Writer: one emission of WGSL text as GLSL for the
/// fixed desktop-450 profile with entry point `main` of the given stage.
/// Each step is a deterministic function of the text and the stage (the
/// options are fixed), so the verdicts and the emitted bytes are named
/// functions of them; a parse failure is reported apart from the back
/// end's. On success the writer puts the `#version` line first, so the
/// bytes are never empty.
#[verifier::external_body]
fn emit_glsl(source: &str, kind: ShaderKind) -> (r: Result<Vec<u8>, CompileError>)
    ensures
        (r is Err && r->Err_0 is Parse) <==> !wgsl_parses(source.spec_bytes()),
        r is Ok <==> (wgsl_parses(source.spec_bytes()) && glsl_ok(source.spec_bytes(), kind)),
        r matches Ok(v) ==> (v@ == glsl_bytes_of(source.spec_bytes(), kind) && v@.len() > 0),
        r matches Err(e) ==> (e is Parse || e is Backend),
{
    let module = parse_str(source).map_err(|e| Parse(e.emit_to_string(source)))?;
    let info = Validator::new(ValidationFlags::all(), Capabilities::all()).validate(&module)
        .map_err(|e| Backend(format!("{e:?}")))?;
    let pipeline = PipelineOptions {
        shader_stage: match kind { ShaderKind::Vertex => Vertex, ShaderKind::Fragment => Fragment, ShaderKind::Compute => Compute },
        entry_point: "main".into(),
        multiview: None,
    };
    let mut out = String::new();
    Writer::new(&mut out, &module, &info, &(GlslOptions { version: Desktop(450), ..Default::default() }), &pipeline, Default::default())
        .and_then(|mut w| w.write()).map_err(|e| Backend(format!("{e:?}")))?;
    Ok(out.into_bytes())
}

/// The identity transformation: the output bytes are the input bytes,
/// whatever the stage and target. It always succeeds.
pub fn compile_identity(source: &Vec<u8>, _kind: ShaderKind, _target: Target) -> (r: Result<
    Vec<u8>,
    CompileError,
>)
    ensures
        r matches Ok(v) && v@ == source@,
{
    let mut out: Vec<u8> = Vec::new();
    let mut i: usize = 0;
    while i < source.len()
        invariant
            0 <= i <= source@.len(),
            out@ == source@.take(i as int),
        decreases source@.len() - i,
    {
        out.push(source[i]);
        proof {
            assert(out@ =~= source@.take(i as int + 1));
        }
        i = i + 1;
    }
    proof {
        assert(out@ =~= source@);
    }
    Ok(out)
}

/// Re-emit parsed-and-validated WGSL text for the requested target:
/// succeeds exactly when the front end and the chosen back end accept it,
/// and then returns exactly the back end's emission. The WGSL target never
/// reaches this path: the dispatch table sends it through the identity
/// transformation instead.
pub fn compile_naga(source: &str, kind: ShaderKind, target: Target) -> (r: Result<
    Vec<u8>,
    CompileError,
>)
    requires
        target != Target::Wgsl,
    ensures
        (r matches Err(e) && e is Parse) <==> !wgsl_parses(source.spec_bytes()),
        r matches Err(e) ==> e is Parse || e is Backend,
        target == Target::Spirv ==> {
            &&& (r is Ok <==> wgsl_parses(source.spec_bytes()) && spv_ok(source.spec_bytes()))
            &&& (r matches Ok(v) ==> v@ == spv_bytes_of(source.spec_bytes()) && v@.len() % 4
                == 0 && v@.len() > 0)
        },
        target == Target::Glsl ==> {
            &&& (r is Ok <==> wgsl_parses(source.spec_bytes()) && glsl_ok(
                source.spec_bytes(),
                kind,
            ))
            &&& (r matches Ok(v) ==> v@ == glsl_bytes_of(source.spec_bytes(), kind)
                && v@.len() > 0)
        },
{
    match target {
        Target::Spirv => emit_spirv(source),
        Target::Glsl => emit_glsl(source, kind),
        Target::Wgsl => {
            proof {
                assert(false);
            }
            Err(CompileError::Backend(String::new()))
        },
    }
}

/// Decode the source bytes as text, then parse and re-emit them for the
/// requested target. The result is a parse error exactly when the bytes are
/// not UTF-8 text that the front end accepts; it succeeds exactly when the
/// chosen back end also accepts the module, and then holds exactly that
/// back end's emission.
pub fn compile_naga_wgsl(source: &Vec<u8>, kind: ShaderKind, target: Target) -> (r: Result<
    Vec<u8>,
    CompileError,
>)
    requires
        target != Target::Wgsl,
    ensures
        (r matches Err(e) && e is Parse) <==> !(valid_utf8(source@) && wgsl_parses(source@)),
        r matches Err(e) ==> e is Parse || e is Backend,
        target == Target::Spirv ==> {
            &&& (r is Ok <==> valid_utf8(source@) && wgsl_parses(source@) && spv_ok(source@))
            &&& (r matches Ok(v) ==> v@ == spv_bytes_of(source@) && v@.len() % 4 == 0
                && v@.len() > 0)
        },
        target == Target::Glsl ==> {
            &&& (r is Ok <==> valid_utf8(source@) && wgsl_parses(source@) && glsl_ok(
                source@,
                kind,
            ))
            &&& (r matches Ok(v) ==> v@ == glsl_bytes_of(source@, kind) && v@.len() > 0)
        },
{
    let text = match bytes_to_str(source.as_slice()) {
        Ok(s) => s,
        Err(msg) => {
            return Err(CompileError::Parse(msg));
        },
    };
    compile_naga(text, kind, target)
}

/// What compiling one shader produced: output bytes ready to write, or the
/// finding that this pairing is the hardware-native compiler's job. That
/// compiler is an external collaborator the embedding application invokes;
/// the library only decides when it must run.
#[derive(Debug)]
pub enum Compiled {
    Bytes(Vec<u8>),
    NativeDelegation,
}

/// Compile one shader's source bytes for the requested target: detect the
/// source language from the shader's path, select the transformation from
/// the dispatch table, and apply it. The outcome is a function of the
/// source bytes, the path's extension, the declared stage and the target
/// alone.
pub fn compile_source(source: &Vec<u8>, shader: &ShaderToCompile, target: Target) -> (r: Result<
    Compiled,
    CompileError,
>)
    ensures
        r == Err::<Compiled, CompileError>(CompileError::UnknownSourceKind) <==> guess_spec(
            shader@.path,
        ) is None,
        guess_spec(shader@.path) is Some ==> (r == Err::<Compiled, CompileError>(
            CompileError::Dispatch,
        ) <==> compile_fn_spec(guess_spec(shader@.path)->0, target) is None),
        guess_spec(shader@.path) is Some && compile_fn_spec(guess_spec(shader@.path)->0, target)
            == Some(Transformation::Identity) ==> (r matches Ok(c) && c matches Compiled::Bytes(v)
            && v@ == source@),
        guess_spec(shader@.path) is Some && compile_fn_spec(guess_spec(shader@.path)->0, target)
            == Some(Transformation::NativeCompiler) ==> r == Ok::<Compiled, CompileError>(
            Compiled::NativeDelegation,
        ),
        guess_spec(shader@.path) is Some && compile_fn_spec(guess_spec(shader@.path)->0, target)
            == Some(Transformation::NagaIr) ==> {
            &&& ((r matches Err(e) && e is Parse) <==> !(valid_utf8(source@) && wgsl_parses(
                source@,
            )))
            &&& (r matches Err(e) ==> e is Parse || e is Backend)
            &&& (r matches Ok(c) ==> c is Bytes)
            &&& (target == Target::Spirv ==> {
                &&& (r is Ok <==> valid_utf8(source@) && wgsl_parses(source@) && spv_ok(
                    source@,
                ))
                &&& (r matches Ok(c) ==> (c matches Compiled::Bytes(v) ==> v@ == spv_bytes_of(
                    source@,
                ) && v@.len() % 4 == 0 && v@.len() > 0))
            })
            &&& (target == Target::Glsl ==> {
                &&& (r is Ok <==> valid_utf8(source@) && wgsl_parses(source@) && glsl_ok(
                    source@,
                    shader@.kind,
                ))
                &&& (r matches Ok(c) ==> (c matches Compiled::Bytes(v) ==> v@ == glsl_bytes_of(
                    source@,
                    shader@.kind,
                ) && v@.len() > 0))
            })
        },
{
    let source_kind = match ShaderSourceKind::guess(shader.path.as_str()) {
        Some(k) => k,
        None => {
            return Err(CompileError::UnknownSourceKind);
        },
    };
    let transformation = match compile_fn(source_kind, target) {
        Some(t) => t,
        None => {
            return Err(CompileError::Dispatch);
        },
    };
    match transformation {
        Transformation::Identity => match compile_identity(source, shader.kind, target) {
            Ok(v) => Ok(Compiled::Bytes(v)),
            Err(e) => Err(e),
        },
        Transformation::NativeCompiler => Ok(Compiled::NativeDelegation),
        Transformation::NagaIr => {
            proof {
                assert(target != Target::Wgsl);
            }
            match compile_naga_wgsl(source, shader.kind, target) {
                Ok(v) => Ok(Compiled::Bytes(v)),
                Err(e) => Err(e),
            }
        },
    }
}

} // verus!
