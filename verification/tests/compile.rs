use shadermake::discover::ShaderToCompile;
use shadermake::manifest::ShaderKind;
use shadermake::pipeline::{compile_identity, compile_source, Compiled, CompileError};
use shadermake::{overall_success, Target};

const VALID_WGSL: &str = "@compute @workgroup_size(1) fn main() { }";
const INVALID_WGSL: &str = "fn main( {";

fn shader(name: &str, path: &str, kind: ShaderKind) -> ShaderToCompile {
    ShaderToCompile {
        name: String::from(name),
        path: String::from(path),
        kind,
    }
}

#[test]
fn identity_returns_the_input_bytes() {
    let source: Vec<u8> = vec![1, 2, 3, 250, 0];
    let out = compile_identity(&source, ShaderKind::Vertex, Target::Wgsl).unwrap();
    assert_eq!(out, source);
}

#[test]
fn wgsl_to_wgsl_is_a_fixed_point() {
    let source: Vec<u8> = Vec::from(VALID_WGSL.as_bytes());
    let s = shader("blit", "blit.wgsl", ShaderKind::Compute);
    match compile_source(&source, &s, Target::Wgsl) {
        Ok(Compiled::Bytes(v)) => assert_eq!(v, source),
        _ => panic!("identity compilation must return the input bytes"),
    }
}

#[test]
fn glsl_to_glsl_is_a_fixed_point() {
    let source: Vec<u8> = Vec::from("void main() { }".as_bytes());
    let s = shader("fill", "fill.glsl", ShaderKind::Fragment);
    match compile_source(&source, &s, Target::Glsl) {
        Ok(Compiled::Bytes(v)) => assert_eq!(v, source),
        _ => panic!("identity compilation must return the input bytes"),
    }
}

#[test]
fn valid_wgsl_compiles_to_nonempty_spirv() {
    let source: Vec<u8> = Vec::from(VALID_WGSL.as_bytes());
    let s = shader("blit", "blit.wgsl", ShaderKind::Compute);
    match compile_source(&source, &s, Target::Spirv) {
        Ok(Compiled::Bytes(v)) => {
            assert!(!v.is_empty());
            assert_eq!(v.len() % 4, 0);
        }
        _ => panic!("valid WGSL must compile to the binary intermediate form"),
    }
}

#[test]
fn valid_wgsl_compiles_to_nonempty_glsl() {
    let source: Vec<u8> = Vec::from(VALID_WGSL.as_bytes());
    let s = shader("blit", "blit.wgsl", ShaderKind::Compute);
    match compile_source(&source, &s, Target::Glsl) {
        Ok(Compiled::Bytes(v)) => assert!(!v.is_empty()),
        _ => panic!("valid WGSL must re-emit as GLSL"),
    }
}

#[test]
fn glsl_to_wgsl_always_fails_dispatch() {
    let s = shader("fill", "fill.glsl", ShaderKind::Fragment);
    let sources: Vec<Vec<u8>> = vec![
        Vec::new(),
        Vec::from("void main() { }".as_bytes()),
        vec![0xff, 0xfe],
    ];
    for source in &sources {
        assert!(matches!(
            compile_source(source, &s, Target::Wgsl),
            Err(CompileError::Dispatch)
        ));
    }
}

#[test]
fn glsl_to_spirv_is_delegated_to_the_native_compiler() {
    let source: Vec<u8> = Vec::from("void main() { }".as_bytes());
    let s = shader("fill", "fill.glsl", ShaderKind::Fragment);
    assert!(matches!(
        compile_source(&source, &s, Target::Spirv),
        Ok(Compiled::NativeDelegation)
    ));
}

#[test]
fn unknown_extension_fails_source_kind_detection() {
    let source: Vec<u8> = Vec::from(VALID_WGSL.as_bytes());
    let s = shader("odd", "odd.hlsl", ShaderKind::Vertex);
    assert!(matches!(
        compile_source(&source, &s, Target::Spirv),
        Err(CompileError::UnknownSourceKind)
    ));
    let no_ext = shader("odd", "odd", ShaderKind::Vertex);
    assert!(matches!(
        compile_source(&source, &no_ext, Target::Spirv),
        Err(CompileError::UnknownSourceKind)
    ));
}

#[test]
fn invalid_wgsl_is_a_parse_error() {
    let source: Vec<u8> = Vec::from(INVALID_WGSL.as_bytes());
    let s = shader("bad", "bad.wgsl", ShaderKind::Fragment);
    assert!(matches!(
        compile_source(&source, &s, Target::Spirv),
        Err(CompileError::Parse(_))
    ));
}

#[test]
fn non_utf8_wgsl_is_a_parse_error() {
    let source: Vec<u8> = vec![0xff, 0xfe, 0x00];
    let s = shader("bad", "bad.wgsl", ShaderKind::Fragment);
    assert!(matches!(
        compile_source(&source, &s, Target::Spirv),
        Err(CompileError::Parse(_))
    ));
}

#[test]
fn one_failure_does_not_stop_the_other_shader() {
    let bad: Vec<u8> = Vec::from(INVALID_WGSL.as_bytes());
    let good: Vec<u8> = Vec::from(VALID_WGSL.as_bytes());
    let bad_shader = shader("bad", "bad.wgsl", ShaderKind::Fragment);
    let good_shader = shader("good", "good.wgsl", ShaderKind::Compute);
    let mut results: Vec<bool> = Vec::new();
    results.push(compile_source(&bad, &bad_shader, Target::Spirv).is_ok());
    results.push(compile_source(&good, &good_shader, Target::Spirv).is_ok());
    assert!(!results[0]);
    assert!(results[1]);
    assert!(!overall_success(&results));
    let all_good: Vec<bool> = vec![true, true];
    assert!(overall_success(&all_good));
}

#[test]
fn equal_inputs_compile_to_equal_outputs() {
    let source: Vec<u8> = Vec::from(VALID_WGSL.as_bytes());
    let s = shader("blit", "blit.wgsl", ShaderKind::Compute);
    let first = match compile_source(&source, &s, Target::Spirv) {
        Ok(Compiled::Bytes(v)) => v,
        _ => panic!("valid WGSL must compile"),
    };
    let second = match compile_source(&source, &s, Target::Spirv) {
        Ok(Compiled::Bytes(v)) => v,
        _ => panic!("valid WGSL must compile"),
    };
    assert_eq!(first, second);
}

#[test]
fn emitted_glsl_targets_the_fixed_profile() {
    let source: Vec<u8> = Vec::from(VALID_WGSL.as_bytes());
    let s = shader("blit", "blit.wgsl", ShaderKind::Compute);
    match compile_source(&source, &s, Target::Glsl) {
        Ok(Compiled::Bytes(v)) => {
            let text = String::from_utf8(v).unwrap();
            assert!(text.starts_with("#version 450"));
        }
        _ => panic!("valid WGSL must re-emit as GLSL"),
    }
}
