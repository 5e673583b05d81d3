use shadermake::discover::{gather_shaders, Discovery, DiscoveryError, ManifestTree};
use shadermake::manifest::{Manifest, Shader, ShaderKind};

fn shader(path: &str, kind: ShaderKind) -> Shader {
    Shader { path: String::from(path), kind }
}

#[test]
fn root_and_subdirectory_are_both_discovered() {
    let root = Manifest {
        subdirectories: vec![String::from("post")],
        shaders: vec![(String::from("blit"), shader("blit.wgsl", ShaderKind::Fragment))],
    };
    let post = Manifest {
        subdirectories: vec![],
        shaders: vec![(String::from("bloom"), shader("bloom.wgsl", ShaderKind::Fragment))],
    };
    let tree = ManifestTree {
        entries: vec![(String::from(""), root), (String::from("post"), post)],
    };
    let worklist = gather_shaders(&tree).unwrap().0;
    assert_eq!(worklist.len(), 2);
    assert_eq!(worklist[0].name, "blit");
    assert_eq!(worklist[0].path, "blit.wgsl");
    assert!(matches!(worklist[0].kind, ShaderKind::Fragment));
    assert_eq!(worklist[1].name, "bloom");
    assert_eq!(worklist[1].path, "post/bloom.wgsl");
}

#[test]
fn every_declaration_of_every_manifest_is_gathered() {
    let root = Manifest {
        subdirectories: vec![String::from("a"), String::from("b")],
        shaders: vec![
            (String::from("one"), shader("one.wgsl", ShaderKind::Vertex)),
            (String::from("two"), shader("two.glsl", ShaderKind::Compute)),
        ],
    };
    let a = Manifest {
        subdirectories: vec![],
        shaders: vec![(String::from("three"), shader("three.wgsl", ShaderKind::Fragment))],
    };
    let b = Manifest {
        subdirectories: vec![],
        shaders: vec![],
    };
    let tree = ManifestTree {
        entries: vec![
            (String::from(""), root),
            (String::from("a"), a),
            (String::from("b"), b),
        ],
    };
    let worklist = gather_shaders(&tree).unwrap().0;
    assert_eq!(worklist.len(), 3);
    let paths: Vec<&str> = worklist.iter().map(|s| s.path.as_str()).collect();
    assert!(paths.contains(&"one.wgsl"));
    assert!(paths.contains(&"two.glsl"));
    assert!(paths.contains(&"a/three.wgsl"));
}

#[test]
fn missing_subdirectory_manifest_aborts_discovery() {
    let root = Manifest {
        subdirectories: vec![String::from("missing")],
        shaders: vec![(String::from("blit"), shader("blit.wgsl", ShaderKind::Fragment))],
    };
    let tree = ManifestTree {
        entries: vec![(String::from(""), root)],
    };
    match gather_shaders(&tree) {
        Err(DiscoveryError::MissingManifest { path }) => {
            assert_eq!(path, "missing/shadermake.toml");
        }
        _ => panic!("expected a missing-manifest failure"),
    }
}

#[test]
fn missing_root_manifest_aborts_discovery() {
    let tree = ManifestTree { entries: vec![] };
    match gather_shaders(&tree) {
        Err(DiscoveryError::MissingManifest { path }) => {
            assert_eq!(path, "shadermake.toml");
        }
        _ => panic!("expected a missing-manifest failure"),
    }
}

#[test]
fn revisiting_a_directory_is_reported_as_a_cycle() {
    let root = Manifest {
        subdirectories: vec![String::from("a"), String::from("a")],
        shaders: vec![],
    };
    let a = Manifest {
        subdirectories: vec![],
        shaders: vec![],
    };
    let tree = ManifestTree {
        entries: vec![(String::from(""), root), (String::from("a"), a)],
    };
    assert!(matches!(gather_shaders(&tree), Err(DiscoveryError::Cycle)));
}

#[test]
fn duplicate_declarations_are_kept() {
    let root = Manifest {
        subdirectories: vec![],
        shaders: vec![
            (String::from("first"), shader("same.wgsl", ShaderKind::Vertex)),
            (String::from("second"), shader("same.wgsl", ShaderKind::Vertex)),
        ],
    };
    let tree = ManifestTree {
        entries: vec![(String::from(""), root)],
    };
    let worklist = gather_shaders(&tree).unwrap().0;
    assert_eq!(worklist.len(), 2);
    assert_eq!(worklist[0].path, "same.wgsl");
    assert_eq!(worklist[1].path, "same.wgsl");
}

#[test]
fn discovery_steps_join_directory_prefixes() {
    let mut disc = Discovery::new();
    let dir = disc.next_directory().unwrap();
    assert_eq!(dir, "");
    let root = Manifest {
        subdirectories: vec![String::from("fx")],
        shaders: vec![(String::from("blit"), shader("blit.wgsl", ShaderKind::Fragment))],
    };
    disc.add_manifest(&dir, &root);
    let next = disc.next_directory().unwrap();
    assert_eq!(next, "fx");
    let fx = Manifest {
        subdirectories: vec![],
        shaders: vec![(String::from("blur"), shader("inner/blur.wgsl", ShaderKind::Compute))],
    };
    disc.add_manifest(&next, &fx);
    assert!(disc.next_directory().is_none());
    let worklist = disc.into_shaders().0;
    assert_eq!(worklist.len(), 2);
    assert_eq!(worklist[0].path, "blit.wgsl");
    assert_eq!(worklist[1].path, "fx/inner/blur.wgsl");
}
