use hedera_proto::codegen::{attribute_grants, extern_paths, Capability};
use hedera_proto::compiler::{compile, within};
use hedera_proto::model::{
    Artifact, AttributeRule, BuildError, Capabilities, DeclKind, ExternBinding, NamespaceConfig,
    NamespaceId, Origin, SchemaFile, TypeDecl,
};
use hedera_proto::pipeline::{run_pipeline, CompilationUnit};

fn decl(name: &str) -> TypeDecl {
    TypeDecl { name: name.to_string(), kind: DeclKind::Message }
}

fn file(path: &str, names: &[&str], services: &[&str]) -> SchemaFile {
    SchemaFile {
        path: path.to_string(),
        types: names.iter().map(|n| decl(n)).collect(),
        services: services.iter().map(|s| s.to_string()).collect(),
    }
}

fn map_key() -> Capabilities {
    Capabilities { map_key: true, serialization: false }
}

fn none() -> Capabilities {
    Capabilities { map_key: false, serialization: false }
}

fn rule(name: &str, capabilities: Capabilities) -> AttributeRule {
    AttributeRule { target_type: name.to_string(), capabilities }
}

fn binding(local: &str, upstream: &str, path: &str) -> ExternBinding {
    ExternBinding {
        local_name: local.to_string(),
        upstream_name: upstream.to_string(),
        rust_path: path.to_string(),
    }
}

fn config(
    id: NamespaceId,
    dir: &str,
    upstream: Option<NamespaceId>,
    rules: Vec<AttributeRule>,
    bindings: Vec<ExternBinding>,
) -> NamespaceConfig {
    NamespaceConfig {
        id,
        out_dir: dir.to_string(),
        upstream,
        rules,
        bindings,
        emit_stubs: true,
        server_stubs: true,
    }
}

fn primary_abc() -> Vec<SchemaFile> {
    vec![
        file("a.proto", &["proto.A"], &[]),
        file("b.proto", &["proto.B"], &["CryptoService"]),
        file("c.proto", &["proto.C"], &[]),
    ]
}

fn primary_artifact(serialization: bool) -> Artifact {
    let cfg = config(NamespaceId::Primary, "out/services", None, vec![rule("proto.A", map_key())], vec![]);
    compile(&cfg, &primary_abc(), &vec![], serialization).ok().unwrap()
}

#[test]
fn end_to_end_primary_then_mirror() {
    let units = vec![
        CompilationUnit {
            config: config(NamespaceId::Primary, "out/services", None, vec![rule("proto.A", map_key())], vec![]),
            files: primary_abc(),
        },
        CompilationUnit {
            config: config(
                NamespaceId::Mirror,
                "out/mirror",
                Some(NamespaceId::Primary),
                vec![],
                vec![binding("proto.D", "proto.B", "crate::services::B")],
            ),
            files: vec![file("mirror/d.proto", &["proto.D"], &[])],
        },
    ];
    let arts = run_pipeline(&units, false).ok().unwrap();
    assert_eq!(arts.len(), 2);
    let p = &arts[0];
    assert_eq!(p.types.len(), 3);
    assert_eq!(p.types[0].name, "proto.A");
    assert_eq!(p.types[0].capabilities, map_key());
    assert!(matches!(p.types[0].origin, Origin::Local));
    assert_eq!(p.types[1].name, "proto.B");
    assert_eq!(p.types[1].capabilities, none());
    assert_eq!(p.types[2].name, "proto.C");
    assert_eq!(p.types[2].capabilities, none());
    let m = &arts[1];
    assert_eq!(m.types.len(), 1);
    assert_eq!(m.types[0].name, "proto.D");
    match &m.types[0].origin {
        Origin::Extern { namespace, upstream_name, rust_path } => {
            assert_eq!(*namespace, NamespaceId::Primary);
            assert_eq!(upstream_name, "proto.B");
            assert_eq!(rust_path, "crate::services::B");
        }
        Origin::Local => panic!("bound type was defined again"),
    }
    assert_eq!(m.types[0].capabilities, p.types[1].capabilities);
    assert_eq!(m.types[0].kind, p.types[1].kind);
}

#[test]
fn stubs_follow_services() {
    let p = primary_artifact(false);
    assert_eq!(p.stubs.len(), 1);
    assert_eq!(p.stubs[0].name, "CryptoService");
    assert!(p.stubs[0].client);
    assert!(p.stubs[0].server);
    let mut cfg = config(NamespaceId::Streams, "out/streams", None, vec![], vec![]);
    cfg.emit_stubs = false;
    let a = compile(&cfg, &primary_abc(), &vec![], false).ok().unwrap();
    assert!(a.stubs.is_empty());
}

#[test]
fn unmatched_rule_is_an_error() {
    let cfg = config(
        NamespaceId::Primary,
        "out/services",
        None,
        vec![rule("proto.A", map_key()), rule("proto.Missing", map_key())],
        vec![],
    );
    match compile(&cfg, &primary_abc(), &vec![], true) {
        Err(BuildError::UnmatchedRule { namespace, name }) => {
            assert_eq!(namespace, NamespaceId::Primary);
            assert_eq!(name, "proto.Missing");
        }
        _ => panic!("expected an unmatched rule"),
    }
}

#[test]
fn binding_before_upstream_is_an_error() {
    let cfg = config(
        NamespaceId::Mirror,
        "out/mirror",
        Some(NamespaceId::Primary),
        vec![],
        vec![binding("proto.D", "proto.B", "crate::services::B")],
    );
    let files = vec![file("mirror/d.proto", &["proto.D"], &[])];
    match compile(&cfg, &files, &vec![], false) {
        Err(BuildError::UnresolvedExtern { namespace, name }) => {
            assert_eq!(namespace, NamespaceId::Mirror);
            assert_eq!(name, "proto.B");
        }
        _ => panic!("expected an unresolved binding"),
    }
}

#[test]
fn binding_to_absent_upstream_type_is_an_error() {
    let cfg = config(
        NamespaceId::Mirror,
        "out/mirror",
        Some(NamespaceId::Primary),
        vec![],
        vec![binding("proto.D", "proto.Nope", "crate::services::Nope")],
    );
    let files = vec![file("mirror/d.proto", &["proto.D"], &[])];
    let r = compile(&cfg, &files, &vec![primary_artifact(false)], false);
    assert!(matches!(r, Err(BuildError::UnresolvedExtern { .. })));
}

#[test]
fn duplicate_type_is_an_error() {
    let cfg = config(NamespaceId::Primary, "out/services", None, vec![], vec![]);
    let files = vec![file("x.proto", &["proto.X"], &[]), file("y.proto", &["proto.Y", "proto.X"], &[])];
    match compile(&cfg, &files, &vec![], false) {
        Err(BuildError::DuplicateType { name, file, .. }) => {
            assert_eq!(name, "proto.X");
            assert_eq!(file, "y.proto");
        }
        _ => panic!("expected a duplicate"),
    }
}

#[test]
fn redefining_an_upstream_type_is_an_error() {
    let cfg = config(NamespaceId::Mirror, "out/mirror", Some(NamespaceId::Primary), vec![], vec![]);
    let files = vec![file("mirror/b.proto", &["proto.B"], &[])];
    let r = compile(&cfg, &files, &vec![primary_artifact(false)], false);
    assert!(matches!(r, Err(BuildError::DuplicateType { .. })));
}

#[test]
fn shared_output_directory_is_an_error() {
    let cfg = config(NamespaceId::Mirror, "out/services", Some(NamespaceId::Primary), vec![], vec![]);
    let files = vec![file("mirror/d.proto", &["proto.D"], &[])];
    match compile(&cfg, &files, &vec![primary_artifact(false)], false) {
        Err(BuildError::Output { namespace, dir }) => {
            assert_eq!(namespace, NamespaceId::Mirror);
            assert_eq!(dir, "out/services");
        }
        _ => panic!("expected an output clash"),
    }
}

#[test]
fn rules_are_checked_before_duplicates() {
    let cfg = config(NamespaceId::Primary, "out/services", None, vec![rule("proto.Q", map_key())], vec![]);
    let files = vec![file("x.proto", &["proto.X", "proto.X"], &[])];
    assert!(matches!(compile(&cfg, &files, &vec![], false), Err(BuildError::UnmatchedRule { .. })));
}

#[test]
fn failure_aborts_the_pipeline() {
    let units = vec![
        CompilationUnit {
            config: config(NamespaceId::Primary, "out/services", None, vec![rule("proto.Z", map_key())], vec![]),
            files: primary_abc(),
        },
        CompilationUnit {
            config: config(NamespaceId::Mirror, "out/mirror", Some(NamespaceId::Primary), vec![], vec![]),
            files: vec![file("mirror/d.proto", &["proto.D", "proto.D"], &[])],
        },
    ];
    match run_pipeline(&units, false) {
        Err(BuildError::UnmatchedRule { namespace, .. }) => assert_eq!(namespace, NamespaceId::Primary),
        _ => panic!("expected the primary failure"),
    }
}

#[test]
fn feature_gate_only_touches_serialization() {
    let rules = vec![
        rule("proto.A", map_key()),
        rule("proto.B", Capabilities { map_key: false, serialization: true }),
    ];
    let cfg = config(NamespaceId::Primary, "out/services", None, rules, vec![]);
    let on = compile(&cfg, &primary_abc(), &vec![], true).ok().unwrap();
    let off = compile(&cfg, &primary_abc(), &vec![], false).ok().unwrap();
    assert_eq!(on.types.len(), off.types.len());
    assert_eq!(on.types[0].capabilities, off.types[0].capabilities);
    assert_eq!(on.types[1].capabilities, Capabilities { map_key: false, serialization: true });
    assert_eq!(off.types[1].capabilities, none());
    assert_eq!(on.types[2].capabilities, off.types[2].capabilities);
    for i in 0..3 {
        assert_eq!(on.types[i].name, off.types[i].name);
        assert_eq!(on.types[i].kind, off.types[i].kind);
    }
}

#[test]
fn rules_for_one_name_are_joined() {
    let rules = vec![
        rule("proto.A", map_key()),
        rule("proto.A", Capabilities { map_key: false, serialization: true }),
    ];
    let cfg = config(NamespaceId::Primary, "out/services", None, rules, vec![]);
    let a = compile(&cfg, &primary_abc(), &vec![], true).ok().unwrap();
    assert_eq!(a.types[0].capabilities, Capabilities { map_key: true, serialization: true });
}

#[test]
fn isolation_of_declarations() {
    let cfg = config(NamespaceId::Primary, "out/services", None, vec![rule("proto.A", map_key())], vec![]);
    let mut changed = primary_abc();
    changed[2] = SchemaFile {
        path: "c.proto".to_string(),
        types: vec![TypeDecl { name: "proto.C2".to_string(), kind: DeclKind::Enum }],
        services: vec![],
    };
    let before = compile(&cfg, &primary_abc(), &vec![], false).ok().unwrap();
    let after = compile(&cfg, &changed, &vec![], false).ok().unwrap();
    for i in 0..2 {
        assert_eq!(before.types[i].name, after.types[i].name);
        assert_eq!(before.types[i].capabilities, after.types[i].capabilities);
    }
    assert_eq!(after.types[2].name, "proto.C2");
    assert_eq!(after.types[2].kind, DeclKind::Enum);
}

#[test]
fn compiling_twice_gives_the_same_artifact() {
    let a = primary_artifact(true);
    let b = primary_artifact(true);
    assert_eq!(a.out_dir, b.out_dir);
    assert_eq!(a.types.len(), b.types.len());
    for i in 0..a.types.len() {
        assert_eq!(a.types[i].name, b.types[i].name);
        assert_eq!(a.types[i].capabilities, b.types[i].capabilities);
    }
}

#[test]
fn nested_output_directory_is_an_error() {
    let files = vec![file("mirror/d.proto", &["proto.D"], &[])];
    for dir in ["out/services/mirror", "out/services/", "out", "out/"] {
        let cfg = config(NamespaceId::Mirror, dir, Some(NamespaceId::Primary), vec![], vec![]);
        let r = compile(&cfg, &files, &vec![primary_artifact(false)], false);
        assert!(matches!(r, Err(BuildError::Output { .. })), "{dir}");
    }
    let cfg = config(NamespaceId::Mirror, "out/services2", Some(NamespaceId::Primary), vec![], vec![]);
    assert!(compile(&cfg, &files, &vec![primary_artifact(false)], false).is_ok());
}

#[test]
fn directory_containment() {
    assert!(within("a/b", "a"));
    assert!(within("a/b", "a/"));
    assert!(within("a", "a"));
    assert!(within("a/", "a"));
    assert!(!within("ab", "a"));
    assert!(!within("a", "a/b"));
}

#[test]
fn codegen_grants_and_extern_paths() {
    let rules = vec![
        rule("proto.A", Capabilities { map_key: true, serialization: true }),
        rule("proto.C", Capabilities { map_key: false, serialization: true }),
    ];
    let cfg = config(NamespaceId::Primary, "out/services", None, rules, vec![]);
    let a = compile(&cfg, &primary_abc(), &vec![], true).ok().unwrap();
    let g: Vec<(String, Capability)> = attribute_grants(&a).into_iter().map(|g| (g.target_type, g.capability)).collect();
    assert_eq!(
        g,
        vec![
            ("proto.A".to_string(), Capability::MapKey),
            ("proto.A".to_string(), Capability::Serialization),
            ("proto.C".to_string(), Capability::Serialization),
        ]
    );
    let p = extern_paths(&vec![binding("proto.Timestamp", "proto.Timestamp", "crate::services::Timestamp")]);
    assert_eq!(p.len(), 1);
    assert_eq!(p[0].proto_path, ".proto.Timestamp");
    assert_eq!(p[0].rust_path, "crate::services::Timestamp");
}
