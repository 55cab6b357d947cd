use hedera_proto::convert::{Duration, Timestamp, TimestampSeconds, UtcDateTime};
use hedera_proto::model::{BuildError, Capabilities, DeclKind, NamespaceId, Origin, SchemaFile, TypeDecl};
use hedera_proto::pipeline::build;
use hedera_proto::tables::{
    attribute_rules, mirror_bindings, mirror_config, primary_config, streams_bindings, streams_config,
};

#[test]
fn attribute_table_contents() {
    let r = attribute_rules();
    assert_eq!(r.len(), 11);
    assert_eq!(r[0].target_type, "proto.Key");
    assert_eq!(r[1].target_type, "proto.Key.key");
    assert_eq!(r[9].target_type, "proto.ContractID.contract");
    for rule in &r[..10] {
        assert_eq!(rule.capabilities, Capabilities { map_key: true, serialization: false });
    }
    assert_eq!(r[10].target_type, "proto.ResponseCodeEnum");
    assert_eq!(r[10].capabilities, Capabilities { map_key: false, serialization: true });
}

#[test]
fn binding_tables_contents() {
    let m = mirror_bindings();
    assert_eq!(m.len(), 3);
    assert_eq!(m[1].local_name, "proto.TopicID");
    assert_eq!(m[1].rust_path, "crate::services::TopicId");
    let s = streams_bindings();
    assert_eq!(s.len(), 46);
    assert_eq!(s[0].local_name, "proto.Fraction");
    assert_eq!(s[45].upstream_name, "proto.TransactionRecord");
    assert!(s.iter().all(|b| b.local_name == b.upstream_name));
}

#[test]
fn namespace_configs() {
    let root = "target/out".to_string();
    let p = primary_config(&root);
    let m = mirror_config(&root);
    let s = streams_config(&root);
    assert_eq!(p.out_dir, "target/out/services");
    assert_eq!(m.out_dir, "target/out/mirror");
    assert_eq!(s.out_dir, "target/out/streams");
    assert_eq!(p.upstream, None);
    assert_eq!(m.upstream, Some(NamespaceId::Primary));
    assert!(p.emit_stubs && m.emit_stubs && !s.emit_stubs);
}

fn file(path: &str, names: &[&str]) -> SchemaFile {
    SchemaFile {
        path: path.to_string(),
        types: names.iter().map(|n| TypeDecl { name: n.to_string(), kind: DeclKind::Message }).collect(),
        services: vec![],
    }
}

fn primary_with_all_names() -> Vec<SchemaFile> {
    let mut names: Vec<String> = attribute_rules().iter().map(|r| r.target_type.clone()).collect();
    for b in streams_bindings().iter().chain(mirror_bindings().iter()) {
        if !names.contains(&b.upstream_name) {
            names.push(b.upstream_name.clone());
        }
    }
    let refs: Vec<&str> = names.iter().map(|s| s.as_str()).collect();
    vec![file("all.proto", &refs)]
}

#[test]
fn standard_build_succeeds() {
    let arts = build(
        &"out".to_string(),
        primary_with_all_names(),
        vec![file("mirror/consensus_service.proto", &["com.hedera.mirror.api.proto.ConsensusTopicQuery", "proto.Timestamp"])],
        vec![file("streams/record_stream_file.proto", &["proto.RecordStreamFile"])],
        true,
    )
    .ok()
    .unwrap();
    assert_eq!(arts.len(), 3);
    assert_eq!(arts[0].namespace, NamespaceId::Primary);
    assert_eq!(arts[1].namespace, NamespaceId::Mirror);
    assert_eq!(arts[2].namespace, NamespaceId::Streams);
    let key = &arts[0].types[0];
    assert_eq!(key.name, "proto.Key");
    assert!(key.capabilities.map_key);
    let code = arts[0].types.iter().find(|t| t.name == "proto.ResponseCodeEnum").unwrap();
    assert!(code.capabilities.serialization);
    assert!(matches!(arts[1].types[0].origin, Origin::Local));
    assert!(matches!(arts[1].types[1].origin, Origin::Extern { .. }));
    assert_eq!(arts[1].types[1].capabilities, key.capabilities);
}

#[test]
fn standard_build_without_serialization() {
    let arts = build(&"out".to_string(), primary_with_all_names(), vec![], vec![], false).ok().unwrap();
    let code = arts[0].types.iter().find(|t| t.name == "proto.ResponseCodeEnum").unwrap();
    assert!(!code.capabilities.serialization);
}

#[test]
fn standard_build_fails_on_missing_allow_listed_type() {
    match build(&"out".to_string(), vec![file("x.proto", &["proto.Key"])], vec![], vec![], false) {
        Err(BuildError::UnmatchedRule { namespace, name }) => {
            assert_eq!(namespace, NamespaceId::Primary);
            assert_eq!(name, "proto.Key.key");
        }
        _ => panic!("expected an unmatched rule"),
    }
}

#[test]
fn timestamp_normalizes_nanos() {
    assert_eq!(Timestamp { seconds: 10, nanos: -1 }.normalized(), Some((9, 999_999_999)));
    assert_eq!(Timestamp { seconds: 10, nanos: 2_000_000_001 }.normalized(), Some((12, 1)));
    assert_eq!(Timestamp { seconds: 5, nanos: 7 }.normalized(), Some((5, 7)));
    assert_eq!(Timestamp { seconds: i64::MIN, nanos: -1 }.normalized(), None);
    assert_eq!(Timestamp { seconds: i64::MAX, nanos: 1_000_000_000 }.normalized(), None);
}

#[test]
fn timestamp_to_utc() {
    let d = Timestamp { seconds: 1_600_000_000, nanos: 5 }.to_utc().unwrap();
    assert_eq!(
        d,
        UtcDateTime { year: 2020, month: 9, day: 13, hour: 12, minute: 26, second: 40, nanosecond: 5 }
    );
    let e = Timestamp { seconds: 0, nanos: -1 }.to_utc().unwrap();
    assert_eq!(
        e,
        UtcDateTime { year: 1969, month: 12, day: 31, hour: 23, minute: 59, second: 59, nanosecond: 999_999_999 }
    );
    assert!(Timestamp { seconds: i64::MAX, nanos: 0 }.to_utc().is_none());
}

#[test]
fn timestamp_seconds_to_utc() {
    let d = TimestampSeconds { seconds: 86_400 }.to_utc().unwrap();
    assert_eq!(d, UtcDateTime { year: 1970, month: 1, day: 2, hour: 0, minute: 0, second: 0, nanosecond: 0 });
    assert!(TimestampSeconds { seconds: i64::MIN }.to_utc().is_none());
}

#[test]
fn duration_to_time_delta() {
    let d = Duration { seconds: 90 }.to_time_delta().unwrap();
    assert_eq!(d.seconds, 90);
    assert_eq!(d.nanos, 0);
    assert_eq!(d.delta.num_seconds(), 90);
    assert_eq!(d.delta.num_minutes(), 1);
    assert_eq!(d.delta.num_milliseconds(), 90_000);
    let n = Duration { seconds: -5 }.to_time_delta().unwrap();
    assert_eq!((n.seconds, n.nanos), (-5, 0));
    assert!(Duration { seconds: 9_223_372_036_854_775 }.to_time_delta().is_some());
    assert!(Duration { seconds: 9_223_372_036_854_776 }.to_time_delta().is_none());
    assert!(Duration { seconds: -9_223_372_036_854_775 }.to_time_delta().is_some());
    assert!(Duration { seconds: -9_223_372_036_854_776 }.to_time_delta().is_none());
}

#[test]
fn date_range_bounds() {
    let first = TimestampSeconds { seconds: -8_334_601_228_800 }.to_utc().unwrap();
    assert_eq!(
        first,
        UtcDateTime { year: -262143, month: 1, day: 1, hour: 0, minute: 0, second: 0, nanosecond: 0 }
    );
    assert!(TimestampSeconds { seconds: -8_334_601_228_801 }.to_utc().is_none());
    let last = TimestampSeconds { seconds: 8_210_266_876_799 }.to_utc().unwrap();
    assert_eq!(
        last,
        UtcDateTime { year: 262142, month: 12, day: 31, hour: 23, minute: 59, second: 59, nanosecond: 0 }
    );
    assert!(TimestampSeconds { seconds: 8_210_266_876_800 }.to_utc().is_none());
    assert!(Timestamp { seconds: 8_210_266_876_799, nanos: 999_999_999 }.to_utc().is_some());
    assert!(Timestamp { seconds: 8_210_266_876_799, nanos: 1_000_000_000 }.to_utc().is_none());
}

#[test]
fn calendar_dates() {
    let leap = TimestampSeconds { seconds: 951_782_400 }.to_utc().unwrap();
    assert_eq!((leap.year, leap.month, leap.day), (2000, 2, 29));
    let first_ce = TimestampSeconds { seconds: -62_135_596_800 }.to_utc().unwrap();
    assert_eq!((first_ce.year, first_ce.month, first_ce.day), (1, 1, 1));
    let ts = Timestamp { seconds: 1_600_000_000, nanos: 0 }.to_utc().unwrap();
    assert_eq!(ts, TimestampSeconds { seconds: 1_600_000_000 }.to_utc().unwrap());
}
