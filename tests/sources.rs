use hedera_proto::inventory::{list_schemas, name_less};
use hedera_proto::lexer::{lex, TokKind};
use hedera_proto::model::{BuildError, DeclKind};
use hedera_proto::schema::parse_schema;

fn names(v: &[&str]) -> Vec<String> {
    v.iter().map(|s| s.to_string()).collect()
}

#[test]
fn listing_is_sorted_and_deduplicated() {
    let r = list_schemas(&names(&["timestamp.proto", "basic_types.proto", "crypto_service.proto", "basic_types.proto"]));
    assert_eq!(r, names(&["basic_types.proto", "crypto_service.proto", "timestamp.proto"]));
}

#[test]
fn listing_ignores_the_order_of_entries() {
    let a = list_schemas(&names(&["c.proto", "a.proto", "b.proto"]));
    let b = list_schemas(&names(&["b.proto", "c.proto", "a.proto"]));
    assert_eq!(a, b);
    assert!(list_schemas(&Vec::new()).is_empty());
}

#[test]
fn name_order_is_lexicographic() {
    assert!(name_less("a", "b"));
    assert!(name_less("ab", "abc"));
    assert!(!name_less("abc", "ab"));
    assert!(!name_less("same", "same"));
    assert!(name_less("", "x"));
    assert!(name_less("Z", "a"));
}

#[test]
fn lexer_drops_comments_and_keeps_strings() {
    let src = b"// head\nmessage A { /* x */ string s = 1 [default = \"a}\"]; }".to_vec();
    let toks = lex(&src).ok().unwrap();
    let kinds: Vec<TokKind> = toks.iter().map(|t| t.kind).collect();
    assert_eq!(kinds[0], TokKind::Word);
    assert_eq!(&src[toks[0].start..toks[0].end], b"message");
    assert!(kinds.contains(&TokKind::Str));
    assert_eq!(toks.len(), 14);
}

#[test]
fn lexer_reports_open_comment() {
    let src = b"message A { } /* never closed".to_vec();
    assert_eq!(lex(&src).err(), Some(14));
}

fn parse(src: &str) -> Result<hedera_proto::model::SchemaFile, BuildError> {
    parse_schema(&"f.proto".to_string(), &src.as_bytes().to_vec())
}

#[test]
fn declarations_are_qualified() {
    let f = parse(
        "syntax = \"proto3\";\npackage proto;\nimport \"timestamp.proto\";\n\
         message Key {\n  oneof key {\n    bytes ed25519 = 2;\n  }\n  enum Kind { A = 0; }\n}\n\
         message AccountID { int64 shardNum = 1; }\n\
         service CryptoService {\n  rpc getAccountInfo (Query) returns (Response) { option deprecated = true; }\n}\n",
    )
    .ok()
    .unwrap();
    let got: Vec<(String, DeclKind)> = f.types.iter().map(|t| (t.name.clone(), t.kind)).collect();
    assert_eq!(
        got,
        vec![
            ("proto.Key".to_string(), DeclKind::Message),
            ("proto.Key.key".to_string(), DeclKind::Oneof),
            ("proto.Key.Kind".to_string(), DeclKind::Enum),
            ("proto.AccountID".to_string(), DeclKind::Message),
        ]
    );
    assert_eq!(f.services, vec!["CryptoService".to_string()]);
    assert_eq!(f.path, "f.proto");
}

#[test]
fn declarations_without_package() {
    let f = parse("message M { message N {} }").ok().unwrap();
    assert_eq!(f.types.len(), 2);
    assert_eq!(f.types[0].name, "M");
    assert_eq!(f.types[1].name, "M.N");
}

#[test]
fn field_named_like_a_keyword_is_no_declaration() {
    let f = parse("package p; message M { string message = 1; Other enum = 2; }").ok().unwrap();
    assert_eq!(f.types.len(), 1);
    assert_eq!(f.types[0].name, "p.M");
}

#[test]
fn stray_closing_brace_is_a_parse_error() {
    match parse("message M { } }") {
        Err(BuildError::Parse { file, offset }) => {
            assert_eq!(file, "f.proto");
            assert_eq!(offset, 14);
        }
        _ => panic!("expected a parse error"),
    }
}

#[test]
fn open_scope_is_a_parse_error() {
    let src = "message M { ";
    match parse(src) {
        Err(BuildError::Parse { offset, .. }) => assert_eq!(offset, src.len()),
        _ => panic!("expected a parse error"),
    }
}

#[test]
fn malformed_package_is_a_parse_error() {
    match parse("package ;") {
        Err(BuildError::Parse { offset, .. }) => assert_eq!(offset, 8),
        _ => panic!("expected a parse error"),
    }
    assert!(matches!(parse("package a.b"), Err(BuildError::Parse { .. })));
}

#[test]
fn unterminated_string_is_a_parse_error() {
    match parse("option x = \"abc\nmessage M {}") {
        Err(BuildError::Parse { offset, .. }) => assert_eq!(offset, 11),
        _ => panic!("expected a parse error"),
    }
}

#[test]
fn empty_source_declares_nothing() {
    let f = parse("").ok().unwrap();
    assert!(f.types.is_empty());
    assert!(f.services.is_empty());
}
