use pliron_python::envelope::{
    class_from_export, check_impl_kind, impl_from_export, named_parts, parse_envelope,
    EnvelopeErrorReason, ExportError,
};
use pliron_python::reflect::{envelope_tokens, export_macro_name, full_name, ReflectKind};
use pliron_python::tokens::{Delimiter, Tok};

fn chars(s: &str) -> Vec<char> {
    s.chars().collect()
}

fn text(v: &[char]) -> String {
    v.iter().collect()
}

fn ident(s: &str) -> Tok {
    Tok::Ident(chars(s))
}

fn lit(s: &str) -> Tok {
    Tok::Literal(chars(s))
}

fn full_envelope() -> Vec<Tok> {
    // pliron_reflect_v1, kind: op, ident: ModuleOp, name: "builtin.module",
    // item: { pub struct ModuleOp; }
    vec![
        ident("pliron_reflect_v1"),
        Tok::Punct(','),
        ident("kind"),
        Tok::Punct(':'),
        ident("op"),
        Tok::Punct(','),
        ident("ident"),
        Tok::Punct(':'),
        ident("ModuleOp"),
        Tok::Punct(','),
        ident("name"),
        Tok::Punct(':'),
        lit("\"builtin.module\""),
        Tok::Punct(','),
        ident("item"),
        Tok::Punct(':'),
        Tok::Group(Delimiter::Brace, 4),
    ]
}

#[test]
fn parses_full_envelope() {
    let env = parse_envelope(&full_envelope()).unwrap();
    assert_eq!(text(&env.kind), "op");
    assert_eq!(text(&env.ident), "ModuleOp");
    let (d, e) = named_parts(&env, &chars("op")).unwrap();
    assert_eq!((text(&d).as_str(), text(&e).as_str()), ("builtin", "module"));
}

#[test]
fn parses_impl_envelope_without_name() {
    // pliron_reflect_v1, kind: op_impl, ident: ModuleOp,
    // item: { impl ModuleOp { pub fn new(name: String) -> Self {} } }
    let toks = vec![
        ident("pliron_reflect_v1"),
        Tok::Punct(','),
        ident("kind"),
        Tok::Punct(':'),
        ident("op_impl"),
        Tok::Punct(','),
        ident("ident"),
        Tok::Punct(':'),
        ident("ModuleOp"),
        Tok::Punct(','),
        ident("item"),
        Tok::Punct(':'),
        Tok::Group(Delimiter::Brace, 3),
    ];
    let env = parse_envelope(&toks).unwrap();
    assert!(env.name.is_none());
    check_impl_kind(&env, &chars("op_impl")).unwrap();
    assert!(check_impl_kind(&env, &chars("ty_impl")).is_err());
}

#[test]
fn rejects_wrong_version() {
    // pliron_reflect_v2, kind: op, ident: X, item: {}
    let toks = vec![
        ident("pliron_reflect_v2"),
        Tok::Punct(','),
        ident("kind"),
        Tok::Punct(':'),
        ident("op"),
        Tok::Punct(','),
        ident("ident"),
        Tok::Punct(':'),
        ident("X"),
        Tok::Punct(','),
        ident("item"),
        Tok::Punct(':'),
        Tok::Group(Delimiter::Brace, 0),
    ];
    let res = parse_envelope(&toks);
    assert!(res.is_err());
    assert_eq!(res.unwrap_err().reason, EnvelopeErrorReason::UnsupportedVersion);
}

#[test]
fn envelope_positions_and_item_size() {
    let env = parse_envelope(&full_envelope()).unwrap();
    assert_eq!(env.kind_at, 4);
    assert_eq!(env.ident_at, 8);
    assert_eq!(env.name_at, Some(12));
    assert_eq!(env.item_at, 16);
    assert_eq!(env.item_len, 4);
    assert_eq!(env.name.map(|n| text(&n)), Some("builtin.module".to_string()));
}

#[test]
fn envelope_name_literal_is_unescaped() {
    // The name is read as a Rust string literal: escapes are resolved.
    let mut toks = full_envelope();
    toks[12] = lit("\"builtin\\x2emodule\"");
    let env = parse_envelope(&toks).unwrap();
    assert_eq!(env.name.map(|n| text(&n)), Some("builtin.module".to_string()));
}

#[test]
fn envelope_errors_point_at_tokens() {
    let empty: Vec<Tok> = vec![];
    let e = parse_envelope(&empty).unwrap_err();
    assert_eq!((e.reason, e.at), (EnvelopeErrorReason::NotAnEnvelope, 0));

    let mut toks = full_envelope();
    toks[1] = Tok::Punct(';');
    let e = parse_envelope(&toks).unwrap_err();
    assert_eq!((e.reason, e.at), (EnvelopeErrorReason::ExpectedComma, 1));

    let mut toks = full_envelope();
    toks[3] = Tok::Punct('=');
    let e = parse_envelope(&toks).unwrap_err();
    assert_eq!((e.reason, e.at), (EnvelopeErrorReason::ExpectedColon, 3));

    let mut toks = full_envelope();
    toks[12] = lit("42");
    let e = parse_envelope(&toks).unwrap_err();
    assert_eq!((e.reason, e.at), (EnvelopeErrorReason::ExpectedStringLiteral, 12));

    let mut toks = full_envelope();
    toks[16] = Tok::Group(Delimiter::Parenthesis, 0);
    let e = parse_envelope(&toks).unwrap_err();
    assert_eq!((e.reason, e.at), (EnvelopeErrorReason::ExpectedBraces, 16));

    // One trailing comma is accepted; anything after it is not.
    let mut toks = full_envelope();
    toks.push(Tok::Punct(','));
    assert!(parse_envelope(&toks).is_ok());
    toks.push(ident("extra"));
    let e = parse_envelope(&toks).unwrap_err();
    assert_eq!((e.reason, e.at), (EnvelopeErrorReason::UnexpectedToken, 18));

    let mut toks = full_envelope();
    toks[8] = ident("struct");
    let e = parse_envelope(&toks).unwrap_err();
    assert_eq!((e.reason, e.at), (EnvelopeErrorReason::ExpectedIdent, 8));
}

#[test]
fn class_export_checks_kind_and_name() {
    let ok = class_from_export(&full_envelope(), &chars("op")).unwrap();
    assert_eq!(text(&ok.ident), "ModuleOp");
    assert_eq!(text(&ok.dialect), "builtin");
    assert_eq!(text(&ok.entity), "module");
    assert!(!ok.item_is_empty);

    match class_from_export(&full_envelope(), &chars("ty")) {
        Err(ExportError::WrongKind { at }) => assert_eq!(at, 4),
        other => panic!("unexpected {:?}", other),
    }

    let mut toks = full_envelope();
    toks[12] = lit("\"module\"");
    match class_from_export(&toks, &chars("op")) {
        Err(ExportError::NotDialectQualified { at }) => assert_eq!(at, 12),
        other => panic!("unexpected {:?}", other),
    }

    // Without `name:` a class export is refused.
    let mut toks = full_envelope();
    toks.drain(10..14);
    match class_from_export(&toks, &chars("op")) {
        Err(ExportError::MissingName { at }) => assert_eq!(at, 8),
        other => panic!("unexpected {:?}", other),
    }
}

#[test]
fn impl_export_reads_item_position() {
    let mut toks = full_envelope();
    toks[4] = ident("op_impl");
    toks.drain(10..14);
    assert_eq!(impl_from_export(&toks, &chars("op_impl")).unwrap(), 12);
    assert!(impl_from_export(&toks, &chars("attr_impl")).is_err());
}

#[test]
fn export_roundtrips_through_the_parser() {
    let toks = envelope_tokens(
        ReflectKind::Op,
        &chars("ModuleOp"),
        Some(&chars("builtin.module")),
        4,
    );
    let env = parse_envelope(&toks).unwrap();
    assert_eq!(text(&env.kind), "op");
    assert_eq!(text(&env.ident), "ModuleOp");
    assert_eq!(env.name.map(|n| text(&n)), Some("builtin.module".to_string()));
    assert_eq!(env.item_len, 4);

    let toks = envelope_tokens(ReflectKind::TyImpl, &chars("IntegerType"), None, 2);
    let env = parse_envelope(&toks).unwrap();
    assert_eq!(text(&env.kind), "ty_impl");
    assert!(env.name.is_none());
    check_impl_kind(&env, &chars("ty_impl")).unwrap();
}

#[test]
fn export_macro_and_full_names() {
    assert_eq!(
        text(&export_macro_name(ReflectKind::OpImpl, &chars("ModuleOp"))),
        "__pliron_reflect_op_impl_ModuleOp"
    );
    assert_eq!(text(&full_name(&chars("builtin"), &chars("module"))), "builtin.module");
}
