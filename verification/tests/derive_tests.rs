use pliron_python::class_plan::{gen_py_class, gen_py_op_class, Data, Field, FieldAccess, Fields};
use pliron_python::derive_plan::{
    def_attribute, def_type, derive_type_get, parse_lit_str, Construction, DeriveError, DeriveInput,
};
use pliron_python::rust_type::{GenericArgument, PathArguments, PathSegment, TypeExpr, TypePath};
use pliron_python::tokens::Tok;

fn chars(s: &str) -> Vec<char> {
    s.chars().collect()
}

fn text(v: &[char]) -> String {
    v.iter().collect()
}

fn ty(name: &str) -> TypeExpr {
    TypeExpr::Path(TypePath {
        qself: None,
        leading_colon: false,
        segments: vec![PathSegment { ident: chars(name), args: PathArguments::Plain }],
    })
}

fn generic(name: &str, args: Vec<TypeExpr>) -> TypeExpr {
    TypeExpr::Path(TypePath {
        qself: None,
        leading_colon: false,
        segments: vec![PathSegment {
            ident: chars(name),
            args: PathArguments::AngleBracketed(args.into_iter().map(GenericArgument::Type).collect()),
        }],
    })
}

fn named(fields: Vec<(&str, TypeExpr)>) -> Data {
    Data::Struct(Fields::Named(
        fields
            .into_iter()
            .map(|(n, t)| Field { ident: Some(chars(n)), ty: t })
            .collect(),
    ))
}

fn unnamed(fields: Vec<TypeExpr>) -> Data {
    Data::Struct(Fields::Unnamed(fields.into_iter().map(|t| Field { ident: None, ty: t }).collect()))
}

fn input(ident: &str, attrs: Vec<Option<&str>>, data: Data) -> DeriveInput {
    DeriveInput {
        ident: chars(ident),
        attr_paths: attrs.into_iter().map(|a| a.map(chars)).collect(),
        has_generics: false,
        data,
    }
}

fn name_arg(s: &str) -> Vec<Tok> {
    vec![Tok::Literal(chars(&format!("{:?}", s)))]
}

fn param_names(p: &[Option<Vec<char>>]) -> Vec<String> {
    p.iter().map(|n| n.as_ref().map(|v| text(v)).unwrap_or_default()).collect()
}

#[test]
fn derive_attr_simple() {
    // #[def_attribute("testing.unit")] #[derive(PartialEq, Eq, Debug, Clone)] pub struct UnitAttr;
    let item = input("UnitAttr", vec![Some("derive")], Data::Struct(Fields::Unit));
    let plan = def_attribute(&name_arg("testing.unit"), &item).unwrap();
    assert_eq!(text(&plan.dialect), "testing");
    assert_eq!(text(&plan.entity), "unit");
    assert_eq!(plan.kept_attrs, vec![0]);
    let class = gen_py_class(&chars("UnitAttr"), &plan.dialect, &plan.entity, &item.data);
    assert_eq!(text(&class.py_class_name), "UnitAttr");
    assert_eq!(text(&class.py_struct), "PyUnitAttr");
    assert_eq!(text(&class.full_name), "testing.unit");
    assert!(class.accessors.is_empty());
}

#[test]
fn derive_type_simple() {
    // #[def_type("testing.simple_type")] #[derive(Hash, PartialEq, Eq, Debug)] pub struct SimpleType;
    let item = input("SimpleType", vec![Some("derive")], Data::Struct(Fields::Unit));
    let plan = def_type(&name_arg("testing.simple_type"), &item).unwrap();
    assert_eq!(text(&plan.dialect), "testing");
    assert_eq!(text(&plan.entity), "simple_type");
    assert!(plan.is_singleton);
    assert_eq!(plan.kept_attrs, vec![0]);
    let class = gen_py_class(&chars("SimpleType"), &plan.dialect, &plan.entity, &item.data);
    assert_eq!(text(&class.py_class_name), "SimpleType");
    assert_eq!(text(&class.py_struct), "PySimpleType");
    assert_eq!(text(&class.full_name), "testing.simple_type");
    assert!(class.accessors.is_empty());
}

#[test]
fn compound() {
    // pub struct CompoundType { x1: u32, x2: String }
    let item = input(
        "CompoundType",
        vec![Some("derive")],
        named(vec![("x1", ty("u32")), ("x2", ty("String"))]),
    );
    let plan = def_type(&name_arg("testing.compound_type"), &item).unwrap();
    assert_eq!(text(&plan.dialect), "testing");
    assert_eq!(text(&plan.entity), "compound_type");
    assert!(!plan.is_singleton);
    let class = gen_py_class(&chars("CompoundType"), &plan.dialect, &plan.entity, &item.data);
    assert_eq!(text(&class.py_struct), "PyCompoundType");
    assert_eq!(text(&class.full_name), "testing.compound_type");
    let methods: Vec<String> = class.accessors.iter().map(|a| text(&a.method)).collect();
    assert_eq!(methods, vec!["get_x1", "get_x2"]);
    assert!(class.accessors.iter().all(|a| a.trivial));
    match &class.accessors[1].access {
        FieldAccess::Named(n) => assert_eq!(text(n), "x2"),
        other => panic!("unexpected {:?}", other),
    }
}

#[test]
fn enum_type() {
    // pub enum EnumType { None, One(u32) }
    let item = input("EnumType", vec![Some("derive")], Data::Enum);
    let plan = def_type(&name_arg("testing.enum_type"), &item).unwrap();
    assert_eq!(text(&plan.dialect), "testing");
    assert_eq!(text(&plan.entity), "enum_type");
    assert!(!plan.is_singleton);
    let class = gen_py_class(&chars("EnumType"), &plan.dialect, &plan.entity, &item.data);
    assert_eq!(text(&class.py_struct), "PyEnumType");
    assert!(class.accessors.is_empty());
}

#[test]
fn derive_type_get_unit_struct() {
    let item = input("UnitType", vec![], Data::Struct(Fields::Unit));
    let plan = derive_type_get(&[], &item).unwrap();
    assert!(plan.params.is_empty());
    assert_eq!(plan.construction, Construction::Empty);
}

#[test]
fn derive_type_get_named_fields() {
    let item = input(
        "VectorType",
        vec![],
        named(vec![
            ("elem_ty", ty("TypeHandle")),
            ("num_elems", ty("u32")),
            ("kind", ty("VectorTypeKind")),
        ]),
    );
    let plan = derive_type_get(&[], &item).unwrap();
    assert_eq!(param_names(&plan.params), vec!["elem_ty", "num_elems", "kind"]);
    assert_eq!(plan.construction, Construction::Braced);
}

#[test]
fn derive_type_get_unnamed_fields() {
    let item = input("TupleType", vec![], unnamed(vec![ty("u32"), ty("String"), ty("bool")]));
    let plan = derive_type_get(&[], &item).unwrap();
    assert_eq!(param_names(&plan.params), vec!["field_0", "field_1", "field_2"]);
    assert_eq!(plan.construction, Construction::Tuple);
}

#[test]
fn derive_errors() {
    let union = input("U", vec![], Data::Union);
    assert_eq!(def_type(&name_arg("a.b"), &union).unwrap_err(), DeriveError::NotStructOrEnum);
    assert_eq!(def_attribute(&name_arg("a.b"), &union).unwrap_err(), DeriveError::NotStructOrEnum);
    assert_eq!(derive_type_get(&[], &union).unwrap_err(), DeriveError::NotStruct);

    let unit = input("S", vec![], Data::Struct(Fields::Unit));
    assert_eq!(def_type(&name_arg("nodialect"), &unit).unwrap_err(), DeriveError::NameNotQualified);
    assert_eq!(
        def_type(&[Tok::Literal(chars("42"))], &unit).unwrap_err(),
        DeriveError::ExpectedStringLiteral
    );
    assert_eq!(
        derive_type_get(&[Tok::Ident(chars("x"))], &unit).unwrap_err(),
        DeriveError::UnexpectedArgs
    );

    let mut generic_item = input("G", vec![], Data::Struct(Fields::Unit));
    generic_item.has_generics = true;
    assert_eq!(def_type(&name_arg("a.b"), &generic_item).unwrap_err(), DeriveError::Generic);
    assert_eq!(derive_type_get(&[], &generic_item).unwrap_err(), DeriveError::Generic);
}

#[test]
fn own_attribute_is_dropped() {
    let item = input(
        "T",
        vec![Some("def_type"), Some("derive"), None, Some("def_attribute")],
        Data::Enum,
    );
    assert_eq!(def_type(&name_arg("a.b"), &item).unwrap().kept_attrs, vec![1, 2, 3]);
    assert_eq!(def_attribute(&name_arg("a.b"), &item).unwrap().kept_attrs, vec![0, 1, 2]);
}

#[test]
fn name_literal_is_unescaped_and_split_at_first_dot() {
    // The wrapper resolves escapes: "a\x2eb.c" is the text a.b.c.
    let v = parse_lit_str(&[Tok::Literal(chars("\"a\\x2eb.c\""))]).unwrap();
    assert_eq!(text(&v), "a.b.c");
    let unit = input("S", vec![], Data::Struct(Fields::Unit));
    let plan = def_type(&[Tok::Literal(chars("\"a\\x2eb.c\""))], &unit).unwrap();
    assert_eq!(text(&plan.dialect), "a");
    assert_eq!(text(&plan.entity), "b.c");
}

#[test]
fn tuple_and_mapped_accessors() {
    let data = unnamed(vec![ty("u8"), generic("Vec", vec![ty("Identifier")]), generic("Option", vec![ty("bool")])]);
    let class = gen_py_class(&chars("T"), &chars("d"), &chars("t"), &data);
    let got: Vec<(String, bool, usize)> = class
        .accessors
        .iter()
        .map(|a| (text(&a.method), a.trivial, a.position))
        .collect();
    assert_eq!(
        got,
        vec![
            ("get_0".to_string(), true, 0),
            ("get_1".to_string(), false, 1),
            ("get_2".to_string(), true, 2)
        ]
    );
    match &class.accessors[2].access {
        FieldAccess::Index(i) => assert_eq!(*i, 2),
        other => panic!("unexpected {:?}", other),
    }
}

#[test]
fn op_class_names() {
    let class = gen_py_op_class(&chars("ModuleOp"), &chars("builtin"), &chars("module"));
    assert_eq!(text(&class.py_class_name), "ModuleOp");
    assert_eq!(text(&class.py_struct), "PyModuleOp");
    assert_eq!(text(&class.full_name), "builtin.module");
    assert!(class.accessors.is_empty());
}
