use pliron_python::method_plan::{
    classify_self, extract_result_ok, extract_self_type, gen_py_method, map_return_type,
    pliron_type_impl, CallArg, FnInput, ImplError, ImplItem, ItemImpl, MethodError, Pattern,
    PyValue, ReturnPlan, ReturnType, SelfKind, Signature,
};
use pliron_python::rust_type::{
    classify, is_trivial, return_mentions_self, substitute_self, GenericArgument, ParamKind,
    PathArguments, PathSegment, TypeExpr, TypePath, TypeRef,
};

fn chars(s: &str) -> Vec<char> {
    s.chars().collect()
}

fn text(v: &[char]) -> String {
    v.iter().collect()
}

fn ty(name: &str) -> TypeExpr {
    TypeExpr::Path(TypePath {
        qself: None,
        leading_colon: false,
        segments: vec![PathSegment { ident: chars(name), args: PathArguments::Plain }],
    })
}

fn generic(name: &str, args: Vec<TypeExpr>) -> TypeExpr {
    TypeExpr::Path(TypePath {
        qself: None,
        leading_colon: false,
        segments: vec![PathSegment {
            ident: chars(name),
            args: PathArguments::AngleBracketed(args.into_iter().map(GenericArgument::Type).collect()),
        }],
    })
}

fn reference(mutable: bool, t: TypeExpr) -> TypeExpr {
    TypeExpr::Reference(TypeRef { lifetime: None, mutable, elem: Box::new(t) })
}

/// Render a type the way it is written.
fn show(t: &TypeExpr) -> String {
    match t {
        TypeExpr::Path(p) => {
            let segs: Vec<String> = p
                .segments
                .iter()
                .map(|s| {
                    let mut out = text(&s.ident);
                    match &s.args {
                        PathArguments::Plain => {}
                        PathArguments::Parenthesized(_) => out.push_str("(..)"),
                        PathArguments::AngleBracketed(a) => {
                            let args: Vec<String> = a
                                .iter()
                                .map(|g| match g {
                                    GenericArgument::Type(t) => show(t),
                                    GenericArgument::Other(_) => "_".to_string(),
                                })
                                .collect();
                            out.push_str(&format!("<{}>", args.join(", ")));
                        }
                    }
                    out
                })
                .collect();
            format!("{}{}", if p.leading_colon { "::" } else { "" }, segs.join("::"))
        }
        TypeExpr::Reference(r) => format!("&{}{}", if r.mutable { "mut " } else { "" }, show(&r.elem)),
        TypeExpr::Tuple(v) => {
            let elems: Vec<String> = v.iter().map(show).collect();
            format!("({})", elems.join(", "))
        }
        TypeExpr::Other(_) => "?".to_string(),
    }
}

fn typed(name: &str, t: TypeExpr) -> FnInput {
    FnInput::Typed { pat: Pattern::Ident(chars(name)), ty: t }
}

fn sig(name: &str, inputs: Vec<FnInput>, output: Option<TypeExpr>) -> Signature {
    Signature {
        ident: chars(name),
        inputs,
        output: match output {
            Some(t) => ReturnType::Type(t),
            None => ReturnType::Default,
        },
    }
}

#[test]
fn instance_and_static_methods() {
    // impl IntegerType {
    //     pub fn width(&self) -> u32 { .. }
    //     pub fn get(ctx: &mut Context, width: u32) -> TypedHandle<Self> { .. }
    //     fn private_ignored(&self) -> u32 { .. }
    // }
    let item = ItemImpl {
        self_ty: ty("IntegerType"),
        items: vec![
            ImplItem::Fn {
                public: true,
                sig: sig("width", vec![FnInput::Receiver { mutable: false }], Some(ty("u32"))),
            },
            ImplItem::Fn {
                public: true,
                sig: sig(
                    "get",
                    vec![typed("ctx", reference(true, ty("Context"))), typed("width", ty("u32"))],
                    Some(generic("TypedHandle", vec![ty("Self")])),
                ),
            },
            ImplItem::Fn {
                public: false,
                sig: sig("private_ignored", vec![FnInput::Receiver { mutable: false }], Some(ty("u32"))),
            },
        ],
    };
    let plan = pliron_type_impl(item).unwrap();
    assert_eq!(text(&plan.rust_ty), "IntegerType");
    assert_eq!(text(&plan.py_ty), "PyIntegerType");
    assert_eq!(plan.outcomes.len(), 2);

    let (pos, width) = &plan.outcomes[0];
    assert_eq!(*pos, 0);
    let width = width.as_ref().unwrap();
    assert_eq!(text(&width.name), "width");
    assert_eq!(width.self_kind, SelfKind::Ref);
    assert!(width.needs_ctx);
    assert!(width.params.is_empty());
    assert!(width.call_args.is_empty());
    match &width.ret {
        ReturnPlan::Value { inner: PyValue::Identity(t), wrapped: true } => assert_eq!(show(t), "u32"),
        other => panic!("unexpected {:?}", other),
    }

    let (pos, get) = &plan.outcomes[1];
    assert_eq!(*pos, 1);
    let get = get.as_ref().unwrap();
    assert_eq!(text(&get.name), "get");
    assert_eq!(get.self_kind, SelfKind::Static);
    assert!(get.needs_ctx);
    assert_eq!(get.params.len(), 1);
    assert_eq!(text(&get.params[0].name), "width");
    assert_eq!(show(&get.params[0].ty), "u32");
    assert!(!get.params[0].mapped);
    assert_eq!(get.call_args, vec![CallArg::Ctx, CallArg::Param(0)]);
    match &get.ret {
        ReturnPlan::Value { inner: PyValue::Mapped(t), wrapped: true } => {
            assert_eq!(show(t), "TypedHandle<IntegerType>")
        }
        other => panic!("unexpected {:?}", other),
    }
}

#[test]
fn classification_of_types() {
    assert_eq!(classify(&reference(false, ty("Context"))), Some(ParamKind::ContextParam));
    assert_eq!(classify(&reference(true, generic("Context", vec![]))), Some(ParamKind::ContextParam));
    assert_eq!(classify(&reference(false, ty("str"))), Some(ParamKind::Trivial));
    assert_eq!(classify(&generic("Vec", vec![generic("Option", vec![ty("i64")])])), Some(ParamKind::Trivial));
    assert_eq!(classify(&generic("Vec", vec![ty("Value")])), Some(ParamKind::PyMapped));
    assert_eq!(classify(&ty("Identifier")), Some(ParamKind::PyMapped));
    assert_eq!(classify(&TypeExpr::Tuple(vec![])), Some(ParamKind::PyMapped));
    assert!(is_trivial(&ty("f64")));
    assert!(!is_trivial(&generic("Vec", vec![ty("u8"), ty("u8")])));
}

#[test]
fn self_substitution() {
    let t = generic("Result", vec![ty("Self"), TypeExpr::Tuple(vec![ty("Self"), reference(false, ty("Self"))])]);
    let s = substitute_self(&t, &chars("MyOp"));
    assert_eq!(show(&s), "Result<MyOp, (MyOp, &MyOp)>");
    // A second substitution changes nothing, also when the name is `Self`.
    assert_eq!(show(&substitute_self(&s, &chars("MyOp"))), show(&s));
    let same = substitute_self(&t, &chars("Self"));
    assert_eq!(show(&substitute_self(&same, &chars("Self"))), show(&same));
    // A type without `Self` comes back as it is.
    let plain = generic("Vec", vec![TypeExpr::Tuple(vec![ty("u8"), reference(true, ty("SelfType"))])]);
    assert_eq!(show(&substitute_self(&plain, &chars("X"))), show(&plain));
    assert!(return_mentions_self(&t));
    assert!(!return_mentions_self(&s));
    // Only `Self` inside path arguments counts as mentioning it.
    assert!(!return_mentions_self(&TypeExpr::Tuple(vec![ty("Self")])));
    assert!(!return_mentions_self(&ty("SelfType")));
}

#[test]
fn return_plans() {
    // `-> Result<Self, Error>` becomes a fallible wrapper over the concrete type.
    let r = map_return_type(
        ReturnType::Type(generic("Result", vec![ty("Self"), ty("Error")])),
        &chars("StringAttr"),
        false,
    )
    .unwrap();
    match r {
        ReturnPlan::Fallible(PyValue::Mapped(t)) => assert_eq!(show(&t), "StringAttr"),
        other => panic!("unexpected {:?}", other),
    }
    // `-> Result<(), E>`: the unit value.
    match map_return_type(ReturnType::Type(generic("Result", vec![TypeExpr::Tuple(vec![])])), &chars("T"), true)
        .unwrap()
    {
        ReturnPlan::Fallible(PyValue::Unit) => {}
        other => panic!("unexpected {:?}", other),
    }
    match map_return_type(ReturnType::Default, &chars("T"), false).unwrap() {
        ReturnPlan::Unit { wrapped: false } => {}
        other => panic!("unexpected {:?}", other),
    }
    match map_return_type(ReturnType::Default, &chars("T"), true).unwrap() {
        ReturnPlan::Unit { wrapped: true } => {}
        other => panic!("unexpected {:?}", other),
    }
    assert_eq!(
        map_return_type(ReturnType::Type(reference(false, ty("Context"))), &chars("T"), true).unwrap_err(),
        MethodError::ContextReturn
    );
    let rok = generic("Result", vec![ty("u32")]);
    assert_eq!(extract_result_ok(&rok).map(show), Some("u32".to_string()));
    assert!(extract_result_ok(&ty("Result")).is_none());
}

#[test]
fn method_errors_and_receivers() {
    let bad = sig(
        "f",
        vec![FnInput::Typed { pat: Pattern::Other, ty: ty("u32") }],
        None,
    );
    assert_eq!(gen_py_method(bad, &chars("T")).unwrap_err(), MethodError::UnsupportedPattern);

    let inputs = vec![typed("a", ty("u8")), FnInput::Receiver { mutable: true }];
    assert_eq!(classify_self(&inputs), SelfKind::RefMut);
    assert_eq!(classify_self(&vec![typed("a", ty("u8"))]), SelfKind::Static);

    // A static method without `&Context` needs no context and is not wrapped.
    let plain = sig("id", vec![typed("x", ty("Identifier"))], Some(ty("Self")));
    let p = gen_py_method(plain, &chars("Name")).unwrap();
    assert!(!p.needs_ctx);
    assert!(p.params[0].mapped);
    assert_eq!(p.call_args, vec![CallArg::Param(0)]);
    match &p.ret {
        ReturnPlan::Value { inner: PyValue::Mapped(t), wrapped: false } => assert_eq!(show(t), "Name"),
        other => panic!("unexpected {:?}", other),
    }
}

#[test]
fn impl_errors() {
    let item = ItemImpl { self_ty: TypeExpr::Tuple(vec![]), items: vec![] };
    assert_eq!(pliron_type_impl(item).unwrap_err(), ImplError::NotATypePath);
    assert_eq!(extract_self_type(&ty("a")).map(|v| text(&v)), Ok("a".to_string()));
    // A failing method does not stop the others.
    let item = ItemImpl {
        self_ty: ty("T"),
        items: vec![
            ImplItem::Other,
            ImplItem::Fn { public: true, sig: sig("bad", vec![FnInput::Typed { pat: Pattern::Other, ty: ty("u8") }], None) },
            ImplItem::Fn { public: true, sig: sig("ok", vec![], None) },
        ],
    };
    let plan = pliron_type_impl(item).unwrap();
    assert_eq!(plan.outcomes.len(), 2);
    assert_eq!(plan.outcomes[0].0, 1);
    assert!(plan.outcomes[0].1.is_err());
    assert_eq!(plan.outcomes[1].0, 2);
    assert!(plan.outcomes[1].1.is_ok());
}
