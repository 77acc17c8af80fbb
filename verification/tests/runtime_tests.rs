use pliron_python::active_context::{
    clear_active_ctx, get_ctx, get_ctx_mut, set_active_ctx, ContextSlot, CtxError, PyContext,
};
use pliron_python::builtin_types::{
    integer_type_signedness, IRStatus, PyIRStatus, Signedness, SignednessError,
};
use pliron_python::callbacks::{
    call_required, dispatch, match_answer, notify_report, CallOutcome, MatchOutcome, NotifyAction,
    NotifyReport, RequiredCall,
};
use pliron_python::entity_name::{
    class_attribute, find_entity_name, scan_name_value, EntityAttr, EntityNameError,
};
use pliron_python::py_map::{HandleWrapper, PyMapTarget, TypedHandle};
use pliron_python::registration::{
    register_all_classes, route_registration, submodule_action, AttrLookup, Entry, ModuleTree,
    Registration, SubmoduleAction,
};
use pliron_python::tokens::{Delimiter, Tok};

fn chars(s: &str) -> Vec<char> {
    s.chars().collect()
}

fn text(v: &[char]) -> String {
    v.iter().collect()
}

#[test]
fn context_slot_lifecycle() {
    let mut slot = ContextSlot::new();
    assert_eq!(get_ctx(&slot), Err(CtxError::NoActiveContext));
    assert_eq!(set_active_ctx(&mut slot, 7), Ok(()));
    assert_eq!(get_ctx(&slot), Ok(7));
    assert_eq!(get_ctx_mut(&slot), Ok(7));
    // Only one context per thread.
    assert_eq!(set_active_ctx(&mut slot, 8), Err(CtxError::AlreadyActive));
    assert_eq!(get_ctx(&slot), Ok(7));
    clear_active_ctx(&mut slot);
    assert_eq!(get_ctx(&slot), Err(CtxError::NoActiveContext));
}

#[test]
fn with_block_enters_and_exits() {
    let mut slot = ContextSlot::new();
    let a = PyContext::new(1);
    let b = PyContext::new(2);
    assert_eq!(a.enter(&mut slot), Ok(()));
    assert_eq!(b.enter(&mut slot), Err(CtxError::AlreadyActive));
    assert_eq!(get_ctx(&slot), Ok(1));
    assert!(!a.exit(&mut slot));
    assert_eq!(get_ctx(&slot), Err(CtxError::NoActiveContext));
    assert_eq!(b.enter(&mut slot), Ok(()));
    assert_eq!(get_ctx(&slot), Ok(2));
    let gone = PyContext { ctx: None };
    let mut empty = ContextSlot::new();
    assert_eq!(gone.enter(&mut empty), Err(CtxError::Consumed));
}

#[test]
fn signedness_strings() {
    for s in [Signedness::Signed, Signedness::Unsigned, Signedness::Signless] {
        assert_eq!(Signedness::from_py(s.into_py()), s);
    }
    assert_eq!(Signedness::Unsigned.into_py(), "unsigned");
    assert_eq!(integer_type_signedness(None), Ok(Signedness::Signless));
    assert_eq!(integer_type_signedness(Some("signed")), Ok(Signedness::Signed));
    assert_eq!(
        integer_type_signedness(Some("Signed")),
        Err(SignednessError::InvalidSignedness)
    );
}

#[test]
fn ir_status() {
    let c = PyIRStatus::from_status(IRStatus::Changed);
    let u = PyIRStatus::from_status(IRStatus::Unchanged);
    assert_eq!(c, PyIRStatus::Changed);
    assert!(c.is_changed() && c.__bool__());
    assert!(!u.is_changed() && !u.__bool__());
    assert_eq!(c.__repr__(), "IRStatus.Changed");
    assert_eq!(u.__repr__(), "IRStatus.Unchanged");
}

#[test]
fn callback_policies() {
    assert_eq!(dispatch(true, true), NotifyAction::Call);
    assert_eq!(dispatch(true, false), NotifyAction::Skip);
    assert_eq!(dispatch(false, true), NotifyAction::Skip);
    assert_eq!(notify_report(CallOutcome::Raised), NotifyReport::PrintAndSwallow);
    assert_eq!(notify_report(CallOutcome::Returned), NotifyReport::Nothing);
    assert_eq!(call_required(RequiredCall::Returned(5u32)), 5);
    assert_eq!(call_required(RequiredCall::Returned("done")), "done");
    assert_eq!(match_answer(MatchOutcome::Answered(true)), (true, false));
    assert_eq!(match_answer(MatchOutcome::Answered(false)), (false, false));
    assert_eq!(match_answer(MatchOutcome::NotABool), (false, true));
    assert_eq!(match_answer(MatchOutcome::Raised), (false, true));
}

fn name_value(v: &str) -> Vec<Tok> {
    vec![
        Tok::Ident(chars("name")),
        Tok::Punct('='),
        Tok::Literal(chars(&format!("{:?}", v))),
    ]
}

#[test]
fn entity_name_search() {
    let mut args = vec![Tok::Ident(chars("other")), Tok::Punct(','), Tok::Group(Delimiter::Parenthesis, 2)];
    args.extend(name_value("llvm.add"));
    assert_eq!(scan_name_value(&args).map(|v| text(&v)), Some("llvm.add".to_string()));
    // `name = 3` is not a name; the scan goes on after it.
    let mut skip = vec![Tok::Ident(chars("name")), Tok::Punct('='), Tok::Literal(chars("3"))];
    skip.extend(name_value("a.b"));
    assert_eq!(scan_name_value(&skip).map(|v| text(&v)), Some("a.b".to_string()));
    assert_eq!(scan_name_value(&[Tok::Ident(chars("name"))]), None);

    let unified = chars("pliron_op");
    let def = chars("def_op");
    let attrs = vec![
        EntityAttr { path_ident: Some(chars("derive")), list_tokens: Some(vec![]) },
        EntityAttr { path_ident: Some(chars("pliron_op")), list_tokens: Some(name_value("test.op")) },
    ];
    let got = find_entity_name(&[], &attrs, &unified, &def).unwrap();
    assert_eq!(text(&got), "test.op");
    // The macro's own argument wins.
    let got = find_entity_name(&name_value("x.y"), &attrs, &unified, &def).unwrap();
    assert_eq!(text(&got), "x.y");

    let def_attrs = vec![EntityAttr {
        path_ident: Some(chars("def_op")),
        list_tokens: Some(vec![Tok::Literal(chars("\"d.e\""))]),
    }];
    let (d, e) = class_attribute(&[], &def_attrs, &unified, &def).unwrap();
    assert_eq!((text(&d), text(&e)), ("d".to_string(), "e".to_string()));

    let bad_def = vec![EntityAttr { path_ident: Some(chars("def_op")), list_tokens: None }];
    assert_eq!(find_entity_name(&[], &bad_def, &unified, &def), Err(EntityNameError::BadDefArgs));
    assert_eq!(find_entity_name(&[], &[], &unified, &def), Err(EntityNameError::NotFound));
    assert_eq!(
        class_attribute(&name_value("plain"), &[], &unified, &def),
        Err(EntityNameError::NotQualified)
    );
}

fn reg(name: &str, class: &str) -> Registration {
    Registration { name: chars(name), class_name: chars(class) }
}

fn describe(m: &ModuleTree) -> Vec<(String, Vec<String>)> {
    // The last assignment to each name wins.
    let mut out: Vec<(String, Vec<String>)> = Vec::new();
    for (name, entry) in &m.assignments {
        let n = text(name);
        let mut v = match entry {
            Entry::Class => vec!["<class>".to_string()],
            Entry::Module(cs) => cs.iter().map(|c| text(c)).collect(),
        };
        v.sort();
        v.dedup();
        out.retain(|(k, _)| *k != n);
        out.push((n, v));
    }
    out.sort();
    out
}

#[test]
fn submodule_requests_reuse_the_module() {
    let mut m = ModuleTree::new();
    assert_eq!(m.lookup(&chars("builtin")), AttrLookup::Missing);
    assert_eq!(m.get_or_create_submodule(&chars("builtin")), SubmoduleAction::CreateAndAttach);
    assert_eq!(m.lookup(&chars("builtin")), AttrLookup::Module);
    m.add_class(Some(&chars("builtin")), &chars("ModuleOp"));
    let before = describe(&m);
    // A second request finds the module and changes nothing.
    assert_eq!(m.get_or_create_submodule(&chars("builtin")), SubmoduleAction::Reuse);
    assert_eq!(describe(&m), before);
    assert_eq!(
        before,
        vec![("builtin".to_string(), vec!["ModuleOp".to_string()])]
    );
    // A class under the name is replaced by a new, empty module.
    m.add_class(None, &chars("llvm"));
    assert_eq!(m.lookup(&chars("llvm")), AttrLookup::NotModule);
    assert_eq!(m.get_or_create_submodule(&chars("llvm")), SubmoduleAction::CreateAndAttach);
    assert_eq!(m.lookup(&chars("llvm")), AttrLookup::Module);
}

#[test]
fn registration_routes_by_dialect() {
    assert_eq!(route_registration(&chars("builtin.module")).map(|v| text(&v)), Some("builtin".to_string()));
    assert_eq!(route_registration(&chars("toplevel")), None);
    assert_eq!(submodule_action(AttrLookup::Module), SubmoduleAction::Reuse);
    assert_eq!(submodule_action(AttrLookup::Missing), SubmoduleAction::CreateAndAttach);
    assert_eq!(submodule_action(AttrLookup::NotModule), SubmoduleAction::CreateAndAttach);

    let regs = vec![
        reg("builtin.module", "ModuleOp"),
        reg("llvm.add", "AddOp"),
        reg("builtin.func", "FuncOp"),
        reg("Loose", "Loose"),
    ];
    let mut m = ModuleTree::new();
    register_all_classes(&mut m, &regs);
    let expected = vec![
        ("Loose".to_string(), vec!["<class>".to_string()]),
        ("builtin".to_string(), vec!["FuncOp".to_string(), "ModuleOp".to_string()]),
        ("llvm".to_string(), vec!["AddOp".to_string()]),
    ];
    assert_eq!(describe(&m), expected);

    // Any order gives the same namespace.
    let mut reversed: Vec<Registration> = regs.iter().rev().map(|r| reg(&text(&r.name), &text(&r.class_name))).collect();
    let mut m2 = ModuleTree::new();
    register_all_classes(&mut m2, &reversed);
    assert_eq!(describe(&m2), expected);
    reversed.swap(0, 2);
    let mut m3 = ModuleTree::new();
    register_all_classes(&mut m3, &reversed);
    assert_eq!(describe(&m3), expected);
}

struct IntegerType;

impl PyMapTarget for IntegerType {
    type PyClass = HandleWrapper<IntegerType>;
}

#[test]
fn typed_handles_roundtrip_through_wrappers() {
    let h: TypedHandle<IntegerType> = TypedHandle::from_handle_unchecked(42);
    let py = h.into_py();
    assert_eq!(py.ptr.to_handle(), 42);
    let back = TypedHandle::<IntegerType>::from_py(&py);
    assert_eq!(back.to_handle(), 42);
}
