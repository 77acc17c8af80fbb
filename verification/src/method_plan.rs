//! Planning of the Python mirror of an `impl` block.
//!
//! For every `pub fn` of an `impl` block, the generator decides how each
//! parameter crosses into Python (dropped and supplied from the active
//! context, passed as-is, or routed through `PyMap`), whether the wrapper
//! needs the active context, and how the return value is converted. This
//! module computes those decisions; emitting tokens from a plan is mechanical.

use vstd::prelude::*;

use crate::rust_type::{
    ParamKind, TypeExpr, TypeModel, ArgsModel, classify, spec_classify, subst_self, mentions_self,
    spec_is_context_ref,
    substitute_self, return_mentions_self, last_segment_ident, last_ident, args_model,
    segment_model_at, arg_model_at, PathArguments, GenericArgument,
};
use crate::text::{chars_eq, concat};

verus! {

/// A parameter of a function signature.
#[derive(Debug)]
pub enum FnInput {
    /// `self`, `&self`, `mut self` or `&mut self`; `mutable` for the last two.
    Receiver { mutable: bool },
    /// `pattern: Type`.
    Typed { pat: Pattern, ty: TypeExpr },
}

/// The pattern of a typed parameter.
#[derive(Debug)]
pub enum Pattern {
    /// A plain binding such as `width` (or `mut width`).
    Ident(Vec<char>),
    /// Any destructuring or wildcard pattern.
    Other,
}

/// The declared return type of a function.
#[derive(Debug)]
pub enum ReturnType {
    /// No `-> T`.
    Default,
    Type(TypeExpr),
}

/// A function signature.
#[derive(Debug)]
pub struct Signature {
    pub ident: Vec<char>,
    pub inputs: Vec<FnInput>,
    pub output: ReturnType,
}

/// How a method takes its receiver.
#[derive(Clone, Copy, Debug, PartialEq, Eq, Structural)]
pub enum SelfKind {
    Ref,
    RefMut,
    /// No receiver: an associated function, exposed as a `staticmethod`.
    Static,
}

/// Why a method cannot be mirrored.
#[derive(Clone, Copy, Debug, PartialEq, Eq, Structural)]
pub enum MethodError {
    /// A parameter bound by a pattern other than a plain identifier.
    UnsupportedPattern,
    /// A parameter type that cannot be routed at all.
    UnsupportedParam,
    /// A method returning `&Context`.
    ContextReturn,
    /// A return type that cannot be routed at all.
    UnsupportedReturn,
}

/// How a Python-side value is produced from a Rust value.
#[derive(Debug)]
pub enum PyValue {
    /// A PyO3-trivial type, passed through unchanged.
    Identity(TypeExpr),
    /// The unit type `()`.
    Unit,
    /// Converted by `<T as PyMap>::into_py`, with Python type `<T as PyMap>::Owned`.
    Mapped(TypeExpr),
}

/// How the wrapper's return value is produced.
#[derive(Debug)]
pub enum ReturnPlan {
    /// The method returns nothing; `wrapped` when the wrapper returns `PyResult<()>`.
    Unit { wrapped: bool },
    /// The method returns `Result<T, _>`: the wrapper returns `PyResult` of the
    /// converted `T`, mapping the error into a Python exception.
    Fallible(PyValue),
    /// The method returns a plain value; `wrapped` when the wrapper returns it
    /// inside `PyResult`.
    Value { inner: PyValue, wrapped: bool },
}

pub enum PyValueModel {
    Identity(TypeModel),
    Unit,
    Mapped(TypeModel),
}

pub enum ReturnPlanModel {
    Unit { wrapped: bool },
    Fallible(PyValueModel),
    Value { inner: PyValueModel, wrapped: bool },
}

impl View for PyValue {
    type V = PyValueModel;

    open spec fn view(&self) -> PyValueModel {
        match self {
            PyValue::Identity(t) => PyValueModel::Identity(t@),
            PyValue::Unit => PyValueModel::Unit,
            PyValue::Mapped(t) => PyValueModel::Mapped(t@),
        }
    }
}

impl View for ReturnPlan {
    type V = ReturnPlanModel;

    open spec fn view(&self) -> ReturnPlanModel {
        match self {
            ReturnPlan::Unit { wrapped } => ReturnPlanModel::Unit { wrapped: *wrapped },
            ReturnPlan::Fallible(v) => ReturnPlanModel::Fallible(v@),
            ReturnPlan::Value { inner, wrapped } => ReturnPlanModel::Value {
                inner: inner@,
                wrapped: *wrapped,
            },
        }
    }
}

// ---------------------------------------------------------------------------
// Receiver
// ---------------------------------------------------------------------------

/// The kind of the first receiver among `inputs[i..]`.
pub open spec fn self_kind_from(inputs: Seq<FnInput>, i: int) -> SelfKind
    decreases inputs.len() - i,
{
    if i < 0 || i >= inputs.len() {
        SelfKind::Static
    } else {
        match inputs[i] {
            FnInput::Receiver { mutable } => if mutable {
                SelfKind::RefMut
            } else {
                SelfKind::Ref
            },
            FnInput::Typed { .. } => self_kind_from(inputs, i + 1),
        }
    }
}

/// The receiver kind of a signature: that of its first receiver, `Static`
/// when it has none.
pub open spec fn spec_classify_self(inputs: Seq<FnInput>) -> SelfKind {
    self_kind_from(inputs, 0)
}

pub fn classify_self(inputs: &Vec<FnInput>) -> (r: SelfKind)
    ensures
        r == spec_classify_self(inputs@),
{
    let mut i: usize = 0;
    while i < inputs.len()
        invariant
            0 <= i <= inputs.len(),
            self_kind_from(inputs@, 0) == self_kind_from(inputs@, i as int),
        decreases inputs.len() - i,
    {
        match &inputs[i] {
            FnInput::Receiver { mutable } => {
                return if *mutable {
                    SelfKind::RefMut
                } else {
                    SelfKind::Ref
                };
            },
            FnInput::Typed { .. } => {},
        }
        i += 1;
    }
    SelfKind::Static
}

/// The name bound by a simple identifier pattern.
pub fn extract_pat_ident(pat: &Pattern) -> (r: Result<&Vec<char>, MethodError>)
    ensures
        match pat {
            Pattern::Ident(name) => r == Ok::<&Vec<char>, MethodError>(name),
            Pattern::Other => r == Err::<&Vec<char>, MethodError>(MethodError::UnsupportedPattern),
        },
{
    match pat {
        Pattern::Ident(name) => Ok(name),
        Pattern::Other => Err(MethodError::UnsupportedPattern),
    }
}

// ---------------------------------------------------------------------------
// Return values
// ---------------------------------------------------------------------------

/// `Result`.
pub open spec fn result_word() -> Seq<char> {
    seq!['R', 'e', 's', 'u', 'l', 't']
}

/// The first type argument of a path whose last segment is `Result<..>`.
pub open spec fn spec_result_ok(t: TypeModel) -> Option<TypeModel> {
    match t {
        TypeModel::Path { segments, .. } => if segments.len() > 0 && segments.last().ident
            == result_word() {
            match segments.last().args {
                ArgsModel::AngleBracketed(v) => if v.len() > 0 && v[0] is Type {
                    Some(v[0]->Type_0)
                } else {
                    None
                },
                _ => None,
            }
        } else {
            None
        },
        _ => None,
    }
}

/// How a returned value of type `t` reaches Python.
pub open spec fn spec_inner_return(t: TypeModel) -> Result<PyValueModel, MethodError> {
    match spec_classify(t) {
        Some(ParamKind::ContextParam) => Err(MethodError::ContextReturn),
        Some(ParamKind::Trivial) => Ok(PyValueModel::Identity(t)),
        Some(ParamKind::PyMapped) => if t is Tuple && t->Tuple_elems.len() == 0 {
            Ok(PyValueModel::Unit)
        } else {
            Ok(PyValueModel::Mapped(t))
        },
        None => Err(MethodError::UnsupportedReturn),
    }
}

/// The return plan of a method returning `out` (`None`: no `-> T`), with
/// `Self` standing for `rust_ty`; `wrapped` when the wrapper returns `PyResult`
/// (it does whenever it injects the context, whose lookup can fail).
pub open spec fn spec_return_plan(out: Option<TypeModel>, rust_ty: Seq<char>, wrapped: bool) -> Result<
    ReturnPlanModel,
    MethodError,
> {
    match out {
        None => Ok(ReturnPlanModel::Unit { wrapped }),
        Some(t) => match spec_result_ok(t) {
            Some(ok) => match spec_inner_return(subst_self(ok, rust_ty)) {
                Ok(v) => Ok(ReturnPlanModel::Fallible(v)),
                Err(e) => Err(e),
            },
            None => {
                let t2 = if mentions_self(t) {
                    subst_self(t, rust_ty)
                } else {
                    t
                };
                match spec_inner_return(t2) {
                    Ok(v) => Ok(ReturnPlanModel::Value { inner: v, wrapped }),
                    Err(e) => Err(e),
                }
            },
        },
    }
}

pub open spec fn output_model(r: ReturnType) -> Option<TypeModel> {
    match r {
        ReturnType::Default => None,
        ReturnType::Type(t) => Some(t@),
    }
}

/// The `T` of `Result<T, ..>`, if `t` is such a path.
pub fn extract_result_ok(t: &TypeExpr) -> (r: Option<&TypeExpr>)
    ensures
        match r {
            Some(ok) => spec_result_ok(t@) == Some(ok@),
            None => spec_result_ok(t@) is None,
        },
{
    match t {
        TypeExpr::Path(p) => {
            let n = p.segments.len();
            if n == 0 {
                return None;
            }
            let last = &p.segments[n - 1];
            proof {
                assert(segment_model_at(p.segments, n - 1) == crate::rust_type::SegmentModel {
                    ident: last.ident@,
                    args: args_model(last.args),
                });
            }
            if !chars_eq(last.ident.as_slice(), &['R', 'e', 's', 'u', 'l', 't']) {
                return None;
            }
            match &last.args {
                PathArguments::AngleBracketed(v) => {
                    if v.len() == 0 {
                        return None;
                    }
                    proof {
                        assert(args_model(last.args)->AngleBracketed_0[0] == arg_model_at(*v, 0));
                    }
                    match &v[0] {
                        GenericArgument::Type(ok) => Some(ok),
                        GenericArgument::Other(_) => None,
                    }
                },
                _ => None,
            }
        },
        _ => None,
    }
}

/// How a returned value of type `t` reaches Python.
pub fn map_inner_return(t: TypeExpr) -> (r: Result<PyValue, MethodError>)
    ensures
        match r {
            Ok(v) => spec_inner_return(t@) == Ok::<PyValueModel, MethodError>(v@),
            Err(e) => spec_inner_return(t@) == Err::<PyValueModel, MethodError>(e),
        },
{
    match classify(&t) {
        Some(ParamKind::ContextParam) => Err(MethodError::ContextReturn),
        Some(ParamKind::Trivial) => Ok(PyValue::Identity(t)),
        Some(ParamKind::PyMapped) => {
            let unit = match &t {
                TypeExpr::Tuple(v) => v.len() == 0,
                _ => false,
            };
            if unit {
                Ok(PyValue::Unit)
            } else {
                Ok(PyValue::Mapped(t))
            }
        },
        None => Err(MethodError::UnsupportedReturn),
    }
}

/// Plan the wrapper's return for a method returning `ret`, with `Self`
/// standing for `rust_ty`; `always_pyresult` when the wrapper injects the
/// active context.
pub fn map_return_type(ret: ReturnType, rust_ty: &[char], always_pyresult: bool) -> (r: Result<
    ReturnPlan,
    MethodError,
>)
    ensures
        match r {
            Ok(p) => spec_return_plan(output_model(ret), rust_ty@, always_pyresult) == Ok::<
                ReturnPlanModel,
                MethodError,
            >(p@),
            Err(e) => spec_return_plan(output_model(ret), rust_ty@, always_pyresult) == Err::<
                ReturnPlanModel,
                MethodError,
            >(e),
        },
{
    match ret {
        ReturnType::Default => Ok(ReturnPlan::Unit { wrapped: always_pyresult }),
        ReturnType::Type(t) => {
            match extract_result_ok(&t) {
                Some(ok) => {
                    let ok2 = substitute_self(ok, rust_ty);
                    return match map_inner_return(ok2) {
                        Ok(v) => Ok(ReturnPlan::Fallible(v)),
                        Err(e) => Err(e),
                    };
                },
                None => {},
            }
            let t2 = if return_mentions_self(&t) {
                substitute_self(&t, rust_ty)
            } else {
                t
            };
            match map_inner_return(t2) {
                Ok(v) => Ok(ReturnPlan::Value { inner: v, wrapped: always_pyresult }),
                Err(e) => Err(e),
            }
        },
    }
}

// ---------------------------------------------------------------------------
// Parameters
// ---------------------------------------------------------------------------

/// A parameter of the Python-facing wrapper.
#[derive(Debug)]
pub struct PyParam {
    pub name: Vec<char>,
    /// The parameter's Rust type, with `Self` replaced by the concrete type.
    pub ty: TypeExpr,
    /// Taken as `<T as PyMap>::Borrowed` and converted by `from_py`; otherwise
    /// taken as `T` itself.
    pub mapped: bool,
}

pub struct PyParamModel {
    pub name: Seq<char>,
    pub ty: TypeModel,
    pub mapped: bool,
}

impl View for PyParam {
    type V = PyParamModel;

    open spec fn view(&self) -> PyParamModel {
        PyParamModel { name: self.name@, ty: self.ty@, mapped: self.mapped }
    }
}

/// One argument of the call the wrapper makes into the Rust method.
#[derive(Clone, Copy, Debug, PartialEq, Eq, Structural)]
pub enum CallArg {
    /// The active context.
    Ctx,
    /// The wrapper parameter at this position (converted by `from_py` when it
    /// is mapped).
    Param(usize),
}

/// The state of the left-to-right walk over a signature's parameters.
pub struct ParamsAcc {
    pub params: Seq<PyParamModel>,
    pub call_args: Seq<CallArg>,
    /// Some parameter is `&Context` / `&mut Context`.
    pub ctx: bool,
}

pub open spec fn empty_acc() -> ParamsAcc {
    ParamsAcc { params: Seq::empty(), call_args: Seq::empty(), ctx: false }
}

/// One step of the walk: a receiver is skipped; a typed parameter must bind a
/// plain identifier, and is then routed by the classification of its type
/// (with `Self` replaced by `rust_ty`).
pub open spec fn spec_param_step(acc: ParamsAcc, input: FnInput, rust_ty: Seq<char>) -> Result<
    ParamsAcc,
    MethodError,
> {
    match input {
        FnInput::Receiver { .. } => Ok(acc),
        FnInput::Typed { pat, ty } => match pat {
            Pattern::Other => Err(MethodError::UnsupportedPattern),
            Pattern::Ident(name) => {
                let pty = subst_self(ty@, rust_ty);
                match spec_classify(pty) {
                    Some(ParamKind::ContextParam) => Ok(
                        ParamsAcc {
                            params: acc.params,
                            call_args: acc.call_args.push(CallArg::Ctx),
                            ctx: true,
                        },
                    ),
                    Some(ParamKind::Trivial) => Ok(
                        ParamsAcc {
                            params: acc.params.push(PyParamModel { name: name@, ty: pty, mapped: false }),
                            call_args: acc.call_args.push(CallArg::Param(acc.params.len() as usize)),
                            ctx: acc.ctx,
                        },
                    ),
                    Some(ParamKind::PyMapped) => Ok(
                        ParamsAcc {
                            params: acc.params.push(PyParamModel { name: name@, ty: pty, mapped: true }),
                            call_args: acc.call_args.push(CallArg::Param(acc.params.len() as usize)),
                            ctx: acc.ctx,
                        },
                    ),
                    None => Err(MethodError::UnsupportedParam),
                }
            },
        },
    }
}

/// The walk over the first `n` parameters; the first error stops it.
pub open spec fn spec_params(inputs: Seq<FnInput>, rust_ty: Seq<char>, n: int) -> Result<
    ParamsAcc,
    MethodError,
>
    decreases n,
{
    if n <= 0 {
        Ok(empty_acc())
    } else {
        match spec_params(inputs, rust_ty, n - 1) {
            Err(e) => Err(e),
            Ok(acc) => spec_param_step(acc, inputs[n - 1], rust_ty),
        }
    }
}

proof fn lemma_params_error_sticks(inputs: Seq<FnInput>, rust_ty: Seq<char>, n: int, m: int, e: MethodError)
    requires
        0 <= n <= m,
        spec_params(inputs, rust_ty, n) == Err::<ParamsAcc, MethodError>(e),
    ensures
        spec_params(inputs, rust_ty, m) == Err::<ParamsAcc, MethodError>(e),
    decreases m - n,
{
    if n < m {
        lemma_params_error_sticks(inputs, rust_ty, n, m - 1, e);
    }
}

/// The wrapper parameters the call arguments refer to, in order.
pub open spec fn param_refs(c: Seq<CallArg>) -> Seq<usize>
    decreases c.len(),
{
    if c.len() == 0 {
        Seq::empty()
    } else {
        let prev = param_refs(c.drop_last());
        match c.last() {
            CallArg::Param(k) => prev.push(k),
            CallArg::Ctx => prev,
        }
    }
}

/// Law: the call into the Rust method passes every wrapper parameter exactly
/// once and in declaration order, supplies the context exactly where the
/// method takes `&Context`, and no wrapper parameter is a context.
pub proof fn lemma_params_cover_call(inputs: Seq<FnInput>, rust_ty: Seq<char>, n: int)
    requires
        0 <= n <= inputs.len() <= usize::MAX,
        spec_params(inputs, rust_ty, n) is Ok,
    ensures
        ({
            let acc = spec_params(inputs, rust_ty, n)->Ok_0;
            &&& param_refs(acc.call_args) == Seq::new(acc.params.len(), |i: int| i as usize)
            &&& acc.params.len() <= n
            &&& acc.ctx == acc.call_args.contains(CallArg::Ctx)
            &&& forall|i: int|
                0 <= i < acc.params.len() ==> spec_classify(#[trigger] acc.params[i].ty) != Some(
                    ParamKind::ContextParam,
                )
        }),
    decreases n,
{
    let acc = spec_params(inputs, rust_ty, n)->Ok_0;
    if n == 0 {
        assert(param_refs(acc.call_args) =~= Seq::new(acc.params.len(), |i: int| i as usize));
    } else {
        lemma_params_cover_call(inputs, rust_ty, n - 1);
        let prev = spec_params(inputs, rust_ty, n - 1)->Ok_0;
        match inputs[n - 1] {
            FnInput::Receiver { .. } => {},
            FnInput::Typed { pat, ty } => {
                match pat {
                    Pattern::Ident(name) => {
                        let pty = subst_self(ty@, rust_ty);
                        assert(acc.call_args.drop_last() =~= prev.call_args);
                        if spec_classify(pty) == Some(ParamKind::ContextParam) {
                            assert(acc.call_args.last() == CallArg::Ctx);
                            assert(acc.call_args.contains(CallArg::Ctx)) by {
                                assert(acc.call_args[acc.call_args.len() - 1] == CallArg::Ctx);
                            }
                        } else {
                            assert(param_refs(acc.call_args) =~= Seq::new(
                                acc.params.len(),
                                |i: int| i as usize,
                            ));
                            assert(acc.call_args.contains(CallArg::Ctx) == prev.call_args.contains(
                                CallArg::Ctx,
                            )) by {
                                if acc.call_args.contains(CallArg::Ctx) {
                                    let j = choose|j: int|
                                        0 <= j < acc.call_args.len() && acc.call_args[j] == CallArg::Ctx;
                                    assert(j < prev.call_args.len());
                                    assert(prev.call_args[j] == CallArg::Ctx);
                                }
                                if prev.call_args.contains(CallArg::Ctx) {
                                    let j = choose|j: int|
                                        0 <= j < prev.call_args.len() && prev.call_args[j] == CallArg::Ctx;
                                    assert(acc.call_args[j] == CallArg::Ctx);
                                }
                            }
                            assert forall|i: int|
                                0 <= i < acc.params.len() implies spec_classify(
                                #[trigger] acc.params[i].ty,
                            ) != Some(ParamKind::ContextParam) by {
                                if i < prev.params.len() {
                                    assert(acc.params[i] == prev.params[i]);
                                }
                            }
                        }
                    },
                    Pattern::Other => {},
                }
            },
        }
    }
}

// ---------------------------------------------------------------------------
// Methods
// ---------------------------------------------------------------------------

/// The Python wrapper of one method.
#[derive(Debug)]
pub struct MethodPlan {
    pub name: Vec<char>,
    pub self_kind: SelfKind,
    /// The wrapper fetches the active context: always for instance methods
    /// (the handle must be dereferenced through it), and whenever the method
    /// takes `&Context`.
    pub needs_ctx: bool,
    pub params: Vec<PyParam>,
    pub call_args: Vec<CallArg>,
    pub ret: ReturnPlan,
}

pub struct MethodPlanModel {
    pub name: Seq<char>,
    pub self_kind: SelfKind,
    pub needs_ctx: bool,
    pub params: Seq<PyParamModel>,
    pub call_args: Seq<CallArg>,
    pub ret: ReturnPlanModel,
}

pub open spec fn params_view(v: Seq<PyParam>) -> Seq<PyParamModel> {
    v.map_values(|p: PyParam| p@)
}

impl View for MethodPlan {
    type V = MethodPlanModel;

    open spec fn view(&self) -> MethodPlanModel {
        MethodPlanModel {
            name: self.name@,
            self_kind: self.self_kind,
            needs_ctx: self.needs_ctx,
            params: params_view(self.params@),
            call_args: self.call_args@,
            ret: self.ret@,
        }
    }
}

/// The wrapper planned for `sig`, with `Self` standing for `rust_ty`.
pub open spec fn spec_method_plan(sig: Signature, rust_ty: Seq<char>) -> Result<
    MethodPlanModel,
    MethodError,
> {
    match spec_params(sig.inputs@, rust_ty, sig.inputs@.len() as int) {
        Err(e) => Err(e),
        Ok(acc) => {
            let kind = spec_classify_self(sig.inputs@);
            let needs_ctx = kind != SelfKind::Static || acc.ctx;
            match spec_return_plan(output_model(sig.output), rust_ty, needs_ctx) {
                Err(e) => Err(e),
                Ok(ret) => Ok(
                    MethodPlanModel {
                        name: sig.ident@,
                        self_kind: kind,
                        needs_ctx,
                        params: acc.params,
                        call_args: acc.call_args,
                        ret,
                    },
                ),
            }
        },
    }
}

/// The parameter is `&Context` / `&mut Context` (after `Self` substitution).
pub open spec fn is_context_input(input: FnInput, rust_ty: Seq<char>) -> bool {
    match input {
        FnInput::Typed { ty, .. } => spec_is_context_ref(subst_self(ty@, rust_ty)),
        FnInput::Receiver { .. } => false,
    }
}

proof fn lemma_self_kind_receiver(inputs: Seq<FnInput>, j: int)
    requires
        0 <= j <= inputs.len(),
    ensures
        (self_kind_from(inputs, j) == SelfKind::Static) <==> (forall|i: int|
            j <= i < inputs.len() ==> !(#[trigger] inputs[i] is Receiver)),
        forall|i: int|
            j <= i < inputs.len() && (#[trigger] inputs[i] is Receiver) && (forall|k: int|
                j <= k < i ==> !(#[trigger] inputs[k] is Receiver)) ==> self_kind_from(inputs, j) == (
            if inputs[i]->mutable {
                SelfKind::RefMut
            } else {
                SelfKind::Ref
            }),
    decreases inputs.len() - j,
{
    if j < inputs.len() {
        lemma_self_kind_receiver(inputs, j + 1);
    }
}

proof fn lemma_params_ctx(inputs: Seq<FnInput>, rust_ty: Seq<char>, n: int)
    requires
        0 <= n <= inputs.len(),
        spec_params(inputs, rust_ty, n) is Ok,
    ensures
        spec_params(inputs, rust_ty, n)->Ok_0.ctx <==> (exists|i: int|
            0 <= i < n && is_context_input(#[trigger] inputs[i], rust_ty)),
    decreases n,
{
    if n > 0 {
        if spec_params(inputs, rust_ty, n - 1) is Err {
            lemma_params_error_sticks(
                inputs,
                rust_ty,
                n - 1,
                n,
                spec_params(inputs, rust_ty, n - 1)->Err_0,
            );
        }
        lemma_params_ctx(inputs, rust_ty, n - 1);
        let acc = spec_params(inputs, rust_ty, n)->Ok_0;
        if acc.ctx {
            if !spec_params(inputs, rust_ty, n - 1)->Ok_0.ctx {
                assert(is_context_input(inputs[n - 1], rust_ty));
            }
        }
        if exists|i: int| 0 <= i < n && is_context_input(#[trigger] inputs[i], rust_ty) {
            let i = choose|i: int| 0 <= i < n && is_context_input(#[trigger] inputs[i], rust_ty);
            if i == n - 1 {
                assert(spec_classify(subst_self(inputs[i]->ty@, rust_ty)) == Some(ParamKind::ContextParam));
            }
        }
    }
}

/// Law: an instance method's wrapper always fetches the active context (the
/// handle can only be dereferenced through it), and so does a method taking
/// `&Context`; a wrapper that fetches no context has no receiver and no
/// `&Context` parameter. The receiver kind is that of the first receiver, and
/// a method returning nothing returns `PyResult<()>` exactly when the wrapper
/// fetches the context.
pub proof fn lemma_instance_methods_need_ctx(sig: Signature, rust_ty: Seq<char>)
    requires
        spec_method_plan(sig, rust_ty) is Ok,
    ensures
        ({
            let p = spec_method_plan(sig, rust_ty)->Ok_0;
            let inputs = sig.inputs@;
            &&& (exists|i: int| 0 <= i < inputs.len() && #[trigger] inputs[i] is Receiver) ==> p.needs_ctx
            &&& (exists|i: int| 0 <= i < inputs.len() && is_context_input(#[trigger] inputs[i], rust_ty))
                ==> p.needs_ctx
            &&& !p.needs_ctx ==> forall|i: int|
                0 <= i < inputs.len() ==> !(#[trigger] inputs[i] is Receiver) && !is_context_input(
                    inputs[i],
                    rust_ty,
                )
            &&& (p.self_kind == SelfKind::Static) <==> (forall|i: int|
                0 <= i < inputs.len() ==> !(#[trigger] inputs[i] is Receiver))
            &&& forall|i: int|
                0 <= i < inputs.len() && (#[trigger] inputs[i] is Receiver) && (forall|k: int|
                    0 <= k < i ==> !(#[trigger] inputs[k] is Receiver)) ==> p.self_kind == (
                if inputs[i]->mutable {
                    SelfKind::RefMut
                } else {
                    SelfKind::Ref
                })
            &&& sig.output is Default ==> p.ret == ReturnPlanModel::Unit { wrapped: p.needs_ctx }
        }),
{
    let inputs = sig.inputs@;
    lemma_self_kind_receiver(inputs, 0);
    lemma_params_ctx(inputs, rust_ty, inputs.len() as int);
}

/// Plan the Python wrapper of one method of the type `rust_ty`.
pub fn gen_py_method(sig: Signature, rust_ty: &[char]) -> (r: Result<MethodPlan, MethodError>)
    ensures
        match r {
            Ok(p) => spec_method_plan(sig, rust_ty@) == Ok::<MethodPlanModel, MethodError>(p@),
            Err(e) => spec_method_plan(sig, rust_ty@) == Err::<MethodPlanModel, MethodError>(e),
        },
{
    let ghost sig0 = sig;
    let Signature { ident, inputs, output } = sig;
    let self_kind = classify_self(&inputs);
    let mut params: Vec<PyParam> = Vec::new();
    let mut call_args: Vec<CallArg> = Vec::new();
    let mut ctx_seen = false;
    proof {
        assert(params_view(params@) =~= Seq::<PyParamModel>::empty());
    }
    let mut i: usize = 0;
    while i < inputs.len()
        invariant
            0 <= i <= inputs.len(),
            inputs@ == sig0.inputs@,
            sig0 == sig,
            spec_params(inputs@, rust_ty@, i as int) == Ok::<ParamsAcc, MethodError>(
                ParamsAcc { params: params_view(params@), call_args: call_args@, ctx: ctx_seen },
            ),
            params@.len() <= i,
        decreases inputs.len() - i,
    {
        let ghost acc = ParamsAcc { params: params_view(params@), call_args: call_args@, ctx: ctx_seen };
        match &inputs[i] {
            FnInput::Receiver { .. } => {},
            FnInput::Typed { pat, ty } => {
                let name = match extract_pat_ident(pat) {
                    Ok(name) => name,
                    Err(e) => {
                        proof {
                            assert(inputs@[i as int] is Typed);
                            assert(*pat == Pattern::Other);
                            assert(spec_param_step(acc, inputs@[i as int], rust_ty@) == Err::<ParamsAcc, MethodError>(e));
                            assert(spec_params(inputs@, rust_ty@, i + 1) == Err::<ParamsAcc, MethodError>(e));
                            lemma_params_error_sticks(inputs@, rust_ty@, i + 1, inputs@.len() as int, e);
                            assert(spec_method_plan(sig0, rust_ty@) == Err::<MethodPlanModel, MethodError>(e));
                        }
                        return Err(e);
                    },
                };
                let pty = substitute_self(ty, rust_ty);
                match classify(&pty) {
                    Some(ParamKind::ContextParam) => {
                        ctx_seen = true;
                        call_args.push(CallArg::Ctx);
                    },
                    Some(ParamKind::Trivial) => {
                        call_args.push(CallArg::Param(params.len()));
                        params.push(PyParam { name: crate::text::copy_chars(name.as_slice()), ty: pty, mapped: false });
                    },
                    Some(ParamKind::PyMapped) => {
                        call_args.push(CallArg::Param(params.len()));
                        params.push(PyParam { name: crate::text::copy_chars(name.as_slice()), ty: pty, mapped: true });
                    },
                    None => {
                        proof {
                            lemma_params_error_sticks(
                                inputs@,
                                rust_ty@,
                                i + 1,
                                inputs@.len() as int,
                                MethodError::UnsupportedParam,
                            );
                        }
                        return Err(MethodError::UnsupportedParam);
                    },
                }
            },
        }
        proof {
            assert(params_view(params@) =~= spec_param_step(acc, inputs@[i as int], rust_ty@)->Ok_0.params);
        }
        i += 1;
    }
    let needs_ctx = match self_kind {
        SelfKind::Static => ctx_seen,
        _ => true,
    };
    let ret = match map_return_type(output, rust_ty, needs_ctx) {
        Ok(ret) => ret,
        Err(e) => {
            return Err(e);
        },
    };
    let plan = MethodPlan { name: ident, self_kind, needs_ctx, params, call_args, ret };
    proof {
        assert(plan@.params == params_view(params@));
    }
    Ok(plan)
}

} // verus!

verus! {

// ---------------------------------------------------------------------------
// `impl` blocks
// ---------------------------------------------------------------------------

/// An item of an `impl` block.
#[derive(Debug)]
pub enum ImplItem {
    /// A method; `public` when declared `pub`.
    Fn { public: bool, sig: Signature },
    /// Constants, types and macros.
    Other,
}

/// An inherent `impl` block.
#[derive(Debug)]
pub struct ItemImpl {
    pub self_ty: TypeExpr,
    pub items: Vec<ImplItem>,
}

/// The `impl` block's self type is not a path with a last segment.
#[derive(Clone, Copy, Debug, PartialEq, Eq, Structural)]
pub enum ImplError {
    NotATypePath,
}

/// The Python mirror of an `impl` block: one outcome per `pub fn`, in order,
/// each tagged with the position of its item in the block.
#[derive(Debug)]
pub struct ImplPlan {
    pub rust_ty: Vec<char>,
    /// `Py` followed by the Rust type's name.
    pub py_ty: Vec<char>,
    pub outcomes: Vec<(usize, Result<MethodPlan, MethodError>)>,
}

pub open spec fn outcome_view(o: (usize, Result<MethodPlan, MethodError>)) -> (usize, Result<
    MethodPlanModel,
    MethodError,
>) {
    (
        o.0,
        match o.1 {
            Ok(p) => Ok(p@),
            Err(e) => Err(e),
        },
    )
}

/// The outcomes of the first `n` items: every `pub fn` is planned, other
/// items are passed over.
pub open spec fn spec_impl_outcomes(items: Seq<ImplItem>, rust_ty: Seq<char>, n: int) -> Seq<
    (usize, Result<MethodPlanModel, MethodError>),
>
    decreases n,
{
    if n <= 0 {
        Seq::empty()
    } else {
        let prev = spec_impl_outcomes(items, rust_ty, n - 1);
        match items[n - 1] {
            ImplItem::Fn { public, sig } => if public {
                prev.push(((n - 1) as usize, spec_method_plan(sig, rust_ty)))
            } else {
                prev
            },
            ImplItem::Other => prev,
        }
    }
}

/// `Py` followed by `name`.
pub open spec fn py_name(name: Seq<char>) -> Seq<char> {
    seq!['P', 'y'] + name
}

/// The name of the type an `impl` block is for: the last segment of its path.
pub fn extract_self_type(t: &TypeExpr) -> (r: Result<Vec<char>, ImplError>)
    ensures
        match r {
            Ok(name) => last_ident(t@) == Some(name@),
            Err(_) => last_ident(t@) is None,
        },
{
    match last_segment_ident(t) {
        Some(name) => Ok(name),
        None => Err(ImplError::NotATypePath),
    }
}

/// `Py<name>`: the name of the generated wrapper struct.
pub fn py_struct_name(name: &[char]) -> (r: Vec<char>)
    ensures
        r@ == py_name(name@),
{
    concat(&['P', 'y'], name)
}

/// Plan the Python mirror of an `impl` block: every `pub fn` becomes a
/// wrapper method (or an error at that method), in order.
pub fn pliron_type_impl(item: ItemImpl) -> (r: Result<ImplPlan, ImplError>)
    ensures
        match r {
            Ok(plan) => {
                &&& last_ident(item.self_ty@) == Some(plan.rust_ty@)
                &&& plan.py_ty@ == py_name(plan.rust_ty@)
                &&& plan.outcomes@.map_values(|o| outcome_view(o)) == spec_impl_outcomes(
                    item.items@,
                    plan.rust_ty@,
                    item.items@.len() as int,
                )
            },
            Err(_) => last_ident(item.self_ty@) is None,
        },
{
    let ghost item0 = item;
    let ItemImpl { self_ty, items } = item;
    let rust_ty = match extract_self_type(&self_ty) {
        Ok(name) => name,
        Err(e) => {
            return Err(e);
        },
    };
    let py_ty = py_struct_name(rust_ty.as_slice());
    let ghost all = items@;
    let _n = items.len();
    let mut rest = items;
    let mut outcomes: Vec<(usize, Result<MethodPlan, MethodError>)> = Vec::new();
    let mut i: usize = 0;
    while rest.len() > 0
        invariant
            all == item0.items@,
            all.len() <= usize::MAX,
            i + rest@.len() == all.len(),
            rest@ == all.subrange(i as int, all.len() as int),
            outcomes@.map_values(|o| outcome_view(o)) == spec_impl_outcomes(all, rust_ty@, i as int),
        decreases rest.len(),
    {
        let it = rest.remove(0);
        proof {
            assert(it == all[i as int]);
        }
        let ghost before = outcomes@;
        match it {
            ImplItem::Fn { public, sig } => {
                if public {
                    let o = gen_py_method(sig, rust_ty.as_slice());
                    outcomes.push((i, o));
                    proof {
                        assert(outcomes@.map_values(|o| outcome_view(o)) =~= before.map_values(
                            |o| outcome_view(o),
                        ).push(outcome_view((i, o))));
                    }
                }
            },
            ImplItem::Other => {},
        }
        proof {
            assert(rest@ =~= all.subrange(i + 1, all.len() as int));
        }
        i += 1;
    }
    Ok(ImplPlan { rust_ty, py_ty, outcomes })
}

} // verus!
