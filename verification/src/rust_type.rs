//! A model of the Rust type expressions that the wrapper generators inspect,
//! and the classification that decides how each crosses into Python.
//!
//! Everything beyond a small set of syntactic specials is handled via the
//! `PyMap` trait at the call site of the generated code — this module
//! deliberately knows almost nothing about domain types.

use vstd::prelude::*;

use crate::text::{chars_eq, copy_chars};

verus! {

/// A Rust type expression.
#[derive(Debug)]
pub enum TypeExpr {
    /// A path type such as `Vec<u32>`, `::core::option::Option<T>` or
    /// `<T as Trait>::Assoc`.
    Path(TypePath),
    /// `&T` or `&mut T`.
    Reference(TypeRef),
    /// `(A, B, ..)`, including the unit type `()`.
    Tuple(Vec<TypeExpr>),
    /// Any other shape (slices, arrays, function pointers, `impl Trait`, ..),
    /// by a reference to the source syntax that only the caller interprets.
    Other(usize),
}

/// A path type.
#[derive(Debug)]
pub struct TypePath {
    /// The `<T as Trait>::` qualifier, by a reference to the source syntax.
    pub qself: Option<usize>,
    /// Written with a leading `::`.
    pub leading_colon: bool,
    pub segments: Vec<PathSegment>,
}

/// A reference type.
#[derive(Debug)]
pub struct TypeRef {
    /// The lifetime of `&'a T`, by a reference to the source syntax.
    pub lifetime: Option<usize>,
    pub mutable: bool,
    pub elem: Box<TypeExpr>,
}

/// One segment of a path, e.g. `Vec<u32>`.
#[derive(Debug)]
pub struct PathSegment {
    pub ident: Vec<char>,
    pub args: PathArguments,
}

/// The arguments of a path segment.
#[derive(Debug)]
pub enum PathArguments {
    /// No arguments.
    Plain,
    /// `<A, B>`.
    AngleBracketed(Vec<GenericArgument>),
    /// `(A, B) -> C`, as in `Fn(A, B) -> C`, by a reference to the source syntax.
    Parenthesized(usize),
}

/// One angle-bracketed argument.
#[derive(Debug)]
pub enum GenericArgument {
    Type(TypeExpr),
    /// A lifetime, a const or an associated-item binding, by a reference to the
    /// source syntax.
    Other(usize),
}

// ---------------------------------------------------------------------------
// The mathematical model
// ---------------------------------------------------------------------------

/// The mathematical value of a [`TypeExpr`].
pub enum TypeModel {
    Path { qself: Option<nat>, leading_colon: bool, segments: Seq<SegmentModel> },
    Reference { lifetime: Option<nat>, mutable: bool, elem: Box<TypeModel> },
    Tuple { elems: Seq<TypeModel> },
    Other(nat),
}

/// The mathematical value of a [`PathSegment`].
pub struct SegmentModel {
    pub ident: Seq<char>,
    pub args: ArgsModel,
}

/// The mathematical value of [`PathArguments`].
pub enum ArgsModel {
    Plain,
    AngleBracketed(Seq<ArgModel>),
    Parenthesized(nat),
}

/// The mathematical value of a [`GenericArgument`].
pub enum ArgModel {
    Type(TypeModel),
    Other(nat),
}

pub open spec fn type_model(t: TypeExpr) -> TypeModel
    decreases t,
{
    match t {
        TypeExpr::Path(p) => TypeModel::Path {
            qself: opt_nat(p.qself),
            leading_colon: p.leading_colon,
            segments: Seq::new(p.segments@.len(), |i: int| segment_model_at(p.segments, i)),
        },
        TypeExpr::Reference(r) => TypeModel::Reference {
            lifetime: opt_nat(r.lifetime),
            mutable: r.mutable,
            elem: Box::new(type_model(*r.elem)),
        },
        TypeExpr::Tuple(v) => TypeModel::Tuple {
            elems: Seq::new(v@.len(), |i: int| type_model_at(v, i)),
        },
        TypeExpr::Other(n) => TypeModel::Other(n as nat),
    }
}

/// An optional reference to syntax, as a number.
pub open spec fn opt_nat(o: Option<usize>) -> Option<nat> {
    match o {
        Some(n) => Some(n as nat),
        None => None,
    }
}

pub open spec fn type_model_at(v: Vec<TypeExpr>, i: int) -> TypeModel
    decreases v, i,
{
    if 0 <= i < v@.len() {
        type_model(v@[i])
    } else {
        TypeModel::Other(0)
    }
}

pub open spec fn segment_model_at(v: Vec<PathSegment>, i: int) -> SegmentModel
    decreases v, i,
{
    if 0 <= i < v@.len() {
        SegmentModel { ident: v@[i].ident@, args: args_model(v@[i].args) }
    } else {
        SegmentModel { ident: Seq::empty(), args: ArgsModel::Plain }
    }
}

pub open spec fn args_model(a: PathArguments) -> ArgsModel
    decreases a,
{
    match a {
        PathArguments::Plain => ArgsModel::Plain,
        PathArguments::AngleBracketed(v) => ArgsModel::AngleBracketed(
            Seq::new(v@.len(), |i: int| arg_model_at(v, i)),
        ),
        PathArguments::Parenthesized(n) => ArgsModel::Parenthesized(n as nat),
    }
}

pub open spec fn arg_model_at(v: Vec<GenericArgument>, i: int) -> ArgModel
    decreases v, i,
{
    if 0 <= i < v@.len() {
        match v@[i] {
            GenericArgument::Type(t) => ArgModel::Type(type_model(t)),
            GenericArgument::Other(n) => ArgModel::Other(n as nat),
        }
    } else {
        ArgModel::Other(0)
    }
}

impl View for TypeExpr {
    type V = TypeModel;

    open spec fn view(&self) -> TypeModel {
        type_model(*self)
    }
}

// ---------------------------------------------------------------------------
// Specification of the classification
// ---------------------------------------------------------------------------

/// How a Rust type is treated when generating a Python wrapper.
#[derive(Clone, Copy, Debug, PartialEq, Eq, Structural)]
pub enum ParamKind {
    /// `&Context` or `&mut Context`: dropped from the Python signature and
    /// supplied from the thread-local active context.
    ContextParam,
    /// A type that pyo3 handles natively (primitive integer/float/bool,
    /// `String`, `&str`, or a `Vec` / `Option` whose innermost element is also
    /// trivial): emitted as-is, with identity conversion both ways.
    Trivial,
    /// Anything else: routed through `PyMap` at the call site.
    PyMapped,
}

/// The last segment's identifier of a path type, if any.
pub open spec fn last_ident(t: TypeModel) -> Option<Seq<char>> {
    match t {
        TypeModel::Path { segments, .. } => if segments.len() > 0 {
            Some(segments.last().ident)
        } else {
            None
        },
        _ => None,
    }
}

/// `Path::is_ident(word)`: no leading `::`, a single segment without
/// arguments, named `word`.
pub open spec fn path_is_ident(leading_colon: bool, segments: Seq<SegmentModel>, word: Seq<char>) -> bool {
    !leading_colon && segments.len() == 1 && segments[0].args is Plain && segments[0].ident == word
}

/// The names pyo3 converts natively.
pub open spec fn is_primitive_name(s: Seq<char>) -> bool {
    ||| s == seq!['b', 'o', 'o', 'l']
    ||| s == seq!['u', '8']
    ||| s == seq!['u', '1', '6']
    ||| s == seq!['u', '3', '2']
    ||| s == seq!['u', '6', '4']
    ||| s == seq!['u', '1', '2', '8']
    ||| s == seq!['u', 's', 'i', 'z', 'e']
    ||| s == seq!['i', '8']
    ||| s == seq!['i', '1', '6']
    ||| s == seq!['i', '3', '2']
    ||| s == seq!['i', '6', '4']
    ||| s == seq!['i', '1', '2', '8']
    ||| s == seq!['i', 's', 'i', 'z', 'e']
    ||| s == seq!['f', '3', '2']
    ||| s == seq!['f', '6', '4']
    ||| s == seq!['S', 't', 'r', 'i', 'n', 'g']
}

/// `Vec` or `Option`.
pub open spec fn is_container_name(s: Seq<char>) -> bool {
    s == seq!['V', 'e', 'c'] || s == seq!['O', 'p', 't', 'i', 'o', 'n']
}

/// The single type argument of `<T>`, if the arguments are exactly that.
pub open spec fn spec_single_generic_arg(a: ArgsModel) -> Option<TypeModel> {
    match a {
        ArgsModel::AngleBracketed(v) => if v.len() == 1 && v[0] is Type {
            Some(v[0]->Type_0)
        } else {
            None
        },
        _ => None,
    }
}

/// `&Context` or `&mut Context` (by the last path segment).
pub open spec fn spec_is_context_ref(t: TypeModel) -> bool {
    match t {
        TypeModel::Reference { elem, .. } => last_ident(*elem) == Some(
            seq!['C', 'o', 'n', 't', 'e', 'x', 't'],
        ),
        _ => false,
    }
}

/// PyO3-trivial: a primitive, `String`, `&str`, or a `Vec` / `Option` whose
/// element is itself trivial.
pub open spec fn spec_is_trivial(t: TypeModel) -> bool
    decreases t,
{
    match t {
        TypeModel::Reference { elem, .. } => last_ident(*elem) == Some(seq!['s', 't', 'r']),
        TypeModel::Path { segments, .. } => {
            if segments.len() == 0 {
                false
            } else {
                let last = segments.last();
                if is_primitive_name(last.ident) {
                    true
                } else if is_container_name(last.ident) {
                    match last.args {
                        ArgsModel::AngleBracketed(v) => if v.len() == 1 && v[0] is Type {
                            spec_is_trivial(v[0]->Type_0)
                        } else {
                            false
                        },
                        _ => false,
                    }
                } else {
                    false
                }
            }
        },
        _ => false,
    }
}

/// The classification of a type.
pub open spec fn spec_classify(t: TypeModel) -> Option<ParamKind> {
    if spec_is_context_ref(t) {
        Some(ParamKind::ContextParam)
    } else if spec_is_trivial(t) {
        Some(ParamKind::Trivial)
    } else {
        Some(ParamKind::PyMapped)
    }
}

// ---------------------------------------------------------------------------
// The classification
// ---------------------------------------------------------------------------

fn last_segment(t: &TypeExpr) -> (r: Option<&PathSegment>)
    ensures
        match r {
            Some(s) => t@ is Path && last_ident(t@) == Some(s.ident@) && (t@->Path_segments).last().args
                == args_model(s.args),
            None => last_ident(t@) is None,
        },
{
    match t {
        TypeExpr::Path(p) => {
            let n = p.segments.len();
            if n == 0 {
                None
            } else {
                let s = &p.segments[n - 1];
                proof {
                    assert(segment_model_at(p.segments, n - 1) == SegmentModel {
                        ident: s.ident@,
                        args: args_model(s.args),
                    });
                }
                Some(s)
            }
        },
        _ => None,
    }
}

/// The identifier of the last path segment, if `t` is a path with segments.
pub fn last_segment_ident(t: &TypeExpr) -> (r: Option<Vec<char>>)
    ensures
        match r {
            Some(s) => last_ident(t@) == Some(s@),
            None => last_ident(t@) is None,
        },
{
    match last_segment(t) {
        Some(s) => Some(copy_chars(s.ident.as_slice())),
        None => None,
    }
}

fn last_ident_is(t: &TypeExpr, word: &[char]) -> (r: bool)
    ensures
        r == (last_ident(t@) == Some(word@)),
{
    match last_segment(t) {
        Some(s) => chars_eq(s.ident.as_slice(), word),
        None => false,
    }
}

/// `&Context` or `&mut Context`.
pub fn is_context_ref(t: &TypeExpr) -> (r: bool)
    ensures
        r == spec_is_context_ref(t@),
{
    match t {
        TypeExpr::Reference(r) => last_ident_is(&r.elem, &['C', 'o', 'n', 't', 'e', 'x', 't']),
        _ => false,
    }
}

fn is_primitive(s: &[char]) -> (r: bool)
    ensures
        r == is_primitive_name(s@),
{
    chars_eq(s, &['b', 'o', 'o', 'l']) || chars_eq(s, &['u', '8']) || chars_eq(s, &['u', '1', '6'])
        || chars_eq(s, &['u', '3', '2']) || chars_eq(s, &['u', '6', '4']) || chars_eq(
        s,
        &['u', '1', '2', '8'],
    ) || chars_eq(s, &['u', 's', 'i', 'z', 'e']) || chars_eq(s, &['i', '8']) || chars_eq(
        s,
        &['i', '1', '6'],
    ) || chars_eq(s, &['i', '3', '2']) || chars_eq(s, &['i', '6', '4']) || chars_eq(
        s,
        &['i', '1', '2', '8'],
    ) || chars_eq(s, &['i', 's', 'i', 'z', 'e']) || chars_eq(s, &['f', '3', '2']) || chars_eq(
        s,
        &['f', '6', '4'],
    ) || chars_eq(s, &['S', 't', 'r', 'i', 'n', 'g'])
}

/// The single type argument of angle-bracketed arguments `<T>`.
pub fn single_generic_arg(a: &PathArguments) -> (r: Option<&TypeExpr>)
    ensures
        match r {
            Some(t) => {
                &&& spec_single_generic_arg(args_model(*a)) == Some(t@)
                &&& *a is AngleBracketed
                &&& (*a)->AngleBracketed_0@.len() == 1
                &&& (*a)->AngleBracketed_0@[0] == GenericArgument::Type(*t)
            },
            None => spec_single_generic_arg(args_model(*a)) is None,
        },
{
    match a {
        PathArguments::AngleBracketed(v) => {
            if v.len() != 1 {
                return None;
            }
            match &v[0] {
                GenericArgument::Type(t) => {
                    proof {
                        assert(arg_model_at(*v, 0) == ArgModel::Type(t@));
                    }
                    Some(t)
                },
                GenericArgument::Other(n) => {
                    proof {
                        assert(arg_model_at(*v, 0) == ArgModel::Other(*n as nat));
                    }
                    None
                },
            }
        },
        _ => None,
    }
}

/// Recursively decide whether `t` is PyO3-trivial.
pub fn is_trivial(t: &TypeExpr) -> (r: bool)
    ensures
        r == spec_is_trivial(t@),
    decreases t,
{
    match t {
        TypeExpr::Reference(r) => last_ident_is(&r.elem, &['s', 't', 'r']),
        TypeExpr::Path(p) => {
            let n = p.segments.len();
            if n == 0 {
                return false;
            }
            let last = &p.segments[n - 1];
            proof {
                assert(segment_model_at(p.segments, n - 1) == SegmentModel {
                    ident: last.ident@,
                    args: args_model(last.args),
                });
            }
            if is_primitive(last.ident.as_slice()) {
                true
            } else if chars_eq(last.ident.as_slice(), &['V', 'e', 'c']) || chars_eq(
                last.ident.as_slice(),
                &['O', 'p', 't', 'i', 'o', 'n'],
            ) {
                match single_generic_arg(&last.args) {
                    Some(inner) => {
                        proof {
                            let v = last.args->AngleBracketed_0;
                            assert(decreases_to!(*t => (*t)->Path_0));
                            assert(decreases_to!(*p => p.segments));
                            assert(decreases_to!(p.segments => p.segments@));
                            assert(decreases_to!(p.segments@ => p.segments@[n - 1]));
                            assert(decreases_to!(p.segments@[n - 1] => last.args));
                            assert(decreases_to!(last.args => v));
                            assert(decreases_to!(v => v@));
                            assert(decreases_to!(v@ => v@[0]));
                            assert(decreases_to!(v@[0] => v@[0]->Type_0));
                        }
                        is_trivial(inner)
                    },
                    None => false,
                }
            } else {
                false
            }
        },
        _ => false,
    }
}

/// Classify a type. Never `None`: every shape is routed.
pub fn classify(t: &TypeExpr) -> (r: Option<ParamKind>)
    ensures
        r == spec_classify(t@),
        r is Some,
{
    if is_context_ref(t) {
        Some(ParamKind::ContextParam)
    } else if is_trivial(t) {
        Some(ParamKind::Trivial)
    } else {
        Some(ParamKind::PyMapped)
    }
}

/// Law: a `Vec<T>` or `Option<T>` is trivial exactly when `T` is.
pub proof fn lemma_container_trivial_iff_element(
    qself: Option<nat>,
    leading_colon: bool,
    prefix: Seq<SegmentModel>,
    container: Seq<char>,
    elem: TypeModel,
)
    requires
        is_container_name(container),
    ensures
        spec_is_trivial(
            TypeModel::Path {
                qself,
                leading_colon,
                segments: prefix.push(
                    SegmentModel {
                        ident: container,
                        args: ArgsModel::AngleBracketed(seq![ArgModel::Type(elem)]),
                    },
                ),
            },
        ) == spec_is_trivial(elem),
{
    assert(!is_primitive_name(container));
}

/// Law: `&Context` is always dropped from the Python signature, whatever the
/// trivial-type rules say.
pub proof fn lemma_context_ref_classified_first(t: TypeModel)
    requires
        spec_is_context_ref(t),
    ensures
        spec_classify(t) == Some(ParamKind::ContextParam),
{
}

} // verus!

verus! {

// ---------------------------------------------------------------------------
// `Self` substitution
// ---------------------------------------------------------------------------

/// `Self`.
pub open spec fn self_word() -> Seq<char> {
    seq!['S', 'e', 'l', 'f']
}

/// The plain path naming `concrete`.
pub open spec fn concrete_path(concrete: Seq<char>) -> TypeModel {
    TypeModel::Path {
        qself: None,
        leading_colon: false,
        segments: seq![SegmentModel { ident: concrete, args: ArgsModel::Plain }],
    }
}

/// `t` with every `Self` path (in path arguments, reference targets and
/// tuple elements) replaced by the path `concrete`.
pub open spec fn subst_self(t: TypeModel, concrete: Seq<char>) -> TypeModel
    decreases t,
{
    match t {
        TypeModel::Path { qself, leading_colon, segments } => if path_is_ident(
            leading_colon,
            segments,
            self_word(),
        ) {
            concrete_path(concrete)
        } else {
            TypeModel::Path {
                qself,
                leading_colon,
                segments: Seq::new(segments.len(), |i: int| subst_segment_at(segments, i, concrete)),
            }
        },
        TypeModel::Reference { lifetime, mutable, elem } => TypeModel::Reference {
            lifetime,
            mutable,
            elem: Box::new(subst_self(*elem, concrete)),
        },
        TypeModel::Tuple { elems } => TypeModel::Tuple {
            elems: Seq::new(elems.len(), |i: int| subst_elem_at(elems, i, concrete)),
        },
        TypeModel::Other(n) => TypeModel::Other(n),
    }
}

pub open spec fn subst_elem_at(v: Seq<TypeModel>, i: int, concrete: Seq<char>) -> TypeModel
    decreases v, i,
{
    if 0 <= i < v.len() {
        subst_self(v[i], concrete)
    } else {
        TypeModel::Other(0)
    }
}

pub open spec fn subst_segment_at(v: Seq<SegmentModel>, i: int, concrete: Seq<char>) -> SegmentModel
    decreases v, i,
{
    if 0 <= i < v.len() {
        SegmentModel { ident: v[i].ident, args: subst_args(v[i].args, concrete) }
    } else {
        SegmentModel { ident: Seq::empty(), args: ArgsModel::Plain }
    }
}

pub open spec fn subst_args(a: ArgsModel, concrete: Seq<char>) -> ArgsModel
    decreases a,
{
    match a {
        ArgsModel::AngleBracketed(v) => ArgsModel::AngleBracketed(
            Seq::new(v.len(), |i: int| subst_arg_at(v, i, concrete)),
        ),
        ArgsModel::Plain => ArgsModel::Plain,
        ArgsModel::Parenthesized(n) => ArgsModel::Parenthesized(n),
    }
}

pub open spec fn subst_arg_at(v: Seq<ArgModel>, i: int, concrete: Seq<char>) -> ArgModel
    decreases v, i,
{
    if 0 <= i < v.len() {
        match v[i] {
            ArgModel::Type(t) => ArgModel::Type(subst_self(t, concrete)),
            ArgModel::Other(n) => ArgModel::Other(n),
        }
    } else {
        ArgModel::Other(0)
    }
}

/// `Self`, or a path whose angle-bracketed arguments mention `Self` (at any
/// depth of path arguments).
pub open spec fn mentions_self(t: TypeModel) -> bool
    decreases t,
{
    match t {
        TypeModel::Path { leading_colon, segments, .. } => path_is_ident(
            leading_colon,
            segments,
            self_word(),
        ) || segments_mention_self(segments, segments.len() as int),
        _ => false,
    }
}

/// Some of the first `n` segments has an argument that mentions `Self`.
pub open spec fn segments_mention_self(v: Seq<SegmentModel>, n: int) -> bool
    decreases v, n,
{
    if 0 < n <= v.len() {
        args_mention_self(v[n - 1].args) || segments_mention_self(v, n - 1)
    } else {
        false
    }
}

pub open spec fn args_mention_self(a: ArgsModel) -> bool
    decreases a,
{
    match a {
        ArgsModel::AngleBracketed(v) => arg_list_mentions_self(v, v.len() as int),
        _ => false,
    }
}

/// Some of the first `n` arguments is a type that mentions `Self`.
pub open spec fn arg_list_mentions_self(v: Seq<ArgModel>, n: int) -> bool
    decreases v, n,
{
    if 0 < n <= v.len() {
        (v[n - 1] is Type && mentions_self(v[n - 1]->Type_0)) || arg_list_mentions_self(v, n - 1)
    } else {
        false
    }
}

} // verus!

verus! {

fn is_self_path(p: &TypePath) -> (r: bool)
    ensures
        r == path_is_ident(p.leading_colon, (type_model(TypeExpr::Path(*p)))->Path_segments, self_word()),
{
    if p.leading_colon || p.segments.len() != 1 {
        return false;
    }
    let s = &p.segments[0];
    proof {
        assert(segment_model_at(p.segments, 0) == SegmentModel {
            ident: s.ident@,
            args: args_model(s.args),
        });
    }
    match &s.args {
        PathArguments::Plain => chars_eq(s.ident.as_slice(), &['S', 'e', 'l', 'f']),
        _ => false,
    }
}

fn substitute_in_args(a: &PathArguments, concrete: &[char]) -> (r: PathArguments)
    ensures
        args_model(r) == subst_args(args_model(*a), concrete@),
    decreases a,
{
    match a {
        PathArguments::Plain => {
            proof {
                assert(subst_args(args_model(PathArguments::Plain), concrete@) == ArgsModel::Plain);
            }
            PathArguments::Plain
        },
        PathArguments::Parenthesized(n) => {
            proof {
                assert(subst_args(args_model(PathArguments::Parenthesized(*n)), concrete@)
                    == ArgsModel::Parenthesized(*n as nat));
            }
            PathArguments::Parenthesized(*n)
        },
        PathArguments::AngleBracketed(v) => {
            let ghost vm = Seq::new(v@.len(), |i: int| arg_model_at(*v, i));
            let mut out: Vec<GenericArgument> = Vec::new();
            let mut j: usize = 0;
            while j < v.len()
                invariant
                    0 <= j <= v.len(),
                    out@.len() == j,
                    *a == PathArguments::AngleBracketed(*v),
                    vm == Seq::new(v@.len(), |i: int| arg_model_at(*v, i)),
                    forall|k: int| 0 <= k < j ==> arg_model_at(out, k) == subst_arg_at(vm, k, concrete@),
                decreases v.len() - j,
            {
                let ghost before = out;
                let item = match &v[j] {
                    GenericArgument::Type(t) => {
                        proof {
                            assert(vm[j as int] == ArgModel::Type(t@));
                            assert(decreases_to!(*a => (*a)->AngleBracketed_0));
                            assert(decreases_to!(*v => v@));
                            assert(decreases_to!(v@ => v@[j as int]));
                            assert(decreases_to!(v@[j as int] => *t));
                        }
                        GenericArgument::Type(substitute_self(t, concrete))
                    },
                    GenericArgument::Other(n) => {
                        proof {
                            assert(vm[j as int] == ArgModel::Other(*n as nat));
                        }
                        GenericArgument::Other(*n)
                    },
                };
                proof {
                    assert(subst_arg_at(vm, j as int, concrete@) == match item {
                        GenericArgument::Type(t) => ArgModel::Type(type_model(t)),
                        GenericArgument::Other(n) => ArgModel::Other(n as nat),
                    });
                }
                out.push(item);
                proof {
                    assert(out@[j as int] == item);
                    assert forall|k: int| 0 <= k <= j implies arg_model_at(out, k) == subst_arg_at(
                        vm,
                        k,
                        concrete@,
                    ) by {
                        if k < j {
                            assert(out@[k] == before@[k]);
                            assert(arg_model_at(out, k) == arg_model_at(before, k));
                        }
                    }
                }
                j += 1;
            }
            let r = PathArguments::AngleBracketed(out);
            proof {
                assert(args_model(*a)->AngleBracketed_0 =~= vm);
                assert(subst_args(args_model(*a), concrete@)->AngleBracketed_0.len() == vm.len());
                assert(args_model(r)->AngleBracketed_0.len() == vm.len());
                assert forall|k: int| 0 <= k < vm.len() implies args_model(r)->AngleBracketed_0[k]
                    == subst_args(args_model(*a), concrete@)->AngleBracketed_0[k] by {
                    assert(args_model(r)->AngleBracketed_0[k] == arg_model_at(out, k));
                    assert(subst_args(args_model(*a), concrete@)->AngleBracketed_0[k] == subst_arg_at(vm, k, concrete@));
                }
                assert(args_model(r)->AngleBracketed_0 =~= subst_args(args_model(*a), concrete@)->AngleBracketed_0);
            }
            r
        },
    }
}

/// Substitute `Self` → `concrete` in a type expression. Used by the impl-block
/// generators to turn `fn foo() -> Self` and `fn foo() -> TypedHandle<Self>`
/// into concrete types the trait machinery can resolve.
pub fn substitute_self(t: &TypeExpr, concrete: &[char]) -> (r: TypeExpr)
    ensures
        r@ == subst_self(t@, concrete@),
    decreases t,
{
    match t {
        TypeExpr::Path(p) => {
            if is_self_path(p) {
                let mut segments: Vec<PathSegment> = Vec::new();
                let id = copy_chars(concrete);
                segments.push(PathSegment { ident: id, args: PathArguments::Plain });
                proof {
                    assert(segment_model_at(segments, 0) == SegmentModel {
                        ident: concrete@,
                        args: ArgsModel::Plain,
                    });
                }
                let r = TypeExpr::Path(TypePath { qself: None, leading_colon: false, segments });
                proof {
                    assert(r@->Path_segments =~= concrete_path(concrete@)->Path_segments);
                }
                return r;
            }
            let ghost sm = Seq::new(p.segments@.len(), |i: int| segment_model_at(p.segments, i));
            let mut out: Vec<PathSegment> = Vec::new();
            let mut i: usize = 0;
            while i < p.segments.len()
                invariant
                    0 <= i <= p.segments.len(),
                    out@.len() == i,
                    *t == TypeExpr::Path(*p),
                    sm == Seq::new(p.segments@.len(), |i: int| segment_model_at(p.segments, i)),
                    forall|k: int|
                        0 <= k < i ==> segment_model_at(out, k) == subst_segment_at(sm, k, concrete@),
                decreases p.segments.len() - i,
            {
                let ghost before = out;
                let s = &p.segments[i];
                proof {
                    assert(sm[i as int] == SegmentModel { ident: s.ident@, args: args_model(s.args) });
                    assert(decreases_to!(*t => (*t)->Path_0));
                    assert(decreases_to!(*p => p.segments));
                    assert(decreases_to!(p.segments => p.segments@));
                    assert(decreases_to!(p.segments@ => p.segments@[i as int]));
                    assert(decreases_to!(p.segments@[i as int] => s.args));
                }
                let id = copy_chars(s.ident.as_slice());
                let args = substitute_in_args(&s.args, concrete);
                let seg = PathSegment { ident: id, args };
                proof {
                    assert(subst_segment_at(sm, i as int, concrete@) == SegmentModel {
                        ident: seg.ident@,
                        args: args_model(seg.args),
                    });
                }
                out.push(seg);
                proof {
                    assert(out@[i as int] == seg);
                    assert forall|k: int|
                        0 <= k <= i implies segment_model_at(out, k) == subst_segment_at(
                        sm,
                        k,
                        concrete@,
                    ) by {
                        if k < i {
                            assert(out@[k] == before@[k]);
                            assert(segment_model_at(out, k) == segment_model_at(before, k));
                        }
                    }
                }
                i += 1;
            }
            let r = TypeExpr::Path(
                TypePath { qself: p.qself, leading_colon: p.leading_colon, segments: out },
            );
            proof {
                assert(t@->Path_segments =~= sm);
                assert(t@ is Path);
                assert(!path_is_ident(p.leading_colon, sm, self_word()));
                assert(subst_self(t@, concrete@) is Path);
                assert(subst_self(t@, concrete@)->Path_segments.len() == sm.len());
                assert(r@->Path_segments.len() == sm.len());
                assert forall|k: int| 0 <= k < sm.len() implies r@->Path_segments[k] == subst_self(t@, concrete@)->Path_segments[k] by {
                    assert(r@->Path_segments[k] == segment_model_at(out, k));
                    assert(subst_self(t@, concrete@)->Path_segments[k] == subst_segment_at(sm, k, concrete@));
                }
                assert(r@->Path_segments =~= subst_self(t@, concrete@)->Path_segments);
            }
            r
        },
        TypeExpr::Reference(rf) => TypeExpr::Reference(
            TypeRef {
                lifetime: rf.lifetime,
                mutable: rf.mutable,
                elem: Box::new(substitute_self(&rf.elem, concrete)),
            },
        ),
        TypeExpr::Tuple(v) => {
            let ghost vm = Seq::new(v@.len(), |i: int| type_model_at(*v, i));
            let mut out: Vec<TypeExpr> = Vec::new();
            let mut j: usize = 0;
            while j < v.len()
                invariant
                    0 <= j <= v.len(),
                    out@.len() == j,
                    *t == TypeExpr::Tuple(*v),
                    vm == Seq::new(v@.len(), |i: int| type_model_at(*v, i)),
                    forall|k: int| 0 <= k < j ==> type_model_at(out, k) == subst_elem_at(vm, k, concrete@),
                decreases v.len() - j,
            {
                let ghost before = out;
                proof {
                    assert(vm[j as int] == v@[j as int]@);
                    assert(decreases_to!(*t => (*t)->Tuple_0));
                    assert(decreases_to!(*v => v@));
                    assert(decreases_to!(v@ => v@[j as int]));
                }
                let e = substitute_self(&v[j], concrete);
                out.push(e);
                proof {
                    assert(out@[j as int] == e);
                    assert forall|k: int| 0 <= k <= j implies type_model_at(out, k) == subst_elem_at(
                        vm,
                        k,
                        concrete@,
                    ) by {
                        if k < j {
                            assert(out@[k] == before@[k]);
                            assert(type_model_at(out, k) == type_model_at(before, k));
                        }
                    }
                }
                j += 1;
            }
            let r = TypeExpr::Tuple(out);
            proof {
                assert(t@->Tuple_elems =~= vm);
                assert(t@ is Tuple);
                assert(subst_self(t@, concrete@) is Tuple);
                assert(subst_self(t@, concrete@)->Tuple_elems.len() == v@.len());
                assert(r@->Tuple_elems.len() == v@.len());
                assert forall|k: int| 0 <= k < v@.len() implies r@->Tuple_elems[k] == subst_self(t@, concrete@)->Tuple_elems[k] by {
                    assert(r@->Tuple_elems[k] == type_model_at(out, k));
                    assert(subst_self(t@, concrete@)->Tuple_elems[k] == subst_elem_at(vm, k, concrete@));
                }
                assert(r@->Tuple_elems =~= subst_self(t@, concrete@)->Tuple_elems);
            }
            r
        },
        TypeExpr::Other(n) => TypeExpr::Other(*n),
    }
}

proof fn lemma_segments_mention_grows(v: Seq<SegmentModel>, n: int, m: int)
    requires
        0 <= n <= m <= v.len(),
        segments_mention_self(v, n),
    ensures
        segments_mention_self(v, m),
    decreases m - n,
{
    if n < m {
        lemma_segments_mention_grows(v, n, m - 1);
    }
}

proof fn lemma_args_mention_grows(v: Seq<ArgModel>, n: int, m: int)
    requires
        0 <= n <= m <= v.len(),
        arg_list_mentions_self(v, n),
    ensures
        arg_list_mentions_self(v, m),
    decreases m - n,
{
    if n < m {
        lemma_args_mention_grows(v, n, m - 1);
    }
}

fn args_mention_self_exec(a: &PathArguments) -> (r: bool)
    ensures
        r == args_mention_self(args_model(*a)),
    decreases a,
{
    match a {
        PathArguments::AngleBracketed(v) => {
            let ghost vm = args_model(*a)->AngleBracketed_0;
            let mut j: usize = 0;
            while j < v.len()
                invariant
                    0 <= j <= v.len(),
                    *a == PathArguments::AngleBracketed(*v),
                    vm == args_model(*a)->AngleBracketed_0,
                    vm.len() == v@.len(),
                    !arg_list_mentions_self(vm, j as int),
                decreases v.len() - j,
            {
                proof {
                    assert(vm[j as int] == arg_model_at(*v, j as int));
                }
                let hit = match &v[j] {
                    GenericArgument::Type(t) => {
                        proof {
                            assert(decreases_to!(*a => (*a)->AngleBracketed_0));
                            assert(decreases_to!(*v => v@));
                            assert(decreases_to!(v@ => v@[j as int]));
                            assert(decreases_to!(v@[j as int] => *t));
                        }
                        return_mentions_self(t)
                    },
                    GenericArgument::Other(_) => false,
                };
                if hit {
                    proof {
                        assert(arg_list_mentions_self(vm, j + 1));
                        lemma_args_mention_grows(vm, j + 1, vm.len() as int);
                    }
                    return true;
                }
                j += 1;
            }
            false
        },
        _ => false,
    }
}

/// True if the type is `Self`, or a path whose angle-bracketed arguments
/// mention `Self` (as in `Result<Self, _>` or `TypedHandle<Self>`).
pub fn return_mentions_self(t: &TypeExpr) -> (r: bool)
    ensures
        r == mentions_self(t@),
    decreases t,
{
    match t {
        TypeExpr::Path(p) => {
            if is_self_path(p) {
                return true;
            }
            let ghost sm = t@->Path_segments;
            let mut i: usize = 0;
            while i < p.segments.len()
                invariant
                    0 <= i <= p.segments.len(),
                    *t == TypeExpr::Path(*p),
                    sm == t@->Path_segments,
                    sm.len() == p.segments@.len(),
                    !segments_mention_self(sm, i as int),
                decreases p.segments.len() - i,
            {
                let s = &p.segments[i];
                proof {
                    assert(sm[i as int] == segment_model_at(p.segments, i as int));
                    assert(decreases_to!(*t => (*t)->Path_0));
                    assert(decreases_to!(*p => p.segments));
                    assert(decreases_to!(p.segments => p.segments@));
                    assert(decreases_to!(p.segments@ => p.segments@[i as int]));
                    assert(decreases_to!(p.segments@[i as int] => s.args));
                }
                if args_mention_self_exec(&s.args) {
                    proof {
                        assert(segments_mention_self(sm, i + 1));
                        lemma_segments_mention_grows(sm, i + 1, sm.len() as int);
                    }
                    return true;
                }
                i += 1;
            }
            false
        },
        _ => false,
    }
}

/// Law: once `Self` has been replaced by a concrete name other than `Self`,
/// the result no longer mentions `Self`.
pub proof fn lemma_subst_clears_self(t: TypeModel, concrete: Seq<char>)
    requires
        concrete != self_word(),
    ensures
        !mentions_self(subst_self(t, concrete)),
    decreases t, 0int,
{
    match t {
        TypeModel::Path { qself, leading_colon, segments } => {
            if path_is_ident(leading_colon, segments, self_word()) {
                let r = concrete_path(concrete);
                assert(r->Path_segments[0].args == ArgsModel::Plain);
                assert(!args_mention_self(ArgsModel::Plain));
                assert(!segments_mention_self(r->Path_segments, 0));
                assert(!segments_mention_self(r->Path_segments, 1));
            } else {
                let s2 = subst_self(t, concrete)->Path_segments;
                assert(s2.len() == segments.len());
                if s2.len() == 1 {
                    assert(s2[0] == subst_segment_at(segments, 0, concrete));
                }
                lemma_segments_clear(segments, s2, concrete, segments.len() as int);
            }
        },
        _ => {},
    }
}

proof fn lemma_segments_clear(segs: Seq<SegmentModel>, s2: Seq<SegmentModel>, concrete: Seq<char>, n: int)
    requires
        concrete != self_word(),
        s2.len() == segs.len(),
        forall|i: int| 0 <= i < segs.len() ==> s2[i] == subst_segment_at(segs, i, concrete),
        0 <= n <= segs.len(),
    ensures
        !segments_mention_self(s2, n),
    decreases segs, n,
{
    if n > 0 {
        lemma_segments_clear(segs, s2, concrete, n - 1);
        assert(decreases_to!(segs => segs[n - 1]));
        lemma_args_clear(segs[n - 1].args, concrete);
        assert(s2[n - 1] == subst_segment_at(segs, n - 1, concrete));
    }
}

proof fn lemma_args_clear(a: ArgsModel, concrete: Seq<char>)
    requires
        concrete != self_word(),
    ensures
        !args_mention_self(subst_args(a, concrete)),
    decreases a, 0int,
{
    match a {
        ArgsModel::AngleBracketed(v) => {
            let v2 = subst_args(a, concrete)->AngleBracketed_0;
            lemma_arg_list_clear(v, v2, concrete, v.len() as int);
        },
        _ => {},
    }
}

proof fn lemma_arg_list_clear(v: Seq<ArgModel>, v2: Seq<ArgModel>, concrete: Seq<char>, n: int)
    requires
        concrete != self_word(),
        v2.len() == v.len(),
        forall|i: int| 0 <= i < v.len() ==> v2[i] == subst_arg_at(v, i, concrete),
        0 <= n <= v.len(),
    ensures
        !arg_list_mentions_self(v2, n),
    decreases v, n,
{
    if n > 0 {
        lemma_arg_list_clear(v, v2, concrete, n - 1);
        assert(v2[n - 1] == subst_arg_at(v, n - 1, concrete));
        if v[n - 1] is Type {
            assert(decreases_to!(v => v[n - 1]));
            lemma_subst_clears_self(v[n - 1]->Type_0, concrete);
        }
    }
}

/// Law: replacing `Self` by a name a second time changes nothing.
pub proof fn lemma_subst_idempotent(t: TypeModel, concrete: Seq<char>)
    ensures
        subst_self(subst_self(t, concrete), concrete) == subst_self(t, concrete),
    decreases t, 0int,
{
    let once = subst_self(t, concrete);
    let twice = subst_self(once, concrete);
    match t {
        TypeModel::Path { qself, leading_colon, segments } => {
            if path_is_ident(leading_colon, segments, self_word()) {
                let s1 = once->Path_segments;
                if concrete == self_word() {
                    assert(path_is_ident(false, s1, self_word()));
                } else {
                    assert(!path_is_ident(false, s1, self_word()));
                    assert(twice->Path_segments[0] == subst_segment_at(s1, 0, concrete));
                    assert(twice->Path_segments =~= s1);
                }
            } else {
                let s1 = once->Path_segments;
                assert(s1.len() == segments.len());
                if s1.len() == 1 {
                    assert(s1[0] == subst_segment_at(segments, 0, concrete));
                }
                assert(!path_is_ident(leading_colon, s1, self_word()));
                assert forall|i: int| 0 <= i < s1.len() implies #[trigger] twice->Path_segments[i]
                    == s1[i] by {
                    assert(decreases_to!(segments => segments[i]));
                    lemma_subst_args_idempotent(segments[i].args, concrete);
                    assert(s1[i] == subst_segment_at(segments, i, concrete));
                    assert(twice->Path_segments[i] == subst_segment_at(s1, i, concrete));
                }
                assert(twice->Path_segments =~= s1);
            }
        },
        TypeModel::Reference { lifetime, mutable, elem } => {
            lemma_subst_idempotent(*elem, concrete);
        },
        TypeModel::Tuple { elems } => {
            let e1 = once->Tuple_elems;
            assert forall|i: int| 0 <= i < e1.len() implies #[trigger] twice->Tuple_elems[i] == e1[i] by {
                assert(decreases_to!(elems => elems[i]));
                lemma_subst_idempotent(elems[i], concrete);
                assert(e1[i] == subst_elem_at(elems, i, concrete));
                assert(twice->Tuple_elems[i] == subst_elem_at(e1, i, concrete));
            }
            assert(twice->Tuple_elems =~= e1);
        },
        TypeModel::Other(_) => {},
    }
}

proof fn lemma_subst_args_idempotent(a: ArgsModel, concrete: Seq<char>)
    ensures
        subst_args(subst_args(a, concrete), concrete) == subst_args(a, concrete),
    decreases a, 0int,
{
    match a {
        ArgsModel::AngleBracketed(v) => {
            let v1 = subst_args(a, concrete)->AngleBracketed_0;
            let v2 = subst_args(subst_args(a, concrete), concrete)->AngleBracketed_0;
            assert forall|i: int| 0 <= i < v1.len() implies #[trigger] v2[i] == v1[i] by {
                assert(v1[i] == subst_arg_at(v, i, concrete));
                assert(v2[i] == subst_arg_at(v1, i, concrete));
                if v[i] is Type {
                    assert(decreases_to!(v => v[i]));
                    lemma_subst_idempotent(v[i]->Type_0, concrete);
                }
            }
            assert(v2 =~= v1);
        },
        _ => {},
    }
}

/// `t` has a `Self` path somewhere: itself, in a path's angle-bracketed
/// arguments, behind a reference or in a tuple.
pub open spec fn has_self(t: TypeModel) -> bool
    decreases t, 0int,
{
    match t {
        TypeModel::Path { leading_colon, segments, .. } => path_is_ident(
            leading_colon,
            segments,
            self_word(),
        ) || segments_have_self(segments, segments.len() as int),
        TypeModel::Reference { elem, .. } => has_self(*elem),
        TypeModel::Tuple { elems } => elems_have_self(elems, elems.len() as int),
        TypeModel::Other(_) => false,
    }
}

/// Some of the first `n` tuple elements has a `Self` path.
pub open spec fn elems_have_self(v: Seq<TypeModel>, n: int) -> bool
    decreases v, n,
{
    if 0 < n <= v.len() {
        has_self(v[n - 1]) || elems_have_self(v, n - 1)
    } else {
        false
    }
}

/// Some of the first `n` segments has an argument with a `Self` path.
pub open spec fn segments_have_self(v: Seq<SegmentModel>, n: int) -> bool
    decreases v, n,
{
    if 0 < n <= v.len() {
        args_have_self(v[n - 1].args) || segments_have_self(v, n - 1)
    } else {
        false
    }
}

pub open spec fn args_have_self(a: ArgsModel) -> bool
    decreases a, 0int,
{
    match a {
        ArgsModel::AngleBracketed(v) => arg_list_has_self(v, v.len() as int),
        _ => false,
    }
}

/// Some of the first `n` arguments is a type with a `Self` path.
pub open spec fn arg_list_has_self(v: Seq<ArgModel>, n: int) -> bool
    decreases v, n,
{
    if 0 < n <= v.len() {
        (v[n - 1] is Type && has_self(v[n - 1]->Type_0)) || arg_list_has_self(v, n - 1)
    } else {
        false
    }
}

/// Law: a type without any `Self` path comes back unchanged.
pub proof fn lemma_subst_without_self(t: TypeModel, concrete: Seq<char>)
    requires
        !has_self(t),
    ensures
        subst_self(t, concrete) == t,
    decreases t, 0int,
{
    let once = subst_self(t, concrete);
    match t {
        TypeModel::Path { qself, leading_colon, segments } => {
            assert forall|i: int| 0 <= i < segments.len() implies #[trigger] once->Path_segments[i]
                == segments[i] by {
                lemma_segments_have_self_prefix(segments, i + 1, segments.len() as int);
                assert(!args_have_self(segments[i].args));
                assert(decreases_to!(segments => segments[i]));
                lemma_args_without_self(segments[i].args, concrete);
                assert(once->Path_segments[i] == subst_segment_at(segments, i, concrete));
            }
            assert(once->Path_segments =~= segments);
        },
        TypeModel::Reference { lifetime, mutable, elem } => {
            lemma_subst_without_self(*elem, concrete);
        },
        TypeModel::Tuple { elems } => {
            assert forall|i: int| 0 <= i < elems.len() implies #[trigger] once->Tuple_elems[i] == elems[i] by {
                lemma_elems_have_self_prefix(elems, i + 1, elems.len() as int);
                assert(decreases_to!(elems => elems[i]));
                lemma_subst_without_self(elems[i], concrete);
                assert(once->Tuple_elems[i] == subst_elem_at(elems, i, concrete));
            }
            assert(once->Tuple_elems =~= elems);
        },
        TypeModel::Other(_) => {},
    }
}

proof fn lemma_args_without_self(a: ArgsModel, concrete: Seq<char>)
    requires
        !args_have_self(a),
    ensures
        subst_args(a, concrete) == a,
    decreases a, 0int,
{
    match a {
        ArgsModel::AngleBracketed(v) => {
            let v1 = subst_args(a, concrete)->AngleBracketed_0;
            assert forall|i: int| 0 <= i < v.len() implies #[trigger] v1[i] == v[i] by {
                lemma_arg_list_has_self_prefix(v, i + 1, v.len() as int);
                assert(v1[i] == subst_arg_at(v, i, concrete));
                if v[i] is Type {
                    assert(decreases_to!(v => v[i]));
                    lemma_subst_without_self(v[i]->Type_0, concrete);
                }
            }
            assert(v1 =~= v);
        },
        _ => {},
    }
}

proof fn lemma_segments_have_self_prefix(v: Seq<SegmentModel>, n: int, m: int)
    requires
        0 <= n <= m <= v.len(),
        !segments_have_self(v, m),
    ensures
        !segments_have_self(v, n),
    decreases m - n,
{
    if n < m {
        lemma_segments_have_self_prefix(v, n, m - 1);
    }
}

proof fn lemma_elems_have_self_prefix(v: Seq<TypeModel>, n: int, m: int)
    requires
        0 <= n <= m <= v.len(),
        !elems_have_self(v, m),
    ensures
        !elems_have_self(v, n),
    decreases m - n,
{
    if n < m {
        lemma_elems_have_self_prefix(v, n, m - 1);
    }
}

proof fn lemma_arg_list_has_self_prefix(v: Seq<ArgModel>, n: int, m: int)
    requires
        0 <= n <= m <= v.len(),
        !arg_list_has_self(v, m),
    ensures
        !arg_list_has_self(v, n),
    decreases m - n,
{
    if n < m {
        lemma_arg_list_has_self_prefix(v, n, m - 1);
    }
}

/// Law: a path type whose last segment names a type that PyO3 converts
/// natively (`bool`, the integer and float primitives, `String`) is passed
/// as-is, whatever the segments before it, its qualifier or its arguments.
pub proof fn lemma_primitive_paths_trivial(
    qself: Option<nat>,
    leading_colon: bool,
    prefix: Seq<SegmentModel>,
    name: Seq<char>,
    args: ArgsModel,
)
    requires
        name == seq!['b', 'o', 'o', 'l'] || name == seq!['u', '8'] || name == seq!['u', '1', '6']
            || name == seq!['u', '3', '2'] || name == seq!['u', '6', '4'] || name == seq![
            'u',
            '1',
            '2',
            '8',
        ] || name == seq!['u', 's', 'i', 'z', 'e'] || name == seq!['i', '8'] || name == seq![
            'i',
            '1',
            '6',
        ] || name == seq!['i', '3', '2'] || name == seq!['i', '6', '4'] || name == seq![
            'i',
            '1',
            '2',
            '8',
        ] || name == seq!['i', 's', 'i', 'z', 'e'] || name == seq!['f', '3', '2'] || name == seq![
            'f',
            '6',
            '4',
        ] || name == seq!['S', 't', 'r', 'i', 'n', 'g'],
    ensures
        spec_classify(
            TypeModel::Path {
                qself,
                leading_colon,
                segments: prefix.push(SegmentModel { ident: name, args }),
            },
        ) == Some(ParamKind::Trivial),
{
    let t = TypeModel::Path {
        qself,
        leading_colon,
        segments: prefix.push(SegmentModel { ident: name, args }),
    };
    assert(t->Path_segments.last().ident == name);
    assert(is_primitive_name(name));
}

/// Law: a plain path type whose last segment names neither a natively
/// converted type nor `Vec` / `Option` is routed through `PyMap`.
pub proof fn lemma_other_paths_mapped(
    qself: Option<nat>,
    leading_colon: bool,
    prefix: Seq<SegmentModel>,
    name: Seq<char>,
    args: ArgsModel,
)
    requires
        name != seq!['b', 'o', 'o', 'l'] && name != seq!['u', '8'] && name != seq!['u', '1', '6'] && name != seq!['u', '3', '2'] && name != seq!['u', '6', '4'] && name != seq!['u', '1', '2', '8'] && name != seq!['u', 's', 'i', 'z', 'e'] && name != seq!['i', '8'] && name != seq!['i', '1', '6'] && name != seq!['i', '3', '2'] && name != seq!['i', '6', '4'] && name != seq!['i', '1', '2', '8'] && name != seq!['i', 's', 'i', 'z', 'e'] && name != seq!['f', '3', '2'] && name != seq!['f', '6', '4'] && name != seq!['S', 't', 'r', 'i', 'n', 'g'] && name != seq!['V', 'e', 'c'] && name != seq!['O', 'p', 't', 'i', 'o', 'n'],
    ensures
        spec_classify(
            TypeModel::Path {
                qself,
                leading_colon,
                segments: prefix.push(SegmentModel { ident: name, args }),
            },
        ) == Some(ParamKind::PyMapped),
{
    let t = TypeModel::Path {
        qself,
        leading_colon,
        segments: prefix.push(SegmentModel { ident: name, args }),
    };
    assert(t->Path_segments.last().ident == name);
    assert(!is_primitive_name(name));
    assert(!is_container_name(name));
}

} // verus!
