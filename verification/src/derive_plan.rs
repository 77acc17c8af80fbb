//! The checks and decisions of the `#[def_type]`, `#[def_attribute]` and
//! `#[derive_type_get]` attribute macros.

use vstd::prelude::*;

use crate::class_plan::{Data, Fields};
use crate::syntax::{str_literal_value, string_literal_value};
use crate::text::{chars_eq, concat, copy_chars, decimal, spec_split_once, split_once, to_decimal};
use crate::tokens::{Tok, TokView, toks_view};

verus! {

/// What the macros read of the item they are attached to.
#[derive(Debug)]
pub struct DeriveInput {
    pub ident: Vec<char>,
    /// For each outer attribute, the attribute's name when its path is a
    /// single plain identifier (`#[def_type(..)]`), `None` otherwise.
    pub attr_paths: Vec<Option<Vec<char>>>,
    /// The item declares generic parameters.
    pub has_generics: bool,
    pub data: Data,
}

/// Why a macro rejects its input.
#[derive(Clone, Copy, Debug, PartialEq, Eq, Structural)]
pub enum DeriveError {
    /// The macro argument is not a single string literal.
    ExpectedStringLiteral,
    /// The name has no `.` separating the dialect from the entity.
    NameNotQualified,
    /// The item is a union.
    NotStructOrEnum,
    /// The item is generic.
    Generic,
    /// `#[derive_type_get]` on an enum or a union.
    NotStruct,
    /// `#[derive_type_get]` was given arguments.
    UnexpectedArgs,
}

/// The decisions of `#[def_type]` / `#[def_attribute]`.
#[derive(Debug)]
pub struct DefPlan {
    pub dialect: Vec<char>,
    pub entity: Vec<char>,
    /// A struct without fields: its single instance is registered with the
    /// type itself (always `false` for attributes).
    pub is_singleton: bool,
    /// The positions of the item's attributes that are kept on the emitted
    /// item: all but the macro's own.
    pub kept_attrs: Vec<usize>,
}

pub struct DefPlanModel {
    pub dialect: Seq<char>,
    pub entity: Seq<char>,
    pub is_singleton: bool,
    pub kept_attrs: Seq<usize>,
}

impl View for DefPlan {
    type V = DefPlanModel;

    open spec fn view(&self) -> DefPlanModel {
        DefPlanModel {
            dialect: self.dialect@,
            entity: self.entity@,
            is_singleton: self.is_singleton,
            kept_attrs: self.kept_attrs@,
        }
    }
}

/// `def_type`.
pub open spec fn def_type_word() -> Seq<char> {
    seq!['d', 'e', 'f', '_', 't', 'y', 'p', 'e']
}

/// `def_attribute`.
pub open spec fn def_attribute_word() -> Seq<char> {
    seq!['d', 'e', 'f', '_', 'a', 't', 't', 'r', 'i', 'b', 'u', 't', 'e']
}

/// The attribute at this position is named `word`.
pub open spec fn attr_is(a: Option<Vec<char>>, word: Seq<char>) -> bool {
    a is Some && a->0@ == word
}

/// The positions among the first `n` attributes that are not named `word`.
pub open spec fn kept_attrs(attrs: Seq<Option<Vec<char>>>, word: Seq<char>, n: int) -> Seq<usize>
    decreases n,
{
    if n <= 0 {
        Seq::empty()
    } else if attr_is(attrs[n - 1], word) {
        kept_attrs(attrs, word, n - 1)
    } else {
        kept_attrs(attrs, word, n - 1).push((n - 1) as usize)
    }
}

/// `Fields::is_empty`.
pub open spec fn fields_empty(f: Fields) -> bool {
    match f {
        Fields::Named(v) => v@.len() == 0,
        Fields::Unnamed(v) => v@.len() == 0,
        Fields::Unit => true,
    }
}

/// The value of a macro argument that must be one string literal.
pub open spec fn spec_lit_str(args: Seq<TokView>) -> Option<Seq<char>> {
    if args.len() == 1 && args[0] is Literal {
        str_literal_value(args[0]->Literal_0)
    } else {
        None
    }
}

/// `#[def_type("dialect.name")]` on `input`, for the argument's value `name`.
pub open spec fn spec_def_type(name: Seq<char>, input: DeriveInput) -> Result<DefPlanModel, DeriveError> {
    match spec_split_once(name, '.') {
        None => Err(DeriveError::NameNotQualified),
        Some((dialect, entity)) => match input.data {
            Data::Union => Err(DeriveError::NotStructOrEnum),
            _ => if input.has_generics {
                Err(DeriveError::Generic)
            } else {
                Ok(
                    DefPlanModel {
                        dialect,
                        entity,
                        is_singleton: match input.data {
                            Data::Struct(f) => fields_empty(f),
                            _ => false,
                        },
                        kept_attrs: kept_attrs(
                            input.attr_paths@,
                            def_type_word(),
                            input.attr_paths@.len() as int,
                        ),
                    },
                )
            },
        },
    }
}

/// `#[def_attribute("dialect.name")]` on `input`, for the argument's value `name`.
pub open spec fn spec_def_attribute(name: Seq<char>, input: DeriveInput) -> Result<
    DefPlanModel,
    DeriveError,
> {
    match spec_split_once(name, '.') {
        None => Err(DeriveError::NameNotQualified),
        Some((dialect, entity)) => match input.data {
            Data::Union => Err(DeriveError::NotStructOrEnum),
            _ => if input.has_generics {
                Err(DeriveError::Generic)
            } else {
                Ok(
                    DefPlanModel {
                        dialect,
                        entity,
                        is_singleton: false,
                        kept_attrs: kept_attrs(
                            input.attr_paths@,
                            def_attribute_word(),
                            input.attr_paths@.len() as int,
                        ),
                    },
                )
            },
        },
    }
}

/// Law: `#[def_type]` plans a singleton exactly when the item is a struct
/// without any field: a struct with named or tuple fields, and an enum, never
/// is. The plan's dialect and entity are the name's parts before and after
/// its first `.`, and only the macro's own attributes are dropped.
pub proof fn lemma_def_type_singleton(name: Seq<char>, input: DeriveInput)
    requires
        spec_def_type(name, input) is Ok,
        input.attr_paths@.len() <= usize::MAX,
    ensures
        ({
            let p = spec_def_type(name, input)->Ok_0;
            &&& p.is_singleton <==> match input.data {
                Data::Struct(Fields::Named(v)) => v@.len() == 0,
                Data::Struct(Fields::Unnamed(v)) => v@.len() == 0,
                Data::Struct(Fields::Unit) => true,
                _ => false,
            }
            &&& name == p.dialect + seq!['.'] + p.entity
            &&& !p.dialect.contains('.')
            &&& forall|i: int|
                0 <= i < input.attr_paths@.len() ==> (p.kept_attrs.contains(i as usize) <==> !attr_is(
                    #[trigger] input.attr_paths@[i],
                    seq!['d', 'e', 'f', '_', 't', 'y', 'p', 'e'],
                ))
        }),
{
    lemma_split_once_parts(name, '.');
    lemma_kept_attrs(input.attr_paths@, def_type_word(), input.attr_paths@.len() as int);
}

proof fn lemma_first_exists(s: Seq<char>, c: char, k: int)
    requires
        0 <= k < s.len(),
        s[k] == c,
    ensures
        exists|i: int| 0 <= i < s.len() && s[i] == c && (forall|j: int| 0 <= j < i ==> s[j] != c),
    decreases k,
{
    if exists|j: int| 0 <= j < k && s[j] == c {
        let j = choose|j: int| 0 <= j < k && s[j] == c;
        lemma_first_exists(s, c, j);
    } else {
        assert(forall|j: int| 0 <= j < k ==> s[j] != c);
    }
}

/// The parts `str::split_once` gives back surround the first separator.
proof fn lemma_split_once_parts(s: Seq<char>, c: char)
    requires
        spec_split_once(s, c) is Some,
    ensures
        ({
            let parts = spec_split_once(s, c)->0;
            s == parts.0 + seq![c] + parts.1 && !parts.0.contains(c)
        }),
{
    let k = choose|k: int| 0 <= k < s.len() && s[k] == c;
    lemma_first_exists(s, c, k);
    let i = crate::text::first_index_of(s, c)->0;
    let (a, b) = spec_split_once(s, c)->0;
    assert(0 <= i < s.len() && s[i] == c && forall|j: int| 0 <= j < i ==> s[j] != c);
    assert(s =~= a + seq![c] + b);
    assert(!a.contains(c)) by {
        if a.contains(c) {
            let j = choose|j: int| 0 <= j < a.len() && a[j] == c;
            assert(s[j] == c);
        }
    }
}

proof fn lemma_kept_attrs(attrs: Seq<Option<Vec<char>>>, word: Seq<char>, n: int)
    requires
        0 <= n <= attrs.len() <= usize::MAX,
    ensures
        forall|i: int|
            0 <= i < n ==> (kept_attrs(attrs, word, n).contains(i as usize) <==> !attr_is(
                #[trigger] attrs[i],
                word,
            )),
        forall|j: int| 0 <= j < kept_attrs(attrs, word, n).len() ==> #[trigger] kept_attrs(attrs, word, n)[j] < n,
    decreases n,
{
    if n > 0 {
        lemma_kept_attrs(attrs, word, n - 1);
        let prev = kept_attrs(attrs, word, n - 1);
        let cur = kept_attrs(attrs, word, n);
        assert forall|i: int| 0 <= i < n implies (cur.contains(i as usize) <==> !attr_is(
            #[trigger] attrs[i],
            word,
        )) by {
            if i < n - 1 {
                if cur.contains(i as usize) && !prev.contains(i as usize) {
                    let j = choose|j: int| 0 <= j < cur.len() && cur[j] == i as usize;
                    assert(j == prev.len());
                }
                if prev.contains(i as usize) {
                    let j = choose|j: int| 0 <= j < prev.len() && prev[j] == i as usize;
                    assert(cur[j] == i as usize);
                }
            } else {
                if !attr_is(attrs[i], word) {
                    assert(cur[prev.len() as int] == i as usize);
                } else if cur.contains(i as usize) {
                    let j = choose|j: int| 0 <= j < cur.len() && cur[j] == i as usize;
                    assert(prev[j] < n - 1);
                }
            }
        }
    }
}

fn filter_attrs(attrs: &Vec<Option<Vec<char>>>, word: &[char]) -> (r: Vec<usize>)
    ensures
        r@ == kept_attrs(attrs@, word@, attrs@.len() as int),
{
    let mut out: Vec<usize> = Vec::new();
    let mut i: usize = 0;
    while i < attrs.len()
        invariant
            0 <= i <= attrs.len(),
            out@ == kept_attrs(attrs@, word@, i as int),
        decreases attrs.len() - i,
    {
        let own = match &attrs[i] {
            Some(p) => chars_eq(p.as_slice(), word),
            None => false,
        };
        if !own {
            out.push(i);
        }
        i += 1;
    }
    out
}

fn is_empty_fields(f: &Fields) -> (r: bool)
    ensures
        r == fields_empty(*f),
{
    match f {
        Fields::Named(v) => v.len() == 0,
        Fields::Unnamed(v) => v.len() == 0,
        Fields::Unit => true,
    }
}

/// The string value of a macro argument that must be one string literal.
pub fn parse_lit_str(args: &[Tok]) -> (r: Result<Vec<char>, DeriveError>)
    ensures
        match r {
            Ok(v) => spec_lit_str(toks_view(args@)) == Some(v@),
            Err(e) => spec_lit_str(toks_view(args@)) is None && e == DeriveError::ExpectedStringLiteral,
        },
{
    if args.len() != 1 {
        return Err(DeriveError::ExpectedStringLiteral);
    }
    match &args[0] {
        Tok::Literal(text) => match string_literal_value(text) {
            Some(v) => Ok(v),
            None => Err(DeriveError::ExpectedStringLiteral),
        },
        _ => Err(DeriveError::ExpectedStringLiteral),
    }
}

/// `DefType::derive`: split the name, check the item's shape, and drop the
/// macro's own attribute from the item.
pub fn def_type_derive(name: &[char], input: &DeriveInput) -> (r: Result<DefPlan, DeriveError>)
    ensures
        match r {
            Ok(p) => spec_def_type(name@, *input) == Ok::<DefPlanModel, DeriveError>(p@),
            Err(e) => spec_def_type(name@, *input) == Err::<DefPlanModel, DeriveError>(e),
        },
{
    let (dialect, entity) = match split_once(name, '.') {
        Some(parts) => parts,
        None => {
            return Err(DeriveError::NameNotQualified);
        },
    };
    let is_singleton = match &input.data {
        Data::Struct(f) => is_empty_fields(f),
        Data::Enum => false,
        Data::Union => {
            return Err(DeriveError::NotStructOrEnum);
        },
    };
    if input.has_generics {
        return Err(DeriveError::Generic);
    }
    let kept = filter_attrs(&input.attr_paths, &['d', 'e', 'f', '_', 't', 'y', 'p', 'e']);
    Ok(DefPlan { dialect, entity, is_singleton, kept_attrs: kept })
}

/// `DefAttribute::derive`: split the name, check the item's shape, and drop
/// the macro's own attribute from the item.
pub fn def_attribute_derive(name: &[char], input: &DeriveInput) -> (r: Result<DefPlan, DeriveError>)
    ensures
        match r {
            Ok(p) => spec_def_attribute(name@, *input) == Ok::<DefPlanModel, DeriveError>(p@),
            Err(e) => spec_def_attribute(name@, *input) == Err::<DefPlanModel, DeriveError>(e),
        },
{
    let (dialect, entity) = match split_once(name, '.') {
        Some(parts) => parts,
        None => {
            return Err(DeriveError::NameNotQualified);
        },
    };
    match &input.data {
        Data::Union => {
            return Err(DeriveError::NotStructOrEnum);
        },
        _ => {},
    }
    if input.has_generics {
        return Err(DeriveError::Generic);
    }
    let kept = filter_attrs(
        &input.attr_paths,
        &['d', 'e', 'f', '_', 'a', 't', 't', 'r', 'i', 'b', 'u', 't', 'e'],
    );
    Ok(DefPlan { dialect, entity, is_singleton: false, kept_attrs: kept })
}

/// `#[def_type(..)]`: the argument must be one string literal.
pub fn def_type(args: &[Tok], input: &DeriveInput) -> (r: Result<DefPlan, DeriveError>)
    ensures
        match spec_lit_str(toks_view(args@)) {
            None => r == Err::<DefPlan, DeriveError>(DeriveError::ExpectedStringLiteral),
            Some(name) => match r {
                Ok(p) => spec_def_type(name, *input) == Ok::<DefPlanModel, DeriveError>(p@),
                Err(e) => spec_def_type(name, *input) == Err::<DefPlanModel, DeriveError>(e),
            },
        },
{
    let name = match parse_lit_str(args) {
        Ok(name) => name,
        Err(e) => {
            return Err(e);
        },
    };
    def_type_derive(name.as_slice(), input)
}

/// `#[def_attribute(..)]`: the argument must be one string literal.
pub fn def_attribute(args: &[Tok], input: &DeriveInput) -> (r: Result<DefPlan, DeriveError>)
    ensures
        match spec_lit_str(toks_view(args@)) {
            None => r == Err::<DefPlan, DeriveError>(DeriveError::ExpectedStringLiteral),
            Some(name) => match r {
                Ok(p) => spec_def_attribute(name, *input) == Ok::<DefPlanModel, DeriveError>(p@),
                Err(e) => spec_def_attribute(name, *input) == Err::<DefPlanModel, DeriveError>(e),
            },
        },
{
    let name = match parse_lit_str(args) {
        Ok(name) => name,
        Err(e) => {
            return Err(e);
        },
    };
    def_attribute_derive(name.as_slice(), input)
}

// ---------------------------------------------------------------------------
// `#[derive_type_get]`
// ---------------------------------------------------------------------------

/// How the generated `get` constructs the value.
#[derive(Clone, Copy, Debug, PartialEq, Eq, Structural)]
pub enum Construction {
    /// `Name { a, b }`.
    Braced,
    /// `Name(field_0, field_1)`.
    Tuple,
    /// `Name {}`.
    Empty,
}

/// The generated `pub fn get(ctx: &Context, <params>) -> TypedHandle<Self>`:
/// one parameter per field, in order, each passed on to the constructor
/// under the same name.
#[derive(Debug)]
pub struct TypeGetPlan {
    /// The parameter names: a named field's own name (`None` only for a named
    /// field that has none), `field_<i>` for the `i`-th tuple field.
    pub params: Vec<Option<Vec<char>>>,
    pub construction: Construction,
}

/// `field_`.
pub open spec fn field_prefix() -> Seq<char> {
    seq!['f', 'i', 'e', 'l', 'd', '_']
}

pub open spec fn opt_view(o: Option<Vec<char>>) -> Option<Seq<char>> {
    match o {
        Some(v) => Some(v@),
        None => None,
    }
}

/// The parameter names of the generated `get`.
pub open spec fn spec_field_params(f: Fields) -> Seq<Option<Seq<char>>> {
    match f {
        Fields::Named(v) => Seq::new(v@.len(), |i: int| opt_view(v@[i].ident)),
        Fields::Unnamed(v) => Seq::new(v@.len(), |i: int| Some(field_prefix() + decimal(i as nat))),
        Fields::Unit => Seq::empty(),
    }
}

pub open spec fn spec_construction(f: Fields) -> Construction {
    match f {
        Fields::Named(_) => Construction::Braced,
        Fields::Unnamed(_) => Construction::Tuple,
        Fields::Unit => Construction::Empty,
    }
}

/// `#[derive_type_get]` on `input`, given the number of argument tokens.
pub open spec fn spec_derive_type_get(n_args: nat, input: DeriveInput) -> Result<
    (Seq<Option<Seq<char>>>, Construction),
    DeriveError,
> {
    if n_args > 0 {
        Err(DeriveError::UnexpectedArgs)
    } else {
        match input.data {
            Data::Struct(f) => if input.has_generics {
                Err(DeriveError::Generic)
            } else {
                Ok((spec_field_params(f), spec_construction(f)))
            },
            _ => Err(DeriveError::NotStruct),
        }
    }
}

/// The parameter names of the generated `get`, one per field.
pub fn generate_field_params(f: &Fields) -> (r: Vec<Option<Vec<char>>>)
    ensures
        r@.map_values(|o: Option<Vec<char>>| opt_view(o)) == spec_field_params(*f),
{
    let mut out: Vec<Option<Vec<char>>> = Vec::new();
    match f {
        Fields::Named(v) => {
            let mut i: usize = 0;
            while i < v.len()
                invariant
                    0 <= i <= v.len(),
                    out@.map_values(|o: Option<Vec<char>>| opt_view(o)) =~= Seq::new(
                        i as nat,
                        |k: int| opt_view(v@[k].ident),
                    ),
                decreases v.len() - i,
            {
                let ghost before = out@;
                let name = match &v[i].ident {
                    Some(id) => Some(copy_chars(id.as_slice())),
                    None => None,
                };
                proof {
                    assert(opt_view(name) == opt_view(v@[i as int].ident));
                }
                out.push(name);
                proof {
                    assert(out@.map_values(|o: Option<Vec<char>>| opt_view(o)) =~= before.map_values(
                        |o: Option<Vec<char>>| opt_view(o),
                    ).push(opt_view(name)));
                }
                i += 1;
            }
        },
        Fields::Unnamed(v) => {
            let mut i: usize = 0;
            while i < v.len()
                invariant
                    0 <= i <= v.len(),
                    out@.map_values(|o: Option<Vec<char>>| opt_view(o)) =~= Seq::new(
                        i as nat,
                        |k: int| Some(field_prefix() + decimal(k as nat)),
                    ),
                decreases v.len() - i,
            {
                let ghost before = out@;
                let digits = to_decimal(i);
                let name = Some(concat(&['f', 'i', 'e', 'l', 'd', '_'], digits.as_slice()));
                out.push(name);
                proof {
                    assert(out@.map_values(|o: Option<Vec<char>>| opt_view(o)) =~= before.map_values(
                        |o: Option<Vec<char>>| opt_view(o),
                    ).push(opt_view(name)));
                }
                i += 1;
            }
        },
        Fields::Unit => {},
    }
    proof {
        assert(out@.map_values(|o: Option<Vec<char>>| opt_view(o)) =~= spec_field_params(*f));
    }
    out
}

/// How the generated `get` constructs the value from its parameters.
pub fn generate_struct_construction(f: &Fields) -> (r: Construction)
    ensures
        r == spec_construction(*f),
{
    match f {
        Fields::Named(_) => Construction::Braced,
        Fields::Unnamed(_) => Construction::Tuple,
        Fields::Unit => Construction::Empty,
    }
}

/// `DeriveTypeGet::derive`: only non-generic structs get a `get`.
pub fn derive_type_get_derive(input: &DeriveInput) -> (r: Result<TypeGetPlan, DeriveError>)
    ensures
        match r {
            Ok(p) => spec_derive_type_get(0, *input) == Ok::<
                (Seq<Option<Seq<char>>>, Construction),
                DeriveError,
            >((p.params@.map_values(|o: Option<Vec<char>>| opt_view(o)), p.construction)),
            Err(e) => spec_derive_type_get(0, *input) == Err::<
                (Seq<Option<Seq<char>>>, Construction),
                DeriveError,
            >(e),
        },
{
    match &input.data {
        Data::Struct(f) => {
            if input.has_generics {
                return Err(DeriveError::Generic);
            }
            Ok(TypeGetPlan { params: generate_field_params(f), construction: generate_struct_construction(f) })
        },
        _ => Err(DeriveError::NotStruct),
    }
}

/// `#[derive_type_get]`: takes no arguments.
pub fn derive_type_get(args: &[Tok], input: &DeriveInput) -> (r: Result<TypeGetPlan, DeriveError>)
    ensures
        match r {
            Ok(p) => spec_derive_type_get(args@.len(), *input) == Ok::<
                (Seq<Option<Seq<char>>>, Construction),
                DeriveError,
            >((p.params@.map_values(|o: Option<Vec<char>>| opt_view(o)), p.construction)),
            Err(e) => spec_derive_type_get(args@.len(), *input) == Err::<
                (Seq<Option<Seq<char>>>, Construction),
                DeriveError,
            >(e),
        },
{
    if args.len() != 0 {
        return Err(DeriveError::UnexpectedArgs);
    }
    derive_type_get_derive(input)
}

} // verus!
