//! Planning of the `#[pyclass]` wrappers generated for ops, attributes and
//! types: their names, their registration name, and one getter per field.

use vstd::prelude::*;

use crate::method_plan::{py_name, py_struct_name};
use crate::reflect::{spec_full_name, full_name};
use crate::rust_type::{ParamKind, TypeExpr, spec_classify, classify};
use crate::text::{concat, copy_chars, decimal, to_decimal};

verus! {

/// A field of a struct or tuple struct.
#[derive(Debug)]
pub struct Field {
    /// The field's name; `None` for a tuple-struct field.
    pub ident: Option<Vec<char>>,
    pub ty: TypeExpr,
}

/// The fields of a struct.
#[derive(Debug)]
pub enum Fields {
    /// `{ a: A, b: B }`.
    Named(Vec<Field>),
    /// `(A, B)`.
    Unnamed(Vec<Field>),
    /// No fields at all (`struct S;`).
    Unit,
}

/// The body of a data-type definition.
#[derive(Debug)]
pub enum Data {
    Struct(Fields),
    Enum,
    Union,
}

/// How a getter reaches its field.
#[derive(Debug)]
pub enum FieldAccess {
    /// `inner.name`.
    Named(Vec<char>),
    /// `inner.0`, `inner.1`, ..
    Index(usize),
}

/// One generated getter.
#[derive(Debug)]
pub struct Accessor {
    /// `get_<field name>` or `get_<index>`.
    pub method: Vec<char>,
    pub access: FieldAccess,
    /// The position of the field among the struct's fields.
    pub position: usize,
    /// The field's type is PyO3-trivial and is returned as-is; otherwise it is
    /// converted through `PyMap`.
    pub trivial: bool,
}

pub enum FieldAccessModel {
    Named(Seq<char>),
    Index(nat),
}

pub struct AccessorModel {
    pub method: Seq<char>,
    pub access: FieldAccessModel,
    pub position: nat,
    pub trivial: bool,
}

impl View for Accessor {
    type V = AccessorModel;

    open spec fn view(&self) -> AccessorModel {
        AccessorModel {
            method: self.method@,
            access: match self.access {
                FieldAccess::Named(n) => FieldAccessModel::Named(n@),
                FieldAccess::Index(i) => FieldAccessModel::Index(i as nat),
            },
            position: self.position as nat,
            trivial: self.trivial,
        }
    }
}

/// `get_`.
pub open spec fn getter_prefix() -> Seq<char> {
    seq!['g', 'e', 't', '_']
}

pub open spec fn is_trivial_field(f: Field) -> bool {
    spec_classify(f.ty@) == Some(ParamKind::Trivial)
}

/// The getters of the first `n` named fields; a field without a name gets none.
pub open spec fn named_accessors(v: Seq<Field>, n: int) -> Seq<AccessorModel>
    decreases n,
{
    if n <= 0 {
        Seq::empty()
    } else {
        let prev = named_accessors(v, n - 1);
        match v[n - 1].ident {
            Some(id) => prev.push(
                AccessorModel {
                    method: getter_prefix() + id@,
                    access: FieldAccessModel::Named(id@),
                    position: (n - 1) as nat,
                    trivial: is_trivial_field(v[n - 1]),
                },
            ),
            None => prev,
        }
    }
}

/// The getter of the `i`-th tuple field.
pub open spec fn unnamed_accessor(v: Seq<Field>, i: int) -> AccessorModel {
    AccessorModel {
        method: getter_prefix() + decimal(i as nat),
        access: FieldAccessModel::Index(i as nat),
        position: i as nat,
        trivial: is_trivial_field(v[i]),
    }
}

/// The getters generated for a data type: one per named field, or one per
/// tuple field; none for unit structs, enums and unions.
pub open spec fn spec_accessors(data: Data) -> Seq<AccessorModel> {
    match data {
        Data::Struct(Fields::Named(v)) => named_accessors(v@, v@.len() as int),
        Data::Struct(Fields::Unnamed(v)) => Seq::new(v@.len(), |i: int| unnamed_accessor(v@, i)),
        _ => Seq::empty(),
    }
}

proof fn lemma_named_accessors_fields(v: Seq<Field>, n: int)
    requires
        0 <= n <= v.len(),
    ensures
        ({
            let acc = named_accessors(v, n);
            &&& forall|i: int|
                #![trigger acc[i]]
                0 <= i < acc.len() ==> {
                    let a = acc[i];
                    &&& a.position < n
                    &&& a.access is Named
                    &&& v[a.position as int].ident is Some
                    &&& v[a.position as int].ident->0@ == a.access->Named_0
                    &&& a.method == getter_prefix() + a.access->Named_0
                    &&& a.trivial == (spec_classify(v[a.position as int].ty@) == Some(ParamKind::Trivial))
                }
            &&& forall|i: int, j: int|
                #![trigger acc[i], acc[j]]
                0 <= i < j < acc.len() ==> acc[i].position < acc[j].position
            &&& forall|k: int|
                0 <= k < n && (#[trigger] v[k]).ident is Some ==> exists|i: int|
                    0 <= i < acc.len() && #[trigger] acc[i].position == k
        }),
    decreases n,
{
    if n > 0 {
        lemma_named_accessors_fields(v, n - 1);
        let prev = named_accessors(v, n - 1);
        let acc = named_accessors(v, n);
        if v[n - 1].ident is Some {
            assert forall|k: int| 0 <= k < n && (#[trigger] v[k]).ident is Some implies exists|i: int|
                0 <= i < acc.len() && #[trigger] acc[i].position == k by {
                if k == n - 1 {
                    assert(acc[prev.len() as int].position == k);
                } else {
                    let i = choose|i: int| 0 <= i < prev.len() && #[trigger] prev[i].position == k;
                    assert(acc[i] == prev[i]);
                }
            }
            assert forall|i: int, j: int|
                #![trigger acc[i], acc[j]]
                0 <= i < j < acc.len() implies acc[i].position < acc[j].position by {
                if j < prev.len() {
                    assert(acc[i] == prev[i] && acc[j] == prev[j]);
                } else {
                    assert(acc[i] == prev[i]);
                }
            }
            assert forall|i: int| #![trigger acc[i]] 0 <= i < acc.len() implies acc[i].position < n by {
                if i < prev.len() {
                    assert(acc[i] == prev[i]);
                }
            }
        }
    }
}

/// Law: the getters of a struct read the fields they are named after. For
/// named fields, each getter `get_<n>` reads the field named `n` at its
/// position (and has that field's PyO3 treatment); getters come in field
/// order, and every named field has one. For tuple fields, the `i`-th getter
/// reads field `i`, and there is one per field.
pub proof fn lemma_accessors_read_their_fields(data: Data)
    ensures
        ({
            let acc = spec_accessors(data);
            match data {
                Data::Struct(Fields::Named(v)) => {
                    &&& forall|i: int|
                        #![trigger acc[i]]
                        0 <= i < acc.len() ==> {
                            &&& acc[i].position < v@.len()
                            &&& acc[i].access is Named
                            &&& v@[acc[i].position as int].ident is Some
                            &&& v@[acc[i].position as int].ident->0@ == acc[i].access->Named_0
                            &&& acc[i].method == seq!['g', 'e', 't', '_'] + acc[i].access->Named_0
                            &&& acc[i].trivial == (spec_classify(v@[acc[i].position as int].ty@)
                                == Some(ParamKind::Trivial))
                        }
                    &&& forall|i: int, j: int|
                        #![trigger acc[i], acc[j]]
                        0 <= i < j < acc.len() ==> acc[i].position < acc[j].position
                    &&& forall|k: int|
                        0 <= k < v@.len() && (#[trigger] v@[k]).ident is Some ==> exists|i: int|
                            0 <= i < acc.len() && #[trigger] acc[i].position == k
                },
                Data::Struct(Fields::Unnamed(v)) => {
                    &&& acc.len() == v@.len()
                    &&& forall|i: int|
                        #![trigger acc[i]]
                        0 <= i < acc.len() ==> {
                            &&& acc[i].position == i
                            &&& acc[i].access == FieldAccessModel::Index(i as nat)
                            &&& acc[i].method == seq!['g', 'e', 't', '_'] + decimal(i as nat)
                            &&& acc[i].trivial == (spec_classify(v@[i].ty@) == Some(ParamKind::Trivial))
                        }
                },
                _ => acc.len() == 0,
            }
        }),
{
    match data {
        Data::Struct(Fields::Named(v)) => {
            lemma_named_accessors_fields(v@, v@.len() as int);
        },
        _ => {},
    }
}

pub open spec fn accessors_view(v: Seq<Accessor>) -> Seq<AccessorModel> {
    v.map_values(|a: Accessor| a@)
}

fn is_trivial_type(t: &TypeExpr) -> (r: bool)
    ensures
        r == (spec_classify(t@) == Some(ParamKind::Trivial)),
{
    match classify(t) {
        Some(ParamKind::Trivial) => true,
        _ => false,
    }
}

/// The getters to generate for the fields of `data`.
pub fn gen_field_accessors(data: &Data) -> (r: Vec<Accessor>)
    ensures
        accessors_view(r@) == spec_accessors(*data),
{
    let mut out: Vec<Accessor> = Vec::new();
    match data {
        Data::Struct(Fields::Named(v)) => {
            let mut i: usize = 0;
            while i < v.len()
                invariant
                    0 <= i <= v.len(),
                    accessors_view(out@) == named_accessors(v@, i as int),
                decreases v.len() - i,
            {
                let ghost before = out@;
                let f = &v[i];
                match &f.ident {
                    Some(id) => {
                        let a = Accessor {
                            method: concat(&['g', 'e', 't', '_'], id.as_slice()),
                            access: FieldAccess::Named(copy_chars(id.as_slice())),
                            position: i,
                            trivial: is_trivial_type(&f.ty),
                        };
                        out.push(a);
                        proof {
                            assert(accessors_view(out@) =~= accessors_view(before).push(a@));
                        }
                    },
                    None => {},
                }
                i += 1;
            }
        },
        Data::Struct(Fields::Unnamed(v)) => {
            let mut i: usize = 0;
            while i < v.len()
                invariant
                    0 <= i <= v.len(),
                    accessors_view(out@) =~= Seq::new(i as nat, |k: int| unnamed_accessor(v@, k)),
                decreases v.len() - i,
            {
                let ghost before = out@;
                let digits = to_decimal(i);
                let a = Accessor {
                    method: concat(&['g', 'e', 't', '_'], digits.as_slice()),
                    access: FieldAccess::Index(i),
                    position: i,
                    trivial: is_trivial_type(&v[i].ty),
                };
                out.push(a);
                proof {
                    assert(accessors_view(out@) =~= accessors_view(before).push(a@));
                }
                i += 1;
            }
        },
        _ => {},
    }
    proof {
        assert(accessors_view(out@) =~= spec_accessors(*data));
    }
    out
}

// ---------------------------------------------------------------------------
// Classes
// ---------------------------------------------------------------------------

/// The wrapper class generated for one op, attribute or type.
#[derive(Debug)]
pub struct ClassPlan {
    /// The class name seen from Python: the Rust struct's name.
    pub py_class_name: Vec<char>,
    /// The generated Rust struct: `Py` followed by the struct's name.
    pub py_struct: Vec<char>,
    /// `dialect.entity`, under which the class registers itself.
    pub full_name: Vec<char>,
    pub accessors: Vec<Accessor>,
}

/// Plan the wrapper class of an op: no getters, as an op's data lives in its
/// operation.
pub fn gen_py_op_class(struct_name: &[char], dialect: &[char], entity: &[char]) -> (r: ClassPlan)
    ensures
        r.py_class_name@ == struct_name@,
        r.py_struct@ == py_name(struct_name@),
        r.full_name@ == spec_full_name(dialect@, entity@),
        r.accessors@.len() == 0,
{
    ClassPlan {
        py_class_name: copy_chars(struct_name),
        py_struct: py_struct_name(struct_name),
        full_name: full_name(dialect, entity),
        accessors: Vec::new(),
    }
}

/// Plan the wrapper class of an attribute or a type defined by `data`: one
/// getter per field.
pub fn gen_py_class(struct_name: &[char], dialect: &[char], entity: &[char], data: &Data) -> (r:
    ClassPlan)
    ensures
        r.py_class_name@ == struct_name@,
        r.py_struct@ == py_name(struct_name@),
        r.full_name@ == spec_full_name(dialect@, entity@),
        accessors_view(r.accessors@) == spec_accessors(*data),
{
    ClassPlan {
        py_class_name: copy_chars(struct_name),
        py_struct: py_struct_name(struct_name),
        full_name: full_name(dialect, entity),
        accessors: gen_field_accessors(data),
    }
}

} // verus!
