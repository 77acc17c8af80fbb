//! The small value types the bindings exchange with Python as plain values:
//! integer signedness (as a string) and the status of an IR transformation.

use vstd::prelude::*;

use crate::text::{chars_eq, text_of};

verus! {

/// The signedness of an integer type.
#[derive(Clone, Copy, Debug, PartialEq, Eq, Structural)]
pub enum Signedness {
    Signed,
    Unsigned,
    Signless,
}

/// The Python spelling of a signedness.
pub open spec fn signedness_text(s: Signedness) -> Seq<char> {
    match s {
        Signedness::Signed => seq!['s', 'i', 'g', 'n', 'e', 'd'],
        Signedness::Unsigned => seq!['u', 'n', 's', 'i', 'g', 'n', 'e', 'd'],
        Signedness::Signless => seq!['s', 'i', 'g', 'n', 'l', 'e', 's', 's'],
    }
}

/// The signedness spelled `t`, if any.
pub open spec fn spec_parse_signedness(t: Seq<char>) -> Option<Signedness> {
    if t == signedness_text(Signedness::Signed) {
        Some(Signedness::Signed)
    } else if t == signedness_text(Signedness::Unsigned) {
        Some(Signedness::Unsigned)
    } else if t == signedness_text(Signedness::Signless) {
        Some(Signedness::Signless)
    } else {
        None
    }
}

fn parse_chars(t: &[char]) -> (r: Option<Signedness>)
    ensures
        r == spec_parse_signedness(t@),
{
    if chars_eq(t, &['s', 'i', 'g', 'n', 'e', 'd']) {
        Some(Signedness::Signed)
    } else if chars_eq(t, &['u', 'n', 's', 'i', 'g', 'n', 'e', 'd']) {
        Some(Signedness::Unsigned)
    } else if chars_eq(t, &['s', 'i', 'g', 'n', 'l', 'e', 's', 's']) {
        Some(Signedness::Signless)
    } else {
        None
    }
}

impl Signedness {
    /// The Python representation: `"signed"`, `"unsigned"` or `"signless"`.
    pub fn into_py(self) -> (r: String)
        ensures
            r@ == signedness_text(self),
    {
        match self {
            Signedness::Signed => {
                proof {
                    reveal_strlit("signed");
                }
                "signed".to_owned()
            },
            Signedness::Unsigned => {
                proof {
                    reveal_strlit("unsigned");
                }
                "unsigned".to_owned()
            },
            Signedness::Signless => {
                proof {
                    reveal_strlit("signless");
                }
                "signless".to_owned()
            },
        }
    }

    /// The signedness of its Python representation, which must be one of
    /// `"signed"`, `"unsigned"` and `"signless"`.
    pub fn from_py(py: String) -> (r: Signedness)
        requires
            spec_parse_signedness(py@) is Some,
        ensures
            spec_parse_signedness(py@) == Some(r),
    {
        let t = text_of(py.as_str());
        match parse_chars(t.as_slice()) {
            Some(s) => s,
            None => Signedness::Signless,
        }
    }
}

/// The `signedness` argument of `IntegerType.get` names no signedness.
#[derive(Clone, Copy, Debug, PartialEq, Eq, Structural)]
pub enum SignednessError {
    InvalidSignedness,
}

/// The signedness requested from `IntegerType.get(width, signedness=None)`:
/// `"signless"` when not given.
pub fn integer_type_signedness(signedness: Option<&str>) -> (r: Result<Signedness, SignednessError>)
    ensures
        match signedness {
            None => r == Ok::<Signedness, SignednessError>(Signedness::Signless),
            Some(s) => match spec_parse_signedness(s@) {
                Some(v) => r == Ok::<Signedness, SignednessError>(v),
                None => r == Err::<Signedness, SignednessError>(SignednessError::InvalidSignedness),
            },
        },
{
    match signedness {
        None => Ok(Signedness::Signless),
        Some(s) => {
            let t = text_of(s);
            match parse_chars(t.as_slice()) {
                Some(v) => Ok(v),
                None => Err(SignednessError::InvalidSignedness),
            }
        },
    }
}

/// Law: every signedness reads back from its Python representation, and no
/// two signednesses share one.
pub proof fn lemma_signedness_roundtrip(s: Signedness, t: Signedness)
    ensures
        spec_parse_signedness(signedness_text(s)) == Some(s),
        signedness_text(s) == signedness_text(t) ==> s == t,
{
    assert(signedness_text(Signedness::Signed) != signedness_text(Signedness::Unsigned));
    assert(signedness_text(Signedness::Signed)[4] != signedness_text(Signedness::Signless)[4]);
    assert(signedness_text(Signedness::Unsigned) != signedness_text(Signedness::Signless));
}

// ---------------------------------------------------------------------------
// IR status
// ---------------------------------------------------------------------------

/// Whether a transformation changed the IR.
#[derive(Clone, Copy, Debug, PartialEq, Eq, Structural)]
pub enum IRStatus {
    Unchanged,
    Changed,
}

/// `pliron.IRStatus`: truthy when the IR was changed.
#[derive(Clone, Copy, Debug, PartialEq, Eq, Structural)]
pub enum PyIRStatus {
    /// The IR was not modified.
    Unchanged,
    /// The IR was modified.
    Changed,
}

/// The Python-side text of a status.
pub open spec fn status_repr(s: PyIRStatus) -> Seq<char> {
    match s {
        PyIRStatus::Unchanged => seq![
            'I', 'R', 'S', 't', 'a', 't', 'u', 's', '.', 'U', 'n', 'c', 'h', 'a', 'n', 'g', 'e', 'd',
        ],
        PyIRStatus::Changed => seq![
            'I', 'R', 'S', 't', 'a', 't', 'u', 's', '.', 'C', 'h', 'a', 'n', 'g', 'e', 'd',
        ],
    }
}

impl PyIRStatus {
    /// The Python face of a status, variant for variant.
    pub fn from_status(status: IRStatus) -> (r: PyIRStatus)
        ensures
            (r == PyIRStatus::Changed) == (status == IRStatus::Changed),
    {
        match status {
            IRStatus::Unchanged => PyIRStatus::Unchanged,
            IRStatus::Changed => PyIRStatus::Changed,
        }
    }

    /// `True` if the IR was modified.
    pub fn is_changed(&self) -> (r: bool)
        ensures
            r == (*self == PyIRStatus::Changed),
    {
        match self {
            PyIRStatus::Changed => true,
            PyIRStatus::Unchanged => false,
        }
    }

    /// `bool(status)` is `True` iff the IR was changed.
    pub fn __bool__(&self) -> (r: bool)
        ensures
            r == (*self == PyIRStatus::Changed),
    {
        self.is_changed()
    }

    pub fn __repr__(&self) -> (r: &'static str)
        ensures
            r@ == status_repr(*self),
    {
        match self {
            PyIRStatus::Unchanged => {
                proof {
                    reveal_strlit("IRStatus.Unchanged");
                }
                "IRStatus.Unchanged"
            },
            PyIRStatus::Changed => {
                proof {
                    reveal_strlit("IRStatus.Changed");
                }
                "IRStatus.Changed"
            },
        }
    }
}

} // verus!
