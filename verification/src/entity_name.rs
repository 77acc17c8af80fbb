//! Finding the `"dialect.entity"` name of an item for the attribute forms of
//! the class generators: from the generator's own `name = "..."` argument, or
//! from a sibling `#[<def>("...")]` / `#[<unified>(name = "...")]` attribute.

use vstd::prelude::*;

use crate::derive_plan::spec_lit_str;
use crate::syntax::{str_literal_value, string_literal_value};
use crate::text::{chars_eq, spec_split_once, split_once};
use crate::tokens::{Tok, TokView, toks_view};

verus! {

/// `name`.
pub open spec fn name_word() -> Seq<char> {
    seq!['n', 'a', 'm', 'e']
}

/// The value of the first top-level `name = "..."` in `t[i..]`.
///
/// Scanning reads one token at a time: `name` followed by `=` consumes both
/// and then the next token, which ends the scan when it is a string literal.
pub open spec fn scan_from(t: Seq<TokView>, i: int) -> Option<Seq<char>>
    decreases t.len() + 3 - i,
{
    if i < 0 || i >= t.len() {
        None
    } else if t[i] == TokView::Ident(name_word()) && i + 1 < t.len() && t[i + 1] == TokView::Punct('=') {
        if i + 2 < t.len() && t[i + 2] is Literal && str_literal_value(t[i + 2]->Literal_0) is Some {
            str_literal_value(t[i + 2]->Literal_0)
        } else {
            scan_from(t, i + 3)
        }
    } else {
        scan_from(t, i + 1)
    }
}

/// The value of the first top-level `name = "..."` in a token stream.
pub open spec fn spec_scan_name_value(t: Seq<TokView>) -> Option<Seq<char>> {
    scan_from(t, 0)
}

/// Scan an attribute-argument token stream for `name = "..."` at top level.
pub fn scan_name_value(t: &[Tok]) -> (r: Option<Vec<char>>)
    ensures
        match r {
            Some(v) => spec_scan_name_value(toks_view(t@)) == Some(v@),
            None => spec_scan_name_value(toks_view(t@)) is None,
        },
{
    let ghost tv = toks_view(t@);
    let mut i: usize = 0;
    while i < t.len()
        invariant
            tv == toks_view(t@),
            tv.len() == t@.len(),
            scan_from(tv, 0) == scan_from(tv, i as int),
        decreases t.len() - i,
    {
        let is_name = match &t[i] {
            Tok::Ident(s) => chars_eq(s.as_slice(), &['n', 'a', 'm', 'e']),
            _ => false,
        };
        let eq_next = i + 1 < t.len() && match &t[i + 1] {
            Tok::Punct(c) => *c == '=',
            _ => false,
        };
        proof {
            assert(tv[i as int] == t@[i as int]@);
            if i + 1 < t.len() {
                assert(tv[i + 1] == t@[i + 1]@);
            }
        }
        if is_name && eq_next {
            if i + 2 < t.len() {
                proof {
                    assert(tv[i + 2] == t@[i + 2]@);
                }
                match &t[i + 2] {
                    Tok::Literal(text) => match string_literal_value(text) {
                        Some(v) => {
                            return Some(v);
                        },
                        None => {},
                    },
                    _ => {},
                }
            }
            if t.len() - i <= 3 {
                proof {
                    assert(scan_from(tv, i + 3) is None);
                }
                return None;
            }
            i = i + 3;
        } else {
            i = i + 1;
        }
    }
    None
}

/// What the name search reads of one attribute of the item.
#[derive(Debug)]
pub struct EntityAttr {
    /// The attribute's name when its path is a single plain identifier.
    pub path_ident: Option<Vec<char>>,
    /// The tokens inside the delimiters of a list attribute `#[x(...)]`;
    /// `None` for `#[x]` and `#[x = ...]`.
    pub list_tokens: Option<Vec<Tok>>,
}

/// Why no entity name was found.
#[derive(Clone, Copy, Debug, PartialEq, Eq, Structural)]
pub enum EntityNameError {
    /// A `#[<def>]` attribute whose arguments are not one string literal.
    BadDefArgs,
    /// No name in the arguments nor in any sibling attribute.
    NotFound,
    /// The name has no `.` separating the dialect from the entity.
    NotQualified,
}

pub open spec fn path_is(a: EntityAttr, word: Seq<char>) -> bool {
    a.path_ident is Some && a.path_ident->0@ == word
}

pub open spec fn list_view(a: EntityAttr) -> Option<Seq<TokView>> {
    match a.list_tokens {
        Some(v) => Some(toks_view(v@)),
        None => None,
    }
}

/// The search over the attributes from position `i` on: the first `#[<def>]`
/// decides (its arguments must be one string literal); a `#[<unified>(..)]`
/// decides when its arguments hold `name = "..."`.
pub open spec fn attrs_from(attrs: Seq<EntityAttr>, unified: Seq<char>, def: Seq<char>, i: int) -> Result<
    Seq<char>,
    EntityNameError,
>
    decreases attrs.len() - i,
{
    if i < 0 || i >= attrs.len() {
        Err(EntityNameError::NotFound)
    } else {
        let a = attrs[i];
        if path_is(a, def) {
            match list_view(a) {
                Some(toks) => match spec_lit_str(toks) {
                    Some(v) => Ok(v),
                    None => Err(EntityNameError::BadDefArgs),
                },
                None => Err(EntityNameError::BadDefArgs),
            }
        } else if path_is(a, unified) && list_view(a) is Some && spec_scan_name_value(
            list_view(a)->0,
        ) is Some {
            Ok(spec_scan_name_value(list_view(a)->0)->0)
        } else {
            attrs_from(attrs, unified, def, i + 1)
        }
    }
}

/// The entity name of an item: the generator's own `name = "..."` argument
/// first, then its attributes in order.
pub open spec fn spec_find_entity_name(
    args: Seq<TokView>,
    attrs: Seq<EntityAttr>,
    unified: Seq<char>,
    def: Seq<char>,
) -> Result<Seq<char>, EntityNameError> {
    match spec_scan_name_value(args) {
        Some(name) => Ok(name),
        None => attrs_from(attrs, unified, def, 0),
    }
}

fn attr_named(a: &EntityAttr, word: &[char]) -> (r: bool)
    ensures
        r == path_is(*a, word@),
{
    match &a.path_ident {
        Some(p) => chars_eq(p.as_slice(), word),
        None => false,
    }
}

/// Find the `"dialect.entity"` name for an item.
pub fn find_entity_name(args: &[Tok], attrs: &[EntityAttr], unified: &[char], def: &[char]) -> (r:
    Result<Vec<char>, EntityNameError>)
    ensures
        match r {
            Ok(v) => spec_find_entity_name(toks_view(args@), attrs@, unified@, def@) == Ok::<
                Seq<char>,
                EntityNameError,
            >(v@),
            Err(e) => spec_find_entity_name(toks_view(args@), attrs@, unified@, def@) == Err::<
                Seq<char>,
                EntityNameError,
            >(e),
        },
{
    match scan_name_value(args) {
        Some(name) => {
            return Ok(name);
        },
        None => {},
    }
    let mut i: usize = 0;
    while i < attrs.len()
        invariant
            0 <= i <= attrs.len(),
            spec_scan_name_value(toks_view(args@)) is None,
            attrs_from(attrs@, unified@, def@, 0) == attrs_from(attrs@, unified@, def@, i as int),
        decreases attrs.len() - i,
    {
        let a = &attrs[i];
        if attr_named(a, def) {
            return match &a.list_tokens {
                Some(toks) => {
                    if toks.len() == 1 {
                        proof {
                            assert(toks_view(toks@)[0] == toks@[0]@);
                        }
                        match &toks[0] {
                            Tok::Literal(text) => match string_literal_value(text) {
                                Some(v) => Ok(v),
                                None => Err(EntityNameError::BadDefArgs),
                            },
                            _ => Err(EntityNameError::BadDefArgs),
                        }
                    } else {
                        Err(EntityNameError::BadDefArgs)
                    }
                },
                None => Err(EntityNameError::BadDefArgs),
            };
        }
        if attr_named(a, unified) {
            match &a.list_tokens {
                Some(toks) => match scan_name_value(toks.as_slice()) {
                    Some(name) => {
                        return Ok(name);
                    },
                    None => {},
                },
                None => {},
            }
        }
        i += 1;
    }
    Err(EntityNameError::NotFound)
}

/// The `(dialect, entity)` of an item for the attribute forms of the class
/// generators.
pub open spec fn spec_class_attribute(
    args: Seq<TokView>,
    attrs: Seq<EntityAttr>,
    unified: Seq<char>,
    def: Seq<char>,
) -> Result<(Seq<char>, Seq<char>), EntityNameError> {
    match spec_find_entity_name(args, attrs, unified, def) {
        Err(e) => Err(e),
        Ok(name) => match spec_split_once(name, '.') {
            Some(parts) => Ok(parts),
            None => Err(EntityNameError::NotQualified),
        },
    }
}

/// Find the item's entity name and split it into dialect and entity.
pub fn class_attribute(args: &[Tok], attrs: &[EntityAttr], unified: &[char], def: &[char]) -> (r:
    Result<(Vec<char>, Vec<char>), EntityNameError>)
    ensures
        match r {
            Ok((d, e)) => spec_class_attribute(toks_view(args@), attrs@, unified@, def@) == Ok::<
                (Seq<char>, Seq<char>),
                EntityNameError,
            >((d@, e@)),
            Err(e) => spec_class_attribute(toks_view(args@), attrs@, unified@, def@) == Err::<
                (Seq<char>, Seq<char>),
                EntityNameError,
            >(e),
        },
{
    let name = match find_entity_name(args, attrs, unified, def) {
        Ok(name) => name,
        Err(e) => {
            return Err(e);
        },
    };
    match split_once(name.as_slice(), '.') {
        Some(parts) => Ok(parts),
        None => Err(EntityNameError::NotQualified),
    }
}

} // verus!
