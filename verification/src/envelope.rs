//! The `pliron_reflect_v1` token envelope: its grammar, its parser, and the
//! checks the class and impl generators run on a parsed envelope.
//!
//! ```text
//! pliron_reflect_v1,
//! kind: op,                  // op | attr | ty | op_impl | attr_impl | ty_impl
//! ident: ModuleOp,
//! name: "builtin.module",    // absent for *_impl kinds
//! item: { ...item tokens... }
//! ```

use vstd::prelude::*;

use crate::syntax::{accepts_as_ident, ident_accepted, str_literal_value, string_literal_value};
use crate::text::{chars_eq, spec_split_once, split_once};
use crate::tokens::{Delimiter, Tok, TokView, toks_view};

verus! {

/// The version marker that opens every envelope.
pub open spec fn version_text() -> Seq<char> {
    seq!['p', 'l', 'i', 'r', 'o', 'n', '_', 'r', 'e', 'f', 'l', 'e', 'c', 't', '_', 'v', '1']
}

/// A key of the envelope.
#[derive(Clone, Copy, Debug, PartialEq, Eq, Structural)]
pub enum EnvelopeKey {
    Kind,
    Ident,
    Name,
    Item,
}

/// The text of a key.
pub open spec fn key_text(k: EnvelopeKey) -> Seq<char> {
    match k {
        EnvelopeKey::Kind => seq!['k', 'i', 'n', 'd'],
        EnvelopeKey::Ident => seq!['i', 'd', 'e', 'n', 't'],
        EnvelopeKey::Name => seq!['n', 'a', 'm', 'e'],
        EnvelopeKey::Item => seq!['i', 't', 'e', 'm'],
    }
}

fn key_chars(k: EnvelopeKey) -> (r: Vec<char>)
    ensures
        r@ == key_text(k),
{
    match k {
        EnvelopeKey::Kind => vec!['k', 'i', 'n', 'd'],
        EnvelopeKey::Ident => vec!['i', 'd', 'e', 'n', 't'],
        EnvelopeKey::Name => vec!['n', 'a', 'm', 'e'],
        EnvelopeKey::Item => vec!['i', 't', 'e', 'm'],
    }
}

/// Why an envelope was refused.
#[derive(Clone, Copy, Debug, PartialEq, Eq, Structural)]
pub enum EnvelopeErrorReason {
    /// The input does not open with an identifier: this is not an envelope.
    NotAnEnvelope,
    /// The input opens with an identifier other than `pliron_reflect_v1`.
    UnsupportedVersion,
    /// `key:` was expected.
    ExpectedKey(EnvelopeKey),
    /// An identifier (not a keyword) was expected.
    ExpectedIdent,
    /// `,` was expected.
    ExpectedComma,
    /// `:` was expected.
    ExpectedColon,
    /// A string literal was expected.
    ExpectedStringLiteral,
    /// A `{ .. }` group was expected.
    ExpectedBraces,
    /// Tokens follow the end of the envelope.
    UnexpectedToken,
}

/// A refusal and the index of the token it points at (the input's length when
/// the input ended early).
#[derive(Clone, Copy, Debug, PartialEq, Eq, Structural)]
pub struct EnvelopeError {
    pub reason: EnvelopeErrorReason,
    pub at: usize,
}

/// A parsed envelope. Token positions index the input.
#[derive(Clone, Debug)]
pub struct Envelope {
    pub kind: Vec<char>,
    pub ident: Vec<char>,
    /// The value of the `name:` string literal, when present.
    pub name: Option<Vec<char>>,
    /// Position of the `kind` value.
    pub kind_at: usize,
    /// Position of the `ident` value.
    pub ident_at: usize,
    /// Position of the `name` literal, when present.
    pub name_at: Option<usize>,
    /// Position of the `{ .. }` item group.
    pub item_at: usize,
    /// Number of token trees inside the item group.
    pub item_len: usize,
}

/// The mathematical value of an [`Envelope`].
pub struct EnvelopeView {
    pub kind: Seq<char>,
    pub ident: Seq<char>,
    pub name: Option<Seq<char>>,
    pub kind_at: nat,
    pub ident_at: nat,
    pub name_at: Option<nat>,
    pub item_at: nat,
    pub item_len: nat,
}

pub open spec fn opt_chars_view(o: Option<Vec<char>>) -> Option<Seq<char>> {
    match o {
        Some(v) => Some(v@),
        None => None,
    }
}

pub open spec fn opt_usize_view(o: Option<usize>) -> Option<nat> {
    match o {
        Some(v) => Some(v as nat),
        None => None,
    }
}

impl View for Envelope {
    type V = EnvelopeView;

    open spec fn view(&self) -> EnvelopeView {
        EnvelopeView {
            kind: self.kind@,
            ident: self.ident@,
            name: opt_chars_view(self.name),
            kind_at: self.kind_at as nat,
            ident_at: self.ident_at as nat,
            name_at: opt_usize_view(self.name_at),
            item_at: self.item_at as nat,
            item_len: self.item_len as nat,
        }
    }
}

// ---------------------------------------------------------------------------
// The grammar
// ---------------------------------------------------------------------------

/// Token `i` is an identifier that `syn` accepts.
pub open spec fn ident_at(t: Seq<TokView>, i: int) -> bool {
    0 <= i < t.len() && t[i] is Ident && accepts_as_ident(t[i]->Ident_0)
}

/// Token `i` is the punctuation `c`.
pub open spec fn punct_at(t: Seq<TokView>, i: int, c: char) -> bool {
    0 <= i < t.len() && t[i] == TokView::Punct(c)
}

/// Token `i` is the identifier `text`.
pub open spec fn word_at(t: Seq<TokView>, i: int, text: Seq<char>) -> bool {
    ident_at(t, i) && t[i]->Ident_0 == text
}

/// Token `i` is a string literal; its value.
pub open spec fn str_lit_at(t: Seq<TokView>, i: int) -> Option<Seq<char>> {
    if 0 <= i < t.len() && t[i] is Literal {
        str_literal_value(t[i]->Literal_0)
    } else {
        None
    }
}

/// Token `i` is a `{ .. }` group.
pub open spec fn braces_at(t: Seq<TokView>, i: int) -> bool {
    0 <= i < t.len() && t[i] is Group && t[i]->Group_0 == Delimiter::Brace
}

pub open spec fn err(reason: EnvelopeErrorReason, at: int) -> EnvelopeError {
    EnvelopeError { reason, at: at as usize }
}

/// `key:` at `i`: the position after it, or the refusal.
pub open spec fn spec_expect_key(t: Seq<TokView>, i: int, key: EnvelopeKey) -> Result<
    int,
    EnvelopeError,
> {
    if !ident_at(t, i) || t[i]->Ident_0 != key_text(key) {
        Err(err(EnvelopeErrorReason::ExpectedKey(key), i))
    } else if !punct_at(t, i + 1, ':') {
        Err(err(EnvelopeErrorReason::ExpectedColon, i + 1))
    } else {
        Ok(i + 2)
    }
}

/// `item: { .. }` and an optional trailing `,` at `p`, closing the envelope.
pub open spec fn spec_parse_tail(
    t: Seq<TokView>,
    p: int,
    kind: Seq<char>,
    ident: Seq<char>,
    name: Option<Seq<char>>,
    name_at: Option<nat>,
) -> Result<EnvelopeView, EnvelopeError> {
    match spec_expect_key(t, p, EnvelopeKey::Item) {
        Err(e) => Err(e),
        Ok(q) => if !braces_at(t, q) {
            Err(err(EnvelopeErrorReason::ExpectedBraces, q))
        } else {
            let end = if punct_at(t, q + 1, ',') {
                q + 2
            } else {
                q + 1
            };
            if end != t.len() {
                Err(err(EnvelopeErrorReason::UnexpectedToken, end))
            } else {
                Ok(
                    EnvelopeView {
                        kind,
                        ident,
                        name,
                        kind_at: 4,
                        ident_at: 8,
                        name_at,
                        item_at: q as nat,
                        item_len: t[q]->Group_1,
                    },
                )
            }
        },
    }
}

/// The envelope read from `t`, or the first place where `t` departs from the
/// grammar (read left to right, as `syn` reads it).
pub open spec fn spec_parse_envelope(t: Seq<TokView>) -> Result<EnvelopeView, EnvelopeError> {
    if !ident_at(t, 0) {
        Err(err(EnvelopeErrorReason::NotAnEnvelope, 0))
    } else if t[0]->Ident_0 != version_text() {
        Err(err(EnvelopeErrorReason::UnsupportedVersion, 0))
    } else if !punct_at(t, 1, ',') {
        Err(err(EnvelopeErrorReason::ExpectedComma, 1))
    } else {
        match spec_expect_key(t, 2, EnvelopeKey::Kind) {
            Err(e) => Err(e),
            Ok(_) => if !ident_at(t, 4) {
                Err(err(EnvelopeErrorReason::ExpectedIdent, 4))
            } else if !punct_at(t, 5, ',') {
                Err(err(EnvelopeErrorReason::ExpectedComma, 5))
            } else {
                match spec_expect_key(t, 6, EnvelopeKey::Ident) {
                    Err(e) => Err(e),
                    Ok(_) => if !ident_at(t, 8) {
                        Err(err(EnvelopeErrorReason::ExpectedIdent, 8))
                    } else if !punct_at(t, 9, ',') {
                        Err(err(EnvelopeErrorReason::ExpectedComma, 9))
                    } else {
                        let kind = t[4]->Ident_0;
                        let ident = t[8]->Ident_0;
                        if word_at(t, 10, key_text(EnvelopeKey::Name)) {
                            if !punct_at(t, 11, ':') {
                                Err(err(EnvelopeErrorReason::ExpectedColon, 11))
                            } else if str_lit_at(t, 12) is None {
                                Err(err(EnvelopeErrorReason::ExpectedStringLiteral, 12))
                            } else if !punct_at(t, 13, ',') {
                                Err(err(EnvelopeErrorReason::ExpectedComma, 13))
                            } else {
                                spec_parse_tail(t, 14, kind, ident, str_lit_at(t, 12), Some(12))
                            }
                        } else {
                            spec_parse_tail(t, 10, kind, ident, None, None)
                        }
                    },
                }
            },
        }
    }
}

// ---------------------------------------------------------------------------
// The parser
// ---------------------------------------------------------------------------

fn is_accepted_ident(t: &[Tok], i: usize) -> (r: bool)
    ensures
        r == ident_at(toks_view(t@), i as int),
{
    if i < t.len() {
        match &t[i] {
            Tok::Ident(s) => ident_accepted(s.as_slice()),
            _ => false,
        }
    } else {
        false
    }
}

fn is_punct(t: &[Tok], i: usize, c: char) -> (r: bool)
    ensures
        r == punct_at(toks_view(t@), i as int, c),
{
    if i < t.len() {
        match &t[i] {
            Tok::Punct(p) => *p == c,
            _ => false,
        }
    } else {
        false
    }
}

fn is_word(t: &[Tok], i: usize, text: &[char]) -> (r: bool)
    ensures
        r == word_at(toks_view(t@), i as int, text@),
{
    if is_accepted_ident(t, i) {
        match &t[i] {
            Tok::Ident(s) => chars_eq(s.as_slice(), text),
            _ => false,
        }
    } else {
        false
    }
}

fn ident_text(t: &[Tok], i: usize) -> (r: Vec<char>)
    requires
        i < t.len(),
        t@[i as int] is Ident,
    ensures
        r@ == toks_view(t@)[i as int]->Ident_0,
{
    match &t[i] {
        Tok::Ident(s) => crate::text::copy_chars(s.as_slice()),
        _ => Vec::new(),
    }
}

fn expect_key(t: &[Tok], i: usize, key: EnvelopeKey) -> (r: Result<usize, EnvelopeError>)
    requires
        i + 2 <= usize::MAX,
    ensures
        match (r, spec_expect_key(toks_view(t@), i as int, key)) {
            (Ok(a), Ok(b)) => a == b,
            (Err(a), Err(b)) => a == b,
            _ => false,
        },
{
    let k = key_chars(key);
    if !is_word(t, i, k.as_slice()) {
        return Err(EnvelopeError { reason: EnvelopeErrorReason::ExpectedKey(key), at: i });
    }
    if !is_punct(t, i + 1, ':') {
        return Err(EnvelopeError { reason: EnvelopeErrorReason::ExpectedColon, at: i + 1 });
    }
    Ok(i + 2)
}

fn parse_tail(
    t: &[Tok],
    p: usize,
    kind: Vec<char>,
    ident: Vec<char>,
    name: Option<Vec<char>>,
    name_at: Option<usize>,
) -> (r: Result<Envelope, EnvelopeError>)
    requires
        p <= 14,
    ensures
        match (r, spec_parse_tail(
            toks_view(t@),
            p as int,
            kind@,
            ident@,
            opt_chars_view(name),
            opt_usize_view(name_at),
        )) {
            (Ok(a), Ok(b)) => a@ == b,
            (Err(a), Err(b)) => a == b,
            _ => false,
        },
{
    let ghost tv = toks_view(t@);
    let q = match expect_key(t, p, EnvelopeKey::Item) {
        Ok(q) => q,
        Err(e) => return Err(e),
    };
    let item_len = if q < t.len() {
        match &t[q] {
            Tok::Group(Delimiter::Brace, n) => *n,
            _ => {
                return Err(EnvelopeError { reason: EnvelopeErrorReason::ExpectedBraces, at: q });
            },
        }
    } else {
        return Err(EnvelopeError { reason: EnvelopeErrorReason::ExpectedBraces, at: q });
    };
    let end = if is_punct(t, q + 1, ',') {
        q + 2
    } else {
        q + 1
    };
    if end != t.len() {
        return Err(EnvelopeError { reason: EnvelopeErrorReason::UnexpectedToken, at: end });
    }
    Ok(Envelope { kind, ident, name, kind_at: 4, ident_at: 8, name_at, item_at: q, item_len })
}

/// Parse a `pliron_reflect_v1` envelope.
pub fn parse_envelope(t: &[Tok]) -> (r: Result<Envelope, EnvelopeError>)
    ensures
        match (r, spec_parse_envelope(toks_view(t@))) {
            (Ok(a), Ok(b)) => a@ == b,
            (Err(a), Err(b)) => a == b,
            _ => false,
        },
{
    let ghost tv = toks_view(t@);
    if !is_accepted_ident(t, 0) {
        return Err(EnvelopeError { reason: EnvelopeErrorReason::NotAnEnvelope, at: 0 });
    }
    let v = vec!['p', 'l', 'i', 'r', 'o', 'n', '_', 'r', 'e', 'f', 'l', 'e', 'c', 't', '_', 'v', '1'];
    if !is_word(t, 0, v.as_slice()) {
        return Err(EnvelopeError { reason: EnvelopeErrorReason::UnsupportedVersion, at: 0 });
    }
    if !is_punct(t, 1, ',') {
        return Err(EnvelopeError { reason: EnvelopeErrorReason::ExpectedComma, at: 1 });
    }
    match expect_key(t, 2, EnvelopeKey::Kind) {
        Ok(_) => {},
        Err(e) => return Err(e),
    }
    if !is_accepted_ident(t, 4) {
        return Err(EnvelopeError { reason: EnvelopeErrorReason::ExpectedIdent, at: 4 });
    }
    if !is_punct(t, 5, ',') {
        return Err(EnvelopeError { reason: EnvelopeErrorReason::ExpectedComma, at: 5 });
    }
    match expect_key(t, 6, EnvelopeKey::Ident) {
        Ok(_) => {},
        Err(e) => return Err(e),
    }
    if !is_accepted_ident(t, 8) {
        return Err(EnvelopeError { reason: EnvelopeErrorReason::ExpectedIdent, at: 8 });
    }
    if !is_punct(t, 9, ',') {
        return Err(EnvelopeError { reason: EnvelopeErrorReason::ExpectedComma, at: 9 });
    }
    let kind = ident_text(t, 4);
    let ident = ident_text(t, 8);
    let name_key = key_chars(EnvelopeKey::Name);
    if is_word(t, 10, name_key.as_slice()) {
        if !is_punct(t, 11, ':') {
            return Err(EnvelopeError { reason: EnvelopeErrorReason::ExpectedColon, at: 11 });
        }
        let value = if 12 < t.len() {
            match &t[12] {
                Tok::Literal(text) => string_literal_value(text),
                _ => None,
            }
        } else {
            None
        };
        if value.is_none() {
            return Err(
                EnvelopeError { reason: EnvelopeErrorReason::ExpectedStringLiteral, at: 12 },
            );
        }
        if !is_punct(t, 13, ',') {
            return Err(EnvelopeError { reason: EnvelopeErrorReason::ExpectedComma, at: 13 });
        }
        parse_tail(t, 14, kind, ident, value, Some(12))
    } else {
        parse_tail(t, 10, kind, ident, None, None)
    }
}

} // verus!

verus! {

// ---------------------------------------------------------------------------
// Checks on a parsed envelope
// ---------------------------------------------------------------------------

/// Why an envelope was refused by a generator. Positions index the input
/// tokens, for error reporting.
#[derive(Clone, Copy, Debug, PartialEq, Eq, Structural)]
pub enum ExportError {
    /// The tokens are not a well-formed envelope.
    Envelope(EnvelopeError),
    /// The envelope is of another kind than the generator handles; `at` is the
    /// kind token.
    WrongKind { at: usize },
    /// A class envelope without `name:`; `at` is the ident token.
    MissingName { at: usize },
    /// The name is not of the form `dialect.entity`; `at` is the name literal.
    NotDialectQualified { at: usize },
}

/// `(dialect, entity)` of a class envelope of kind `expected`.
pub open spec fn spec_named_parts(e: EnvelopeView, expected: Seq<char>) -> Result<
    (Seq<char>, Seq<char>),
    ExportError,
> {
    if e.kind != expected {
        Err(ExportError::WrongKind { at: e.kind_at as usize })
    } else {
        match e.name {
            None => Err(ExportError::MissingName { at: e.ident_at as usize }),
            Some(n) => match spec_split_once(n, '.') {
                None => Err(
                    ExportError::NotDialectQualified {
                        at: match e.name_at {
                            Some(p) => p as usize,
                            None => 0,
                        },
                    },
                ),
                Some(parts) => Ok(parts),
            },
        }
    }
}

/// Validate the envelope kind and split the `"dialect.entity"` name at its
/// first `.`.
pub fn named_parts(env: &Envelope, expected_kind: &[char]) -> (r: Result<
    (Vec<char>, Vec<char>),
    ExportError,
>)
    ensures
        match (r, spec_named_parts(env@, expected_kind@)) {
            (Ok((d, n)), Ok((sd, sn))) => d@ == sd && n@ == sn,
            (Err(a), Err(b)) => a == b,
            _ => false,
        },
{
    if !chars_eq(env.kind.as_slice(), expected_kind) {
        return Err(ExportError::WrongKind { at: env.kind_at });
    }
    match &env.name {
        None => Err(ExportError::MissingName { at: env.ident_at }),
        Some(n) => match split_once(n.as_slice(), '.') {
            None => Err(
                ExportError::NotDialectQualified {
                    at: match env.name_at {
                        Some(p) => p,
                        None => 0,
                    },
                },
            ),
            Some(parts) => Ok(parts),
        },
    }
}

/// Validate the envelope kind of an `*_impl` export.
pub fn check_impl_kind(env: &Envelope, expected_kind: &[char]) -> (r: Result<(), ExportError>)
    ensures
        r is Ok <==> env.kind@ == expected_kind@,
        r is Err ==> r == Err::<(), ExportError>(ExportError::WrongKind { at: env.kind_at }),
{
    if chars_eq(env.kind.as_slice(), expected_kind) {
        Ok(())
    } else {
        Err(ExportError::WrongKind { at: env.kind_at })
    }
}

/// What a class generator reads from a class envelope.
#[derive(Clone, Debug)]
pub struct ClassExport {
    pub ident: Vec<char>,
    pub dialect: Vec<char>,
    pub entity: Vec<char>,
    /// Position of the item group in the input.
    pub item_at: usize,
    /// The item group is empty (ops export no item tokens); the generator then
    /// works on a unit struct.
    pub item_is_empty: bool,
}

/// The mathematical value of a [`ClassExport`].
pub struct ClassExportView {
    pub ident: Seq<char>,
    pub dialect: Seq<char>,
    pub entity: Seq<char>,
    pub item_at: nat,
    pub item_is_empty: bool,
}

impl View for ClassExport {
    type V = ClassExportView;

    open spec fn view(&self) -> ClassExportView {
        ClassExportView {
            ident: self.ident@,
            dialect: self.dialect@,
            entity: self.entity@,
            item_at: self.item_at as nat,
            item_is_empty: self.item_is_empty,
        }
    }
}

/// What the class generator of kind `expected` reads from the tokens `t`.
pub open spec fn spec_class_from_export(t: Seq<TokView>, expected: Seq<char>) -> Result<
    ClassExportView,
    ExportError,
> {
    match spec_parse_envelope(t) {
        Err(e) => Err(ExportError::Envelope(e)),
        Ok(env) => match spec_named_parts(env, expected) {
            Err(e) => Err(e),
            Ok((d, n)) => Ok(
                ClassExportView {
                    ident: env.ident,
                    dialect: d,
                    entity: n,
                    item_at: env.item_at,
                    item_is_empty: env.item_len == 0,
                },
            ),
        },
    }
}

/// Read a class envelope of kind `expected_kind` (`op`, `attr` or `ty`).
pub fn class_from_export(t: &[Tok], expected_kind: &[char]) -> (r: Result<
    ClassExport,
    ExportError,
>)
    ensures
        match (r, spec_class_from_export(toks_view(t@), expected_kind@)) {
            (Ok(a), Ok(b)) => a@ == b,
            (Err(a), Err(b)) => a == b,
            _ => false,
        },
{
    let env = match parse_envelope(t) {
        Ok(env) => env,
        Err(e) => return Err(ExportError::Envelope(e)),
    };
    let (dialect, entity) = match named_parts(&env, expected_kind) {
        Ok(parts) => parts,
        Err(e) => return Err(e),
    };
    Ok(
        ClassExport {
            ident: env.ident,
            dialect,
            entity,
            item_at: env.item_at,
            item_is_empty: env.item_len == 0,
        },
    )
}

/// The position of the item group that an impl generator of kind `expected`
/// reads from the tokens `t`.
pub open spec fn spec_impl_from_export(t: Seq<TokView>, expected: Seq<char>) -> Result<
    nat,
    ExportError,
> {
    match spec_parse_envelope(t) {
        Err(e) => Err(ExportError::Envelope(e)),
        Ok(env) => if env.kind != expected {
            Err(ExportError::WrongKind { at: env.kind_at as usize })
        } else {
            Ok(env.item_at)
        },
    }
}

/// Read an impl envelope of kind `expected_kind` (`op_impl`, `attr_impl` or
/// `ty_impl`); the position of its item group.
pub fn impl_from_export(t: &[Tok], expected_kind: &[char]) -> (r: Result<usize, ExportError>)
    ensures
        match (r, spec_impl_from_export(toks_view(t@), expected_kind@)) {
            (Ok(a), Ok(b)) => a as nat == b,
            (Err(a), Err(b)) => a == b,
            _ => false,
        },
{
    let env = match parse_envelope(t) {
        Ok(env) => env,
        Err(e) => return Err(ExportError::Envelope(e)),
    };
    match check_impl_kind(&env, expected_kind) {
        Ok(()) => Ok(env.item_at),
        Err(e) => Err(e),
    }
}

} // verus!
