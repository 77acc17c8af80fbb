//! The reflect token exports: the inert `__pliron_reflect_<kind>_<Ident>`
//! macros that the pliron derives leave behind for every annotated item, and
//! the envelope they forward to a consuming generator.

use vstd::prelude::*;

use crate::envelope::{
    ClassExportView, EnvelopeView, ExportError, key_text, spec_class_from_export,
    spec_impl_from_export, spec_parse_envelope, version_text, EnvelopeKey,
};
use crate::syntax::{accepts_as_ident, lemma_words_not_reserved, str_literal_value, string_literal_text};
use crate::text::{concat, concat3, spec_split_once, lemma_split_once_concat};
use crate::tokens::{Delimiter, Tok, TokView, toks_view};

verus! {

/// The kind of an exported item.
#[derive(Clone, Copy, Debug, PartialEq, Eq, Structural)]
pub enum ReflectKind {
    Op,
    Attr,
    Ty,
    OpImpl,
    AttrImpl,
    TyImpl,
}

/// The text of a kind, as it stands in the envelope and in the macro name.
pub open spec fn kind_text(k: ReflectKind) -> Seq<char> {
    match k {
        ReflectKind::Op => seq!['o', 'p'],
        ReflectKind::Attr => seq!['a', 't', 't', 'r'],
        ReflectKind::Ty => seq!['t', 'y'],
        ReflectKind::OpImpl => seq!['o', 'p', '_', 'i', 'm', 'p', 'l'],
        ReflectKind::AttrImpl => seq!['a', 't', 't', 'r', '_', 'i', 'm', 'p', 'l'],
        ReflectKind::TyImpl => seq!['t', 'y', '_', 'i', 'm', 'p', 'l'],
    }
}

/// Whether the kind names an `impl` block (and so carries no `name:`).
pub open spec fn is_impl_kind(k: ReflectKind) -> bool {
    k == ReflectKind::OpImpl || k == ReflectKind::AttrImpl || k == ReflectKind::TyImpl
}

/// The text of a kind.
pub fn kind_chars(k: ReflectKind) -> (r: Vec<char>)
    ensures
        r@ == kind_text(k),
{
    match k {
        ReflectKind::Op => vec!['o', 'p'],
        ReflectKind::Attr => vec!['a', 't', 't', 'r'],
        ReflectKind::Ty => vec!['t', 'y'],
        ReflectKind::OpImpl => vec!['o', 'p', '_', 'i', 'm', 'p', 'l'],
        ReflectKind::AttrImpl => vec!['a', 't', 't', 'r', '_', 'i', 'm', 'p', 'l'],
        ReflectKind::TyImpl => vec!['t', 'y', '_', 'i', 'm', 'p', 'l'],
    }
}

/// `"dialect.entity"`.
pub open spec fn spec_full_name(dialect: Seq<char>, entity: Seq<char>) -> Seq<char> {
    dialect + seq!['.'] + entity
}

/// The registration name `"dialect.entity"` of an entity.
pub fn full_name(dialect: &[char], entity: &[char]) -> (r: Vec<char>)
    ensures
        r@ == spec_full_name(dialect@, entity@),
{
    let mut dot: Vec<char> = Vec::new();
    dot.push('.');
    concat3(dialect, dot.as_slice(), entity)
}

/// `__pliron_reflect_<kind>_<ident>`.
pub open spec fn spec_export_macro_name(k: ReflectKind, ident: Seq<char>) -> Seq<char> {
    seq!['_', '_', 'p', 'l', 'i', 'r', 'o', 'n', '_', 'r', 'e', 'f', 'l', 'e', 'c', 't', '_'] + kind_text(k) + seq!['_'] + ident
}

/// The name of the export macro for `ident`.
pub fn export_macro_name(k: ReflectKind, ident: &[char]) -> (r: Vec<char>)
    ensures
        r@ == spec_export_macro_name(k, ident@),
{
    let prefix = vec!['_', '_', 'p', 'l', 'i', 'r', 'o', 'n', '_', 'r', 'e', 'f', 'l', 'e', 'c', 't', '_'];
    let kind = kind_chars(k);
    let sep = vec!['_'];
    let head = concat3(prefix.as_slice(), kind.as_slice(), sep.as_slice());
    concat(head.as_slice(), ident)
}

/// The envelope body an export macro forwards, with the name written as the
/// literal `name_lit` and an item group of `item_len` tokens.
pub open spec fn spec_envelope_tokens(
    kind: Seq<char>,
    ident: Seq<char>,
    name_lit: Option<Seq<char>>,
    item_len: nat,
) -> Seq<TokView> {
    let head = seq![
        TokView::Ident(version_text()),
        TokView::Punct(','),
        TokView::Ident(key_text(EnvelopeKey::Kind)),
        TokView::Punct(':'),
        TokView::Ident(kind),
        TokView::Punct(','),
        TokView::Ident(key_text(EnvelopeKey::Ident)),
        TokView::Punct(':'),
        TokView::Ident(ident),
        TokView::Punct(','),
    ];
    let name_part = match name_lit {
        Some(lit) => seq![
            TokView::Ident(key_text(EnvelopeKey::Name)),
            TokView::Punct(':'),
            TokView::Literal(lit),
            TokView::Punct(','),
        ],
        None => Seq::empty(),
    };
    head + name_part + seq![
        TokView::Ident(key_text(EnvelopeKey::Item)),
        TokView::Punct(':'),
        TokView::Group(Delimiter::Brace, item_len),
    ]
}

/// `t` is the envelope of `kind`/`ident`, whose name literal (if any) reads
/// back as `name`.
pub open spec fn is_envelope_of(
    t: Seq<TokView>,
    kind: Seq<char>,
    ident: Seq<char>,
    name: Option<Seq<char>>,
    item_len: nat,
) -> bool {
    match name {
        None => t == spec_envelope_tokens(kind, ident, None, item_len),
        Some(n) => {
            &&& t.len() > 12
            &&& t[12] is Literal
            &&& str_literal_value(t[12]->Literal_0) == Some(n)
            &&& t == spec_envelope_tokens(kind, ident, Some(t[12]->Literal_0), item_len)
        },
    }
}

fn push_word(out: &mut Vec<Tok>, s: Vec<char>)
    ensures
        toks_view(final(out)@) == toks_view(old(out)@).push(TokView::Ident(s@)),
{
    push_tok(out, Tok::Ident(s));
}

fn push_tok(out: &mut Vec<Tok>, t: Tok)
    ensures
        toks_view(final(out)@) == toks_view(old(out)@).push(t@),
{
    out.push(t);
    proof {
        assert(toks_view(out@) =~= toks_view(old(out)@).push(t@));
    }
}

/// The envelope body forwarded by the export macro of `ident`: the consuming
/// macro receives it with the item's tokens inside the `{ .. }` group of
/// `item_len` tokens.
pub fn envelope_tokens(
    kind: ReflectKind,
    ident: &[char],
    name: Option<&Vec<char>>,
    item_len: usize,
) -> (r: Vec<Tok>)
    ensures
        is_envelope_of(
            toks_view(r@),
            kind_text(kind),
            ident@,
            match name {
                Some(n) => Some(n@),
                None => None,
            },
            item_len as nat,
        ),
{
    let mut out: Vec<Tok> = Vec::new();
    push_word(&mut out, vec!['p', 'l', 'i', 'r', 'o', 'n', '_', 'r', 'e', 'f', 'l', 'e', 'c', 't', '_', 'v', '1']);
    push_tok(&mut out, Tok::Punct(','));
    push_word(&mut out, vec!['k', 'i', 'n', 'd']);
    push_tok(&mut out, Tok::Punct(':'));
    push_tok(&mut out, Tok::Ident(kind_chars(kind)));
    push_tok(&mut out, Tok::Punct(','));
    push_word(&mut out, vec!['i', 'd', 'e', 'n', 't']);
    push_tok(&mut out, Tok::Punct(':'));
    push_tok(&mut out, Tok::Ident(crate::text::copy_chars(ident)));
    push_tok(&mut out, Tok::Punct(','));
    let ghost lit: Seq<char> = Seq::empty();
    match name {
        Some(n) => {
            let text = string_literal_text(n);
            proof {
                lit = text@;
            }
            push_word(&mut out, vec!['n', 'a', 'm', 'e']);
            push_tok(&mut out, Tok::Punct(':'));
            push_tok(&mut out, Tok::Literal(text));
            push_tok(&mut out, Tok::Punct(','));
        },
        None => {},
    }
    push_word(&mut out, vec!['i', 't', 'e', 'm']);
    push_tok(&mut out, Tok::Punct(':'));
    push_tok(&mut out, Tok::Group(Delimiter::Brace, item_len));
    proof {
        let name_lit = match name {
            Some(_) => Some(lit),
            None => None,
        };
        assert(toks_view(out@) =~= spec_envelope_tokens(
            kind_text(kind),
            ident@,
            name_lit,
            item_len as nat,
        ));
    }
    out
}

/// The words of the envelope grammar and the kinds are identifiers to `syn`.
pub proof fn lemma_envelope_words_accepted()
    ensures
        accepts_as_ident(version_text()),
        accepts_as_ident(key_text(EnvelopeKey::Kind)),
        accepts_as_ident(key_text(EnvelopeKey::Ident)),
        accepts_as_ident(key_text(EnvelopeKey::Name)),
        accepts_as_ident(key_text(EnvelopeKey::Item)),
        key_text(EnvelopeKey::Item) != key_text(EnvelopeKey::Name),
        forall|k: ReflectKind| accepts_as_ident(#[trigger] kind_text(k)),
{
    lemma_words_not_reserved();
    assert forall|k: ReflectKind| accepts_as_ident(#[trigger] kind_text(k)) by {
        match k {
            ReflectKind::Op => {},
            ReflectKind::Attr => {},
            ReflectKind::Ty => {},
            ReflectKind::OpImpl => {},
            ReflectKind::AttrImpl => {},
            ReflectKind::TyImpl => {},
        }
    }
}

/// Law: an envelope emitted by an export macro is read back by the parser with
/// the same kind, ident and name (for any ident that `syn` accepts).
pub proof fn lemma_envelope_roundtrip(
    t: Seq<TokView>,
    kind: ReflectKind,
    ident: Seq<char>,
    name: Option<Seq<char>>,
    item_len: nat,
)
    requires
        accepts_as_ident(ident),
        is_envelope_of(t, kind_text(kind), ident, name, item_len),
    ensures
        spec_parse_envelope(t) == Ok::<EnvelopeView, crate::envelope::EnvelopeError>(
            EnvelopeView {
                kind: kind_text(kind),
                ident,
                name,
                kind_at: 4,
                ident_at: 8,
                name_at: match name {
                    Some(_) => Some(12nat),
                    None => None,
                },
                item_at: match name {
                    Some(_) => 16nat,
                    None => 12nat,
                },
                item_len,
            },
        ),
{
    lemma_envelope_words_accepted();
    assert(accepts_as_ident(kind_text(kind)));
}

/// Law: a class export emitted for `dialect.entity` (with no `.` in the
/// dialect) is read back by the class generator of the same kind as that
/// ident, dialect and entity.
pub proof fn lemma_class_export_roundtrip(
    t: Seq<TokView>,
    kind: ReflectKind,
    ident: Seq<char>,
    dialect: Seq<char>,
    entity: Seq<char>,
    item_len: nat,
)
    requires
        accepts_as_ident(ident),
        !dialect.contains('.'),
        is_envelope_of(t, kind_text(kind), ident, Some(spec_full_name(dialect, entity)), item_len),
    ensures
        spec_class_from_export(t, kind_text(kind)) == Ok::<ClassExportView, ExportError>(
            ClassExportView {
                ident,
                dialect,
                entity,
                item_at: 16,
                item_is_empty: item_len == 0,
            },
        ),
{
    lemma_envelope_roundtrip(t, kind, ident, Some(spec_full_name(dialect, entity)), item_len);
    lemma_split_once_concat(dialect, '.', entity);
}

/// Law: an impl export is read back by the impl generator of the same kind,
/// which finds its item group.
pub proof fn lemma_impl_export_roundtrip(
    t: Seq<TokView>,
    kind: ReflectKind,
    ident: Seq<char>,
    item_len: nat,
)
    requires
        accepts_as_ident(ident),
        is_envelope_of(t, kind_text(kind), ident, None, item_len),
    ensures
        spec_impl_from_export(t, kind_text(kind)) == Ok::<nat, ExportError>(12nat),
{
    lemma_envelope_roundtrip(t, kind, ident, None, item_len);
}

/// Law: the export macro of an item is `__pliron_reflect_<kind>_<Ident>`,
/// with the documented word of each kind (`op`, `attr`, `ty`, `op_impl`,
/// `attr_impl`, `ty_impl`), and no two kinds share a word.
pub proof fn lemma_export_kind_words(ident: Seq<char>)
    ensures
        ({
            let prefix = seq!['_', '_', 'p', 'l', 'i', 'r', 'o', 'n', '_', 'r', 'e', 'f', 'l', 'e', 'c', 't', '_'];
            &&& spec_export_macro_name(ReflectKind::Op, ident) == prefix + seq!['o', 'p', '_'] + ident
            &&& spec_export_macro_name(ReflectKind::Attr, ident) == prefix + seq!['a', 't', 't', 'r', '_'] + ident
            &&& spec_export_macro_name(ReflectKind::Ty, ident) == prefix + seq!['t', 'y', '_'] + ident
            &&& spec_export_macro_name(ReflectKind::OpImpl, ident) == prefix + seq![
                'o',
                'p',
                '_',
                'i',
                'm',
                'p',
                'l',
                '_',
            ] + ident
            &&& spec_export_macro_name(ReflectKind::AttrImpl, ident) == prefix + seq![
                'a',
                't',
                't',
                'r',
                '_',
                'i',
                'm',
                'p',
                'l',
                '_',
            ] + ident
            &&& spec_export_macro_name(ReflectKind::TyImpl, ident) == prefix + seq![
                't',
                'y',
                '_',
                'i',
                'm',
                'p',
                'l',
                '_',
            ] + ident
        }),
        forall|a: ReflectKind, b: ReflectKind| kind_text(a) == kind_text(b) ==> a == b,
{
    let prefix = seq!['_', '_', 'p', 'l', 'i', 'r', 'o', 'n', '_', 'r', 'e', 'f', 'l', 'e', 'c', 't', '_'];
    assert(spec_export_macro_name(ReflectKind::Op, ident) =~= prefix + seq!['o', 'p', '_'] + ident);
    assert(spec_export_macro_name(ReflectKind::Attr, ident) =~= prefix + seq!['a', 't', 't', 'r', '_']
        + ident);
    assert(spec_export_macro_name(ReflectKind::Ty, ident) =~= prefix + seq!['t', 'y', '_'] + ident);
    assert(spec_export_macro_name(ReflectKind::OpImpl, ident) =~= prefix + seq![
        'o',
        'p',
        '_',
        'i',
        'm',
        'p',
        'l',
        '_',
    ] + ident);
    assert(spec_export_macro_name(ReflectKind::AttrImpl, ident) =~= prefix + seq![
        'a',
        't',
        't',
        'r',
        '_',
        'i',
        'm',
        'p',
        'l',
        '_',
    ] + ident);
    assert(spec_export_macro_name(ReflectKind::TyImpl, ident) =~= prefix + seq![
        't',
        'y',
        '_',
        'i',
        'm',
        'p',
        'l',
        '_',
    ] + ident);
    assert forall|a: ReflectKind, b: ReflectKind| kind_text(a) == kind_text(b) implies a == b by {
        if kind_text(a) == kind_text(b) {
            assert(kind_text(a).len() == kind_text(b).len());
            assert(kind_text(a)[0] == kind_text(b)[0]);
            if kind_text(a).len() > 2 {
                assert(kind_text(a)[2] == kind_text(b)[2]);
            }
        }
    }
}

/// Law: the envelope exported for an item of each kind is read back by the
/// class reader of that kind's documented word (`op`, `attr`, `ty`), with the
/// item's ident, dialect and entity.
pub proof fn lemma_class_export_words(
    t: Seq<TokView>,
    kind: ReflectKind,
    ident: Seq<char>,
    dialect: Seq<char>,
    entity: Seq<char>,
    item_len: nat,
)
    requires
        kind == ReflectKind::Op || kind == ReflectKind::Attr || kind == ReflectKind::Ty,
        accepts_as_ident(ident),
        !dialect.contains('.'),
        is_envelope_of(t, kind_text(kind), ident, Some(spec_full_name(dialect, entity)), item_len),
    ensures
        spec_class_from_export(
            t,
            if kind == ReflectKind::Op {
                seq!['o', 'p']
            } else if kind == ReflectKind::Attr {
                seq!['a', 't', 't', 'r']
            } else {
                seq!['t', 'y']
            },
        ) is Ok,
        spec_class_from_export(
            t,
            if kind == ReflectKind::Op {
                seq!['o', 'p']
            } else if kind == ReflectKind::Attr {
                seq!['a', 't', 't', 'r']
            } else {
                seq!['t', 'y']
            },
        )->Ok_0.ident == ident,
{
    lemma_class_export_roundtrip(t, kind, ident, dialect, entity, item_len);
}

} // verus!
