//! The few facts about Rust's lexical syntax that the generators need, taken
//! from `syn` and `proc-macro2` (the crates the macros are built on).

use vstd::prelude::*;

use crate::text::chars_eq;

verus! {

/// Whether the identifier token `text` is one of the words that `syn` refuses
/// as an `Ident`: the keywords and `_`.
pub open spec fn is_reserved_word(text: Seq<char>) -> bool {
    reserved_group_0(text)
        || reserved_group_1(text)
        || reserved_group_2(text)
        || reserved_group_3(text)
        || reserved_group_4(text)
        || reserved_group_5(text)
}

pub open spec fn reserved_group_0(text: Seq<char>) -> bool {
    text == seq!['_']
        || text == seq!['a', 'b', 's', 't', 'r', 'a', 'c', 't']
        || text == seq!['a', 's']
        || text == seq!['a', 's', 'y', 'n', 'c']
        || text == seq!['a', 'w', 'a', 'i', 't']
        || text == seq!['b', 'e', 'c', 'o', 'm', 'e']
        || text == seq!['b', 'o', 'x']
        || text == seq!['b', 'r', 'e', 'a', 'k']
        || text == seq!['c', 'o', 'n', 's', 't']
}

pub open spec fn reserved_group_1(text: Seq<char>) -> bool {
    text == seq!['c', 'o', 'n', 't', 'i', 'n', 'u', 'e']
        || text == seq!['c', 'r', 'a', 't', 'e']
        || text == seq!['d', 'o']
        || text == seq!['d', 'y', 'n']
        || text == seq!['e', 'l', 's', 'e']
        || text == seq!['e', 'n', 'u', 'm']
        || text == seq!['e', 'x', 't', 'e', 'r', 'n']
        || text == seq!['f', 'a', 'l', 's', 'e']
        || text == seq!['f', 'i', 'n', 'a', 'l']
}

pub open spec fn reserved_group_2(text: Seq<char>) -> bool {
    text == seq!['f', 'n']
        || text == seq!['f', 'o', 'r']
        || text == seq!['i', 'f']
        || text == seq!['i', 'm', 'p', 'l']
        || text == seq!['i', 'n']
        || text == seq!['l', 'e', 't']
        || text == seq!['l', 'o', 'o', 'p']
        || text == seq!['m', 'a', 'c', 'r', 'o']
        || text == seq!['m', 'a', 't', 'c', 'h']
}

pub open spec fn reserved_group_3(text: Seq<char>) -> bool {
    text == seq!['m', 'o', 'd']
        || text == seq!['m', 'o', 'v', 'e']
        || text == seq!['m', 'u', 't']
        || text == seq!['o', 'v', 'e', 'r', 'r', 'i', 'd', 'e']
        || text == seq!['p', 'r', 'i', 'v']
        || text == seq!['p', 'u', 'b']
        || text == seq!['r', 'e', 'f']
        || text == seq!['r', 'e', 't', 'u', 'r', 'n']
        || text == seq!['S', 'e', 'l', 'f']
}

pub open spec fn reserved_group_4(text: Seq<char>) -> bool {
    text == seq!['s', 'e', 'l', 'f']
        || text == seq!['s', 't', 'a', 't', 'i', 'c']
        || text == seq!['s', 't', 'r', 'u', 'c', 't']
        || text == seq!['s', 'u', 'p', 'e', 'r']
        || text == seq!['t', 'r', 'a', 'i', 't']
        || text == seq!['t', 'r', 'u', 'e']
        || text == seq!['t', 'r', 'y']
        || text == seq!['t', 'y', 'p', 'e']
        || text == seq!['t', 'y', 'p', 'e', 'o', 'f']
}

pub open spec fn reserved_group_5(text: Seq<char>) -> bool {
    text == seq!['u', 'n', 's', 'a', 'f', 'e']
        || text == seq!['u', 'n', 's', 'i', 'z', 'e', 'd']
        || text == seq!['u', 's', 'e']
        || text == seq!['v', 'i', 'r', 't', 'u', 'a', 'l']
        || text == seq!['w', 'h', 'e', 'r', 'e']
        || text == seq!['w', 'h', 'i', 'l', 'e']
        || text == seq!['y', 'i', 'e', 'l', 'd']
}

/// Whether `syn` accepts the identifier token `text` as an `Ident`.
pub open spec fn accepts_as_ident(text: Seq<char>) -> bool {
    !is_reserved_word(text)
}

/// The value of the string literal written as `text`, if `text` is one.
pub uninterp spec fn str_literal_value(text: Seq<char>) -> Option<Seq<char>>;

/// Whether `syn` accepts the identifier token `text` as an `Ident`.
pub fn ident_accepted(text: &[char]) -> (r: bool)
    ensures
        r == accepts_as_ident(text@),
{
    !(in_reserved_group_0(text)
        || in_reserved_group_1(text)
        || in_reserved_group_2(text)
        || in_reserved_group_3(text)
        || in_reserved_group_4(text)
        || in_reserved_group_5(text))
}

fn is_underscore(text: &[char]) -> (r: bool)
    ensures
        r == (text@ == seq!['_']),
{
    if text.len() == 1 && text[0] == '_' {
        assert(text@ =~= seq!['_']);
        true
    } else {
        proof {
            if text@ == seq!['_'] {
                assert(text@.len() == 1 && text@[0] == '_');
            }
        }
        false
    }
}

fn in_reserved_group_0(text: &[char]) -> (r: bool)
    ensures
        r == reserved_group_0(text@),
{
    is_underscore(text)
        || chars_eq(text, &['a', 'b', 's', 't', 'r', 'a', 'c', 't'])
        || chars_eq(text, &['a', 's'])
        || chars_eq(text, &['a', 's', 'y', 'n', 'c'])
        || chars_eq(text, &['a', 'w', 'a', 'i', 't'])
        || chars_eq(text, &['b', 'e', 'c', 'o', 'm', 'e'])
        || chars_eq(text, &['b', 'o', 'x'])
        || chars_eq(text, &['b', 'r', 'e', 'a', 'k'])
        || chars_eq(text, &['c', 'o', 'n', 's', 't'])
}

fn in_reserved_group_1(text: &[char]) -> (r: bool)
    ensures
        r == reserved_group_1(text@),
{
    chars_eq(text, &['c', 'o', 'n', 't', 'i', 'n', 'u', 'e'])
        || chars_eq(text, &['c', 'r', 'a', 't', 'e'])
        || chars_eq(text, &['d', 'o'])
        || chars_eq(text, &['d', 'y', 'n'])
        || chars_eq(text, &['e', 'l', 's', 'e'])
        || chars_eq(text, &['e', 'n', 'u', 'm'])
        || chars_eq(text, &['e', 'x', 't', 'e', 'r', 'n'])
        || chars_eq(text, &['f', 'a', 'l', 's', 'e'])
        || chars_eq(text, &['f', 'i', 'n', 'a', 'l'])
}

fn in_reserved_group_2(text: &[char]) -> (r: bool)
    ensures
        r == reserved_group_2(text@),
{
    chars_eq(text, &['f', 'n'])
        || chars_eq(text, &['f', 'o', 'r'])
        || chars_eq(text, &['i', 'f'])
        || chars_eq(text, &['i', 'm', 'p', 'l'])
        || chars_eq(text, &['i', 'n'])
        || chars_eq(text, &['l', 'e', 't'])
        || chars_eq(text, &['l', 'o', 'o', 'p'])
        || chars_eq(text, &['m', 'a', 'c', 'r', 'o'])
        || chars_eq(text, &['m', 'a', 't', 'c', 'h'])
}

fn in_reserved_group_3(text: &[char]) -> (r: bool)
    ensures
        r == reserved_group_3(text@),
{
    chars_eq(text, &['m', 'o', 'd'])
        || chars_eq(text, &['m', 'o', 'v', 'e'])
        || chars_eq(text, &['m', 'u', 't'])
        || chars_eq(text, &['o', 'v', 'e', 'r', 'r', 'i', 'd', 'e'])
        || chars_eq(text, &['p', 'r', 'i', 'v'])
        || chars_eq(text, &['p', 'u', 'b'])
        || chars_eq(text, &['r', 'e', 'f'])
        || chars_eq(text, &['r', 'e', 't', 'u', 'r', 'n'])
        || chars_eq(text, &['S', 'e', 'l', 'f'])
}

fn in_reserved_group_4(text: &[char]) -> (r: bool)
    ensures
        r == reserved_group_4(text@),
{
    chars_eq(text, &['s', 'e', 'l', 'f'])
        || chars_eq(text, &['s', 't', 'a', 't', 'i', 'c'])
        || chars_eq(text, &['s', 't', 'r', 'u', 'c', 't'])
        || chars_eq(text, &['s', 'u', 'p', 'e', 'r'])
        || chars_eq(text, &['t', 'r', 'a', 'i', 't'])
        || chars_eq(text, &['t', 'r', 'u', 'e'])
        || chars_eq(text, &['t', 'r', 'y'])
        || chars_eq(text, &['t', 'y', 'p', 'e'])
        || chars_eq(text, &['t', 'y', 'p', 'e', 'o', 'f'])
}

fn in_reserved_group_5(text: &[char]) -> (r: bool)
    ensures
        r == reserved_group_5(text@),
{
    chars_eq(text, &['u', 'n', 's', 'a', 'f', 'e'])
        || chars_eq(text, &['u', 'n', 's', 'i', 'z', 'e', 'd'])
        || chars_eq(text, &['u', 's', 'e'])
        || chars_eq(text, &['v', 'i', 'r', 't', 'u', 'a', 'l'])
        || chars_eq(text, &['w', 'h', 'e', 'r', 'e'])
        || chars_eq(text, &['w', 'h', 'i', 'l', 'e'])
        || chars_eq(text, &['y', 'i', 'e', 'l', 'd'])
}

/// Calls `syn::parse_str::<syn::LitStr>` and `LitStr::value`; the contract
/// claims only that the result is a function of the text (named by
/// [`str_literal_value`]), `None` when `text` is not a string literal.
#[verifier::external_body]
pub(crate) fn string_literal_value(text: &Vec<char>) -> (r: Option<Vec<char>>)
    ensures
        match r {
            Some(v) => str_literal_value(text@) == Some(v@),
            None => str_literal_value(text@) is None,
        },
{
    let s: String = text.iter().collect();
    syn::parse_str::<syn::LitStr>(&s).ok().map(|lit| lit.value().chars().collect())
}

/// Calls `proc_macro2::Literal::string` and renders the literal. The contract
/// claims that the rendered literal reads back (by `syn`) as `value`; the
/// exact escaping is left unsaid, as it differs between the compiler's and
/// proc-macro2's own implementation.
#[verifier::external_body]
pub(crate) fn string_literal_text(value: &Vec<char>) -> (r: Vec<char>)
    ensures
        str_literal_value(r@) == Some(value@),
{
    let s: String = value.iter().collect();
    proc_macro2::Literal::string(&s).to_string().chars().collect()
}

/// Two sequences of different lengths differ.
pub proof fn lemma_differ_len(a: Seq<char>, b: Seq<char>)
    requires
        a.len() != b.len(),
    ensures
        a != b,
{
}

/// Two sequences that differ at an index differ.
pub proof fn lemma_differ_at(a: Seq<char>, b: Seq<char>, i: int)
    requires
        0 <= i < a.len(),
        0 <= i < b.len(),
        a[i] != b[i],
    ensures
        a != b,
{
}

proof fn lemma_word_0_not_reserved()
    ensures
        accepts_as_ident(seq!['p', 'l', 'i', 'r', 'o', 'n', '_', 'r', 'e', 'f', 'l', 'e', 'c', 't', '_', 'v', '1']),
{
    lemma_differ_len(seq!['p', 'l', 'i', 'r', 'o', 'n', '_', 'r', 'e', 'f', 'l', 'e', 'c', 't', '_', 'v', '1'], seq!['_']);
    lemma_differ_len(seq!['p', 'l', 'i', 'r', 'o', 'n', '_', 'r', 'e', 'f', 'l', 'e', 'c', 't', '_', 'v', '1'], seq!['a', 'b', 's', 't', 'r', 'a', 'c', 't']);
    lemma_differ_len(seq!['p', 'l', 'i', 'r', 'o', 'n', '_', 'r', 'e', 'f', 'l', 'e', 'c', 't', '_', 'v', '1'], seq!['a', 's']);
    lemma_differ_len(seq!['p', 'l', 'i', 'r', 'o', 'n', '_', 'r', 'e', 'f', 'l', 'e', 'c', 't', '_', 'v', '1'], seq!['a', 's', 'y', 'n', 'c']);
    lemma_differ_len(seq!['p', 'l', 'i', 'r', 'o', 'n', '_', 'r', 'e', 'f', 'l', 'e', 'c', 't', '_', 'v', '1'], seq!['a', 'w', 'a', 'i', 't']);
    lemma_differ_len(seq!['p', 'l', 'i', 'r', 'o', 'n', '_', 'r', 'e', 'f', 'l', 'e', 'c', 't', '_', 'v', '1'], seq!['b', 'e', 'c', 'o', 'm', 'e']);
    lemma_differ_len(seq!['p', 'l', 'i', 'r', 'o', 'n', '_', 'r', 'e', 'f', 'l', 'e', 'c', 't', '_', 'v', '1'], seq!['b', 'o', 'x']);
    lemma_differ_len(seq!['p', 'l', 'i', 'r', 'o', 'n', '_', 'r', 'e', 'f', 'l', 'e', 'c', 't', '_', 'v', '1'], seq!['b', 'r', 'e', 'a', 'k']);
    lemma_differ_len(seq!['p', 'l', 'i', 'r', 'o', 'n', '_', 'r', 'e', 'f', 'l', 'e', 'c', 't', '_', 'v', '1'], seq!['c', 'o', 'n', 's', 't']);
    lemma_differ_len(seq!['p', 'l', 'i', 'r', 'o', 'n', '_', 'r', 'e', 'f', 'l', 'e', 'c', 't', '_', 'v', '1'], seq!['c', 'o', 'n', 't', 'i', 'n', 'u', 'e']);
    lemma_differ_len(seq!['p', 'l', 'i', 'r', 'o', 'n', '_', 'r', 'e', 'f', 'l', 'e', 'c', 't', '_', 'v', '1'], seq!['c', 'r', 'a', 't', 'e']);
    lemma_differ_len(seq!['p', 'l', 'i', 'r', 'o', 'n', '_', 'r', 'e', 'f', 'l', 'e', 'c', 't', '_', 'v', '1'], seq!['d', 'o']);
    lemma_differ_len(seq!['p', 'l', 'i', 'r', 'o', 'n', '_', 'r', 'e', 'f', 'l', 'e', 'c', 't', '_', 'v', '1'], seq!['d', 'y', 'n']);
    lemma_differ_len(seq!['p', 'l', 'i', 'r', 'o', 'n', '_', 'r', 'e', 'f', 'l', 'e', 'c', 't', '_', 'v', '1'], seq!['e', 'l', 's', 'e']);
    lemma_differ_len(seq!['p', 'l', 'i', 'r', 'o', 'n', '_', 'r', 'e', 'f', 'l', 'e', 'c', 't', '_', 'v', '1'], seq!['e', 'n', 'u', 'm']);
    lemma_differ_len(seq!['p', 'l', 'i', 'r', 'o', 'n', '_', 'r', 'e', 'f', 'l', 'e', 'c', 't', '_', 'v', '1'], seq!['e', 'x', 't', 'e', 'r', 'n']);
    lemma_differ_len(seq!['p', 'l', 'i', 'r', 'o', 'n', '_', 'r', 'e', 'f', 'l', 'e', 'c', 't', '_', 'v', '1'], seq!['f', 'a', 'l', 's', 'e']);
    lemma_differ_len(seq!['p', 'l', 'i', 'r', 'o', 'n', '_', 'r', 'e', 'f', 'l', 'e', 'c', 't', '_', 'v', '1'], seq!['f', 'i', 'n', 'a', 'l']);
    lemma_differ_len(seq!['p', 'l', 'i', 'r', 'o', 'n', '_', 'r', 'e', 'f', 'l', 'e', 'c', 't', '_', 'v', '1'], seq!['f', 'n']);
    lemma_differ_len(seq!['p', 'l', 'i', 'r', 'o', 'n', '_', 'r', 'e', 'f', 'l', 'e', 'c', 't', '_', 'v', '1'], seq!['f', 'o', 'r']);
    lemma_differ_len(seq!['p', 'l', 'i', 'r', 'o', 'n', '_', 'r', 'e', 'f', 'l', 'e', 'c', 't', '_', 'v', '1'], seq!['i', 'f']);
    lemma_differ_len(seq!['p', 'l', 'i', 'r', 'o', 'n', '_', 'r', 'e', 'f', 'l', 'e', 'c', 't', '_', 'v', '1'], seq!['i', 'm', 'p', 'l']);
    lemma_differ_len(seq!['p', 'l', 'i', 'r', 'o', 'n', '_', 'r', 'e', 'f', 'l', 'e', 'c', 't', '_', 'v', '1'], seq!['i', 'n']);
    lemma_differ_len(seq!['p', 'l', 'i', 'r', 'o', 'n', '_', 'r', 'e', 'f', 'l', 'e', 'c', 't', '_', 'v', '1'], seq!['l', 'e', 't']);
    lemma_differ_len(seq!['p', 'l', 'i', 'r', 'o', 'n', '_', 'r', 'e', 'f', 'l', 'e', 'c', 't', '_', 'v', '1'], seq!['l', 'o', 'o', 'p']);
    lemma_differ_len(seq!['p', 'l', 'i', 'r', 'o', 'n', '_', 'r', 'e', 'f', 'l', 'e', 'c', 't', '_', 'v', '1'], seq!['m', 'a', 'c', 'r', 'o']);
    lemma_differ_len(seq!['p', 'l', 'i', 'r', 'o', 'n', '_', 'r', 'e', 'f', 'l', 'e', 'c', 't', '_', 'v', '1'], seq!['m', 'a', 't', 'c', 'h']);
    lemma_differ_len(seq!['p', 'l', 'i', 'r', 'o', 'n', '_', 'r', 'e', 'f', 'l', 'e', 'c', 't', '_', 'v', '1'], seq!['m', 'o', 'd']);
    lemma_differ_len(seq!['p', 'l', 'i', 'r', 'o', 'n', '_', 'r', 'e', 'f', 'l', 'e', 'c', 't', '_', 'v', '1'], seq!['m', 'o', 'v', 'e']);
    lemma_differ_len(seq!['p', 'l', 'i', 'r', 'o', 'n', '_', 'r', 'e', 'f', 'l', 'e', 'c', 't', '_', 'v', '1'], seq!['m', 'u', 't']);
    lemma_differ_len(seq!['p', 'l', 'i', 'r', 'o', 'n', '_', 'r', 'e', 'f', 'l', 'e', 'c', 't', '_', 'v', '1'], seq!['o', 'v', 'e', 'r', 'r', 'i', 'd', 'e']);
    lemma_differ_len(seq!['p', 'l', 'i', 'r', 'o', 'n', '_', 'r', 'e', 'f', 'l', 'e', 'c', 't', '_', 'v', '1'], seq!['p', 'r', 'i', 'v']);
    lemma_differ_len(seq!['p', 'l', 'i', 'r', 'o', 'n', '_', 'r', 'e', 'f', 'l', 'e', 'c', 't', '_', 'v', '1'], seq!['p', 'u', 'b']);
    lemma_differ_len(seq!['p', 'l', 'i', 'r', 'o', 'n', '_', 'r', 'e', 'f', 'l', 'e', 'c', 't', '_', 'v', '1'], seq!['r', 'e', 'f']);
    lemma_differ_len(seq!['p', 'l', 'i', 'r', 'o', 'n', '_', 'r', 'e', 'f', 'l', 'e', 'c', 't', '_', 'v', '1'], seq!['r', 'e', 't', 'u', 'r', 'n']);
    lemma_differ_len(seq!['p', 'l', 'i', 'r', 'o', 'n', '_', 'r', 'e', 'f', 'l', 'e', 'c', 't', '_', 'v', '1'], seq!['S', 'e', 'l', 'f']);
    lemma_differ_len(seq!['p', 'l', 'i', 'r', 'o', 'n', '_', 'r', 'e', 'f', 'l', 'e', 'c', 't', '_', 'v', '1'], seq!['s', 'e', 'l', 'f']);
    lemma_differ_len(seq!['p', 'l', 'i', 'r', 'o', 'n', '_', 'r', 'e', 'f', 'l', 'e', 'c', 't', '_', 'v', '1'], seq!['s', 't', 'a', 't', 'i', 'c']);
    lemma_differ_len(seq!['p', 'l', 'i', 'r', 'o', 'n', '_', 'r', 'e', 'f', 'l', 'e', 'c', 't', '_', 'v', '1'], seq!['s', 't', 'r', 'u', 'c', 't']);
    lemma_differ_len(seq!['p', 'l', 'i', 'r', 'o', 'n', '_', 'r', 'e', 'f', 'l', 'e', 'c', 't', '_', 'v', '1'], seq!['s', 'u', 'p', 'e', 'r']);
    lemma_differ_len(seq!['p', 'l', 'i', 'r', 'o', 'n', '_', 'r', 'e', 'f', 'l', 'e', 'c', 't', '_', 'v', '1'], seq!['t', 'r', 'a', 'i', 't']);
    lemma_differ_len(seq!['p', 'l', 'i', 'r', 'o', 'n', '_', 'r', 'e', 'f', 'l', 'e', 'c', 't', '_', 'v', '1'], seq!['t', 'r', 'u', 'e']);
    lemma_differ_len(seq!['p', 'l', 'i', 'r', 'o', 'n', '_', 'r', 'e', 'f', 'l', 'e', 'c', 't', '_', 'v', '1'], seq!['t', 'r', 'y']);
    lemma_differ_len(seq!['p', 'l', 'i', 'r', 'o', 'n', '_', 'r', 'e', 'f', 'l', 'e', 'c', 't', '_', 'v', '1'], seq!['t', 'y', 'p', 'e']);
    lemma_differ_len(seq!['p', 'l', 'i', 'r', 'o', 'n', '_', 'r', 'e', 'f', 'l', 'e', 'c', 't', '_', 'v', '1'], seq!['t', 'y', 'p', 'e', 'o', 'f']);
    lemma_differ_len(seq!['p', 'l', 'i', 'r', 'o', 'n', '_', 'r', 'e', 'f', 'l', 'e', 'c', 't', '_', 'v', '1'], seq!['u', 'n', 's', 'a', 'f', 'e']);
    lemma_differ_len(seq!['p', 'l', 'i', 'r', 'o', 'n', '_', 'r', 'e', 'f', 'l', 'e', 'c', 't', '_', 'v', '1'], seq!['u', 'n', 's', 'i', 'z', 'e', 'd']);
    lemma_differ_len(seq!['p', 'l', 'i', 'r', 'o', 'n', '_', 'r', 'e', 'f', 'l', 'e', 'c', 't', '_', 'v', '1'], seq!['u', 's', 'e']);
    lemma_differ_len(seq!['p', 'l', 'i', 'r', 'o', 'n', '_', 'r', 'e', 'f', 'l', 'e', 'c', 't', '_', 'v', '1'], seq!['v', 'i', 'r', 't', 'u', 'a', 'l']);
    lemma_differ_len(seq!['p', 'l', 'i', 'r', 'o', 'n', '_', 'r', 'e', 'f', 'l', 'e', 'c', 't', '_', 'v', '1'], seq!['w', 'h', 'e', 'r', 'e']);
    lemma_differ_len(seq!['p', 'l', 'i', 'r', 'o', 'n', '_', 'r', 'e', 'f', 'l', 'e', 'c', 't', '_', 'v', '1'], seq!['w', 'h', 'i', 'l', 'e']);
    lemma_differ_len(seq!['p', 'l', 'i', 'r', 'o', 'n', '_', 'r', 'e', 'f', 'l', 'e', 'c', 't', '_', 'v', '1'], seq!['y', 'i', 'e', 'l', 'd']);
}

proof fn lemma_word_1_not_reserved()
    ensures
        accepts_as_ident(seq!['k', 'i', 'n', 'd']),
{
    lemma_differ_len(seq!['k', 'i', 'n', 'd'], seq!['_']);
    lemma_differ_len(seq!['k', 'i', 'n', 'd'], seq!['a', 'b', 's', 't', 'r', 'a', 'c', 't']);
    lemma_differ_len(seq!['k', 'i', 'n', 'd'], seq!['a', 's']);
    lemma_differ_len(seq!['k', 'i', 'n', 'd'], seq!['a', 's', 'y', 'n', 'c']);
    lemma_differ_len(seq!['k', 'i', 'n', 'd'], seq!['a', 'w', 'a', 'i', 't']);
    lemma_differ_len(seq!['k', 'i', 'n', 'd'], seq!['b', 'e', 'c', 'o', 'm', 'e']);
    lemma_differ_len(seq!['k', 'i', 'n', 'd'], seq!['b', 'o', 'x']);
    lemma_differ_len(seq!['k', 'i', 'n', 'd'], seq!['b', 'r', 'e', 'a', 'k']);
    lemma_differ_len(seq!['k', 'i', 'n', 'd'], seq!['c', 'o', 'n', 's', 't']);
    lemma_differ_len(seq!['k', 'i', 'n', 'd'], seq!['c', 'o', 'n', 't', 'i', 'n', 'u', 'e']);
    lemma_differ_len(seq!['k', 'i', 'n', 'd'], seq!['c', 'r', 'a', 't', 'e']);
    lemma_differ_len(seq!['k', 'i', 'n', 'd'], seq!['d', 'o']);
    lemma_differ_len(seq!['k', 'i', 'n', 'd'], seq!['d', 'y', 'n']);
    lemma_differ_at(seq!['k', 'i', 'n', 'd'], seq!['e', 'l', 's', 'e'], 0);
    lemma_differ_at(seq!['k', 'i', 'n', 'd'], seq!['e', 'n', 'u', 'm'], 0);
    lemma_differ_len(seq!['k', 'i', 'n', 'd'], seq!['e', 'x', 't', 'e', 'r', 'n']);
    lemma_differ_len(seq!['k', 'i', 'n', 'd'], seq!['f', 'a', 'l', 's', 'e']);
    lemma_differ_len(seq!['k', 'i', 'n', 'd'], seq!['f', 'i', 'n', 'a', 'l']);
    lemma_differ_len(seq!['k', 'i', 'n', 'd'], seq!['f', 'n']);
    lemma_differ_len(seq!['k', 'i', 'n', 'd'], seq!['f', 'o', 'r']);
    lemma_differ_len(seq!['k', 'i', 'n', 'd'], seq!['i', 'f']);
    lemma_differ_at(seq!['k', 'i', 'n', 'd'], seq!['i', 'm', 'p', 'l'], 0);
    lemma_differ_len(seq!['k', 'i', 'n', 'd'], seq!['i', 'n']);
    lemma_differ_len(seq!['k', 'i', 'n', 'd'], seq!['l', 'e', 't']);
    lemma_differ_at(seq!['k', 'i', 'n', 'd'], seq!['l', 'o', 'o', 'p'], 0);
    lemma_differ_len(seq!['k', 'i', 'n', 'd'], seq!['m', 'a', 'c', 'r', 'o']);
    lemma_differ_len(seq!['k', 'i', 'n', 'd'], seq!['m', 'a', 't', 'c', 'h']);
    lemma_differ_len(seq!['k', 'i', 'n', 'd'], seq!['m', 'o', 'd']);
    lemma_differ_at(seq!['k', 'i', 'n', 'd'], seq!['m', 'o', 'v', 'e'], 0);
    lemma_differ_len(seq!['k', 'i', 'n', 'd'], seq!['m', 'u', 't']);
    lemma_differ_len(seq!['k', 'i', 'n', 'd'], seq!['o', 'v', 'e', 'r', 'r', 'i', 'd', 'e']);
    lemma_differ_at(seq!['k', 'i', 'n', 'd'], seq!['p', 'r', 'i', 'v'], 0);
    lemma_differ_len(seq!['k', 'i', 'n', 'd'], seq!['p', 'u', 'b']);
    lemma_differ_len(seq!['k', 'i', 'n', 'd'], seq!['r', 'e', 'f']);
    lemma_differ_len(seq!['k', 'i', 'n', 'd'], seq!['r', 'e', 't', 'u', 'r', 'n']);
    lemma_differ_at(seq!['k', 'i', 'n', 'd'], seq!['S', 'e', 'l', 'f'], 0);
    lemma_differ_at(seq!['k', 'i', 'n', 'd'], seq!['s', 'e', 'l', 'f'], 0);
    lemma_differ_len(seq!['k', 'i', 'n', 'd'], seq!['s', 't', 'a', 't', 'i', 'c']);
    lemma_differ_len(seq!['k', 'i', 'n', 'd'], seq!['s', 't', 'r', 'u', 'c', 't']);
    lemma_differ_len(seq!['k', 'i', 'n', 'd'], seq!['s', 'u', 'p', 'e', 'r']);
    lemma_differ_len(seq!['k', 'i', 'n', 'd'], seq!['t', 'r', 'a', 'i', 't']);
    lemma_differ_at(seq!['k', 'i', 'n', 'd'], seq!['t', 'r', 'u', 'e'], 0);
    lemma_differ_len(seq!['k', 'i', 'n', 'd'], seq!['t', 'r', 'y']);
    lemma_differ_at(seq!['k', 'i', 'n', 'd'], seq!['t', 'y', 'p', 'e'], 0);
    lemma_differ_len(seq!['k', 'i', 'n', 'd'], seq!['t', 'y', 'p', 'e', 'o', 'f']);
    lemma_differ_len(seq!['k', 'i', 'n', 'd'], seq!['u', 'n', 's', 'a', 'f', 'e']);
    lemma_differ_len(seq!['k', 'i', 'n', 'd'], seq!['u', 'n', 's', 'i', 'z', 'e', 'd']);
    lemma_differ_len(seq!['k', 'i', 'n', 'd'], seq!['u', 's', 'e']);
    lemma_differ_len(seq!['k', 'i', 'n', 'd'], seq!['v', 'i', 'r', 't', 'u', 'a', 'l']);
    lemma_differ_len(seq!['k', 'i', 'n', 'd'], seq!['w', 'h', 'e', 'r', 'e']);
    lemma_differ_len(seq!['k', 'i', 'n', 'd'], seq!['w', 'h', 'i', 'l', 'e']);
    lemma_differ_len(seq!['k', 'i', 'n', 'd'], seq!['y', 'i', 'e', 'l', 'd']);
}

proof fn lemma_word_2_not_reserved()
    ensures
        accepts_as_ident(seq!['i', 'd', 'e', 'n', 't']),
{
    lemma_differ_len(seq!['i', 'd', 'e', 'n', 't'], seq!['_']);
    lemma_differ_len(seq!['i', 'd', 'e', 'n', 't'], seq!['a', 'b', 's', 't', 'r', 'a', 'c', 't']);
    lemma_differ_len(seq!['i', 'd', 'e', 'n', 't'], seq!['a', 's']);
    lemma_differ_at(seq!['i', 'd', 'e', 'n', 't'], seq!['a', 's', 'y', 'n', 'c'], 0);
    lemma_differ_at(seq!['i', 'd', 'e', 'n', 't'], seq!['a', 'w', 'a', 'i', 't'], 0);
    lemma_differ_len(seq!['i', 'd', 'e', 'n', 't'], seq!['b', 'e', 'c', 'o', 'm', 'e']);
    lemma_differ_len(seq!['i', 'd', 'e', 'n', 't'], seq!['b', 'o', 'x']);
    lemma_differ_at(seq!['i', 'd', 'e', 'n', 't'], seq!['b', 'r', 'e', 'a', 'k'], 0);
    lemma_differ_at(seq!['i', 'd', 'e', 'n', 't'], seq!['c', 'o', 'n', 's', 't'], 0);
    lemma_differ_len(seq!['i', 'd', 'e', 'n', 't'], seq!['c', 'o', 'n', 't', 'i', 'n', 'u', 'e']);
    lemma_differ_at(seq!['i', 'd', 'e', 'n', 't'], seq!['c', 'r', 'a', 't', 'e'], 0);
    lemma_differ_len(seq!['i', 'd', 'e', 'n', 't'], seq!['d', 'o']);
    lemma_differ_len(seq!['i', 'd', 'e', 'n', 't'], seq!['d', 'y', 'n']);
    lemma_differ_len(seq!['i', 'd', 'e', 'n', 't'], seq!['e', 'l', 's', 'e']);
    lemma_differ_len(seq!['i', 'd', 'e', 'n', 't'], seq!['e', 'n', 'u', 'm']);
    lemma_differ_len(seq!['i', 'd', 'e', 'n', 't'], seq!['e', 'x', 't', 'e', 'r', 'n']);
    lemma_differ_at(seq!['i', 'd', 'e', 'n', 't'], seq!['f', 'a', 'l', 's', 'e'], 0);
    lemma_differ_at(seq!['i', 'd', 'e', 'n', 't'], seq!['f', 'i', 'n', 'a', 'l'], 0);
    lemma_differ_len(seq!['i', 'd', 'e', 'n', 't'], seq!['f', 'n']);
    lemma_differ_len(seq!['i', 'd', 'e', 'n', 't'], seq!['f', 'o', 'r']);
    lemma_differ_len(seq!['i', 'd', 'e', 'n', 't'], seq!['i', 'f']);
    lemma_differ_len(seq!['i', 'd', 'e', 'n', 't'], seq!['i', 'm', 'p', 'l']);
    lemma_differ_len(seq!['i', 'd', 'e', 'n', 't'], seq!['i', 'n']);
    lemma_differ_len(seq!['i', 'd', 'e', 'n', 't'], seq!['l', 'e', 't']);
    lemma_differ_len(seq!['i', 'd', 'e', 'n', 't'], seq!['l', 'o', 'o', 'p']);
    lemma_differ_at(seq!['i', 'd', 'e', 'n', 't'], seq!['m', 'a', 'c', 'r', 'o'], 0);
    lemma_differ_at(seq!['i', 'd', 'e', 'n', 't'], seq!['m', 'a', 't', 'c', 'h'], 0);
    lemma_differ_len(seq!['i', 'd', 'e', 'n', 't'], seq!['m', 'o', 'd']);
    lemma_differ_len(seq!['i', 'd', 'e', 'n', 't'], seq!['m', 'o', 'v', 'e']);
    lemma_differ_len(seq!['i', 'd', 'e', 'n', 't'], seq!['m', 'u', 't']);
    lemma_differ_len(seq!['i', 'd', 'e', 'n', 't'], seq!['o', 'v', 'e', 'r', 'r', 'i', 'd', 'e']);
    lemma_differ_len(seq!['i', 'd', 'e', 'n', 't'], seq!['p', 'r', 'i', 'v']);
    lemma_differ_len(seq!['i', 'd', 'e', 'n', 't'], seq!['p', 'u', 'b']);
    lemma_differ_len(seq!['i', 'd', 'e', 'n', 't'], seq!['r', 'e', 'f']);
    lemma_differ_len(seq!['i', 'd', 'e', 'n', 't'], seq!['r', 'e', 't', 'u', 'r', 'n']);
    lemma_differ_len(seq!['i', 'd', 'e', 'n', 't'], seq!['S', 'e', 'l', 'f']);
    lemma_differ_len(seq!['i', 'd', 'e', 'n', 't'], seq!['s', 'e', 'l', 'f']);
    lemma_differ_len(seq!['i', 'd', 'e', 'n', 't'], seq!['s', 't', 'a', 't', 'i', 'c']);
    lemma_differ_len(seq!['i', 'd', 'e', 'n', 't'], seq!['s', 't', 'r', 'u', 'c', 't']);
    lemma_differ_at(seq!['i', 'd', 'e', 'n', 't'], seq!['s', 'u', 'p', 'e', 'r'], 0);
    lemma_differ_at(seq!['i', 'd', 'e', 'n', 't'], seq!['t', 'r', 'a', 'i', 't'], 0);
    lemma_differ_len(seq!['i', 'd', 'e', 'n', 't'], seq!['t', 'r', 'u', 'e']);
    lemma_differ_len(seq!['i', 'd', 'e', 'n', 't'], seq!['t', 'r', 'y']);
    lemma_differ_len(seq!['i', 'd', 'e', 'n', 't'], seq!['t', 'y', 'p', 'e']);
    lemma_differ_len(seq!['i', 'd', 'e', 'n', 't'], seq!['t', 'y', 'p', 'e', 'o', 'f']);
    lemma_differ_len(seq!['i', 'd', 'e', 'n', 't'], seq!['u', 'n', 's', 'a', 'f', 'e']);
    lemma_differ_len(seq!['i', 'd', 'e', 'n', 't'], seq!['u', 'n', 's', 'i', 'z', 'e', 'd']);
    lemma_differ_len(seq!['i', 'd', 'e', 'n', 't'], seq!['u', 's', 'e']);
    lemma_differ_len(seq!['i', 'd', 'e', 'n', 't'], seq!['v', 'i', 'r', 't', 'u', 'a', 'l']);
    lemma_differ_at(seq!['i', 'd', 'e', 'n', 't'], seq!['w', 'h', 'e', 'r', 'e'], 0);
    lemma_differ_at(seq!['i', 'd', 'e', 'n', 't'], seq!['w', 'h', 'i', 'l', 'e'], 0);
    lemma_differ_at(seq!['i', 'd', 'e', 'n', 't'], seq!['y', 'i', 'e', 'l', 'd'], 0);
}

proof fn lemma_word_3_not_reserved()
    ensures
        accepts_as_ident(seq!['n', 'a', 'm', 'e']),
{
    lemma_differ_len(seq!['n', 'a', 'm', 'e'], seq!['_']);
    lemma_differ_len(seq!['n', 'a', 'm', 'e'], seq!['a', 'b', 's', 't', 'r', 'a', 'c', 't']);
    lemma_differ_len(seq!['n', 'a', 'm', 'e'], seq!['a', 's']);
    lemma_differ_len(seq!['n', 'a', 'm', 'e'], seq!['a', 's', 'y', 'n', 'c']);
    lemma_differ_len(seq!['n', 'a', 'm', 'e'], seq!['a', 'w', 'a', 'i', 't']);
    lemma_differ_len(seq!['n', 'a', 'm', 'e'], seq!['b', 'e', 'c', 'o', 'm', 'e']);
    lemma_differ_len(seq!['n', 'a', 'm', 'e'], seq!['b', 'o', 'x']);
    lemma_differ_len(seq!['n', 'a', 'm', 'e'], seq!['b', 'r', 'e', 'a', 'k']);
    lemma_differ_len(seq!['n', 'a', 'm', 'e'], seq!['c', 'o', 'n', 's', 't']);
    lemma_differ_len(seq!['n', 'a', 'm', 'e'], seq!['c', 'o', 'n', 't', 'i', 'n', 'u', 'e']);
    lemma_differ_len(seq!['n', 'a', 'm', 'e'], seq!['c', 'r', 'a', 't', 'e']);
    lemma_differ_len(seq!['n', 'a', 'm', 'e'], seq!['d', 'o']);
    lemma_differ_len(seq!['n', 'a', 'm', 'e'], seq!['d', 'y', 'n']);
    lemma_differ_at(seq!['n', 'a', 'm', 'e'], seq!['e', 'l', 's', 'e'], 0);
    lemma_differ_at(seq!['n', 'a', 'm', 'e'], seq!['e', 'n', 'u', 'm'], 0);
    lemma_differ_len(seq!['n', 'a', 'm', 'e'], seq!['e', 'x', 't', 'e', 'r', 'n']);
    lemma_differ_len(seq!['n', 'a', 'm', 'e'], seq!['f', 'a', 'l', 's', 'e']);
    lemma_differ_len(seq!['n', 'a', 'm', 'e'], seq!['f', 'i', 'n', 'a', 'l']);
    lemma_differ_len(seq!['n', 'a', 'm', 'e'], seq!['f', 'n']);
    lemma_differ_len(seq!['n', 'a', 'm', 'e'], seq!['f', 'o', 'r']);
    lemma_differ_len(seq!['n', 'a', 'm', 'e'], seq!['i', 'f']);
    lemma_differ_at(seq!['n', 'a', 'm', 'e'], seq!['i', 'm', 'p', 'l'], 0);
    lemma_differ_len(seq!['n', 'a', 'm', 'e'], seq!['i', 'n']);
    lemma_differ_len(seq!['n', 'a', 'm', 'e'], seq!['l', 'e', 't']);
    lemma_differ_at(seq!['n', 'a', 'm', 'e'], seq!['l', 'o', 'o', 'p'], 0);
    lemma_differ_len(seq!['n', 'a', 'm', 'e'], seq!['m', 'a', 'c', 'r', 'o']);
    lemma_differ_len(seq!['n', 'a', 'm', 'e'], seq!['m', 'a', 't', 'c', 'h']);
    lemma_differ_len(seq!['n', 'a', 'm', 'e'], seq!['m', 'o', 'd']);
    lemma_differ_at(seq!['n', 'a', 'm', 'e'], seq!['m', 'o', 'v', 'e'], 0);
    lemma_differ_len(seq!['n', 'a', 'm', 'e'], seq!['m', 'u', 't']);
    lemma_differ_len(seq!['n', 'a', 'm', 'e'], seq!['o', 'v', 'e', 'r', 'r', 'i', 'd', 'e']);
    lemma_differ_at(seq!['n', 'a', 'm', 'e'], seq!['p', 'r', 'i', 'v'], 0);
    lemma_differ_len(seq!['n', 'a', 'm', 'e'], seq!['p', 'u', 'b']);
    lemma_differ_len(seq!['n', 'a', 'm', 'e'], seq!['r', 'e', 'f']);
    lemma_differ_len(seq!['n', 'a', 'm', 'e'], seq!['r', 'e', 't', 'u', 'r', 'n']);
    lemma_differ_at(seq!['n', 'a', 'm', 'e'], seq!['S', 'e', 'l', 'f'], 0);
    lemma_differ_at(seq!['n', 'a', 'm', 'e'], seq!['s', 'e', 'l', 'f'], 0);
    lemma_differ_len(seq!['n', 'a', 'm', 'e'], seq!['s', 't', 'a', 't', 'i', 'c']);
    lemma_differ_len(seq!['n', 'a', 'm', 'e'], seq!['s', 't', 'r', 'u', 'c', 't']);
    lemma_differ_len(seq!['n', 'a', 'm', 'e'], seq!['s', 'u', 'p', 'e', 'r']);
    lemma_differ_len(seq!['n', 'a', 'm', 'e'], seq!['t', 'r', 'a', 'i', 't']);
    lemma_differ_at(seq!['n', 'a', 'm', 'e'], seq!['t', 'r', 'u', 'e'], 0);
    lemma_differ_len(seq!['n', 'a', 'm', 'e'], seq!['t', 'r', 'y']);
    lemma_differ_at(seq!['n', 'a', 'm', 'e'], seq!['t', 'y', 'p', 'e'], 0);
    lemma_differ_len(seq!['n', 'a', 'm', 'e'], seq!['t', 'y', 'p', 'e', 'o', 'f']);
    lemma_differ_len(seq!['n', 'a', 'm', 'e'], seq!['u', 'n', 's', 'a', 'f', 'e']);
    lemma_differ_len(seq!['n', 'a', 'm', 'e'], seq!['u', 'n', 's', 'i', 'z', 'e', 'd']);
    lemma_differ_len(seq!['n', 'a', 'm', 'e'], seq!['u', 's', 'e']);
    lemma_differ_len(seq!['n', 'a', 'm', 'e'], seq!['v', 'i', 'r', 't', 'u', 'a', 'l']);
    lemma_differ_len(seq!['n', 'a', 'm', 'e'], seq!['w', 'h', 'e', 'r', 'e']);
    lemma_differ_len(seq!['n', 'a', 'm', 'e'], seq!['w', 'h', 'i', 'l', 'e']);
    lemma_differ_len(seq!['n', 'a', 'm', 'e'], seq!['y', 'i', 'e', 'l', 'd']);
}

proof fn lemma_word_4_not_reserved()
    ensures
        accepts_as_ident(seq!['i', 't', 'e', 'm']),
{
    lemma_differ_len(seq!['i', 't', 'e', 'm'], seq!['_']);
    lemma_differ_len(seq!['i', 't', 'e', 'm'], seq!['a', 'b', 's', 't', 'r', 'a', 'c', 't']);
    lemma_differ_len(seq!['i', 't', 'e', 'm'], seq!['a', 's']);
    lemma_differ_len(seq!['i', 't', 'e', 'm'], seq!['a', 's', 'y', 'n', 'c']);
    lemma_differ_len(seq!['i', 't', 'e', 'm'], seq!['a', 'w', 'a', 'i', 't']);
    lemma_differ_len(seq!['i', 't', 'e', 'm'], seq!['b', 'e', 'c', 'o', 'm', 'e']);
    lemma_differ_len(seq!['i', 't', 'e', 'm'], seq!['b', 'o', 'x']);
    lemma_differ_len(seq!['i', 't', 'e', 'm'], seq!['b', 'r', 'e', 'a', 'k']);
    lemma_differ_len(seq!['i', 't', 'e', 'm'], seq!['c', 'o', 'n', 's', 't']);
    lemma_differ_len(seq!['i', 't', 'e', 'm'], seq!['c', 'o', 'n', 't', 'i', 'n', 'u', 'e']);
    lemma_differ_len(seq!['i', 't', 'e', 'm'], seq!['c', 'r', 'a', 't', 'e']);
    lemma_differ_len(seq!['i', 't', 'e', 'm'], seq!['d', 'o']);
    lemma_differ_len(seq!['i', 't', 'e', 'm'], seq!['d', 'y', 'n']);
    lemma_differ_at(seq!['i', 't', 'e', 'm'], seq!['e', 'l', 's', 'e'], 0);
    lemma_differ_at(seq!['i', 't', 'e', 'm'], seq!['e', 'n', 'u', 'm'], 0);
    lemma_differ_len(seq!['i', 't', 'e', 'm'], seq!['e', 'x', 't', 'e', 'r', 'n']);
    lemma_differ_len(seq!['i', 't', 'e', 'm'], seq!['f', 'a', 'l', 's', 'e']);
    lemma_differ_len(seq!['i', 't', 'e', 'm'], seq!['f', 'i', 'n', 'a', 'l']);
    lemma_differ_len(seq!['i', 't', 'e', 'm'], seq!['f', 'n']);
    lemma_differ_len(seq!['i', 't', 'e', 'm'], seq!['f', 'o', 'r']);
    lemma_differ_len(seq!['i', 't', 'e', 'm'], seq!['i', 'f']);
    lemma_differ_at(seq!['i', 't', 'e', 'm'], seq!['i', 'm', 'p', 'l'], 1);
    lemma_differ_len(seq!['i', 't', 'e', 'm'], seq!['i', 'n']);
    lemma_differ_len(seq!['i', 't', 'e', 'm'], seq!['l', 'e', 't']);
    lemma_differ_at(seq!['i', 't', 'e', 'm'], seq!['l', 'o', 'o', 'p'], 0);
    lemma_differ_len(seq!['i', 't', 'e', 'm'], seq!['m', 'a', 'c', 'r', 'o']);
    lemma_differ_len(seq!['i', 't', 'e', 'm'], seq!['m', 'a', 't', 'c', 'h']);
    lemma_differ_len(seq!['i', 't', 'e', 'm'], seq!['m', 'o', 'd']);
    lemma_differ_at(seq!['i', 't', 'e', 'm'], seq!['m', 'o', 'v', 'e'], 0);
    lemma_differ_len(seq!['i', 't', 'e', 'm'], seq!['m', 'u', 't']);
    lemma_differ_len(seq!['i', 't', 'e', 'm'], seq!['o', 'v', 'e', 'r', 'r', 'i', 'd', 'e']);
    lemma_differ_at(seq!['i', 't', 'e', 'm'], seq!['p', 'r', 'i', 'v'], 0);
    lemma_differ_len(seq!['i', 't', 'e', 'm'], seq!['p', 'u', 'b']);
    lemma_differ_len(seq!['i', 't', 'e', 'm'], seq!['r', 'e', 'f']);
    lemma_differ_len(seq!['i', 't', 'e', 'm'], seq!['r', 'e', 't', 'u', 'r', 'n']);
    lemma_differ_at(seq!['i', 't', 'e', 'm'], seq!['S', 'e', 'l', 'f'], 0);
    lemma_differ_at(seq!['i', 't', 'e', 'm'], seq!['s', 'e', 'l', 'f'], 0);
    lemma_differ_len(seq!['i', 't', 'e', 'm'], seq!['s', 't', 'a', 't', 'i', 'c']);
    lemma_differ_len(seq!['i', 't', 'e', 'm'], seq!['s', 't', 'r', 'u', 'c', 't']);
    lemma_differ_len(seq!['i', 't', 'e', 'm'], seq!['s', 'u', 'p', 'e', 'r']);
    lemma_differ_len(seq!['i', 't', 'e', 'm'], seq!['t', 'r', 'a', 'i', 't']);
    lemma_differ_at(seq!['i', 't', 'e', 'm'], seq!['t', 'r', 'u', 'e'], 0);
    lemma_differ_len(seq!['i', 't', 'e', 'm'], seq!['t', 'r', 'y']);
    lemma_differ_at(seq!['i', 't', 'e', 'm'], seq!['t', 'y', 'p', 'e'], 0);
    lemma_differ_len(seq!['i', 't', 'e', 'm'], seq!['t', 'y', 'p', 'e', 'o', 'f']);
    lemma_differ_len(seq!['i', 't', 'e', 'm'], seq!['u', 'n', 's', 'a', 'f', 'e']);
    lemma_differ_len(seq!['i', 't', 'e', 'm'], seq!['u', 'n', 's', 'i', 'z', 'e', 'd']);
    lemma_differ_len(seq!['i', 't', 'e', 'm'], seq!['u', 's', 'e']);
    lemma_differ_len(seq!['i', 't', 'e', 'm'], seq!['v', 'i', 'r', 't', 'u', 'a', 'l']);
    lemma_differ_len(seq!['i', 't', 'e', 'm'], seq!['w', 'h', 'e', 'r', 'e']);
    lemma_differ_len(seq!['i', 't', 'e', 'm'], seq!['w', 'h', 'i', 'l', 'e']);
    lemma_differ_len(seq!['i', 't', 'e', 'm'], seq!['y', 'i', 'e', 'l', 'd']);
}

proof fn lemma_word_5_not_reserved()
    ensures
        accepts_as_ident(seq!['o', 'p']),
{
    lemma_differ_len(seq!['o', 'p'], seq!['_']);
    lemma_differ_len(seq!['o', 'p'], seq!['a', 'b', 's', 't', 'r', 'a', 'c', 't']);
    lemma_differ_at(seq!['o', 'p'], seq!['a', 's'], 0);
    lemma_differ_len(seq!['o', 'p'], seq!['a', 's', 'y', 'n', 'c']);
    lemma_differ_len(seq!['o', 'p'], seq!['a', 'w', 'a', 'i', 't']);
    lemma_differ_len(seq!['o', 'p'], seq!['b', 'e', 'c', 'o', 'm', 'e']);
    lemma_differ_len(seq!['o', 'p'], seq!['b', 'o', 'x']);
    lemma_differ_len(seq!['o', 'p'], seq!['b', 'r', 'e', 'a', 'k']);
    lemma_differ_len(seq!['o', 'p'], seq!['c', 'o', 'n', 's', 't']);
    lemma_differ_len(seq!['o', 'p'], seq!['c', 'o', 'n', 't', 'i', 'n', 'u', 'e']);
    lemma_differ_len(seq!['o', 'p'], seq!['c', 'r', 'a', 't', 'e']);
    lemma_differ_at(seq!['o', 'p'], seq!['d', 'o'], 0);
    lemma_differ_len(seq!['o', 'p'], seq!['d', 'y', 'n']);
    lemma_differ_len(seq!['o', 'p'], seq!['e', 'l', 's', 'e']);
    lemma_differ_len(seq!['o', 'p'], seq!['e', 'n', 'u', 'm']);
    lemma_differ_len(seq!['o', 'p'], seq!['e', 'x', 't', 'e', 'r', 'n']);
    lemma_differ_len(seq!['o', 'p'], seq!['f', 'a', 'l', 's', 'e']);
    lemma_differ_len(seq!['o', 'p'], seq!['f', 'i', 'n', 'a', 'l']);
    lemma_differ_at(seq!['o', 'p'], seq!['f', 'n'], 0);
    lemma_differ_len(seq!['o', 'p'], seq!['f', 'o', 'r']);
    lemma_differ_at(seq!['o', 'p'], seq!['i', 'f'], 0);
    lemma_differ_len(seq!['o', 'p'], seq!['i', 'm', 'p', 'l']);
    lemma_differ_at(seq!['o', 'p'], seq!['i', 'n'], 0);
    lemma_differ_len(seq!['o', 'p'], seq!['l', 'e', 't']);
    lemma_differ_len(seq!['o', 'p'], seq!['l', 'o', 'o', 'p']);
    lemma_differ_len(seq!['o', 'p'], seq!['m', 'a', 'c', 'r', 'o']);
    lemma_differ_len(seq!['o', 'p'], seq!['m', 'a', 't', 'c', 'h']);
    lemma_differ_len(seq!['o', 'p'], seq!['m', 'o', 'd']);
    lemma_differ_len(seq!['o', 'p'], seq!['m', 'o', 'v', 'e']);
    lemma_differ_len(seq!['o', 'p'], seq!['m', 'u', 't']);
    lemma_differ_len(seq!['o', 'p'], seq!['o', 'v', 'e', 'r', 'r', 'i', 'd', 'e']);
    lemma_differ_len(seq!['o', 'p'], seq!['p', 'r', 'i', 'v']);
    lemma_differ_len(seq!['o', 'p'], seq!['p', 'u', 'b']);
    lemma_differ_len(seq!['o', 'p'], seq!['r', 'e', 'f']);
    lemma_differ_len(seq!['o', 'p'], seq!['r', 'e', 't', 'u', 'r', 'n']);
    lemma_differ_len(seq!['o', 'p'], seq!['S', 'e', 'l', 'f']);
    lemma_differ_len(seq!['o', 'p'], seq!['s', 'e', 'l', 'f']);
    lemma_differ_len(seq!['o', 'p'], seq!['s', 't', 'a', 't', 'i', 'c']);
    lemma_differ_len(seq!['o', 'p'], seq!['s', 't', 'r', 'u', 'c', 't']);
    lemma_differ_len(seq!['o', 'p'], seq!['s', 'u', 'p', 'e', 'r']);
    lemma_differ_len(seq!['o', 'p'], seq!['t', 'r', 'a', 'i', 't']);
    lemma_differ_len(seq!['o', 'p'], seq!['t', 'r', 'u', 'e']);
    lemma_differ_len(seq!['o', 'p'], seq!['t', 'r', 'y']);
    lemma_differ_len(seq!['o', 'p'], seq!['t', 'y', 'p', 'e']);
    lemma_differ_len(seq!['o', 'p'], seq!['t', 'y', 'p', 'e', 'o', 'f']);
    lemma_differ_len(seq!['o', 'p'], seq!['u', 'n', 's', 'a', 'f', 'e']);
    lemma_differ_len(seq!['o', 'p'], seq!['u', 'n', 's', 'i', 'z', 'e', 'd']);
    lemma_differ_len(seq!['o', 'p'], seq!['u', 's', 'e']);
    lemma_differ_len(seq!['o', 'p'], seq!['v', 'i', 'r', 't', 'u', 'a', 'l']);
    lemma_differ_len(seq!['o', 'p'], seq!['w', 'h', 'e', 'r', 'e']);
    lemma_differ_len(seq!['o', 'p'], seq!['w', 'h', 'i', 'l', 'e']);
    lemma_differ_len(seq!['o', 'p'], seq!['y', 'i', 'e', 'l', 'd']);
}

proof fn lemma_word_6_not_reserved()
    ensures
        accepts_as_ident(seq!['a', 't', 't', 'r']),
{
    lemma_differ_len(seq!['a', 't', 't', 'r'], seq!['_']);
    lemma_differ_len(seq!['a', 't', 't', 'r'], seq!['a', 'b', 's', 't', 'r', 'a', 'c', 't']);
    lemma_differ_len(seq!['a', 't', 't', 'r'], seq!['a', 's']);
    lemma_differ_len(seq!['a', 't', 't', 'r'], seq!['a', 's', 'y', 'n', 'c']);
    lemma_differ_len(seq!['a', 't', 't', 'r'], seq!['a', 'w', 'a', 'i', 't']);
    lemma_differ_len(seq!['a', 't', 't', 'r'], seq!['b', 'e', 'c', 'o', 'm', 'e']);
    lemma_differ_len(seq!['a', 't', 't', 'r'], seq!['b', 'o', 'x']);
    lemma_differ_len(seq!['a', 't', 't', 'r'], seq!['b', 'r', 'e', 'a', 'k']);
    lemma_differ_len(seq!['a', 't', 't', 'r'], seq!['c', 'o', 'n', 's', 't']);
    lemma_differ_len(seq!['a', 't', 't', 'r'], seq!['c', 'o', 'n', 't', 'i', 'n', 'u', 'e']);
    lemma_differ_len(seq!['a', 't', 't', 'r'], seq!['c', 'r', 'a', 't', 'e']);
    lemma_differ_len(seq!['a', 't', 't', 'r'], seq!['d', 'o']);
    lemma_differ_len(seq!['a', 't', 't', 'r'], seq!['d', 'y', 'n']);
    lemma_differ_at(seq!['a', 't', 't', 'r'], seq!['e', 'l', 's', 'e'], 0);
    lemma_differ_at(seq!['a', 't', 't', 'r'], seq!['e', 'n', 'u', 'm'], 0);
    lemma_differ_len(seq!['a', 't', 't', 'r'], seq!['e', 'x', 't', 'e', 'r', 'n']);
    lemma_differ_len(seq!['a', 't', 't', 'r'], seq!['f', 'a', 'l', 's', 'e']);
    lemma_differ_len(seq!['a', 't', 't', 'r'], seq!['f', 'i', 'n', 'a', 'l']);
    lemma_differ_len(seq!['a', 't', 't', 'r'], seq!['f', 'n']);
    lemma_differ_len(seq!['a', 't', 't', 'r'], seq!['f', 'o', 'r']);
    lemma_differ_len(seq!['a', 't', 't', 'r'], seq!['i', 'f']);
    lemma_differ_at(seq!['a', 't', 't', 'r'], seq!['i', 'm', 'p', 'l'], 0);
    lemma_differ_len(seq!['a', 't', 't', 'r'], seq!['i', 'n']);
    lemma_differ_len(seq!['a', 't', 't', 'r'], seq!['l', 'e', 't']);
    lemma_differ_at(seq!['a', 't', 't', 'r'], seq!['l', 'o', 'o', 'p'], 0);
    lemma_differ_len(seq!['a', 't', 't', 'r'], seq!['m', 'a', 'c', 'r', 'o']);
    lemma_differ_len(seq!['a', 't', 't', 'r'], seq!['m', 'a', 't', 'c', 'h']);
    lemma_differ_len(seq!['a', 't', 't', 'r'], seq!['m', 'o', 'd']);
    lemma_differ_at(seq!['a', 't', 't', 'r'], seq!['m', 'o', 'v', 'e'], 0);
    lemma_differ_len(seq!['a', 't', 't', 'r'], seq!['m', 'u', 't']);
    lemma_differ_len(seq!['a', 't', 't', 'r'], seq!['o', 'v', 'e', 'r', 'r', 'i', 'd', 'e']);
    lemma_differ_at(seq!['a', 't', 't', 'r'], seq!['p', 'r', 'i', 'v'], 0);
    lemma_differ_len(seq!['a', 't', 't', 'r'], seq!['p', 'u', 'b']);
    lemma_differ_len(seq!['a', 't', 't', 'r'], seq!['r', 'e', 'f']);
    lemma_differ_len(seq!['a', 't', 't', 'r'], seq!['r', 'e', 't', 'u', 'r', 'n']);
    lemma_differ_at(seq!['a', 't', 't', 'r'], seq!['S', 'e', 'l', 'f'], 0);
    lemma_differ_at(seq!['a', 't', 't', 'r'], seq!['s', 'e', 'l', 'f'], 0);
    lemma_differ_len(seq!['a', 't', 't', 'r'], seq!['s', 't', 'a', 't', 'i', 'c']);
    lemma_differ_len(seq!['a', 't', 't', 'r'], seq!['s', 't', 'r', 'u', 'c', 't']);
    lemma_differ_len(seq!['a', 't', 't', 'r'], seq!['s', 'u', 'p', 'e', 'r']);
    lemma_differ_len(seq!['a', 't', 't', 'r'], seq!['t', 'r', 'a', 'i', 't']);
    lemma_differ_at(seq!['a', 't', 't', 'r'], seq!['t', 'r', 'u', 'e'], 0);
    lemma_differ_len(seq!['a', 't', 't', 'r'], seq!['t', 'r', 'y']);
    lemma_differ_at(seq!['a', 't', 't', 'r'], seq!['t', 'y', 'p', 'e'], 0);
    lemma_differ_len(seq!['a', 't', 't', 'r'], seq!['t', 'y', 'p', 'e', 'o', 'f']);
    lemma_differ_len(seq!['a', 't', 't', 'r'], seq!['u', 'n', 's', 'a', 'f', 'e']);
    lemma_differ_len(seq!['a', 't', 't', 'r'], seq!['u', 'n', 's', 'i', 'z', 'e', 'd']);
    lemma_differ_len(seq!['a', 't', 't', 'r'], seq!['u', 's', 'e']);
    lemma_differ_len(seq!['a', 't', 't', 'r'], seq!['v', 'i', 'r', 't', 'u', 'a', 'l']);
    lemma_differ_len(seq!['a', 't', 't', 'r'], seq!['w', 'h', 'e', 'r', 'e']);
    lemma_differ_len(seq!['a', 't', 't', 'r'], seq!['w', 'h', 'i', 'l', 'e']);
    lemma_differ_len(seq!['a', 't', 't', 'r'], seq!['y', 'i', 'e', 'l', 'd']);
}

proof fn lemma_word_7_not_reserved()
    ensures
        accepts_as_ident(seq!['t', 'y']),
{
    lemma_differ_len(seq!['t', 'y'], seq!['_']);
    lemma_differ_len(seq!['t', 'y'], seq!['a', 'b', 's', 't', 'r', 'a', 'c', 't']);
    lemma_differ_at(seq!['t', 'y'], seq!['a', 's'], 0);
    lemma_differ_len(seq!['t', 'y'], seq!['a', 's', 'y', 'n', 'c']);
    lemma_differ_len(seq!['t', 'y'], seq!['a', 'w', 'a', 'i', 't']);
    lemma_differ_len(seq!['t', 'y'], seq!['b', 'e', 'c', 'o', 'm', 'e']);
    lemma_differ_len(seq!['t', 'y'], seq!['b', 'o', 'x']);
    lemma_differ_len(seq!['t', 'y'], seq!['b', 'r', 'e', 'a', 'k']);
    lemma_differ_len(seq!['t', 'y'], seq!['c', 'o', 'n', 's', 't']);
    lemma_differ_len(seq!['t', 'y'], seq!['c', 'o', 'n', 't', 'i', 'n', 'u', 'e']);
    lemma_differ_len(seq!['t', 'y'], seq!['c', 'r', 'a', 't', 'e']);
    lemma_differ_at(seq!['t', 'y'], seq!['d', 'o'], 0);
    lemma_differ_len(seq!['t', 'y'], seq!['d', 'y', 'n']);
    lemma_differ_len(seq!['t', 'y'], seq!['e', 'l', 's', 'e']);
    lemma_differ_len(seq!['t', 'y'], seq!['e', 'n', 'u', 'm']);
    lemma_differ_len(seq!['t', 'y'], seq!['e', 'x', 't', 'e', 'r', 'n']);
    lemma_differ_len(seq!['t', 'y'], seq!['f', 'a', 'l', 's', 'e']);
    lemma_differ_len(seq!['t', 'y'], seq!['f', 'i', 'n', 'a', 'l']);
    lemma_differ_at(seq!['t', 'y'], seq!['f', 'n'], 0);
    lemma_differ_len(seq!['t', 'y'], seq!['f', 'o', 'r']);
    lemma_differ_at(seq!['t', 'y'], seq!['i', 'f'], 0);
    lemma_differ_len(seq!['t', 'y'], seq!['i', 'm', 'p', 'l']);
    lemma_differ_at(seq!['t', 'y'], seq!['i', 'n'], 0);
    lemma_differ_len(seq!['t', 'y'], seq!['l', 'e', 't']);
    lemma_differ_len(seq!['t', 'y'], seq!['l', 'o', 'o', 'p']);
    lemma_differ_len(seq!['t', 'y'], seq!['m', 'a', 'c', 'r', 'o']);
    lemma_differ_len(seq!['t', 'y'], seq!['m', 'a', 't', 'c', 'h']);
    lemma_differ_len(seq!['t', 'y'], seq!['m', 'o', 'd']);
    lemma_differ_len(seq!['t', 'y'], seq!['m', 'o', 'v', 'e']);
    lemma_differ_len(seq!['t', 'y'], seq!['m', 'u', 't']);
    lemma_differ_len(seq!['t', 'y'], seq!['o', 'v', 'e', 'r', 'r', 'i', 'd', 'e']);
    lemma_differ_len(seq!['t', 'y'], seq!['p', 'r', 'i', 'v']);
    lemma_differ_len(seq!['t', 'y'], seq!['p', 'u', 'b']);
    lemma_differ_len(seq!['t', 'y'], seq!['r', 'e', 'f']);
    lemma_differ_len(seq!['t', 'y'], seq!['r', 'e', 't', 'u', 'r', 'n']);
    lemma_differ_len(seq!['t', 'y'], seq!['S', 'e', 'l', 'f']);
    lemma_differ_len(seq!['t', 'y'], seq!['s', 'e', 'l', 'f']);
    lemma_differ_len(seq!['t', 'y'], seq!['s', 't', 'a', 't', 'i', 'c']);
    lemma_differ_len(seq!['t', 'y'], seq!['s', 't', 'r', 'u', 'c', 't']);
    lemma_differ_len(seq!['t', 'y'], seq!['s', 'u', 'p', 'e', 'r']);
    lemma_differ_len(seq!['t', 'y'], seq!['t', 'r', 'a', 'i', 't']);
    lemma_differ_len(seq!['t', 'y'], seq!['t', 'r', 'u', 'e']);
    lemma_differ_len(seq!['t', 'y'], seq!['t', 'r', 'y']);
    lemma_differ_len(seq!['t', 'y'], seq!['t', 'y', 'p', 'e']);
    lemma_differ_len(seq!['t', 'y'], seq!['t', 'y', 'p', 'e', 'o', 'f']);
    lemma_differ_len(seq!['t', 'y'], seq!['u', 'n', 's', 'a', 'f', 'e']);
    lemma_differ_len(seq!['t', 'y'], seq!['u', 'n', 's', 'i', 'z', 'e', 'd']);
    lemma_differ_len(seq!['t', 'y'], seq!['u', 's', 'e']);
    lemma_differ_len(seq!['t', 'y'], seq!['v', 'i', 'r', 't', 'u', 'a', 'l']);
    lemma_differ_len(seq!['t', 'y'], seq!['w', 'h', 'e', 'r', 'e']);
    lemma_differ_len(seq!['t', 'y'], seq!['w', 'h', 'i', 'l', 'e']);
    lemma_differ_len(seq!['t', 'y'], seq!['y', 'i', 'e', 'l', 'd']);
}

proof fn lemma_word_8_not_reserved()
    ensures
        accepts_as_ident(seq!['o', 'p', '_', 'i', 'm', 'p', 'l']),
{
    lemma_differ_len(seq!['o', 'p', '_', 'i', 'm', 'p', 'l'], seq!['_']);
    lemma_differ_len(seq!['o', 'p', '_', 'i', 'm', 'p', 'l'], seq!['a', 'b', 's', 't', 'r', 'a', 'c', 't']);
    lemma_differ_len(seq!['o', 'p', '_', 'i', 'm', 'p', 'l'], seq!['a', 's']);
    lemma_differ_len(seq!['o', 'p', '_', 'i', 'm', 'p', 'l'], seq!['a', 's', 'y', 'n', 'c']);
    lemma_differ_len(seq!['o', 'p', '_', 'i', 'm', 'p', 'l'], seq!['a', 'w', 'a', 'i', 't']);
    lemma_differ_len(seq!['o', 'p', '_', 'i', 'm', 'p', 'l'], seq!['b', 'e', 'c', 'o', 'm', 'e']);
    lemma_differ_len(seq!['o', 'p', '_', 'i', 'm', 'p', 'l'], seq!['b', 'o', 'x']);
    lemma_differ_len(seq!['o', 'p', '_', 'i', 'm', 'p', 'l'], seq!['b', 'r', 'e', 'a', 'k']);
    lemma_differ_len(seq!['o', 'p', '_', 'i', 'm', 'p', 'l'], seq!['c', 'o', 'n', 's', 't']);
    lemma_differ_len(seq!['o', 'p', '_', 'i', 'm', 'p', 'l'], seq!['c', 'o', 'n', 't', 'i', 'n', 'u', 'e']);
    lemma_differ_len(seq!['o', 'p', '_', 'i', 'm', 'p', 'l'], seq!['c', 'r', 'a', 't', 'e']);
    lemma_differ_len(seq!['o', 'p', '_', 'i', 'm', 'p', 'l'], seq!['d', 'o']);
    lemma_differ_len(seq!['o', 'p', '_', 'i', 'm', 'p', 'l'], seq!['d', 'y', 'n']);
    lemma_differ_len(seq!['o', 'p', '_', 'i', 'm', 'p', 'l'], seq!['e', 'l', 's', 'e']);
    lemma_differ_len(seq!['o', 'p', '_', 'i', 'm', 'p', 'l'], seq!['e', 'n', 'u', 'm']);
    lemma_differ_len(seq!['o', 'p', '_', 'i', 'm', 'p', 'l'], seq!['e', 'x', 't', 'e', 'r', 'n']);
    lemma_differ_len(seq!['o', 'p', '_', 'i', 'm', 'p', 'l'], seq!['f', 'a', 'l', 's', 'e']);
    lemma_differ_len(seq!['o', 'p', '_', 'i', 'm', 'p', 'l'], seq!['f', 'i', 'n', 'a', 'l']);
    lemma_differ_len(seq!['o', 'p', '_', 'i', 'm', 'p', 'l'], seq!['f', 'n']);
    lemma_differ_len(seq!['o', 'p', '_', 'i', 'm', 'p', 'l'], seq!['f', 'o', 'r']);
    lemma_differ_len(seq!['o', 'p', '_', 'i', 'm', 'p', 'l'], seq!['i', 'f']);
    lemma_differ_len(seq!['o', 'p', '_', 'i', 'm', 'p', 'l'], seq!['i', 'm', 'p', 'l']);
    lemma_differ_len(seq!['o', 'p', '_', 'i', 'm', 'p', 'l'], seq!['i', 'n']);
    lemma_differ_len(seq!['o', 'p', '_', 'i', 'm', 'p', 'l'], seq!['l', 'e', 't']);
    lemma_differ_len(seq!['o', 'p', '_', 'i', 'm', 'p', 'l'], seq!['l', 'o', 'o', 'p']);
    lemma_differ_len(seq!['o', 'p', '_', 'i', 'm', 'p', 'l'], seq!['m', 'a', 'c', 'r', 'o']);
    lemma_differ_len(seq!['o', 'p', '_', 'i', 'm', 'p', 'l'], seq!['m', 'a', 't', 'c', 'h']);
    lemma_differ_len(seq!['o', 'p', '_', 'i', 'm', 'p', 'l'], seq!['m', 'o', 'd']);
    lemma_differ_len(seq!['o', 'p', '_', 'i', 'm', 'p', 'l'], seq!['m', 'o', 'v', 'e']);
    lemma_differ_len(seq!['o', 'p', '_', 'i', 'm', 'p', 'l'], seq!['m', 'u', 't']);
    lemma_differ_len(seq!['o', 'p', '_', 'i', 'm', 'p', 'l'], seq!['o', 'v', 'e', 'r', 'r', 'i', 'd', 'e']);
    lemma_differ_len(seq!['o', 'p', '_', 'i', 'm', 'p', 'l'], seq!['p', 'r', 'i', 'v']);
    lemma_differ_len(seq!['o', 'p', '_', 'i', 'm', 'p', 'l'], seq!['p', 'u', 'b']);
    lemma_differ_len(seq!['o', 'p', '_', 'i', 'm', 'p', 'l'], seq!['r', 'e', 'f']);
    lemma_differ_len(seq!['o', 'p', '_', 'i', 'm', 'p', 'l'], seq!['r', 'e', 't', 'u', 'r', 'n']);
    lemma_differ_len(seq!['o', 'p', '_', 'i', 'm', 'p', 'l'], seq!['S', 'e', 'l', 'f']);
    lemma_differ_len(seq!['o', 'p', '_', 'i', 'm', 'p', 'l'], seq!['s', 'e', 'l', 'f']);
    lemma_differ_len(seq!['o', 'p', '_', 'i', 'm', 'p', 'l'], seq!['s', 't', 'a', 't', 'i', 'c']);
    lemma_differ_len(seq!['o', 'p', '_', 'i', 'm', 'p', 'l'], seq!['s', 't', 'r', 'u', 'c', 't']);
    lemma_differ_len(seq!['o', 'p', '_', 'i', 'm', 'p', 'l'], seq!['s', 'u', 'p', 'e', 'r']);
    lemma_differ_len(seq!['o', 'p', '_', 'i', 'm', 'p', 'l'], seq!['t', 'r', 'a', 'i', 't']);
    lemma_differ_len(seq!['o', 'p', '_', 'i', 'm', 'p', 'l'], seq!['t', 'r', 'u', 'e']);
    lemma_differ_len(seq!['o', 'p', '_', 'i', 'm', 'p', 'l'], seq!['t', 'r', 'y']);
    lemma_differ_len(seq!['o', 'p', '_', 'i', 'm', 'p', 'l'], seq!['t', 'y', 'p', 'e']);
    lemma_differ_len(seq!['o', 'p', '_', 'i', 'm', 'p', 'l'], seq!['t', 'y', 'p', 'e', 'o', 'f']);
    lemma_differ_len(seq!['o', 'p', '_', 'i', 'm', 'p', 'l'], seq!['u', 'n', 's', 'a', 'f', 'e']);
    lemma_differ_at(seq!['o', 'p', '_', 'i', 'm', 'p', 'l'], seq!['u', 'n', 's', 'i', 'z', 'e', 'd'], 0);
    lemma_differ_len(seq!['o', 'p', '_', 'i', 'm', 'p', 'l'], seq!['u', 's', 'e']);
    lemma_differ_at(seq!['o', 'p', '_', 'i', 'm', 'p', 'l'], seq!['v', 'i', 'r', 't', 'u', 'a', 'l'], 0);
    lemma_differ_len(seq!['o', 'p', '_', 'i', 'm', 'p', 'l'], seq!['w', 'h', 'e', 'r', 'e']);
    lemma_differ_len(seq!['o', 'p', '_', 'i', 'm', 'p', 'l'], seq!['w', 'h', 'i', 'l', 'e']);
    lemma_differ_len(seq!['o', 'p', '_', 'i', 'm', 'p', 'l'], seq!['y', 'i', 'e', 'l', 'd']);
}

proof fn lemma_word_9_not_reserved()
    ensures
        accepts_as_ident(seq!['a', 't', 't', 'r', '_', 'i', 'm', 'p', 'l']),
{
    lemma_differ_len(seq!['a', 't', 't', 'r', '_', 'i', 'm', 'p', 'l'], seq!['_']);
    lemma_differ_len(seq!['a', 't', 't', 'r', '_', 'i', 'm', 'p', 'l'], seq!['a', 'b', 's', 't', 'r', 'a', 'c', 't']);
    lemma_differ_len(seq!['a', 't', 't', 'r', '_', 'i', 'm', 'p', 'l'], seq!['a', 's']);
    lemma_differ_len(seq!['a', 't', 't', 'r', '_', 'i', 'm', 'p', 'l'], seq!['a', 's', 'y', 'n', 'c']);
    lemma_differ_len(seq!['a', 't', 't', 'r', '_', 'i', 'm', 'p', 'l'], seq!['a', 'w', 'a', 'i', 't']);
    lemma_differ_len(seq!['a', 't', 't', 'r', '_', 'i', 'm', 'p', 'l'], seq!['b', 'e', 'c', 'o', 'm', 'e']);
    lemma_differ_len(seq!['a', 't', 't', 'r', '_', 'i', 'm', 'p', 'l'], seq!['b', 'o', 'x']);
    lemma_differ_len(seq!['a', 't', 't', 'r', '_', 'i', 'm', 'p', 'l'], seq!['b', 'r', 'e', 'a', 'k']);
    lemma_differ_len(seq!['a', 't', 't', 'r', '_', 'i', 'm', 'p', 'l'], seq!['c', 'o', 'n', 's', 't']);
    lemma_differ_len(seq!['a', 't', 't', 'r', '_', 'i', 'm', 'p', 'l'], seq!['c', 'o', 'n', 't', 'i', 'n', 'u', 'e']);
    lemma_differ_len(seq!['a', 't', 't', 'r', '_', 'i', 'm', 'p', 'l'], seq!['c', 'r', 'a', 't', 'e']);
    lemma_differ_len(seq!['a', 't', 't', 'r', '_', 'i', 'm', 'p', 'l'], seq!['d', 'o']);
    lemma_differ_len(seq!['a', 't', 't', 'r', '_', 'i', 'm', 'p', 'l'], seq!['d', 'y', 'n']);
    lemma_differ_len(seq!['a', 't', 't', 'r', '_', 'i', 'm', 'p', 'l'], seq!['e', 'l', 's', 'e']);
    lemma_differ_len(seq!['a', 't', 't', 'r', '_', 'i', 'm', 'p', 'l'], seq!['e', 'n', 'u', 'm']);
    lemma_differ_len(seq!['a', 't', 't', 'r', '_', 'i', 'm', 'p', 'l'], seq!['e', 'x', 't', 'e', 'r', 'n']);
    lemma_differ_len(seq!['a', 't', 't', 'r', '_', 'i', 'm', 'p', 'l'], seq!['f', 'a', 'l', 's', 'e']);
    lemma_differ_len(seq!['a', 't', 't', 'r', '_', 'i', 'm', 'p', 'l'], seq!['f', 'i', 'n', 'a', 'l']);
    lemma_differ_len(seq!['a', 't', 't', 'r', '_', 'i', 'm', 'p', 'l'], seq!['f', 'n']);
    lemma_differ_len(seq!['a', 't', 't', 'r', '_', 'i', 'm', 'p', 'l'], seq!['f', 'o', 'r']);
    lemma_differ_len(seq!['a', 't', 't', 'r', '_', 'i', 'm', 'p', 'l'], seq!['i', 'f']);
    lemma_differ_len(seq!['a', 't', 't', 'r', '_', 'i', 'm', 'p', 'l'], seq!['i', 'm', 'p', 'l']);
    lemma_differ_len(seq!['a', 't', 't', 'r', '_', 'i', 'm', 'p', 'l'], seq!['i', 'n']);
    lemma_differ_len(seq!['a', 't', 't', 'r', '_', 'i', 'm', 'p', 'l'], seq!['l', 'e', 't']);
    lemma_differ_len(seq!['a', 't', 't', 'r', '_', 'i', 'm', 'p', 'l'], seq!['l', 'o', 'o', 'p']);
    lemma_differ_len(seq!['a', 't', 't', 'r', '_', 'i', 'm', 'p', 'l'], seq!['m', 'a', 'c', 'r', 'o']);
    lemma_differ_len(seq!['a', 't', 't', 'r', '_', 'i', 'm', 'p', 'l'], seq!['m', 'a', 't', 'c', 'h']);
    lemma_differ_len(seq!['a', 't', 't', 'r', '_', 'i', 'm', 'p', 'l'], seq!['m', 'o', 'd']);
    lemma_differ_len(seq!['a', 't', 't', 'r', '_', 'i', 'm', 'p', 'l'], seq!['m', 'o', 'v', 'e']);
    lemma_differ_len(seq!['a', 't', 't', 'r', '_', 'i', 'm', 'p', 'l'], seq!['m', 'u', 't']);
    lemma_differ_len(seq!['a', 't', 't', 'r', '_', 'i', 'm', 'p', 'l'], seq!['o', 'v', 'e', 'r', 'r', 'i', 'd', 'e']);
    lemma_differ_len(seq!['a', 't', 't', 'r', '_', 'i', 'm', 'p', 'l'], seq!['p', 'r', 'i', 'v']);
    lemma_differ_len(seq!['a', 't', 't', 'r', '_', 'i', 'm', 'p', 'l'], seq!['p', 'u', 'b']);
    lemma_differ_len(seq!['a', 't', 't', 'r', '_', 'i', 'm', 'p', 'l'], seq!['r', 'e', 'f']);
    lemma_differ_len(seq!['a', 't', 't', 'r', '_', 'i', 'm', 'p', 'l'], seq!['r', 'e', 't', 'u', 'r', 'n']);
    lemma_differ_len(seq!['a', 't', 't', 'r', '_', 'i', 'm', 'p', 'l'], seq!['S', 'e', 'l', 'f']);
    lemma_differ_len(seq!['a', 't', 't', 'r', '_', 'i', 'm', 'p', 'l'], seq!['s', 'e', 'l', 'f']);
    lemma_differ_len(seq!['a', 't', 't', 'r', '_', 'i', 'm', 'p', 'l'], seq!['s', 't', 'a', 't', 'i', 'c']);
    lemma_differ_len(seq!['a', 't', 't', 'r', '_', 'i', 'm', 'p', 'l'], seq!['s', 't', 'r', 'u', 'c', 't']);
    lemma_differ_len(seq!['a', 't', 't', 'r', '_', 'i', 'm', 'p', 'l'], seq!['s', 'u', 'p', 'e', 'r']);
    lemma_differ_len(seq!['a', 't', 't', 'r', '_', 'i', 'm', 'p', 'l'], seq!['t', 'r', 'a', 'i', 't']);
    lemma_differ_len(seq!['a', 't', 't', 'r', '_', 'i', 'm', 'p', 'l'], seq!['t', 'r', 'u', 'e']);
    lemma_differ_len(seq!['a', 't', 't', 'r', '_', 'i', 'm', 'p', 'l'], seq!['t', 'r', 'y']);
    lemma_differ_len(seq!['a', 't', 't', 'r', '_', 'i', 'm', 'p', 'l'], seq!['t', 'y', 'p', 'e']);
    lemma_differ_len(seq!['a', 't', 't', 'r', '_', 'i', 'm', 'p', 'l'], seq!['t', 'y', 'p', 'e', 'o', 'f']);
    lemma_differ_len(seq!['a', 't', 't', 'r', '_', 'i', 'm', 'p', 'l'], seq!['u', 'n', 's', 'a', 'f', 'e']);
    lemma_differ_len(seq!['a', 't', 't', 'r', '_', 'i', 'm', 'p', 'l'], seq!['u', 'n', 's', 'i', 'z', 'e', 'd']);
    lemma_differ_len(seq!['a', 't', 't', 'r', '_', 'i', 'm', 'p', 'l'], seq!['u', 's', 'e']);
    lemma_differ_len(seq!['a', 't', 't', 'r', '_', 'i', 'm', 'p', 'l'], seq!['v', 'i', 'r', 't', 'u', 'a', 'l']);
    lemma_differ_len(seq!['a', 't', 't', 'r', '_', 'i', 'm', 'p', 'l'], seq!['w', 'h', 'e', 'r', 'e']);
    lemma_differ_len(seq!['a', 't', 't', 'r', '_', 'i', 'm', 'p', 'l'], seq!['w', 'h', 'i', 'l', 'e']);
    lemma_differ_len(seq!['a', 't', 't', 'r', '_', 'i', 'm', 'p', 'l'], seq!['y', 'i', 'e', 'l', 'd']);
}

proof fn lemma_word_10_not_reserved()
    ensures
        accepts_as_ident(seq!['t', 'y', '_', 'i', 'm', 'p', 'l']),
{
    lemma_differ_len(seq!['t', 'y', '_', 'i', 'm', 'p', 'l'], seq!['_']);
    lemma_differ_len(seq!['t', 'y', '_', 'i', 'm', 'p', 'l'], seq!['a', 'b', 's', 't', 'r', 'a', 'c', 't']);
    lemma_differ_len(seq!['t', 'y', '_', 'i', 'm', 'p', 'l'], seq!['a', 's']);
    lemma_differ_len(seq!['t', 'y', '_', 'i', 'm', 'p', 'l'], seq!['a', 's', 'y', 'n', 'c']);
    lemma_differ_len(seq!['t', 'y', '_', 'i', 'm', 'p', 'l'], seq!['a', 'w', 'a', 'i', 't']);
    lemma_differ_len(seq!['t', 'y', '_', 'i', 'm', 'p', 'l'], seq!['b', 'e', 'c', 'o', 'm', 'e']);
    lemma_differ_len(seq!['t', 'y', '_', 'i', 'm', 'p', 'l'], seq!['b', 'o', 'x']);
    lemma_differ_len(seq!['t', 'y', '_', 'i', 'm', 'p', 'l'], seq!['b', 'r', 'e', 'a', 'k']);
    lemma_differ_len(seq!['t', 'y', '_', 'i', 'm', 'p', 'l'], seq!['c', 'o', 'n', 's', 't']);
    lemma_differ_len(seq!['t', 'y', '_', 'i', 'm', 'p', 'l'], seq!['c', 'o', 'n', 't', 'i', 'n', 'u', 'e']);
    lemma_differ_len(seq!['t', 'y', '_', 'i', 'm', 'p', 'l'], seq!['c', 'r', 'a', 't', 'e']);
    lemma_differ_len(seq!['t', 'y', '_', 'i', 'm', 'p', 'l'], seq!['d', 'o']);
    lemma_differ_len(seq!['t', 'y', '_', 'i', 'm', 'p', 'l'], seq!['d', 'y', 'n']);
    lemma_differ_len(seq!['t', 'y', '_', 'i', 'm', 'p', 'l'], seq!['e', 'l', 's', 'e']);
    lemma_differ_len(seq!['t', 'y', '_', 'i', 'm', 'p', 'l'], seq!['e', 'n', 'u', 'm']);
    lemma_differ_len(seq!['t', 'y', '_', 'i', 'm', 'p', 'l'], seq!['e', 'x', 't', 'e', 'r', 'n']);
    lemma_differ_len(seq!['t', 'y', '_', 'i', 'm', 'p', 'l'], seq!['f', 'a', 'l', 's', 'e']);
    lemma_differ_len(seq!['t', 'y', '_', 'i', 'm', 'p', 'l'], seq!['f', 'i', 'n', 'a', 'l']);
    lemma_differ_len(seq!['t', 'y', '_', 'i', 'm', 'p', 'l'], seq!['f', 'n']);
    lemma_differ_len(seq!['t', 'y', '_', 'i', 'm', 'p', 'l'], seq!['f', 'o', 'r']);
    lemma_differ_len(seq!['t', 'y', '_', 'i', 'm', 'p', 'l'], seq!['i', 'f']);
    lemma_differ_len(seq!['t', 'y', '_', 'i', 'm', 'p', 'l'], seq!['i', 'm', 'p', 'l']);
    lemma_differ_len(seq!['t', 'y', '_', 'i', 'm', 'p', 'l'], seq!['i', 'n']);
    lemma_differ_len(seq!['t', 'y', '_', 'i', 'm', 'p', 'l'], seq!['l', 'e', 't']);
    lemma_differ_len(seq!['t', 'y', '_', 'i', 'm', 'p', 'l'], seq!['l', 'o', 'o', 'p']);
    lemma_differ_len(seq!['t', 'y', '_', 'i', 'm', 'p', 'l'], seq!['m', 'a', 'c', 'r', 'o']);
    lemma_differ_len(seq!['t', 'y', '_', 'i', 'm', 'p', 'l'], seq!['m', 'a', 't', 'c', 'h']);
    lemma_differ_len(seq!['t', 'y', '_', 'i', 'm', 'p', 'l'], seq!['m', 'o', 'd']);
    lemma_differ_len(seq!['t', 'y', '_', 'i', 'm', 'p', 'l'], seq!['m', 'o', 'v', 'e']);
    lemma_differ_len(seq!['t', 'y', '_', 'i', 'm', 'p', 'l'], seq!['m', 'u', 't']);
    lemma_differ_len(seq!['t', 'y', '_', 'i', 'm', 'p', 'l'], seq!['o', 'v', 'e', 'r', 'r', 'i', 'd', 'e']);
    lemma_differ_len(seq!['t', 'y', '_', 'i', 'm', 'p', 'l'], seq!['p', 'r', 'i', 'v']);
    lemma_differ_len(seq!['t', 'y', '_', 'i', 'm', 'p', 'l'], seq!['p', 'u', 'b']);
    lemma_differ_len(seq!['t', 'y', '_', 'i', 'm', 'p', 'l'], seq!['r', 'e', 'f']);
    lemma_differ_len(seq!['t', 'y', '_', 'i', 'm', 'p', 'l'], seq!['r', 'e', 't', 'u', 'r', 'n']);
    lemma_differ_len(seq!['t', 'y', '_', 'i', 'm', 'p', 'l'], seq!['S', 'e', 'l', 'f']);
    lemma_differ_len(seq!['t', 'y', '_', 'i', 'm', 'p', 'l'], seq!['s', 'e', 'l', 'f']);
    lemma_differ_len(seq!['t', 'y', '_', 'i', 'm', 'p', 'l'], seq!['s', 't', 'a', 't', 'i', 'c']);
    lemma_differ_len(seq!['t', 'y', '_', 'i', 'm', 'p', 'l'], seq!['s', 't', 'r', 'u', 'c', 't']);
    lemma_differ_len(seq!['t', 'y', '_', 'i', 'm', 'p', 'l'], seq!['s', 'u', 'p', 'e', 'r']);
    lemma_differ_len(seq!['t', 'y', '_', 'i', 'm', 'p', 'l'], seq!['t', 'r', 'a', 'i', 't']);
    lemma_differ_len(seq!['t', 'y', '_', 'i', 'm', 'p', 'l'], seq!['t', 'r', 'u', 'e']);
    lemma_differ_len(seq!['t', 'y', '_', 'i', 'm', 'p', 'l'], seq!['t', 'r', 'y']);
    lemma_differ_len(seq!['t', 'y', '_', 'i', 'm', 'p', 'l'], seq!['t', 'y', 'p', 'e']);
    lemma_differ_len(seq!['t', 'y', '_', 'i', 'm', 'p', 'l'], seq!['t', 'y', 'p', 'e', 'o', 'f']);
    lemma_differ_len(seq!['t', 'y', '_', 'i', 'm', 'p', 'l'], seq!['u', 'n', 's', 'a', 'f', 'e']);
    lemma_differ_at(seq!['t', 'y', '_', 'i', 'm', 'p', 'l'], seq!['u', 'n', 's', 'i', 'z', 'e', 'd'], 0);
    lemma_differ_len(seq!['t', 'y', '_', 'i', 'm', 'p', 'l'], seq!['u', 's', 'e']);
    lemma_differ_at(seq!['t', 'y', '_', 'i', 'm', 'p', 'l'], seq!['v', 'i', 'r', 't', 'u', 'a', 'l'], 0);
    lemma_differ_len(seq!['t', 'y', '_', 'i', 'm', 'p', 'l'], seq!['w', 'h', 'e', 'r', 'e']);
    lemma_differ_len(seq!['t', 'y', '_', 'i', 'm', 'p', 'l'], seq!['w', 'h', 'i', 'l', 'e']);
    lemma_differ_len(seq!['t', 'y', '_', 'i', 'm', 'p', 'l'], seq!['y', 'i', 'e', 'l', 'd']);
}

/// The words of the envelope grammar and the kinds are not reserved.
pub proof fn lemma_words_not_reserved()
    ensures
        accepts_as_ident(seq!['p', 'l', 'i', 'r', 'o', 'n', '_', 'r', 'e', 'f', 'l', 'e', 'c', 't', '_', 'v', '1']),
        accepts_as_ident(seq!['k', 'i', 'n', 'd']),
        accepts_as_ident(seq!['i', 'd', 'e', 'n', 't']),
        accepts_as_ident(seq!['n', 'a', 'm', 'e']),
        accepts_as_ident(seq!['i', 't', 'e', 'm']),
        accepts_as_ident(seq!['o', 'p']),
        accepts_as_ident(seq!['a', 't', 't', 'r']),
        accepts_as_ident(seq!['t', 'y']),
        accepts_as_ident(seq!['o', 'p', '_', 'i', 'm', 'p', 'l']),
        accepts_as_ident(seq!['a', 't', 't', 'r', '_', 'i', 'm', 'p', 'l']),
        accepts_as_ident(seq!['t', 'y', '_', 'i', 'm', 'p', 'l']),
{
    lemma_word_0_not_reserved();
    lemma_word_1_not_reserved();
    lemma_word_2_not_reserved();
    lemma_word_3_not_reserved();
    lemma_word_4_not_reserved();
    lemma_word_5_not_reserved();
    lemma_word_6_not_reserved();
    lemma_word_7_not_reserved();
    lemma_word_8_not_reserved();
    lemma_word_9_not_reserved();
    lemma_word_10_not_reserved();
}

} // verus!
