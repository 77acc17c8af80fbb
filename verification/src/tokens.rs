//! A flat model of a Rust token stream, as the code generators read it.
//!
//! A group (`( .. )`, `{ .. }`, `[ .. ]`) is a single token that records its
//! delimiter and how many tokens it holds; its contents are not needed by the
//! grammars here and are carried alongside by the caller.

use vstd::prelude::*;

verus! {

/// The delimiter of a token group.
#[derive(Clone, Copy, Debug, PartialEq, Eq, Structural)]
pub enum Delimiter {
    Parenthesis,
    Brace,
    Bracket,
}

/// One token tree of a token stream.
#[derive(Clone, Debug)]
pub enum Tok {
    /// An identifier or keyword, by its text (e.g. `op`, `r#type`).
    Ident(Vec<char>),
    /// A single punctuation character.
    Punct(char),
    /// A literal, by its source text (e.g. `"builtin.module"`, `42`).
    Literal(Vec<char>),
    /// A delimited group, with the number of token trees it holds.
    Group(Delimiter, usize),
}

/// The mathematical value of a [`Tok`].
pub enum TokView {
    Ident(Seq<char>),
    Punct(char),
    Literal(Seq<char>),
    Group(Delimiter, nat),
}

impl View for Tok {
    type V = TokView;

    open spec fn view(&self) -> TokView {
        match self {
            Tok::Ident(s) => TokView::Ident(s@),
            Tok::Punct(c) => TokView::Punct(*c),
            Tok::Literal(s) => TokView::Literal(s@),
            Tok::Group(d, n) => TokView::Group(*d, *n as nat),
        }
    }
}

/// The view of a token sequence.
pub open spec fn toks_view(t: Seq<Tok>) -> Seq<TokView> {
    t.map_values(|x: Tok| x@)
}

} // verus!
