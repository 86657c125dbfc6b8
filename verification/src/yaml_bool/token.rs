//! What a document hands to the decoder: one value, and whether a field was
//! there at all.

use vstd::prelude::*;

verus! {

/// The kinds of value a document can hold at the place of a field.
#[derive(Debug, Clone, Copy, PartialEq, Eq, Structural)]
pub enum TokenKind {
    /// A native boolean.
    Bool,
    /// A string scalar.
    Str,
    /// The explicit marker for "nothing here".
    Null,
    /// A whole number.
    Integer,
    /// A number with a fraction or an exponent.
    Float,
    /// A sequence of values.
    Sequence,
    /// A mapping from keys to values.
    Mapping,
}

/// One value of a document, holding what the decoder reads of it: the
/// boolean or the text of a scalar, and of anything else only its kind.
#[derive(Debug, Clone, PartialEq, Eq)]
pub enum Token {
    Bool(bool),
    Str(String),
    Null,
    Integer,
    Float,
    Sequence,
    Mapping,
}

/// A [`Token`] with its text as a sequence of characters.
pub enum TokenView {
    Bool(bool),
    Str(Seq<char>),
    Null,
    Integer,
    Float,
    Sequence,
    Mapping,
}

impl TokenView {
    /// The kind of this value.
    pub open spec fn kind(self) -> TokenKind {
        match self {
            TokenView::Bool(_) => TokenKind::Bool,
            TokenView::Str(_) => TokenKind::Str,
            TokenView::Null => TokenKind::Null,
            TokenView::Integer => TokenKind::Integer,
            TokenView::Float => TokenKind::Float,
            TokenView::Sequence => TokenKind::Sequence,
            TokenView::Mapping => TokenKind::Mapping,
        }
    }
}

impl View for Token {
    type V = TokenView;

    open spec fn view(&self) -> TokenView {
        match *self {
            Token::Bool(b) => TokenView::Bool(b),
            Token::Str(s) => TokenView::Str(s@),
            Token::Null => TokenView::Null,
            Token::Integer => TokenView::Integer,
            Token::Float => TokenView::Float,
            Token::Sequence => TokenView::Sequence,
            Token::Mapping => TokenView::Mapping,
        }
    }
}

impl Token {
    /// The kind of this value.
    pub fn kind(&self) -> (k: TokenKind)
        ensures
            k == self@.kind(),
    {
        match self {
            Token::Bool(_) => TokenKind::Bool,
            Token::Str(_) => TokenKind::Str,
            Token::Null => TokenKind::Null,
            Token::Integer => TokenKind::Integer,
            Token::Float => TokenKind::Float,
            Token::Sequence => TokenKind::Sequence,
            Token::Mapping => TokenKind::Mapping,
        }
    }
}

/// Whether a field stands in the document, and with what value. An explicit
/// null is `Present(Token::Null)`.
#[derive(Debug, Clone, PartialEq, Eq)]
pub enum Presence {
    /// The document has no such field.
    Absent,
    /// The document has the field, with this value.
    Present(Token),
}

/// A [`Presence`] over a [`TokenView`].
pub enum PresenceView {
    Absent,
    Present(TokenView),
}

impl View for Presence {
    type V = PresenceView;

    open spec fn view(&self) -> PresenceView {
        match *self {
            Presence::Absent => PresenceView::Absent,
            Presence::Present(t) => PresenceView::Present(t@),
        }
    }
}

} // verus!
