//! How decoding a lenient boolean fails.

use vstd::prelude::*;
use crate::yaml_bool::token::TokenKind;

verus! {

/// Why a value is no lenient boolean. Either failure ends the decoding of the
/// document it was found in; nothing is guessed in its place.
#[derive(Debug, Clone, PartialEq, Eq)]
pub enum DecodeError {
    /// A string that reads none of the accepted words, in any case.
    UnrecognizedValue {
        /// The string as the document has it.
        literal: String,
        /// The accepted words, in canonical case.
        accepted: &'static [&'static str],
    },
    /// A value that is neither a boolean nor a string.
    TypeMismatch {
        /// What was expected at this place.
        expected: &'static str,
        /// The kind of the value that stood there.
        actual: TokenKind,
    },
}

/// A [`DecodeError`] with its texts as sequences of characters.
pub enum DecodeErrorView {
    UnrecognizedValue { literal: Seq<char>, accepted: Seq<Seq<char>> },
    TypeMismatch { expected: Seq<char>, actual: TokenKind },
}

impl View for DecodeError {
    type V = DecodeErrorView;

    open spec fn view(&self) -> DecodeErrorView {
        match *self {
            DecodeError::UnrecognizedValue { literal, accepted } => DecodeErrorView::UnrecognizedValue {
                literal: literal@,
                accepted: accepted.deep_view(),
            },
            DecodeError::TypeMismatch { expected, actual } => DecodeErrorView::TypeMismatch {
                expected: expected@,
                actual,
            },
        }
    }
}

/// The outcome of a decoding, with the failure taken by its view.
pub open spec fn outcome<T>(r: Result<T, DecodeError>) -> Result<T, DecodeErrorView> {
    match r {
        Ok(v) => Ok(v),
        Err(e) => Err(e@),
    }
}

} // verus!
