//! The decoder: from a value of a document to a strict boolean.

use vstd::prelude::*;
use vstd::string::StrSliceExecFns;
use crate::yaml_bool::error::{outcome, DecodeError, DecodeErrorView};
use crate::yaml_bool::grammar::{accepted_words, classify, fold, fold_char};
use crate::yaml_bool::token::{Presence, PresenceView, Token, TokenView};

verus! {

/// What decoding the string `text` gives: the boolean it stands for, or the
/// failure that names it and lists the accepted words.
pub open spec fn decode_str(text: Seq<char>) -> Result<bool, DecodeErrorView> {
    match classify(text) {
        Some(b) => Ok(b),
        None => Err(
            DecodeErrorView::UnrecognizedValue { literal: text, accepted: accepted_words() },
        ),
    }
}

/// What decoding a required field gives. A native boolean passes through, a
/// string goes by [`decode_str`], anything else is a mismatch of types.
pub open spec fn decode(token: TokenView) -> Result<bool, DecodeErrorView> {
    match token {
        TokenView::Bool(b) => Ok(b),
        TokenView::Str(text) => decode_str(text),
        _ => Err(
            DecodeErrorView::TypeMismatch { expected: "YAML boolean"@, actual: token.kind() },
        ),
    }
}

/// What decoding the value of a present, non-null optional field gives.
pub open spec fn decode_some(token: TokenView) -> Result<Option<bool>, DecodeErrorView> {
    match decode(token) {
        Ok(b) => Ok(Some(b)),
        Err(e) => Err(e),
    }
}

/// What decoding an optional field gives. A field that is absent and one
/// that holds an explicit null both decode to no value, without failure.
pub open spec fn decode_optional(field: PresenceView) -> Result<Option<bool>, DecodeErrorView> {
    match field {
        PresenceView::Absent => Ok(None),
        PresenceView::Present(TokenView::Null) => Ok(None),
        PresenceView::Present(token) => decode_some(token),
    }
}

/// The accepted words in canonical case, in the order in which a failure
/// lists them.
pub fn accepted_literals() -> (r: &'static [&'static str])
    ensures
        r.deep_view() == accepted_words(),
{
    let r: &'static [&'static str] = &["true", "false", "yes", "no", "on", "off", "y", "n"];
    assert(r.deep_view() =~= accepted_words());
    r
}

/// `c` with an ASCII capital replaced by its small letter.
pub fn to_lower(c: char) -> (r: char)
    ensures
        r == fold_char(c),
{
    if 'A' <= c && c <= 'Z' {
        ((c as u8) + 32) as char
    } else {
        c
    }
}

/// Whether `text`, with its ASCII capitals in lower case, reads `word`.
pub fn reads(text: &str, word: &str) -> (r: bool)
    ensures
        r == (fold(text@) == word@),
{
    let n: usize = text.unicode_len();
    if n != word.unicode_len() {
        return false;
    }
    let mut i: usize = 0;
    while i < n
        invariant
            n == text@.len(),
            n == word@.len(),
            i <= n,
            forall|j: int| 0 <= j < i ==> fold_char(text@[j]) == word@[j],
        decreases n - i,
    {
        if to_lower(text.get_char(i)) != word.get_char(i) {
            assert(fold(text@)[i as int] != word@[i as int]);
            return false;
        }
        i = i + 1;
    }
    assert(fold(text@) =~= word@);
    true
}

/// Decodes a required lenient boolean.
pub struct StringOrBool;

impl StringOrBool {
    /// What this decoder expects, for a failure to say.
    pub fn expecting(&self) -> (r: &'static str)
        ensures
            r@ == "YAML boolean"@,
    {
        "YAML boolean"
    }

    /// A native boolean is returned unchanged.
    pub fn visit_bool(self, v: bool) -> (r: Result<bool, DecodeError>)
        ensures
            r == Ok::<bool, DecodeError>(v),
    {
        Ok(v)
    }

    /// A string decodes to the boolean that it stands for, whatever the case
    /// of its letters; one that stands for none fails, and the failure
    /// carries the string as given and the accepted words.
    pub fn visit_str(self, v: &str) -> (r: Result<bool, DecodeError>)
        ensures
            outcome(r) == decode_str(v@),
    {
        if reads(v, "true") || reads(v, "yes") || reads(v, "on") || reads(v, "y") {
            Ok(true)
        } else if reads(v, "false") || reads(v, "no") || reads(v, "off") || reads(v, "n") {
            Ok(false)
        } else {
            Err(
                DecodeError::UnrecognizedValue {
                    literal: v.to_owned(),
                    accepted: accepted_literals(),
                },
            )
        }
    }
}

/// Decodes an optional lenient boolean.
pub struct StringOrBoolOption;

impl StringOrBoolOption {
    /// What this decoder expects, for a failure to say.
    pub fn expecting(&self) -> (r: &'static str)
        ensures
            r@ == "YAML boolean or null"@,
    {
        "YAML boolean or null"
    }

    /// A field without a value decodes to no value.
    pub fn visit_none(self) -> (r: Result<Option<bool>, DecodeError>)
        ensures
            r == Ok::<Option<bool>, DecodeError>(None),
    {
        Ok(None)
    }

    /// A field with a value decodes as a required one does, and the boolean
    /// is wrapped; a failure comes through unchanged.
    pub fn visit_some(self, token: &Token) -> (r: Result<Option<bool>, DecodeError>)
        ensures
            outcome(r) == decode_some(token@),
    {
        match string_or_bool(token) {
            Ok(b) => Ok(Some(b)),
            Err(e) => Err(e),
        }
    }
}

/// Decodes a lenient boolean from the value of a required field.
pub fn string_or_bool(token: &Token) -> (r: Result<bool, DecodeError>)
    ensures
        outcome(r) == decode(token@),
{
    match token {
        Token::Bool(v) => StringOrBool.visit_bool(*v),
        Token::Str(v) => StringOrBool.visit_str(v.as_str()),
        _ => Err(
            DecodeError::TypeMismatch {
                expected: StringOrBool.expecting(),
                actual: token.kind(),
            },
        ),
    }
}

/// Decodes a lenient boolean from an optional field. An absent field and an
/// explicit null both give `None`; neither is a failure.
pub fn string_or_bool_option(field: &Presence) -> (r: Result<Option<bool>, DecodeError>)
    ensures
        outcome(r) == decode_optional(field@),
{
    match field {
        Presence::Absent => StringOrBoolOption.visit_none(),
        Presence::Present(Token::Null) => StringOrBoolOption.visit_none(),
        Presence::Present(token) => StringOrBoolOption.visit_some(token),
    }
}

} // verus!
