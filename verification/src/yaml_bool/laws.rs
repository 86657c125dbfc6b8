//! What holds of the decoder on every input, proved from the definitions
//! that its contracts are stated in.

use vstd::prelude::*;
use crate::yaml_bool::decoder::{decode, decode_optional};
use crate::yaml_bool::error::DecodeErrorView;
use crate::yaml_bool::grammar::{
    accepted_words, fold, fold_char, is_falsy_word, is_truthy_word, same_but_for_case, same_letter,
};
use crate::yaml_bool::token::{PresenceView, TokenView};

verus! {

/// `text` holds no ASCII capital.
pub open spec fn has_no_capital(text: Seq<char>) -> bool {
    forall|i: int| 0 <= i < text.len() ==> !('A' <= #[trigger] text[i] && text[i] <= 'Z')
}

/// The accepted words are exactly the truthy and the falsy ones, and each is
/// written without a capital.
pub proof fn lemma_accepted_words(word: Seq<char>)
    ensures
        accepted_words().contains(word) <==> is_truthy_word(word) || is_falsy_word(word),
        accepted_words().contains(word) ==> has_no_capital(word),
        !(is_truthy_word(word) && is_falsy_word(word)),
{
    reveal_strlit("true");
    reveal_strlit("false");
    reveal_strlit("yes");
    reveal_strlit("no");
    reveal_strlit("on");
    reveal_strlit("off");
    reveal_strlit("y");
    reveal_strlit("n");
    let words = accepted_words();
    if is_truthy_word(word) || is_falsy_word(word) {
        assert(words[0] == "true"@ && words[1] == "false"@ && words[2] == "yes"@ && words[3]
            == "no"@ && words[4] == "on"@ && words[5] == "off"@ && words[6] == "y"@ && words[7]
            == "n"@);
        assert(exists|i: int| 0 <= i < words.len() && words[i] == word);
    }
    // words of one length differ in their first letter
    assert("true"@.len() == 4 && "false"@.len() == 5);
    assert("yes"@[0] == 'y' && "off"@[0] == 'o');
    assert("on"@[0] == 'o' && "no"@[0] == 'n');
    assert("y"@[0] == 'y' && "n"@[0] == 'n');
}

/// Folding is the identity on a text without a capital, and a text that
/// differs from such a text only in case folds to it.
pub proof fn lemma_fold_of_variant(text: Seq<char>, word: Seq<char>)
    requires
        has_no_capital(word),
        same_but_for_case(text, word),
    ensures
        fold(text) == word,
{
    assert forall|i: int| 0 <= i < text.len() implies fold_char(text[i]) == word[i] by {
        assert(same_letter(text[i], word[i]));
        assert(!('A' <= word[i] && word[i] <= 'Z'));
    }
    assert(fold(text) =~= word);
}

/// A text differs from its folded form only in case.
pub proof fn lemma_fold_keeps_letters(text: Seq<char>)
    ensures
        same_but_for_case(text, fold(text)),
{
    assert forall|i: int| 0 <= i < text.len() implies same_letter(
        #[trigger] text[i],
        fold(text)[i],
    ) by {
        let c = text[i];
        if 'A' <= c && c <= 'Z' {
            assert(fold_char(c) as int == c as int + 32);
        }
    }
}

/// A native boolean decodes to itself.
pub proof fn lemma_native_boolean_passes_through(b: bool)
    ensures
        decode(TokenView::Bool(b)) == Ok::<bool, DecodeErrorView>(b),
{
}

/// Decoding what a decoding gave changes nothing: the boolean that any value
/// decodes to, handed in again as a native boolean, decodes to itself.
pub proof fn lemma_redecoding_is_stable(token: TokenView, b: bool)
    requires
        decode(token) == Ok::<bool, DecodeErrorView>(b),
    ensures
        decode(TokenView::Bool(b)) == decode(token),
{
}

/// A truthy word decodes to `true` in any mix of upper and lower case.
pub proof fn lemma_truthy_in_any_case(text: Seq<char>, word: Seq<char>)
    requires
        is_truthy_word(word),
        same_but_for_case(text, word),
    ensures
        decode(TokenView::Str(text)) == Ok::<bool, DecodeErrorView>(true),
{
    lemma_accepted_words(word);
    lemma_fold_of_variant(text, word);
}

/// A falsy word decodes to `false` in any mix of upper and lower case.
pub proof fn lemma_falsy_in_any_case(text: Seq<char>, word: Seq<char>)
    requires
        is_falsy_word(word),
        same_but_for_case(text, word),
    ensures
        decode(TokenView::Str(text)) == Ok::<bool, DecodeErrorView>(false),
{
    lemma_accepted_words(word);
    lemma_fold_of_variant(text, word);
}

/// Case never matters: a text that differs from an accepted word only in the
/// case of its letters decodes as the word in canonical case does, and that
/// is a success.
pub proof fn lemma_case_is_ignored(text: Seq<char>, word: Seq<char>)
    requires
        accepted_words().contains(word),
        same_but_for_case(text, word),
    ensures
        decode(TokenView::Str(text)) == decode(TokenView::Str(word)),
        decode(TokenView::Str(text)) is Ok,
{
    lemma_accepted_words(word);
    lemma_fold_of_variant(text, word);
    assert(same_but_for_case(word, word));
    lemma_fold_of_variant(word, word);
}

/// A string decodes to a boolean only if it is an accepted word in some mix
/// of cases: every other string fails as an unrecognized value, and the
/// failure carries the string as it was given and the accepted words.
pub proof fn lemma_other_strings_are_rejected(text: Seq<char>)
    requires
        forall|word: Seq<char>| #[trigger]
            accepted_words().contains(word) ==> !same_but_for_case(text, word),
    ensures
        decode(TokenView::Str(text)) == Err::<bool, DecodeErrorView>(
            DecodeErrorView::UnrecognizedValue { literal: text, accepted: accepted_words() },
        ),
{
    lemma_accepted_words(fold(text));
    lemma_fold_keeps_letters(text);
    assert(accepted_words().contains(fold(text)) ==> !same_but_for_case(text, fold(text)));
}

/// A string is decoded to a boolean exactly when it is an accepted word in
/// some mix of cases.
pub proof fn lemma_accepted_strings(text: Seq<char>)
    ensures
        decode(TokenView::Str(text)) is Ok <==> exists|word: Seq<char>| #[trigger]
            accepted_words().contains(word) && same_but_for_case(text, word),
{
    lemma_accepted_words(fold(text));
    lemma_fold_keeps_letters(text);
    if decode(TokenView::Str(text)) is Ok {
        assert(accepted_words().contains(fold(text)) && same_but_for_case(text, fold(text)));
    }
    if exists|word: Seq<char>| #[trigger]
        accepted_words().contains(word) && same_but_for_case(text, word) {
        let word = choose|word: Seq<char>| #[trigger]
            accepted_words().contains(word) && same_but_for_case(text, word);
        lemma_case_is_ignored(text, word);
    }
}

/// Nothing is guessed: a string decodes to `true` only if it is a truthy
/// word in some mix of cases, and to `false` only if it is a falsy one.
pub proof fn lemma_no_string_is_coerced(text: Seq<char>)
    ensures
        decode(TokenView::Str(text)) == Ok::<bool, DecodeErrorView>(true) <==> exists|
            word: Seq<char>,
        | #[trigger] is_truthy_word(word) && same_but_for_case(text, word),
        decode(TokenView::Str(text)) == Ok::<bool, DecodeErrorView>(false) <==> exists|
            word: Seq<char>,
        | #[trigger] is_falsy_word(word) && same_but_for_case(text, word),
{
    lemma_accepted_words(fold(text));
    lemma_fold_keeps_letters(text);
    if decode(TokenView::Str(text)) == Ok::<bool, DecodeErrorView>(true) {
        assert(is_truthy_word(fold(text)) && same_but_for_case(text, fold(text)));
    }
    if decode(TokenView::Str(text)) == Ok::<bool, DecodeErrorView>(false) {
        assert(is_falsy_word(fold(text)) && same_but_for_case(text, fold(text)));
    }
    if exists|word: Seq<char>| #[trigger] is_truthy_word(word) && same_but_for_case(text, word) {
        let word = choose|word: Seq<char>| #[trigger]
            is_truthy_word(word) && same_but_for_case(text, word);
        lemma_truthy_in_any_case(text, word);
    }
    if exists|word: Seq<char>| #[trigger] is_falsy_word(word) && same_but_for_case(text, word) {
        let word = choose|word: Seq<char>| #[trigger]
            is_falsy_word(word) && same_but_for_case(text, word);
        lemma_falsy_in_any_case(text, word);
    }
}

/// The two failures never stand for one another: a mismatch of types comes
/// exactly for a value that is neither a boolean nor a string, an
/// unrecognized value only for a string.
pub proof fn lemma_failures_by_kind(token: TokenView)
    ensures
        (decode(token) is Err && decode(token)->Err_0 is TypeMismatch) <==> (!(token is Bool) && !(
        token is Str)),
        (decode(token) is Err && decode(token)->Err_0 is UnrecognizedValue) ==> token is Str,
        token is Bool ==> decode(token) is Ok,
{
}

/// A value that is neither a boolean nor a string is a mismatch of types,
/// whatever it is, and the failure names its kind.
pub proof fn lemma_other_kinds_are_mismatches(token: TokenView)
    requires
        !(token is Bool),
        !(token is Str),
    ensures
        decode(token) == Err::<bool, DecodeErrorView>(
            DecodeErrorView::TypeMismatch { expected: "YAML boolean"@, actual: token.kind() },
        ),
{
}

/// An optional field without a value, be it absent or an explicit null, is
/// no value and no failure; with a value it decodes as a required field
/// does, success and failure alike.
pub proof fn lemma_optional_field(field: PresenceView)
    ensures
        field is Absent ==> decode_optional(field) == Ok::<Option<bool>, DecodeErrorView>(None),
        field == PresenceView::Present(TokenView::Null) ==> decode_optional(field) == Ok::<
            Option<bool>,
            DecodeErrorView,
        >(None),
        field matches PresenceView::Present(token) ==> !(token is Null) ==> (match decode(token) {
            Ok(b) => decode_optional(field) == Ok::<Option<bool>, DecodeErrorView>(Some(b)),
            Err(e) => decode_optional(field) == Err::<Option<bool>, DecodeErrorView>(e),
        }),
{
}

/// Absence is never confused with a bad value: an optional field fails
/// exactly when it holds a value, other than null, that a required field
/// would fail on.
pub proof fn lemma_optional_fails_only_on_values(field: PresenceView)
    ensures
        decode_optional(field) is Err <==> (field matches PresenceView::Present(token) && !(token
            is Null) && decode(token) is Err),
{
}

} // verus!
