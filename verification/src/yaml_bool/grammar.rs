//! The literal grammar of a lenient boolean, as mathematics.
//!
//! A text stands for a boolean when, with its ASCII capitals put in lower
//! case, it reads one of eight words. Everything here is ghost code: the
//! executable decoder is proved against these definitions.
//!
//! Only ASCII is folded. That loses nothing: the accepted words are made of
//! eleven ASCII letters, and no character outside ASCII has a lowercase form
//! made of those letters, so a text reads an accepted word after this folding
//! exactly when it does after Unicode lowercasing.

use vstd::prelude::*;

verus! {

/// `c` with an ASCII capital replaced by its small letter; any other
/// character, in or out of ASCII, as it is.
pub open spec fn fold_char(c: char) -> char {
    if 'A' <= c && c <= 'Z' {
        ((c as u8) + 32) as char
    } else {
        c
    }
}

/// `text` with every character folded.
pub open spec fn fold(text: Seq<char>) -> Seq<char> {
    Seq::new(text.len(), |i: int| fold_char(text[i]))
}

/// The words for `true`, in canonical case.
pub open spec fn is_truthy_word(word: Seq<char>) -> bool {
    word == "true"@ || word == "yes"@ || word == "on"@ || word == "y"@
}

/// The words for `false`, in canonical case.
pub open spec fn is_falsy_word(word: Seq<char>) -> bool {
    word == "false"@ || word == "no"@ || word == "off"@ || word == "n"@
}

/// The accepted words in the order in which a failure lists them.
pub open spec fn accepted_words() -> Seq<Seq<char>> {
    seq!["true"@, "false"@, "yes"@, "no"@, "on"@, "off"@, "y"@, "n"@]
}

/// The boolean that `text` stands for, if it stands for one.
pub open spec fn classify(text: Seq<char>) -> Option<bool> {
    if is_truthy_word(fold(text)) {
        Some(true)
    } else if is_falsy_word(fold(text)) {
        Some(false)
    } else {
        None
    }
}

/// `a` and `b` have the same length and differ, place by place, at most in
/// the case of an ASCII letter.
pub open spec fn same_but_for_case(a: Seq<char>, b: Seq<char>) -> bool {
    &&& a.len() == b.len()
    &&& forall|i: int| 0 <= i < a.len() ==> same_letter(#[trigger] a[i], b[i])
}

/// `x` and `y` are one character, or the capital and the small form of one
/// ASCII letter.
pub open spec fn same_letter(x: char, y: char) -> bool {
    ||| x == y
    ||| ('A' <= x && x <= 'Z' && y as int == x as int + 32)
    ||| ('A' <= y && y <= 'Z' && x as int == y as int + 32)
}

} // verus!
