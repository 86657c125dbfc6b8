use netplan_types::yaml_bool::decoder::{
    accepted_literals, reads, string_or_bool, string_or_bool_option, to_lower, StringOrBool,
    StringOrBoolOption,
};
use netplan_types::yaml_bool::error::DecodeError;
use netplan_types::yaml_bool::token::{Presence, Token, TokenKind};

const ACCEPTED: [&str; 8] = ["true", "false", "yes", "no", "on", "off", "y", "n"];
const TRUTHY: [&str; 4] = ["true", "yes", "on", "y"];
const FALSY: [&str; 4] = ["false", "no", "off", "n"];

fn text(s: &str) -> Token {
    Token::Str(s.to_string())
}

fn unrecognized(s: &str) -> DecodeError {
    DecodeError::UnrecognizedValue {
        literal: s.to_string(),
        accepted: &ACCEPTED,
    }
}

fn mismatch(actual: TokenKind) -> DecodeError {
    DecodeError::TypeMismatch {
        expected: "YAML boolean",
        actual,
    }
}

/// Every way to write `word` with each letter in upper or in lower case.
fn case_mixes(word: &str) -> Vec<String> {
    let letters: Vec<char> = word.chars().collect();
    let mut mixes = Vec::new();
    for mask in 0..(1u32 << letters.len()) {
        let mut mix = String::new();
        for (i, c) in letters.iter().enumerate() {
            if mask & (1 << i) != 0 {
                mix.push(c.to_ascii_uppercase());
            } else {
                mix.push(*c);
            }
        }
        mixes.push(mix);
    }
    mixes
}

#[test]
fn truthy_literals_decode_to_true() {
    for s in ["true", "TRUE", "True", "yes", "YES", "on", "On", "y", "Y"] {
        assert_eq!(string_or_bool(&text(s)), Ok(true), "{}", s);
    }
}

#[test]
fn falsy_literals_decode_to_false() {
    for s in ["false", "FALSE", "False", "no", "NO", "off", "Off", "n", "N"] {
        assert_eq!(string_or_bool(&text(s)), Ok(false), "{}", s);
    }
}

#[test]
fn other_strings_are_unrecognized_and_named() {
    for s in [
        "maybe", "", " ", "tru", "truee", "yess", "ye", "o", "of", "offf", "nn", "yy", "0", "1",
        "ja", "nein", " true", "true ", "true\n", "t", "f", "null", "~", "enabled", "disabled",
        "onn", "noo", "fals", "TRUE!", "y e s", "yes,no", "y\u{0}",
    ] {
        assert_eq!(string_or_bool(&text(s)), Err(unrecognized(s)), "{:?}", s);
    }
}

#[test]
fn a_failure_keeps_the_case_of_the_string() {
    assert_eq!(string_or_bool(&text("MayBe")), Err(unrecognized("MayBe")));
    assert_ne!(string_or_bool(&text("MayBe")), Err(unrecognized("maybe")));
}

#[test]
fn native_booleans_pass_through() {
    assert_eq!(string_or_bool(&Token::Bool(true)), Ok(true));
    assert_eq!(string_or_bool(&Token::Bool(false)), Ok(false));
    assert_eq!(StringOrBool.visit_bool(true), Ok(true));
    assert_eq!(StringOrBool.visit_bool(false), Ok(false));
}

#[test]
fn optional_field_absent_null_or_present() {
    assert_eq!(string_or_bool_option(&Presence::Absent), Ok(None));
    assert_eq!(string_or_bool_option(&Presence::Present(Token::Null)), Ok(None));
    assert_eq!(
        string_or_bool_option(&Presence::Present(text("on"))),
        Ok(Some(true))
    );
}

#[test]
fn redecoding_a_decoded_value_changes_nothing() {
    let mut inputs: Vec<Token> = vec![Token::Bool(true), Token::Bool(false)];
    for word in ACCEPTED {
        for mix in case_mixes(word) {
            inputs.push(Token::Str(mix));
        }
    }
    for input in inputs {
        let first = string_or_bool(&input).unwrap();
        let again = string_or_bool(&Token::Bool(first)).unwrap();
        assert_eq!(again, first, "{:?}", input);
        assert_eq!(string_or_bool(&Token::Bool(again)), Ok(first));
    }
}

#[test]
fn every_case_mix_decodes_as_the_canonical_word() {
    let mut seen = 0;
    for word in TRUTHY {
        assert_eq!(string_or_bool(&text(word)), Ok(true));
        for mix in case_mixes(word) {
            assert_eq!(string_or_bool(&text(&mix)), Ok(true), "{}", mix);
            seen += 1;
        }
    }
    for word in FALSY {
        assert_eq!(string_or_bool(&text(word)), Ok(false));
        for mix in case_mixes(word) {
            assert_eq!(string_or_bool(&text(&mix)), Ok(false), "{}", mix);
            seen += 1;
        }
    }
    // 2^4 + 2^3 + 2^2 + 2 for the truthy words, 2^5 + 2^2 + 2^3 + 2 for the falsy ones
    assert_eq!(seen, 30 + 46);
}

#[test]
fn scenario_on_decodes_to_true() {
    assert_eq!(string_or_bool(&text("on")), Ok(true));
    assert_eq!(StringOrBool.visit_str("on"), Ok(true));
}

#[test]
fn scenario_capital_n_decodes_to_false() {
    assert_eq!(string_or_bool(&text("N")), Ok(false));
    assert_eq!(StringOrBool.visit_str("N"), Ok(false));
}

#[test]
fn scenario_maybe_fails_and_lists_the_accepted_literals() {
    match string_or_bool(&text("maybe")) {
        Err(DecodeError::UnrecognizedValue { literal, accepted }) => {
            assert_eq!(literal, "maybe");
            assert_eq!(accepted.len(), 8);
            assert_eq!(
                accepted.to_vec(),
                vec!["true", "false", "yes", "no", "on", "off", "y", "n"]
            );
        }
        other => panic!("expected an unrecognized value, got {:?}", other),
    }
}

#[test]
fn scenario_omitted_optional_field_is_no_value() {
    let decoded = string_or_bool_option(&Presence::Absent);
    assert!(decoded.is_ok());
    assert_eq!(decoded, Ok(None));
}

#[test]
fn scenario_optional_field_with_false_string() {
    assert_eq!(
        string_or_bool_option(&Presence::Present(text("false"))),
        Ok(Some(false))
    );
}

#[test]
fn scenario_mapping_is_a_type_mismatch() {
    assert_eq!(
        string_or_bool(&Token::Mapping),
        Err(mismatch(TokenKind::Mapping))
    );
    assert!(matches!(
        string_or_bool(&Token::Mapping),
        Err(DecodeError::TypeMismatch { .. })
    ));
}

#[test]
fn every_other_kind_is_a_type_mismatch_naming_the_kind() {
    let cases = [
        (Token::Null, TokenKind::Null),
        (Token::Integer, TokenKind::Integer),
        (Token::Float, TokenKind::Float),
        (Token::Sequence, TokenKind::Sequence),
        (Token::Mapping, TokenKind::Mapping),
    ];
    for (token, kind) in cases {
        assert_eq!(string_or_bool(&token), Err(mismatch(kind)));
        assert_eq!(token.kind(), kind);
    }
    assert_eq!(Token::Bool(true).kind(), TokenKind::Bool);
    assert_eq!(text("yes").kind(), TokenKind::Str);
}

#[test]
fn optional_field_passes_failures_on_unchanged() {
    assert_eq!(
        string_or_bool_option(&Presence::Present(text("maybe"))),
        Err(unrecognized("maybe"))
    );
    for (token, kind) in [
        (Token::Integer, TokenKind::Integer),
        (Token::Float, TokenKind::Float),
        (Token::Sequence, TokenKind::Sequence),
        (Token::Mapping, TokenKind::Mapping),
    ] {
        assert_eq!(
            string_or_bool_option(&Presence::Present(token)),
            Err(mismatch(kind))
        );
    }
}

#[test]
fn optional_field_decodes_every_accepted_word() {
    for word in TRUTHY {
        for mix in case_mixes(word) {
            assert_eq!(
                string_or_bool_option(&Presence::Present(Token::Str(mix))),
                Ok(Some(true))
            );
        }
    }
    for word in FALSY {
        for mix in case_mixes(word) {
            assert_eq!(
                string_or_bool_option(&Presence::Present(Token::Str(mix))),
                Ok(Some(false))
            );
        }
    }
    assert_eq!(
        string_or_bool_option(&Presence::Present(Token::Bool(true))),
        Ok(Some(true))
    );
    assert_eq!(
        string_or_bool_option(&Presence::Present(Token::Bool(false))),
        Ok(Some(false))
    );
}

#[test]
fn visiting_none_and_some() {
    assert_eq!(StringOrBoolOption.visit_none(), Ok(None));
    assert_eq!(StringOrBoolOption.visit_some(&text("Yes")), Ok(Some(true)));
    assert_eq!(StringOrBoolOption.visit_some(&text("OFF")), Ok(Some(false)));
    assert_eq!(
        StringOrBoolOption.visit_some(&Token::Bool(false)),
        Ok(Some(false))
    );
    assert_eq!(
        StringOrBoolOption.visit_some(&text("nope")),
        Err(unrecognized("nope"))
    );
    // a null handed in as a value is a value of the wrong kind
    assert_eq!(
        StringOrBoolOption.visit_some(&Token::Null),
        Err(mismatch(TokenKind::Null))
    );
}

#[test]
fn what_each_decoder_expects() {
    assert_eq!(StringOrBool.expecting(), "YAML boolean");
    assert_eq!(StringOrBoolOption.expecting(), "YAML boolean or null");
}

#[test]
fn accepted_literals_in_canonical_order() {
    assert_eq!(accepted_literals(), &ACCEPTED[..]);
    for word in accepted_literals() {
        assert_eq!(*word, word.to_lowercase());
        assert!(string_or_bool(&text(word)).is_ok());
    }
}

#[test]
fn to_lower_folds_ascii_capitals_only() {
    for (upper, lower) in ('A'..='Z').zip('a'..='z') {
        assert_eq!(to_lower(upper), lower);
        assert_eq!(to_lower(lower), lower);
    }
    for c in ['0', '9', ' ', '@', '[', '`', '{', '\u{0}', '\u{7f}'] {
        assert_eq!(to_lower(c), c);
    }
    // no letter outside ASCII is touched
    for c in ['\u{c9}', '\u{e9}', '\u{130}', '\u{3a3}', '\u{212a}', '\u{ff21}', '\u{10ffff}'] {
        assert_eq!(to_lower(c), c);
    }
    assert_eq!(to_lower('T'), 't');
    assert_eq!(to_lower('Z'), 'z');
}

#[test]
fn reads_compares_after_folding() {
    assert!(reads("TRUE", "true"));
    assert!(reads("tRuE", "true"));
    assert!(reads("", ""));
    assert!(!reads("true", "TRUE"));
    assert!(!reads("tru", "true"));
    assert!(!reads("truee", "true"));
    assert!(!reads("trve", "true"));
    assert!(!reads("\u{212a}", "k"));
    assert!(reads("\u{e9}T\u{c9}", "\u{e9}t\u{c9}"));
}

#[test]
fn folding_agrees_with_unicode_lowercasing_on_every_character() {
    // A string is accepted exactly when its Unicode lowercase form is one
    // of the accepted words. Unicode lowercases a string character by
    // character, so two facts about single characters carry this: within
    // ASCII the two foldings agree, and outside ASCII no lowercase form is
    // made of letters of the accepted words alone.
    let letters = "truefalsynof";
    let expected = |s: &str| -> Result<bool, DecodeError> {
        match s.to_lowercase().as_str() {
            "true" | "yes" | "on" | "y" => Ok(true),
            "false" | "no" | "off" | "n" => Ok(false),
            _ => Err(unrecognized(s)),
        }
    };
    let mut checked = 0u32;
    for code in 0..=0x10ffffu32 {
        let c = match char::from_u32(code) {
            Some(c) => c,
            None => continue,
        };
        let lowered: String = c.to_lowercase().collect();
        if c.is_ascii() {
            assert_eq!(lowered, to_lower(c).to_string(), "{:?}", c);
        } else {
            assert_eq!(to_lower(c), c);
            assert!(lowered.chars().any(|l| !letters.contains(l)), "{:?}", c);
        }
        let alone = c.to_string();
        assert_eq!(string_or_bool(&text(&alone)), expected(&alone), "{:?}", c);
        let words: &[&str] = if lowered.chars().any(|l| l.is_ascii_alphabetic()) {
            &ACCEPTED
        } else {
            &ACCEPTED[..2]
        };
        for word in words {
            for at in 0..word.len() {
                let mut s = String::new();
                s.push_str(&word[..at]);
                s.push(c);
                s.push_str(&word[at + 1..]);
                assert_eq!(string_or_bool(&text(&s)), expected(&s), "{:?}", s);
            }
        }
        checked += 1;
    }
    assert_eq!(checked, 0x110000 - 0x800);
    // characters whose lowercase form is longer than they are, or depends
    // on what follows them
    for s in ["\u{130}", "y\u{130}", "\u{3a3}", "ye\u{3a3}", "o\u{3a3}", "\u{212a}"] {
        assert_eq!(string_or_bool(&text(s)), expected(s), "{:?}", s);
        assert_eq!(string_or_bool(&text(s)), Err(unrecognized(s)));
    }
}
