use unicode_segmentation::UnicodeSegmentation;
use zero2prod::domain::subscriber_email::SubscriberEmail;
use zero2prod::domain::subscriber_name::{
    is_forbidden_name_character, is_white_space_char, satisfies_name_rules, SubscriberName,
};
use zero2prod::routes::subscriptions::is_valid_name;

/// The name rule written with std's `trim` and `graphemes`.
fn reference_is_valid_name(s: &str) -> bool {
    let is_empty_or_whitespace = s.trim().is_empty();
    let is_too_long = s.graphemes(true).count() > 256;
    let forbidden_characters = ['/', '(', ')', '"', '<', '>', '\\', '{', '}'];
    let contains_forbidden_characters = s.chars().any(|g| forbidden_characters.contains(&g));
    !(is_empty_or_whitespace || is_too_long || contains_forbidden_characters)
}

#[test]
fn email_empty_is_rejected() {
    assert!(SubscriberEmail::parse("").is_err());
}

#[test]
fn email_missing_at_symbol_is_rejected() {
    assert!(SubscriberEmail::parse("anonymous-domain.com").is_err());
}

#[test]
fn email_missing_subject_is_rejected() {
    assert!(SubscriberEmail::parse("@domain.com").is_err());
}

#[test]
fn valid_emails_are_accepted() {
    for email in ["ursula@domain.com", "le.guin@example.org", "a@b", "first+tag@sub.domain.co"] {
        let parsed = SubscriberEmail::parse(email);
        assert!(parsed.is_ok(), "{} was refused", email);
        let parsed = parsed.ok().unwrap();
        assert_eq!(parsed.as_ref(), email);
        assert_eq!(parsed.to_string(), email.to_string());
    }
}

#[test]
fn invalid_email_error_names_the_input() {
    match SubscriberEmail::parse("not-an-email") {
        Ok(_) => panic!("accepted an invalid address"),
        Err(message) => assert_eq!(message, "not-an-email is not a valid subscriber email."),
    }
}

#[test]
fn from_validation_builds_the_outcome() {
    assert_eq!(SubscriberEmail::from_validation("a@b.com", true).ok().unwrap().as_ref(), "a@b.com");
    assert_eq!(
        SubscriberEmail::from_validation("nope", false).err().unwrap(),
        "nope is not a valid subscriber email."
    );
}

#[test]
fn white_space_matches_char_is_whitespace() {
    for code in 0u32..0x11_0000 {
        if let Some(c) = char::from_u32(code) {
            assert_eq!(is_white_space_char(c), c.is_whitespace(), "{:?}", c);
        }
    }
}

#[test]
fn forbidden_characters_are_the_listed_ones() {
    for c in ['/', '(', ')', '"', '<', '>', '\\', '{', '}'] {
        assert!(is_forbidden_name_character(c));
    }
    for c in ['a', 'Z', '0', ' ', '-', '[', ']', 'é'] {
        assert!(!is_forbidden_name_character(c));
    }
}

#[test]
fn a_256_grapheme_long_name_is_valid() {
    let name = "a\u{310}".repeat(256);
    assert!(is_valid_name(&name));
    assert!(SubscriberName::try_parse(&name).is_some());
}

#[test]
fn a_name_longer_than_256_graphemes_is_rejected() {
    let name = "a".repeat(257);
    assert!(!is_valid_name(&name));
    assert!(SubscriberName::try_parse(&name).is_none());
}

#[test]
fn whitespace_only_names_are_rejected() {
    for name in [" ", "\t\n", "\u{3000}", "\u{2028} \u{a0}"] {
        assert!(!is_valid_name(name));
    }
}

#[test]
fn empty_string_is_rejected() {
    assert!(!is_valid_name(""));
    assert!(SubscriberName::try_parse("").is_none());
}

#[test]
fn names_containing_an_invalid_character_are_rejected() {
    for name in &['/', '(', ')', '"', '<', '>', '\\', '{', '}'] {
        let name = format!("ursula{}", name);
        assert!(!is_valid_name(&name));
    }
}

#[test]
fn a_valid_name_is_parsed_successfully() {
    let name = SubscriberName::try_parse("Ursula Le Guin").unwrap();
    assert_eq!(name.as_ref(), "Ursula Le Guin");
    assert_eq!(SubscriberName::parse("Ursula").as_ref(), "Ursula");
}

#[test]
fn name_rules_given_a_count() {
    assert!(satisfies_name_rules("ursula", 6));
    assert!(satisfies_name_rules("ursula", 256));
    assert!(!satisfies_name_rules("ursula", 257));
    assert!(!satisfies_name_rules("   ", 3));
    assert!(!satisfies_name_rules("a<b", 3));
}

#[test]
fn name_check_agrees_with_trim_and_graphemes() {
    let samples = [
        "ursula", " ursula ", "", " ", "\u{200b}", "\u{85}", "x\u{3000}", "a(b", "{", "ñandú",
        "👨‍👩‍👧‍👦", "Le Guin", "\u{a0}\u{1680}", "tab\tname",
    ];
    for s in samples {
        assert_eq!(is_valid_name(s), reference_is_valid_name(s), "{:?}", s);
    }
    let long = "👨‍👩‍👧‍👦".repeat(256);
    assert_eq!(is_valid_name(&long), reference_is_valid_name(&long));
    let longer = "👨‍👩‍👧‍👦".repeat(257);
    assert_eq!(is_valid_name(&longer), reference_is_valid_name(&longer));
}

#[test]
fn email_starting_with_at_is_rejected_even_with_another_at() {
    assert!(SubscriberEmail::parse("@user@domain.com").is_err());
    assert!(SubscriberEmail::parse("@").is_err());
}
