use zero2prod_newsletter::domain::subscriber_name::SubscriberName;

#[test]
fn a_256_graphem_long_name_is_valid() {
    let name = "a̐".repeat(256);
    assert!(SubscriberName::parse(name).is_ok());
}

#[test]
fn whitespace_only_names_are_rejected() {
    let name = " ".to_string();
    assert!(SubscriberName::parse(name).is_err());
}

#[test]
fn empty_string_is_rejected() {
    let name = "".to_string();
    assert!(SubscriberName::parse(name).is_err());
}

#[test]
fn names_containing_forbidden_chars_are_rejected() {
    for name in &['/', '(', ')', '"', '<', '>', '\\', '{', '}'] {
        let name = name.to_string();
        assert!(SubscriberName::parse(name).is_err());
    }
}

#[test]
fn a_257_grapheme_long_name_is_rejected() {
    let name = "a̐".repeat(257);
    assert!(SubscriberName::parse(name).is_err());
}

#[test]
fn a_valid_name_is_kept_unchanged() {
    let name = SubscriberName::parse("Ursula Le Guin".to_string()).unwrap();
    assert_eq!(name.as_ref(), "Ursula Le Guin");
}

#[test]
fn rejection_message_names_the_input() {
    let err = SubscriberName::parse("<script>".to_string()).unwrap_err();
    assert_eq!(err, "<script> is not a valid subscriber name.");
}

#[test]
fn unicode_whitespace_only_names_are_rejected() {
    assert!(SubscriberName::parse("\u{3000}\t\u{a0}\n".to_string()).is_err());
}

#[test]
fn names_with_inner_whitespace_are_accepted() {
    assert!(SubscriberName::parse("  le guin  ".to_string()).is_ok());
}

#[test]
fn subscriber_names_are_str_references() {
    let name = SubscriberName::parse("Ursula".to_string()).unwrap();
    let text: &str = AsRef::<str>::as_ref(&name);
    assert_eq!(text, "Ursula");
}
