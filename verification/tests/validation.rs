use email_newsletter::domain::NewSubscriber;
use email_newsletter::domain::SubscriberEmail;
use email_newsletter::domain::SubscriberName;
use email_newsletter::domain::ValidationError;

#[test]
fn email_without_at_is_rejected() {
    assert!(SubscriberEmail::parse(String::from("ursulagmail.com")).is_err());
    assert!(SubscriberEmail::parse(String::from("ursula.le.guin.gmail.com")).is_err());
}

#[test]
fn empty_email_is_rejected() {
    assert!(SubscriberEmail::parse(String::new()).is_err());
}

#[test]
fn email_failing_the_grammar_is_rejected() {
    // both contain an `@`, so only the grammar check can reject them
    assert!(SubscriberEmail::parse(String::from("ursula@")).is_err());
    assert!(SubscriberEmail::parse(String::from("@gmail.com")).is_err());
}

#[test]
fn valid_email_round_trips() {
    let email = SubscriberEmail::parse(String::from("ursula_le_guin@gmail.com")).unwrap();
    assert_eq!(email.as_ref(), "ursula_le_guin@gmail.com");
}

#[test]
fn email_error_is_the_email_variant() {
    let err = SubscriberEmail::parse(String::from("not-an-email")).unwrap_err();
    assert_eq!(err, ValidationError::InvalidEmail);
}

#[test]
fn empty_name_is_rejected() {
    assert!(SubscriberName::parse(String::new()).is_err());
}

#[test]
fn whitespace_only_names_are_rejected() {
    assert!(SubscriberName::parse(String::from(" ")).is_err());
    assert!(SubscriberName::parse(String::from(" \t\n\r ")).is_err());
    assert!(SubscriberName::parse(String::from("\u{A0}\u{2003}\u{3000}")).is_err());
}

#[test]
fn names_with_forbidden_characters_are_rejected() {
    for c in ['/', '(', ')', '"', '<', '>', '\\', '{', '}'] {
        let raw = format!("le {c} guin");
        assert!(
            SubscriberName::parse(raw).is_err(),
            "name containing {c:?} was accepted"
        );
    }
}

#[test]
fn a_256_grapheme_name_is_accepted() {
    let raw = "a".repeat(256);
    let name = SubscriberName::parse(raw.clone()).unwrap();
    assert_eq!(name.as_ref(), raw);
}

#[test]
fn a_257_grapheme_name_is_rejected() {
    assert!(SubscriberName::parse("a".repeat(257)).is_err());
}

#[test]
fn graphemes_are_counted_not_chars() {
    // 256 clusters of `e` + combining acute accent: 512 chars, 256 graphemes
    let raw = "e\u{301}".repeat(256);
    assert_eq!(raw.chars().count(), 512);
    let name = SubscriberName::parse(raw.clone()).unwrap();
    assert_eq!(name.as_ref(), raw);
}

#[test]
fn plain_name_round_trips() {
    let name = SubscriberName::parse(String::from("le guin")).unwrap();
    assert_eq!(name.as_ref(), "le guin");
}

#[test]
fn name_error_is_the_name_variant() {
    let err = SubscriberName::parse(String::from("   ")).unwrap_err();
    assert_eq!(err, ValidationError::InvalidName);
}

#[test]
fn new_subscriber_requires_both_fields_valid() {
    let subscriber = NewSubscriber::parse(
        String::from("ursula_le_guin@gmail.com"),
        String::from("le guin"),
    )
    .unwrap();
    assert_eq!(subscriber.email.as_ref(), "ursula_le_guin@gmail.com");
    assert_eq!(subscriber.name.as_ref(), "le guin");
}

#[test]
fn new_subscriber_checks_the_email_first() {
    // both fields invalid: the email error is the one reported
    let err = NewSubscriber::parse(String::from("no-at-sign"), String::from("   ")).unwrap_err();
    assert_eq!(err, ValidationError::InvalidEmail);

    // valid email, invalid name: the name error is reported
    let err = NewSubscriber::parse(
        String::from("ursula_le_guin@gmail.com"),
        String::from("le/guin"),
    )
    .unwrap_err();
    assert_eq!(err, ValidationError::InvalidName);
}
