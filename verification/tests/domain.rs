use zero2prod::domain::subscriber_email::SubscriberEmail;
use zero2prod::domain::subscriber_name::SubscriberName;

#[test]
fn subscriber_email_empty_string_is_rejected() {
    let email = "".to_string();
    assert!(SubscriberEmail::parse(email).is_err());
}

#[test]
fn email_mising_at_symbol_is_rejected() {
    let email = "asdfdomain.com".to_string();
    assert!(SubscriberEmail::parse(email).is_err());
}

#[test]
fn email_mising_subject_is_rejected() {
    let email = "@domain.com".to_string();
    assert!(SubscriberEmail::parse(email).is_err());
}

#[test]
fn a_256_grapheme_long_name_is_valid() {
    let name = "å".repeat(256);
    assert!(SubscriberName::parse(name).is_ok());
}

#[test]
fn a_name_longer_than_256_graphemes_is_rejected() {
    let name = "a".repeat(257);
    assert!(SubscriberName::parse(name).is_err());
}

#[test]
fn whitespace_only_names_are_rejected() {
    let name = " ".to_string();
    assert!(SubscriberName::parse(name).is_err());
}

#[test]
fn subscriber_name_empty_string_is_rejected() {
    let name = "".to_string();
    assert!(SubscriberName::parse(name).is_err());
}

#[test]
fn names_containing_an_invalid_character_are_rejected() {
    for c in &['/', '(', ')', '"', '<', '>', '\\', '{', '}'] {
        assert!(SubscriberName::parse(c.to_string()).is_err());
    }
}

#[test]
fn a_valid_name_is_parsed_successfully() {
    let name = "Pedro Almen".to_string();
    assert!(SubscriberName::parse(name).is_ok());
}

#[test]
fn a_valid_email_is_parsed_and_kept_verbatim() {
    let email = SubscriberEmail::parse("carlos.cruz@gmail.com".to_string()).unwrap();
    assert_eq!(email.as_str(), "carlos.cruz@gmail.com");
}

#[test]
fn rejected_name_reports_a_diagnostic_message() {
    let err = SubscriberName::parse("forbidden/name".to_string()).unwrap_err();
    assert_eq!(err, "forbidden/name is not a valid subscriber name");
}

#[test]
fn rejected_email_reports_a_diagnostic_message() {
    let err = SubscriberEmail::parse("not-an-email".to_string()).unwrap_err();
    assert_eq!(err, "not-an-email is not a valid email");
}

#[test]
fn a_name_of_exactly_257_multibyte_graphemes_is_rejected() {
    let name = "å".repeat(257);
    assert!(SubscriberName::parse(name).is_err());
}
