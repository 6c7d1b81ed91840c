use zero2prod::domain::subscriber_email::email_is_acceptable;
use zero2prod::domain::subscriber_name::name_is_acceptable;
use zero2prod::domain::{NewSubscriber, SubscriberEmail, SubscriberName};
use zero2prod::routes::FormData;

#[test]
fn a_256_grapheme_long_name_is_valid() {
    let name = "\u{451}".repeat(256);
    assert!(SubscriberName::parse(name).is_ok());
}

#[test]
fn a_name_longer_than_256_graphemes_is_rejected() {
    let name = "a".repeat(257);
    assert!(SubscriberName::parse(name).is_err());
}

#[test]
fn whitespace_only_names_are_rejected() {
    let name = " ".to_string();
    assert!(SubscriberName::parse(name).is_err());
}

#[test]
fn empty_string_is_rejected() {
    let name = "".to_string();
    assert!(SubscriberName::parse(name).is_err());
}

#[test]
fn names_with_invalid_characters_are_rejected() {
    for name in &['/', '(', ')', '"', '<', '>', '\\', '{', '}'] {
        let name = name.to_string();
        assert!(SubscriberName::parse(name).is_err());
    }
}

#[test]
fn a_valid_name_is_parsed_successfully() {
    let name = "Daniel Furman".to_string();
    assert!(SubscriberName::parse(name).is_ok());
}

#[test]
fn a_parsed_name_keeps_its_text() {
    let name = SubscriberName::parse("Daniel Furman".to_string()).unwrap();
    assert_eq!(name.as_ref(), "Daniel Furman");
}

#[test]
fn a_rejected_name_is_named_in_the_message() {
    let error = SubscriberName::parse("a/b".to_string()).unwrap_err();
    assert_eq!(error, "a/b is not a valid subscriber name.");
}

#[test]
fn a_forbidden_character_inside_a_name_is_found() {
    assert!(SubscriberName::parse("Daniel {Furman".to_string()).is_err());
    assert!(SubscriberName::parse("Daniel Furman>".to_string()).is_err());
}

#[test]
fn graphemes_are_counted_not_code_points() {
    // 256 clusters of two code points each: 512 characters, 256 graphemes.
    let name = "e\u{301}".repeat(256);
    assert_eq!(name.chars().count(), 512);
    assert!(SubscriberName::parse(name).is_ok());
    let name = "e\u{301}".repeat(257);
    assert!(SubscriberName::parse(name).is_err());
}

#[test]
fn unicode_whitespace_counts_as_blank() {
    assert!(SubscriberName::parse("\u{a0}\t\n\u{2003}".to_string()).is_err());
    assert!(SubscriberName::parse(" a ".to_string()).is_ok());
}

#[test]
fn the_grapheme_limit_is_256() {
    assert!(name_is_acceptable("Daniel", 256));
    assert!(!name_is_acceptable("Daniel", 257));
    assert!(!name_is_acceptable("   ", 3));
    assert!(!name_is_acceptable("Dan(iel", 7));
}

#[test]
fn a_valid_email_is_parsed_successfully() {
    let email = "djfurman@users.noreply.github.com".to_string();
    let parsed = SubscriberEmail::parse(email).unwrap();
    assert_eq!(parsed.as_ref(), "djfurman@users.noreply.github.com");
}

#[test]
fn an_empty_email_is_rejected() {
    assert!(SubscriberEmail::parse("".to_string()).is_err());
}

#[test]
fn an_email_without_at_sign_is_rejected() {
    let error = SubscriberEmail::parse("not-anything-like-an-email".to_string()).unwrap_err();
    assert_eq!(error, "not-anything-like-an-email is not a valid subscriber email.");
}

#[test]
fn an_email_needs_a_local_part_and_a_dotted_domain() {
    assert!(!email_is_acceptable("@example.com"));
    assert!(!email_is_acceptable("ursula@"));
    assert!(!email_is_acceptable("ursula@localhost"));
    assert!(!email_is_acceptable("ursula@@example.com"));
    assert!(!email_is_acceptable("ursula@example.com@example.com"));
    assert!(!email_is_acceptable("ursula le guin@example.com"));
    assert!(email_is_acceptable("ursula@example.com"));
    assert!(email_is_acceptable("ursula.le-guin+news@mail.example.co.uk"));
}

#[test]
fn domain_labels_are_checked() {
    assert!(!email_is_acceptable("a@.example.com"));
    assert!(!email_is_acceptable("a@example.com."));
    assert!(!email_is_acceptable("a@example..com"));
    assert!(!email_is_acceptable("a@-example.com"));
    assert!(!email_is_acceptable("a@example-.com"));
    assert!(!email_is_acceptable("a@exa_mple.com"));
    assert!(email_is_acceptable("a@ex-ample.com"));
    assert!(email_is_acceptable("a@b.c"));
}

#[test]
fn length_limits_of_an_email_are_exact() {
    let local_64 = "a".repeat(64);
    let local_65 = "a".repeat(65);
    assert!(email_is_acceptable(&format!("{}@example.com", local_64)));
    assert!(!email_is_acceptable(&format!("{}@example.com", local_65)));
    let label_63 = "b".repeat(63);
    let label_64 = "b".repeat(64);
    assert!(email_is_acceptable(&format!("a@{}.com", label_63)));
    assert!(!email_is_acceptable(&format!("a@{}.com", label_64)));
    // Four labels of 63 and the dots between them: 255 characters.
    let domain_255 = format!("{0}.{0}.{0}.{1}", label_63, "c".repeat(63));
    assert_eq!(domain_255.len(), 255);
    assert!(email_is_acceptable(&format!("a@{}", domain_255)));
    let domain_256 = format!("{0}.{0}.{0}.{1}.d", label_63, "c".repeat(62));
    assert_eq!(domain_256.len(), 256);
    assert!(!email_is_acceptable(&format!("a@{}", domain_256)));
}

#[test]
fn a_form_with_valid_fields_becomes_a_subscriber() {
    let form = FormData {
        email: "djfurman@users.noreply.github.com".to_string(),
        name: "Daniel Furman".to_string(),
    };
    let subscriber = NewSubscriber::try_from(form).unwrap();
    assert_eq!(subscriber.name.as_ref(), "Daniel Furman");
    assert_eq!(subscriber.email.as_ref(), "djfurman@users.noreply.github.com");
}

#[test]
fn a_form_is_rejected_for_its_name_first() {
    let form = FormData { email: "nothing".to_string(), name: "".to_string() };
    assert_eq!(NewSubscriber::try_from(form).unwrap_err(), " is not a valid subscriber name.");
    let form = FormData { email: "nothing".to_string(), name: "Daniel".to_string() };
    assert_eq!(
        NewSubscriber::try_from(form).unwrap_err(),
        "nothing is not a valid subscriber email."
    );
}
