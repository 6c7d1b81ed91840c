use zero2prod::email_client::EmailMessage;
use zero2prod::routes::subscriptions::{
    error_chain_fmt, generate_subscription_token, insert_subscriber, response_status,
    send_confirmation_email, store_token, subscriber_record, token_from_draws, SubscribeAction,
    SubscribeStep,
};
use zero2prod::routes::{subscribe, FormData, StoreTokenError, SubscribeError};
use zero2prod::domain::{NewSubscriber, SubscriberEmail, SubscriberName};
use zero2prod::store::{
    Fault, Outcome, SubscriberRecord, SubscriptionStatus, Timestamp, TokenRecord,
};

/// A store and an email service that live in memory. One action can be told
/// to fail.
struct World {
    subscriptions: Vec<SubscriberRecord>,
    tokens: Vec<TokenRecord>,
    staged_subscriptions: Vec<SubscriberRecord>,
    staged_tokens: Vec<TokenRecord>,
    emails: Vec<EmailMessage>,
    performed: Vec<&'static str>,
    failing: &'static str,
}

impl World {
    fn new() -> World {
        World::failing_at("")
    }

    fn failing_at(failing: &'static str) -> World {
        World {
            subscriptions: Vec::new(),
            tokens: Vec::new(),
            staged_subscriptions: Vec::new(),
            staged_tokens: Vec::new(),
            emails: Vec::new(),
            performed: Vec::new(),
            failing,
        }
    }

    fn outcome(&mut self, action: &'static str) -> Outcome {
        self.performed.push(action);
        if self.failing == action {
            Outcome::Failed(Fault { chain: vec![format!("{} failed", action)] })
        } else {
            Outcome::Succeeded
        }
    }

    fn perform(&mut self, action: SubscribeAction) -> Outcome {
        match action {
            SubscribeAction::BeginTransaction => self.outcome("begin"),
            SubscribeAction::InsertSubscriber(record) => {
                let outcome = self.outcome("insert_subscriber");
                if let Outcome::Succeeded = outcome {
                    self.staged_subscriptions.push(record);
                }
                outcome
            }
            SubscribeAction::InsertToken(record) => {
                let outcome = self.outcome("insert_token");
                if let Outcome::Succeeded = outcome {
                    self.staged_tokens.push(record);
                }
                outcome
            }
            SubscribeAction::Commit => {
                let outcome = self.outcome("commit");
                if let Outcome::Succeeded = outcome {
                    self.subscriptions.append(&mut self.staged_subscriptions);
                    self.tokens.append(&mut self.staged_tokens);
                }
                outcome
            }
            SubscribeAction::SendEmail(message) => {
                self.emails.push(message);
                self.outcome("send_email")
            }
        }
    }

    /// Runs a whole subscribe flow and gives its answer. A transaction that
    /// is still open when the flow answers is dropped.
    fn submit(&mut self, name: &str, email: &str) -> Result<(), SubscribeError> {
        let form = FormData { email: email.to_string(), name: name.to_string() };
        let mut step = subscribe(form, "http://127.0.0.1");
        loop {
            match step {
                SubscribeStep::Respond(response) => {
                    self.staged_subscriptions.clear();
                    self.staged_tokens.clear();
                    return response;
                }
                SubscribeStep::Perform(action, state) => {
                    let outcome = self.perform(action);
                    step = state.advance(outcome);
                }
            }
        }
    }
}

/// The links in a text: every run of characters that starts with `http` and
/// ends before a blank, a quote or an angle bracket.
fn links(text: &str) -> Vec<String> {
    let mut found = Vec::new();
    let mut rest = text;
    while let Some(start) = rest.find("http") {
        let tail = &rest[start..];
        let end = tail
            .find(|c: char| c.is_whitespace() || c == '"' || c == '<' || c == '>')
            .unwrap_or(tail.len());
        found.push(tail[..end].to_string());
        rest = &tail[end..];
    }
    found
}

fn daniel() -> NewSubscriber {
    NewSubscriber {
        email: SubscriberEmail::parse("djfurman@users.noreply.github.com".to_string()).unwrap(),
        name: SubscriberName::parse("Daniel Furman".to_string()).unwrap(),
    }
}

#[test]
fn subscribe_returns_a_200_for_valid_form_data() {
    let mut world = World::new();
    let response = world.submit("Daniel Furman", "djfurman@users.noreply.github.com");
    assert_eq!(200, response_status(&response));
}

#[test]
fn subscribe_persists_the_new_subscriber() {
    let mut world = World::new();
    let _ = world.submit("Daniel Furman", "djfurman@users.noreply.github.com");
    assert_eq!(world.subscriptions.len(), 1);
    let saved = &world.subscriptions[0];
    assert_eq!(saved.email, "djfurman@users.noreply.github.com");
    assert_eq!(saved.name, "Daniel Furman");
    assert_eq!(saved.status.as_str(), "pending_confirmation");
    assert_eq!(world.tokens.len(), 1);
    assert_eq!(world.tokens[0].subscriber_id, saved.id);
}

#[test]
fn subscribe_returns_a_400_when_fields_are_present_but_invalid() {
    let test_cases = vec![
        ("", "email=djfurman@users.noreply.github.com", "empty name"),
        ("daniel furman", "", "empty email"),
        ("daniel furman", "not-anything-like-an-email", "invalid email"),
    ];
    for (name, email, description) in test_cases {
        let mut world = World::new();
        let response = world.submit(name, email);
        assert_eq!(
            400,
            response_status(&response),
            "The flow did not answer 400 Bad Request when the payload was {}.",
            description
        );
    }
}

#[test]
fn an_invalid_form_reaches_neither_store_nor_email_service() {
    let mut world = World::new();
    let response = world.submit("daniel furman", "");
    assert_eq!(400, response_status(&response));
    assert!(matches!(response, Err(SubscribeError::ValidationError(_))));
    assert!(world.performed.is_empty());
    assert!(world.subscriptions.is_empty());
    assert!(world.tokens.is_empty());
    assert!(world.emails.is_empty());
}

#[test]
fn subscribe_sends_a_confirmation_email_for_valid_data() {
    let mut world = World::new();
    let _ = world.submit("Daniel Furman", "djfurman@users.noreply.github.com");
    assert_eq!(world.emails.len(), 1);
    assert_eq!(world.emails[0].recipient.as_ref(), "djfurman@users.noreply.github.com");
    assert_eq!(world.emails[0].subject, "Welcome");
}

#[test]
fn subscribe_sends_a_confirmation_email_with_a_link() {
    let mut world = World::new();
    let _ = world.submit("Daniel Furman", "djfurman@users.noreply.github.com");
    let html = links(&world.emails[0].html_body);
    let plain_text = links(&world.emails[0].text_body);
    assert_eq!(html.len(), 1);
    assert_eq!(plain_text.len(), 1);
    assert_eq!(html[0], plain_text[0]);
    let expected = format!(
        "http://127.0.0.1/subscriptions/confirm?subscription_token={}",
        world.tokens[0].subscription_token
    );
    assert_eq!(html[0], expected);
}

#[test]
fn the_flow_performs_its_actions_in_order() {
    let mut world = World::new();
    let _ = world.submit("Daniel Furman", "djfurman@users.noreply.github.com");
    assert_eq!(
        world.performed,
        vec!["begin", "insert_subscriber", "insert_token", "commit", "send_email"]
    );
}

#[test]
fn a_failed_pool_is_a_500_and_stores_nothing() {
    let mut world = World::failing_at("begin");
    let response = world.submit("Daniel Furman", "djfurman@users.noreply.github.com");
    assert_eq!(500, response_status(&response));
    assert!(matches!(response, Err(SubscribeError::DatabasePoolError(_))));
    assert_eq!(world.performed, vec!["begin"]);
    assert!(world.subscriptions.is_empty());
    assert!(world.emails.is_empty());
}

#[test]
fn a_failed_subscriber_insert_is_a_500_and_stores_nothing() {
    let mut world = World::failing_at("insert_subscriber");
    let response = world.submit("Daniel Furman", "djfurman@users.noreply.github.com");
    assert_eq!(500, response_status(&response));
    assert!(matches!(response, Err(SubscribeError::DatabaseInsertSubscriberError(_))));
    assert_eq!(world.performed, vec!["begin", "insert_subscriber"]);
    assert!(world.subscriptions.is_empty());
    assert!(world.emails.is_empty());
}

#[test]
fn a_failed_token_insert_leaves_no_subscriber_row() {
    let mut world = World::failing_at("insert_token");
    let response = world.submit("Daniel Furman", "djfurman@users.noreply.github.com");
    assert_eq!(500, response_status(&response));
    assert!(matches!(response, Err(SubscribeError::StoreTokenError(_))));
    assert_eq!(world.performed, vec!["begin", "insert_subscriber", "insert_token"]);
    assert!(world.subscriptions.is_empty());
    assert!(world.tokens.is_empty());
    assert!(world.emails.is_empty());
}

#[test]
fn a_failed_commit_is_a_500_and_sends_no_email() {
    let mut world = World::failing_at("commit");
    let response = world.submit("Daniel Furman", "djfurman@users.noreply.github.com");
    assert_eq!(500, response_status(&response));
    assert!(matches!(response, Err(SubscribeError::DatabaseTransactionCommitError(_))));
    assert!(world.subscriptions.is_empty());
    assert!(world.tokens.is_empty());
    assert!(world.emails.is_empty());
    assert!(!world.performed.contains(&"send_email"));
}

#[test]
fn a_failed_dispatch_is_a_500_with_the_subscriber_stored() {
    let mut world = World::failing_at("send_email");
    let response = world.submit("Daniel Furman", "djfurman@users.noreply.github.com");
    assert_eq!(500, response_status(&response));
    assert!(matches!(response, Err(SubscribeError::SendEmailError(_))));
    assert_eq!(world.subscriptions.len(), 1);
    assert_eq!(world.subscriptions[0].status, SubscriptionStatus::PendingConfirmation);
    assert_eq!(world.tokens.len(), 1);
}

#[test]
fn tokens_are_25_letters_and_digits() {
    for _ in 0..200 {
        let token = generate_subscription_token();
        assert_eq!(token.chars().count(), 25);
        assert!(token.chars().all(|c| c.is_ascii_alphanumeric()));
    }
}

#[test]
fn two_tokens_differ() {
    assert_ne!(generate_subscription_token(), generate_subscription_token());
}

#[test]
fn a_new_row_is_pending_and_has_a_version_4_id() {
    let subscriber = daniel();
    let first = insert_subscriber(&subscriber);
    let second = insert_subscriber(&subscriber);
    assert_eq!(first.email, "djfurman@users.noreply.github.com");
    assert_eq!(first.name, "Daniel Furman");
    assert_eq!(first.status, SubscriptionStatus::PendingConfirmation);
    assert_eq!((first.id >> 76) & 0xf, 4);
    assert_eq!((first.id >> 62) & 0x3, 2);
    assert_ne!(first.id, second.id);
    assert!(first.subscribed_at.seconds > 1_600_000_000);
    assert!(first.subscribed_at.nanoseconds < 2_000_000_000);
}

#[test]
fn a_token_row_ties_token_and_subscriber() {
    let row = store_token(7, "abc");
    assert_eq!(row.subscriber_id, 7);
    assert_eq!(row.subscription_token, "abc");
}

#[test]
fn the_confirmation_email_is_exact() {
    let message = send_confirmation_email(daniel(), "https://example.com", "TOKEN");
    assert_eq!(message.recipient.as_ref(), "djfurman@users.noreply.github.com");
    assert_eq!(message.subject, "Welcome");
    assert_eq!(
        message.html_body,
        "Welcome to our newsletter!<br />Click <a href=\"https://example.com/subscriptions/confirm?subscription_token=TOKEN\">here</a> to confirm your subscription."
    );
    assert_eq!(
        message.text_body,
        "Welcome to our newsletter!\nVisit https://example.com/subscriptions/confirm?subscription_token=TOKEN to confirm your subscription."
    );
}

#[test]
fn status_codes_follow_the_kind_of_error() {
    let fault = || Fault { chain: vec!["connection reset".to_string()] };
    assert_eq!(SubscribeError::ValidationError("x".to_string()).status_code(), 400);
    assert_eq!(SubscribeError::DatabasePoolError(fault()).status_code(), 500);
    assert_eq!(SubscribeError::DatabaseInsertSubscriberError(fault()).status_code(), 500);
    assert_eq!(SubscribeError::DatabaseTransactionCommitError(fault()).status_code(), 500);
    assert_eq!(SubscribeError::StoreTokenError(StoreTokenError(fault())).status_code(), 500);
    assert_eq!(SubscribeError::SendEmailError(fault()).status_code(), 500);
    assert_eq!(response_status(&Ok(())), 200);
}

#[test]
fn every_error_has_its_message() {
    let fault = || Fault { chain: vec!["connection reset".to_string()] };
    assert_eq!(
        SubscribeError::DatabasePoolError(fault()).message(),
        "Failed to acquire a Postgres connection from the pool."
    );
    assert_eq!(
        SubscribeError::DatabaseInsertSubscriberError(fault()).message(),
        "Failed to insert new subscriber to the database."
    );
    assert_eq!(
        SubscribeError::DatabaseTransactionCommitError(fault()).message(),
        "Failed to commit SQL transaction to store a new subscriber."
    );
    assert_eq!(
        SubscribeError::StoreTokenError(StoreTokenError(fault())).message(),
        "Failed to store the confirmation token for a new subscriber."
    );
    assert_eq!(
        SubscribeError::SendEmailError(fault()).message(),
        "Failed to send a confirmation email."
    );
    assert_eq!(SubscribeError::ValidationError("bad name".to_string()).message(), "bad name");
    assert_eq!(
        StoreTokenError(fault()).message(),
        "A database error was encountered while trying to store a subscription token."
    );
}

#[test]
fn sources_list_the_causes_nearest_first() {
    let fault = || Fault { chain: vec!["pool timed out".to_string(), "io error".to_string()] };
    assert_eq!(
        SubscribeError::DatabasePoolError(fault()).source(),
        vec!["pool timed out".to_string(), "io error".to_string()]
    );
    assert_eq!(
        SubscribeError::StoreTokenError(StoreTokenError(fault())).source(),
        vec![
            "A database error was encountered while trying to store a subscription token."
                .to_string(),
            "pool timed out".to_string(),
            "io error".to_string()
        ]
    );
    assert!(SubscribeError::ValidationError("x".to_string()).source().is_empty());
    assert_eq!(StoreTokenError(fault()).source(), vec!["pool timed out", "io error"]);
}

#[test]
fn an_error_chain_is_laid_out_cause_by_cause() {
    assert_eq!(error_chain_fmt("top", &vec![]), "top\n\n");
    assert_eq!(
        error_chain_fmt("top", &vec!["middle".to_string(), "bottom".to_string()]),
        "top\n\nCaused by:\n\tmiddle\nCaused by:\n\tbottom\n"
    );
}

#[test]
fn a_report_shows_the_whole_chain() {
    let fault = Fault { chain: vec!["duplicate key".to_string()] };
    assert_eq!(
        SubscribeError::StoreTokenError(StoreTokenError(fault)).report(),
        "Failed to store the confirmation token for a new subscriber.\n\nCaused by:\n\tA database error was encountered while trying to store a subscription token.\nCaused by:\n\tduplicate key\n"
    );
    let fault = Fault { chain: vec!["duplicate key".to_string()] };
    assert_eq!(
        StoreTokenError(fault).report(),
        "A database error was encountered while trying to store a subscription token.\n\nCaused by:\n\tduplicate key\n"
    );
    assert_eq!(SubscribeError::ValidationError("bad".to_string()).report(), "bad\n\n");
}

#[test]
fn subscriptions_subscribe_returns_a_200_for_valid_form_data() {
    let mut world = World::new();
    let response = world.submit("Daniel Furman", "djfurman@users.noreply.github.com");
    assert_eq!(200, response_status(&response));
    let saved = &world.subscriptions[0];
    assert_eq!(saved.email, "djfurman@users.noreply.github.com");
    assert_eq!(saved.name, "Daniel Furman");
}

#[test]
fn a_token_spells_its_draws_in_order() {
    assert_eq!(token_from_draws(&vec![b'a', b'Z', b'0', b'9', b'q']), "aZ09q");
    assert_eq!(token_from_draws(&vec![]), "");
    assert_ne!(token_from_draws(&vec![b'a', b'b']), token_from_draws(&vec![b'b', b'a']));
}

#[test]
fn a_subscriber_row_carries_the_id_and_time_it_was_given() {
    let now = Timestamp { seconds: 1_700_000_000, nanoseconds: 123_456_789 };
    let record = subscriber_record(42, now, &daniel());
    assert_eq!(record.id, 42);
    assert_eq!(record.email, "djfurman@users.noreply.github.com");
    assert_eq!(record.name, "Daniel Furman");
    assert_eq!(record.subscribed_at, now);
    assert_eq!(record.status, SubscriptionStatus::PendingConfirmation);
}
