use zero2prod::routes::subscriptions::{SubscribeAction, SubscribeStep};
use zero2prod::routes::subscriptions_confirm::{
    confirm_subscriber, get_subscriber_id_from_token, ConfirmAction, ConfirmState, ConfirmStep,
    StoreReply,
};
use zero2prod::routes::{confirm, subscribe, FormData, Parameters};
use zero2prod::store::{Fault, Outcome, SubscriptionStatus};

/// A store in memory: subscribers with their status, and tokens. One action
/// can be told to fail.
struct Store {
    subscribers: Vec<(u128, SubscriptionStatus)>,
    tokens: Vec<(String, u128)>,
    updates: usize,
    failing: &'static str,
}

impl Store {
    fn with_pending_subscriber(id: u128, token: &str) -> Store {
        Store {
            subscribers: vec![(id, SubscriptionStatus::PendingConfirmation)],
            tokens: vec![(token.to_string(), id)],
            updates: 0,
            failing: "",
        }
    }

    fn perform(&mut self, action: ConfirmAction) -> StoreReply {
        match action {
            ConfirmAction::GetSubscriberId { subscription_token } => {
                if self.failing == "lookup" {
                    return StoreReply::Failed(Fault { chain: vec!["lookup failed".to_string()] });
                }
                let found = self.tokens.iter().find(|(token, _)| *token == subscription_token);
                StoreReply::SubscriberId(found.map(|(_, id)| *id))
            }
            ConfirmAction::ConfirmSubscriber { subscriber_id } => {
                if self.failing == "update" {
                    return StoreReply::Failed(Fault { chain: vec!["update failed".to_string()] });
                }
                self.updates += 1;
                for subscriber in self.subscribers.iter_mut() {
                    if subscriber.0 == subscriber_id {
                        subscriber.1 = SubscriptionStatus::Confirmed;
                    }
                }
                StoreReply::Updated
            }
        }
    }

    /// Runs a whole confirm flow and gives the status it answers with.
    fn confirm(&mut self, token: &str) -> u16 {
        let mut step = confirm(Parameters { subscription_token: token.to_string() });
        loop {
            match step {
                ConfirmStep::Respond(status) => return status,
                ConfirmStep::Perform(action, state) => {
                    let reply = self.perform(action);
                    step = state.advance(reply);
                }
            }
        }
    }
}

#[test]
fn confirming_a_known_token_returns_a_200_and_confirms() {
    let mut store = Store::with_pending_subscriber(42, "known");
    assert_eq!(store.confirm("known"), 200);
    assert_eq!(store.subscribers, vec![(42, SubscriptionStatus::Confirmed)]);
}

#[test]
fn confirming_twice_returns_a_200_both_times() {
    let mut store = Store::with_pending_subscriber(42, "known");
    assert_eq!(store.confirm("known"), 200);
    assert_eq!(store.confirm("known"), 200);
    assert_eq!(store.subscribers, vec![(42, SubscriptionStatus::Confirmed)]);
}

#[test]
fn confirming_an_unknown_token_returns_a_401() {
    let mut store = Store::with_pending_subscriber(42, "known");
    assert_eq!(store.confirm("never-issued"), 401);
    assert_eq!(store.subscribers, vec![(42, SubscriptionStatus::PendingConfirmation)]);
    assert_eq!(store.updates, 0);
}

#[test]
fn a_failed_lookup_returns_a_500() {
    let mut store = Store::with_pending_subscriber(42, "known");
    store.failing = "lookup";
    assert_eq!(store.confirm("known"), 500);
    assert_eq!(store.subscribers, vec![(42, SubscriptionStatus::PendingConfirmation)]);
}

#[test]
fn a_failed_update_returns_a_500() {
    let mut store = Store::with_pending_subscriber(42, "known");
    store.failing = "update";
    assert_eq!(store.confirm("known"), 500);
}

#[test]
fn a_reply_to_another_action_returns_a_500() {
    assert!(matches!(
        ConfirmState::AwaitingLookup.advance(StoreReply::Updated),
        ConfirmStep::Respond(500)
    ));
    assert!(matches!(
        ConfirmState::AwaitingUpdate.advance(StoreReply::SubscriberId(Some(1))),
        ConfirmStep::Respond(500)
    ));
    assert!(matches!(
        ConfirmState::AwaitingUpdate.advance(StoreReply::SubscriberId(None)),
        ConfirmStep::Respond(500)
    ));
}

#[test]
fn the_flow_starts_with_the_lookup_of_its_token() {
    let step = confirm(Parameters { subscription_token: "abc".to_string() });
    match step {
        ConfirmStep::Perform(
            ConfirmAction::GetSubscriberId { subscription_token },
            ConfirmState::AwaitingLookup,
        ) => assert_eq!(subscription_token, "abc"),
        other => panic!("unexpected first step: {:?}", other),
    }
}

#[test]
fn actions_carry_what_they_were_made_of() {
    assert!(matches!(
        get_subscriber_id_from_token("abc"),
        ConfirmAction::GetSubscriberId { subscription_token } if subscription_token == "abc"
    ));
    assert!(matches!(
        confirm_subscriber(9),
        ConfirmAction::ConfirmSubscriber { subscriber_id: 9 }
    ));
}

#[test]
fn the_link_in_the_email_confirms_the_subscriber() {
    // Subscribe: every action succeeds; keep the rows and the email.
    let form = FormData {
        email: "djfurman@users.noreply.github.com".to_string(),
        name: "Daniel Furman".to_string(),
    };
    let mut step = subscribe(form, "http://127.0.0.1");
    let mut subscriber_id = None;
    let mut stored_token = None;
    let mut body = None;
    let response = loop {
        match step {
            SubscribeStep::Respond(response) => break response,
            SubscribeStep::Perform(action, state) => {
                match action {
                    SubscribeAction::InsertSubscriber(row) => subscriber_id = Some(row.id),
                    SubscribeAction::InsertToken(row) => {
                        stored_token = Some(row.subscription_token)
                    }
                    SubscribeAction::SendEmail(message) => body = Some(message.text_body),
                    SubscribeAction::BeginTransaction | SubscribeAction::Commit => {}
                }
                step = state.advance(Outcome::Succeeded);
            }
        }
    };
    assert!(response.is_ok());
    let mut store =
        Store::with_pending_subscriber(subscriber_id.unwrap(), &stored_token.unwrap());

    // Confirm with the token taken from the link in the email.
    let body = body.unwrap();
    let marker = "subscription_token=";
    let start = body.find(marker).unwrap() + marker.len();
    let token: String = body[start..].chars().take_while(|c| c.is_ascii_alphanumeric()).collect();
    assert_eq!(token.len(), 25);
    assert_eq!(store.confirm(&token), 200);
    assert_eq!(store.subscribers[0].1, SubscriptionStatus::Confirmed);
}
