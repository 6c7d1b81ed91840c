//! The rows the subscription store keeps, what the store reports back, and a
//! mathematical model of the store's contents.

use vstd::prelude::*;

verus! {

/// Where a subscriber stands. A subscriber starts as pending and is
/// confirmed once; there is no way back.
#[derive(Clone, Copy, Debug, PartialEq, Eq, Structural)]
pub enum SubscriptionStatus {
    PendingConfirmation,
    Confirmed,
}

impl SubscriptionStatus {
    /// The text the store keeps in the status column.
    pub open spec fn text(self) -> Seq<char> {
        match self {
            SubscriptionStatus::PendingConfirmation => "pending_confirmation"@,
            SubscriptionStatus::Confirmed => "confirmed"@,
        }
    }

    pub fn as_str(&self) -> (r: &'static str)
        ensures
            r@ == self.text(),
    {
        match self {
            SubscriptionStatus::PendingConfirmation => "pending_confirmation",
            SubscriptionStatus::Confirmed => "confirmed",
        }
    }
}

/// A point in time: whole seconds since the start of 1970 in UTC, and the
/// nanoseconds into that second.
#[derive(Clone, Copy, Debug, PartialEq, Eq, Structural)]
pub struct Timestamp {
    pub seconds: i64,
    pub nanoseconds: u32,
}

/// One row of the subscriptions table.
#[derive(Debug)]
pub struct SubscriberRecord {
    pub id: u128,
    pub email: String,
    pub name: String,
    pub subscribed_at: Timestamp,
    pub status: SubscriptionStatus,
}

/// A subscriptions row as a mathematical value.
pub struct SubscriberRow {
    pub id: u128,
    pub email: Seq<char>,
    pub name: Seq<char>,
    pub subscribed_at: Timestamp,
    pub status: SubscriptionStatus,
}

impl View for SubscriberRecord {
    type V = SubscriberRow;

    open spec fn view(&self) -> SubscriberRow {
        SubscriberRow {
            id: self.id,
            email: self.email@,
            name: self.name@,
            subscribed_at: self.subscribed_at,
            status: self.status,
        }
    }
}

/// One row of the subscription tokens table: a token and the subscriber it
/// confirms.
#[derive(Debug)]
pub struct TokenRecord {
    pub subscription_token: String,
    pub subscriber_id: u128,
}

/// A subscription tokens row as a mathematical value.
pub struct TokenRow {
    pub subscription_token: Seq<char>,
    pub subscriber_id: u128,
}

impl View for TokenRecord {
    type V = TokenRow;

    open spec fn view(&self) -> TokenRow {
        TokenRow { subscription_token: self.subscription_token@, subscriber_id: self.subscriber_id }
    }
}

/// A failure of the store or of the email service, as the messages of the
/// error and of each error behind it, the outermost first.
#[derive(Debug)]
pub struct Fault {
    pub chain: Vec<String>,
}

impl View for Fault {
    type V = Seq<Seq<char>>;

    open spec fn view(&self) -> Seq<Seq<char>> {
        self.chain.deep_view()
    }
}

/// How an action on the store or the email service ended.
#[derive(Debug)]
pub enum Outcome {
    Succeeded,
    Failed(Fault),
}

/// An outcome as a mathematical value.
pub enum OutcomeView {
    Succeeded,
    Failed(Seq<Seq<char>>),
}

impl View for Outcome {
    type V = OutcomeView;

    open spec fn view(&self) -> OutcomeView {
        match self {
            Outcome::Succeeded => OutcomeView::Succeeded,
            Outcome::Failed(fault) => OutcomeView::Failed(fault@),
        }
    }
}

/// The contents of the store: subscribers by id, and the subscriber each
/// token belongs to.
pub struct Store {
    pub subscriptions: Map<u128, SubscriberRow>,
    pub tokens: Map<Seq<char>, u128>,
}

impl Store {
    /// The store with `row` added.
    pub open spec fn with_subscriber(self, row: SubscriberRow) -> Store {
        Store { subscriptions: self.subscriptions.insert(row.id, row), tokens: self.tokens }
    }

    /// The store with `row` added.
    pub open spec fn with_token(self, row: TokenRow) -> Store {
        Store {
            subscriptions: self.subscriptions,
            tokens: self.tokens.insert(row.subscription_token, row.subscriber_id),
        }
    }

    /// The subscriber that `token` belongs to, if the store knows the token.
    pub open spec fn subscriber_of(self, token: Seq<char>) -> Option<u128> {
        if self.tokens.dom().contains(token) {
            Some(self.tokens[token])
        } else {
            None
        }
    }

    /// The store after the subscriber `id` was marked as confirmed. Where no
    /// such subscriber exists nothing changes.
    pub open spec fn with_confirmed(self, id: u128) -> Store {
        if self.subscriptions.dom().contains(id) {
            let row = self.subscriptions[id];
            Store {
                subscriptions: self.subscriptions.insert(
                    id,
                    SubscriberRow { status: SubscriptionStatus::Confirmed, ..row },
                ),
                tokens: self.tokens,
            }
        } else {
            self
        }
    }

    /// The status of subscriber `id`, if there is such a subscriber.
    pub open spec fn status_of(self, id: u128) -> Option<SubscriptionStatus> {
        if self.subscriptions.dom().contains(id) {
            Some(self.subscriptions[id].status)
        } else {
            None
        }
    }
}

} // verus!
