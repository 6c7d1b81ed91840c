//! The confirm flow: find the subscriber a token belongs to and mark that
//! subscriber as confirmed.

use crate::routes::subscriptions::{INTERNAL_SERVER_ERROR, OK};
use crate::store::Fault;
use vstd::prelude::*;

verus! {

/// The status of a request whose token is not known.
pub const UNAUTHORIZED: u16 = 401;

/// The parameters of a confirmation request.
#[derive(Debug)]
pub struct Parameters {
    pub subscription_token: String,
}

/// What the confirm flow asks its caller to do next.
#[derive(Debug)]
pub enum ConfirmAction {
    /// Look up the subscriber that the token belongs to.
    GetSubscriberId { subscription_token: String },
    /// Set the subscriber's status to confirmed.
    ConfirmSubscriber { subscriber_id: u128 },
}

/// A `ConfirmAction` as a mathematical value.
pub enum ConfirmActionView {
    GetSubscriberId { subscription_token: Seq<char> },
    ConfirmSubscriber { subscriber_id: u128 },
}

impl View for ConfirmAction {
    type V = ConfirmActionView;

    open spec fn view(&self) -> ConfirmActionView {
        match self {
            ConfirmAction::GetSubscriberId { subscription_token } => {
                ConfirmActionView::GetSubscriberId { subscription_token: subscription_token@ }
            },
            ConfirmAction::ConfirmSubscriber { subscriber_id } => {
                ConfirmActionView::ConfirmSubscriber { subscriber_id: *subscriber_id }
            },
        }
    }
}

/// Which of its two actions a confirm flow waits for.
#[derive(Clone, Copy, Debug, PartialEq, Eq, Structural)]
pub enum ConfirmState {
    AwaitingLookup,
    AwaitingUpdate,
}

/// What the store reports back to a confirm flow.
#[derive(Debug)]
pub enum StoreReply {
    /// The lookup ended: the subscriber of the token, or none where the
    /// token is not known.
    SubscriberId(Option<u128>),
    /// The update ended.
    Updated,
    /// The action failed.
    Failed(Fault),
}

/// A `StoreReply` as a mathematical value.
pub enum StoreReplyView {
    SubscriberId(Option<u128>),
    Updated,
    Failed(Seq<Seq<char>>),
}

impl View for StoreReply {
    type V = StoreReplyView;

    open spec fn view(&self) -> StoreReplyView {
        match self {
            StoreReply::SubscriberId(id) => StoreReplyView::SubscriberId(*id),
            StoreReply::Updated => StoreReplyView::Updated,
            StoreReply::Failed(fault) => StoreReplyView::Failed(fault@),
        }
    }
}

/// One decision of the confirm flow: an action to perform and the state to
/// come back with, or the status that ends the flow.
#[derive(Debug)]
pub enum ConfirmStep {
    Perform(ConfirmAction, ConfirmState),
    Respond(u16),
}

/// A `ConfirmStep` as a mathematical value.
pub enum ConfirmStepView {
    Perform(ConfirmActionView, ConfirmState),
    Respond(u16),
}

impl View for ConfirmStep {
    type V = ConfirmStepView;

    open spec fn view(&self) -> ConfirmStepView {
        match self {
            ConfirmStep::Perform(action, state) => ConfirmStepView::Perform(action@, *state),
            ConfirmStep::Respond(status) => ConfirmStepView::Respond(*status),
        }
    }
}

/// The first decision of a confirm flow: look the token up.
pub open spec fn confirm_start(subscription_token: Seq<char>) -> ConfirmStepView {
    ConfirmStepView::Perform(
        ConfirmActionView::GetSubscriberId { subscription_token },
        ConfirmState::AwaitingLookup,
    )
}

/// The decision the confirm flow takes in `state` on `reply`.
///
/// After the lookup: a subscriber that was found is to be confirmed, a token
/// that is not known is answered with 401. After the update: 200. A failure,
/// or a reply that does not answer the action the flow waited for, is
/// answered with 500.
pub open spec fn confirm_next(state: ConfirmState, reply: StoreReplyView) -> ConfirmStepView {
    match (state, reply) {
        (ConfirmState::AwaitingLookup, StoreReplyView::SubscriberId(Some(subscriber_id))) => {
            ConfirmStepView::Perform(
                ConfirmActionView::ConfirmSubscriber { subscriber_id },
                ConfirmState::AwaitingUpdate,
            )
        },
        (ConfirmState::AwaitingLookup, StoreReplyView::SubscriberId(None)) => {
            ConfirmStepView::Respond(UNAUTHORIZED)
        },
        (ConfirmState::AwaitingUpdate, StoreReplyView::Updated) => ConfirmStepView::Respond(OK),
        _ => ConfirmStepView::Respond(INTERNAL_SERVER_ERROR),
    }
}

/// The lookup of the subscriber that `subscription_token` belongs to.
pub fn get_subscriber_id_from_token(subscription_token: &str) -> (action: ConfirmAction)
    ensures
        action@ == (ConfirmActionView::GetSubscriberId { subscription_token: subscription_token@ }),
{
    ConfirmAction::GetSubscriberId { subscription_token: String::from_str(subscription_token) }
}

/// The update that marks the subscriber `subscriber_id` as confirmed.
pub fn confirm_subscriber(subscriber_id: u128) -> (action: ConfirmAction)
    ensures
        action@ == (ConfirmActionView::ConfirmSubscriber { subscriber_id }),
{
    ConfirmAction::ConfirmSubscriber { subscriber_id }
}

/// Starts a confirm flow for the token in `parameters`.
pub fn confirm(parameters: Parameters) -> (step: ConfirmStep)
    ensures
        step@ == confirm_start(parameters.subscription_token@),
{
    ConfirmStep::Perform(
        get_subscriber_id_from_token(parameters.subscription_token.as_str()),
        ConfirmState::AwaitingLookup,
    )
}

impl ConfirmState {
    /// The next decision of the flow, given what the store reported.
    pub fn advance(self, reply: StoreReply) -> (step: ConfirmStep)
        ensures
            step@ == confirm_next(self, reply@),
    {
        match self {
            ConfirmState::AwaitingLookup => match reply {
                StoreReply::SubscriberId(Some(subscriber_id)) => ConfirmStep::Perform(
                    confirm_subscriber(subscriber_id),
                    ConfirmState::AwaitingUpdate,
                ),
                StoreReply::SubscriberId(None) => ConfirmStep::Respond(UNAUTHORIZED),
                _ => ConfirmStep::Respond(INTERNAL_SERVER_ERROR),
            },
            ConfirmState::AwaitingUpdate => match reply {
                StoreReply::Updated => ConfirmStep::Respond(OK),
                _ => ConfirmStep::Respond(INTERNAL_SERVER_ERROR),
            },
        }
    }
}

} // verus!
