//! A model of the world around the flows, and what every run of a flow does
//! to it: the store with its one open transaction, and the email service.

use crate::email_client::EmailMessageView;
use crate::domain::new_subscriber::NewSubscriberView;
use crate::routes::subscriptions::{
    confirmation_message, subscribe_moves, subscribe_start, subscribe_status, validated,
    SubscribeActionView, SubscribeStepView, INTERNAL_SERVER_ERROR, OK,
};
use crate::routes::subscriptions_confirm::{
    confirm_next, confirm_start, ConfirmActionView, ConfirmState, ConfirmStepView, StoreReplyView,
    UNAUTHORIZED,
};
use crate::store::{OutcomeView, Store, SubscriberRow, SubscriptionStatus, TokenRow};
use vstd::prelude::*;

verus! {

/// The world as one subscribe flow sees it.
pub struct World {
    /// What the store holds for good.
    pub durable: Store,
    /// What the store would hold if the open transaction were committed;
    /// none while no transaction is open.
    pub staged: Option<Store>,
    /// The messages handed to the email service so far.
    pub dispatched: Seq<EmailMessageView>,
}

impl World {
    /// The world after `action` was performed and ended with `outcome`.
    ///
    /// A transaction starts from what the store holds. An insert that
    /// succeeds changes the transaction's contents only. A commit that
    /// succeeds makes them the store's contents; one that fails discards
    /// them. Every message handed to the email service counts as dispatched,
    /// however the delivery ends.
    pub open spec fn after(self, action: SubscribeActionView, outcome: OutcomeView) -> World {
        match action {
            SubscribeActionView::BeginTransaction => match outcome {
                OutcomeView::Succeeded => World { staged: Some(self.durable), ..self },
                OutcomeView::Failed(_) => self,
            },
            SubscribeActionView::InsertSubscriber(row) => match (self.staged, outcome) {
                (Some(staged), OutcomeView::Succeeded) => World {
                    staged: Some(staged.with_subscriber(row)),
                    ..self
                },
                _ => self,
            },
            SubscribeActionView::InsertToken(row) => match (self.staged, outcome) {
                (Some(staged), OutcomeView::Succeeded) => World {
                    staged: Some(staged.with_token(row)),
                    ..self
                },
                _ => self,
            },
            SubscribeActionView::Commit => match (self.staged, outcome) {
                (Some(staged), OutcomeView::Succeeded) => World {
                    durable: staged,
                    staged: None,
                    ..self
                },
                _ => World { staged: None, ..self },
            },
            SubscribeActionView::SendEmail(message) => World {
                dispatched: self.dispatched.push(message),
                ..self
            },
        }
    }
}

/// `steps` and `outcomes` record a run of the subscribe flow on a form with
/// these fields: the first step is the flow's first decision, and each later
/// step is a decision the flow may take on the outcome of the action before
/// it.
pub open spec fn is_subscribe_run(
    name: Seq<char>,
    email: Seq<char>,
    base_url: Seq<char>,
    steps: Seq<SubscribeStepView>,
    outcomes: Seq<OutcomeView>,
) -> bool {
    &&& steps.len() == outcomes.len() + 1
    &&& steps[0] == subscribe_start(name, email, base_url)
    &&& forall|i: int|
        0 <= i < outcomes.len() ==> (#[trigger] steps[i] matches SubscribeStepView::Perform(
            _,
            state,
        ) && subscribe_moves(state, outcomes[i], steps[i + 1]))
}

/// The world after the first `n` actions of a run were performed.
pub open spec fn world_after(
    world: World,
    steps: Seq<SubscribeStepView>,
    outcomes: Seq<OutcomeView>,
    n: nat,
) -> World
    decreases n,
{
    if n == 0 {
        world
    } else {
        let before = world_after(world, steps, outcomes, (n - 1) as nat);
        match steps[n - 1] {
            SubscribeStepView::Perform(action, _) => before.after(action, outcomes[n - 1]),
            SubscribeStepView::Respond(_) => before,
        }
    }
}

/// Step `i` of a run asks for a commit, and the commit succeeded.
pub open spec fn committed_at(
    steps: Seq<SubscribeStepView>,
    outcomes: Seq<OutcomeView>,
    i: int,
) -> bool {
    &&& 0 <= i < outcomes.len()
    &&& steps[i] matches SubscribeStepView::Perform(SubscribeActionView::Commit, _)
    &&& outcomes[i] is Succeeded
}

/// The subscriber row and the token row that a run asks to insert, where it
/// gets that far: they are the actions of its second and third step.
pub open spec fn rows_of(steps: Seq<SubscribeStepView>) -> Option<(SubscriberRow, TokenRow)> {
    if steps.len() > 2 {
        match (steps[1], steps[2]) {
            (
                SubscribeStepView::Perform(SubscribeActionView::InsertSubscriber(subscriber), _),
                SubscribeStepView::Perform(SubscribeActionView::InsertToken(token), _),
            ) => Some((subscriber, token)),
            _ => None,
        }
    } else {
        None
    }
}

/// The shape of every run: which action each step can ask for.
proof fn lemma_run_shape(
    name: Seq<char>,
    email: Seq<char>,
    base_url: Seq<char>,
    steps: Seq<SubscribeStepView>,
    outcomes: Seq<OutcomeView>,
)
    requires
        is_subscribe_run(name, email, base_url, steps, outcomes),
    ensures
        outcomes.len() <= 5,
        outcomes.len() > 0 ==> (steps[0] matches SubscribeStepView::Perform(
            SubscribeActionView::BeginTransaction,
            _,
        )),
        outcomes.len() > 1 ==> outcomes[0] is Succeeded,
        outcomes.len() > 1 ==> (steps[1] matches SubscribeStepView::Perform(
            SubscribeActionView::InsertSubscriber(_),
            _,
        )),
        outcomes.len() > 2 ==> outcomes[1] is Succeeded,
        outcomes.len() > 2 ==> (rows_of(steps) matches Some(rows) && rows.1.subscriber_id
            == rows.0.id),
        outcomes.len() > 3 ==> outcomes[2] is Succeeded,
        outcomes.len() > 3 ==> (steps[3] matches SubscribeStepView::Perform(
            SubscribeActionView::Commit,
            _,
        )),
        outcomes.len() > 4 ==> outcomes[3] is Succeeded,
        outcomes.len() > 4 ==> (steps[4] matches SubscribeStepView::Perform(
            SubscribeActionView::SendEmail(_),
            _,
        )),
        outcomes.len() > 4 ==> steps[5] is Respond,
{
    let n = outcomes.len();
    if n > 0 {
        assert(steps[0] is Perform);
    }
    if n > 1 {
        assert(steps[1] is Perform);
    }
    if n > 2 {
        assert(steps[2] is Perform);
    }
    if n > 3 {
        assert(steps[3] is Perform);
    }
    if n > 4 {
        assert(steps[4] is Perform);
    }
    if n > 5 {
        assert(steps[5] is Perform);
    }
}

/// No email is dispatched unless the transaction was committed first: a step
/// that asks to send an email comes right after a commit that succeeded.
pub proof fn lemma_dispatch_follows_commit(
    name: Seq<char>,
    email: Seq<char>,
    base_url: Seq<char>,
    steps: Seq<SubscribeStepView>,
    outcomes: Seq<OutcomeView>,
    i: int,
)
    requires
        is_subscribe_run(name, email, base_url, steps, outcomes),
        0 <= i < steps.len(),
        steps[i] matches SubscribeStepView::Perform(SubscribeActionView::SendEmail(_), _),
    ensures
        committed_at(steps, outcomes, i - 1),
{
    lemma_run_shape(name, email, base_url, steps, outcomes);
    if i > 0 {
        assert(steps[i - 1] is Perform);
        assert(steps[i] == steps[(i - 1) + 1]);
    }
}

/// A subscription is stored whole or not at all. Where the run's commit has
/// succeeded, the store holds what it held before together with the
/// subscriber's row and the token's row, and the token belongs to that
/// subscriber. In every other case, whatever failed and however far the run
/// got, the store holds exactly what it held before.
pub proof fn lemma_subscription_is_stored_whole_or_not_at_all(
    name: Seq<char>,
    email: Seq<char>,
    base_url: Seq<char>,
    steps: Seq<SubscribeStepView>,
    outcomes: Seq<OutcomeView>,
    world: World,
    n: nat,
)
    requires
        is_subscribe_run(name, email, base_url, steps, outcomes),
        world.staged is None,
        n <= outcomes.len(),
    ensures
        ({
            let now = world_after(world, steps, outcomes, n);
            if exists|i: int| i < n && committed_at(steps, outcomes, i) {
                &&& rows_of(steps) matches Some(rows)
                &&& rows.1.subscriber_id == rows.0.id
                &&& now.durable == world.durable.with_subscriber(rows.0).with_token(rows.1)
            } else {
                now.durable == world.durable
            }
        }),
{
    lemma_run_shape(name, email, base_url, steps, outcomes);
    reveal_with_fuel(world_after, 6);
    if n > 3 && outcomes[3] is Succeeded {
        assert(committed_at(steps, outcomes, 3));
    } else {
        assert forall|i: int| i < n implies !committed_at(steps, outcomes, i) by {}
    }
}

/// Where the insert of the token fails, the subscriber's row is not in the
/// store afterwards: at no point of the run does the store hold anything but
/// what it held before.
pub proof fn lemma_failed_token_insert_leaves_no_row(
    name: Seq<char>,
    email: Seq<char>,
    base_url: Seq<char>,
    steps: Seq<SubscribeStepView>,
    outcomes: Seq<OutcomeView>,
    world: World,
    i: int,
    n: nat,
)
    requires
        is_subscribe_run(name, email, base_url, steps, outcomes),
        world.staged is None,
        0 <= i < outcomes.len(),
        steps[i] matches SubscribeStepView::Perform(SubscribeActionView::InsertToken(_), _),
        outcomes[i] is Failed,
        n <= outcomes.len(),
    ensures
        world_after(world, steps, outcomes, n).durable == world.durable,
        (steps.last() matches SubscribeStepView::Respond(Err(e)) && subscribe_status(Err(e))
            == 500),
{
    lemma_run_shape(name, email, base_url, steps, outcomes);
    lemma_subscription_is_stored_whole_or_not_at_all(
        name,
        email,
        base_url,
        steps,
        outcomes,
        world,
        n,
    );
    assert(steps[i] is Perform);
    assert(steps[i + 1] is Respond);
    assert forall|j: int| j < n implies !committed_at(steps, outcomes, j) by {}
}

/// The emails dispatched by a run: none before the commit has succeeded, and
/// after that the one confirmation email, addressed to the subscriber and
/// with the stored token in its link.
pub proof fn lemma_dispatched_only_when_stored(
    name: Seq<char>,
    email: Seq<char>,
    base_url: Seq<char>,
    steps: Seq<SubscribeStepView>,
    outcomes: Seq<OutcomeView>,
    world: World,
    n: nat,
)
    requires
        is_subscribe_run(name, email, base_url, steps, outcomes),
        world.staged is None,
        n <= outcomes.len(),
    ensures
        ({
            let now = world_after(world, steps, outcomes, n);
            if n == 5 {
                &&& committed_at(steps, outcomes, 3)
                &&& steps[4] matches SubscribeStepView::Perform(
                    SubscribeActionView::SendEmail(message),
                    _,
                )
                &&& now.dispatched == world.dispatched.push(message)
                &&& rows_of(steps) matches Some(rows)
                &&& message == confirmation_message(
                    NewSubscriberView { email, name },
                    base_url,
                    rows.1.subscription_token,
                )
            } else {
                now.dispatched == world.dispatched
            }
        }),
{
    lemma_run_shape(name, email, base_url, steps, outcomes);
    reveal_with_fuel(world_after, 6);
    if n == 5 {
        assert(steps[0] is Perform);
        assert(steps[1] is Perform);
        assert(steps[2] is Perform);
        assert(steps[3] is Perform);
    }
}

/// A form that is not valid is answered with 400 at once: the run has no
/// action, so nothing reaches the store or the email service.
pub proof fn lemma_invalid_form_touches_nothing(
    name: Seq<char>,
    email: Seq<char>,
    base_url: Seq<char>,
    steps: Seq<SubscribeStepView>,
    outcomes: Seq<OutcomeView>,
)
    requires
        is_subscribe_run(name, email, base_url, steps, outcomes),
        validated(name, email) is Err,
    ensures
        outcomes.len() == 0,
        (steps[0] matches SubscribeStepView::Respond(Err(e)) && subscribe_status(Err(e))
            == 400),
{
    if outcomes.len() > 0 {
        assert(steps[0] is Perform);
    }
}

/// A run in which every action succeeded is answered with 200.
pub proof fn lemma_success_is_answered_ok(
    name: Seq<char>,
    email: Seq<char>,
    base_url: Seq<char>,
    steps: Seq<SubscribeStepView>,
    outcomes: Seq<OutcomeView>,
)
    requires
        is_subscribe_run(name, email, base_url, steps, outcomes),
        steps.last() is Respond,
        forall|i: int| 0 <= i < outcomes.len() ==> outcomes[i] is Succeeded,
        validated(name, email) is Ok,
    ensures
        outcomes.len() == 5,
        (steps.last() matches SubscribeStepView::Respond(response) && subscribe_status(response)
            == OK),
{
    lemma_run_shape(name, email, base_url, steps, outcomes);
    let n = outcomes.len();
    if n > 0 {
        assert(steps[0] is Perform);
    }
    if n > 1 {
        assert(steps[1] is Perform);
    }
    if n > 2 {
        assert(steps[2] is Perform);
    }
    if n > 3 {
        assert(steps[3] is Perform);
    }
    if n > 4 {
        assert(steps[4] is Perform);
    }
}

/// What a store that works answers to an action of the confirm flow, and
/// what it holds afterwards. A lookup changes nothing; an update marks the
/// subscriber as confirmed.
pub open spec fn served(store: Store, action: ConfirmActionView) -> (Store, StoreReplyView) {
    match action {
        ConfirmActionView::GetSubscriberId { subscription_token } => (
            store,
            StoreReplyView::SubscriberId(store.subscriber_of(subscription_token)),
        ),
        ConfirmActionView::ConfirmSubscriber { subscriber_id } => (
            store.with_confirmed(subscriber_id),
            StoreReplyView::Updated,
        ),
    }
}

/// A confirm flow carried on from `step` against a store that works, for at
/// most `limit` actions: what the store holds in the end, and the status the
/// flow answers with.
pub open spec fn confirm_from(store: Store, step: ConfirmStepView, limit: nat) -> (Store, u16)
    decreases limit,
{
    match step {
        ConfirmStepView::Respond(status) => (store, status),
        ConfirmStepView::Perform(action, state) => {
            if limit == 0 {
                (store, INTERNAL_SERVER_ERROR)
            } else {
                let (next, reply) = served(store, action);
                confirm_from(next, confirm_next(state, reply), (limit - 1) as nat)
            }
        },
    }
}

/// A whole confirm flow for `token` against a store that works.
pub open spec fn confirm_on(store: Store, token: Seq<char>) -> (Store, u16) {
    confirm_from(store, confirm_start(token), 2)
}

/// Confirming is idempotent. With a token the store knows, a first and a
/// second confirmation are both answered with 200; the first leaves the
/// token's subscriber confirmed, and the second changes nothing at all.
pub proof fn lemma_confirm_is_idempotent(store: Store, token: Seq<char>)
    requires
        store.subscriber_of(token) is Some,
    ensures
        ({
            let id = store.subscriber_of(token)->0;
            let first = confirm_on(store, token);
            let second = confirm_on(first.0, token);
            &&& first.1 == OK
            &&& second.1 == OK
            &&& first.0 == store.with_confirmed(id)
            &&& second.0 == first.0
            &&& store.subscriptions.dom().contains(id) ==> first.0.status_of(id) == Some(
                SubscriptionStatus::Confirmed,
            )
        }),
{
    reveal_with_fuel(confirm_from, 3);
    let id = store.subscriber_of(token)->0;
    let first = store.with_confirmed(id);
    assert(first.with_confirmed(id).subscriptions =~= first.subscriptions);
}

/// A token the store does not know is answered with 401, and the store is
/// left as it was.
pub proof fn lemma_unknown_token_is_unauthorized(store: Store, token: Seq<char>)
    requires
        store.subscriber_of(token) is None,
    ensures
        confirm_on(store, token) == (store, UNAUTHORIZED),
{
    reveal_with_fuel(confirm_from, 3);
}

/// A confirmation is never taken back and touches nobody else: whoever was
/// confirmed stays confirmed, every other subscriber keeps the status they
/// had, no subscriber appears or disappears, and the tokens stay as they
/// were.
pub proof fn lemma_confirmation_is_final(store: Store, token: Seq<char>, other: u128)
    ensures
        ({
            let after = confirm_on(store, token).0;
            &&& after.tokens == store.tokens
            &&& after.subscriptions.dom() == store.subscriptions.dom()
            &&& store.status_of(other) == Some(SubscriptionStatus::Confirmed) ==> after.status_of(
                other,
            ) == Some(SubscriptionStatus::Confirmed)
            &&& store.subscriber_of(token) != Some(other) ==> after.status_of(other)
                == store.status_of(other)
        }),
{
    reveal_with_fuel(confirm_from, 3);
    match store.subscriber_of(token) {
        Some(id) => {
            assert(store.with_confirmed(id).subscriptions.dom() =~= store.subscriptions.dom());
        },
        None => {},
    }
}

/// Subscribing and then confirming. Once a run of the subscribe flow has
/// committed, the store holds the new subscriber as pending; a confirmation
/// with the run's token is answered with 200 and leaves that subscriber
/// confirmed.
pub proof fn lemma_confirm_after_subscribe(
    name: Seq<char>,
    email: Seq<char>,
    base_url: Seq<char>,
    steps: Seq<SubscribeStepView>,
    outcomes: Seq<OutcomeView>,
    world: World,
    n: nat,
)
    requires
        is_subscribe_run(name, email, base_url, steps, outcomes),
        world.staged is None,
        n <= outcomes.len(),
        exists|i: int| i < n && committed_at(steps, outcomes, i),
    ensures
        ({
            let stored = world_after(world, steps, outcomes, n).durable;
            let rows = rows_of(steps)->0;
            let confirmed = confirm_on(stored, rows.1.subscription_token);
            &&& rows_of(steps) is Some
            &&& rows.0.email == email
            &&& rows.0.name == name
            &&& stored.status_of(rows.0.id) == Some(SubscriptionStatus::PendingConfirmation)
            &&& stored.subscriber_of(rows.1.subscription_token) == Some(rows.0.id)
            &&& confirmed.1 == OK
            &&& confirmed.0.status_of(rows.0.id) == Some(SubscriptionStatus::Confirmed)
        }),
{
    lemma_subscription_is_stored_whole_or_not_at_all(
        name,
        email,
        base_url,
        steps,
        outcomes,
        world,
        n,
    );
    lemma_run_shape(name, email, base_url, steps, outcomes);
    let stored = world_after(world, steps, outcomes, n).durable;
    let rows = rows_of(steps)->0;
    assert(steps[0] is Perform);
    assert(steps[1] is Perform);
    lemma_confirm_is_idempotent(stored, rows.1.subscription_token);
}

} // verus!
