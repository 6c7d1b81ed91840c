//! The subscribe flow: validate the form, store the subscriber and a fresh
//! confirmation token in one transaction, then send the confirmation email.

use crate::domain::new_subscriber::NewSubscriberView;
use crate::domain::subscriber_email::{email_rejection, is_valid_email};
use crate::domain::subscriber_name::{grapheme_count, is_valid_name, name_rejection};
use crate::domain::{NewSubscriber, SubscriberEmail, SubscriberName};
use crate::email_client::{EmailMessage, EmailMessageView};
use crate::store::{
    Fault, Outcome, OutcomeView, SubscriberRecord, SubscriberRow, SubscriptionStatus, Timestamp,
    TokenRecord, TokenRow,
};
use crate::text::{cloned_strings, is_letter_or_digit, joined};
use chrono::Utc;
use rand::distributions::Alphanumeric;
use rand::{thread_rng, Rng};
use uuid::Uuid;
use vstd::prelude::*;

verus! {

/// The fields of the subscription form, as they were sent.
#[derive(Debug)]
pub struct FormData {
    pub email: String,
    pub name: String,
}

/// What validating a form with these fields gives: a subscriber if both the
/// name and the address are valid, else the rejection of the name if the
/// name is at fault, else that of the address.
pub open spec fn validated(name: Seq<char>, email: Seq<char>) -> Result<
    NewSubscriberView,
    Seq<char>,
> {
    if !is_valid_name(name, grapheme_count(name)) {
        Err(name_rejection(name))
    } else if !is_valid_email(email) {
        Err(email_rejection(email))
    } else {
        Ok(NewSubscriberView { email, name })
    }
}

impl TryFrom<FormData> for NewSubscriber {
    type Error = String;

    fn try_from(value: FormData) -> (r: Result<Self, String>)
        ensures
            match validated(value.name@, value.email@) {
                Ok(subscriber) => r matches Ok(s) && s@ == subscriber,
                Err(message) => r matches Err(e) && e@ == message,
            },
            grapheme_count(value.name@) <= value.name@.len(),
    {
        let name = match SubscriberName::parse(value.name) {
            Ok(name) => name,
            Err(e) => {
                return Err(e);
            },
        };
        let email = match SubscriberEmail::parse(value.email) {
            Ok(email) => email,
            Err(e) => {
                return Err(e);
            },
        };
        Ok(NewSubscriber { email, name })
    }
}

/// What `try_from` gives is stated on `try_from` itself, over the views of
/// its result: a `String` has no mathematical value that a spec function
/// could return, so this impl says nothing.
impl vstd::std_specs::convert::TryFromSpecImpl<FormData> for NewSubscriber {
    open spec fn obeys_try_from_spec() -> bool {
        false
    }

    open spec fn try_from_spec(v: FormData) -> Result<Self, String> {
        arbitrary()
    }
}

/// The failure of storing a confirmation token, with the store's fault
/// behind it.
#[derive(Debug)]
pub struct StoreTokenError(pub Fault);

impl View for StoreTokenError {
    type V = Seq<Seq<char>>;

    open spec fn view(&self) -> Seq<Seq<char>> {
        self.0@
    }
}

/// What `StoreTokenError` says of itself.
pub open spec fn store_token_message() -> Seq<char> {
    "A database error was encountered while trying to store a subscription token."@
}

impl StoreTokenError {
    /// The error's own message.
    pub fn message(&self) -> (r: String)
        ensures
            r@ == store_token_message(),
    {
        String::from_str(
            "A database error was encountered while trying to store a subscription token.",
        )
    }

    /// The messages of the errors behind this one, the nearest first.
    pub fn source(&self) -> (r: Vec<String>)
        ensures
            r.deep_view() == self@,
    {
        cloned_strings(&self.0.chain)
    }

    /// The error and what caused it, laid out for a log.
    pub fn report(&self) -> (r: String)
        ensures
            r@ == error_chain(store_token_message(), self@),
    {
        let message = self.message();
        error_chain_fmt(message.as_str(), &self.0.chain)
    }
}

/// Why a subscription was not completed.
#[derive(Debug)]
pub enum SubscribeError {
    DatabasePoolError(Fault),
    DatabaseInsertSubscriberError(Fault),
    DatabaseTransactionCommitError(Fault),
    StoreTokenError(StoreTokenError),
    SendEmailError(Fault),
    ValidationError(String),
}

/// A `SubscribeError` as a mathematical value.
pub enum SubscribeErrorView {
    DatabasePoolError(Seq<Seq<char>>),
    DatabaseInsertSubscriberError(Seq<Seq<char>>),
    DatabaseTransactionCommitError(Seq<Seq<char>>),
    StoreTokenError(Seq<Seq<char>>),
    SendEmailError(Seq<Seq<char>>),
    ValidationError(Seq<char>),
}

impl View for SubscribeError {
    type V = SubscribeErrorView;

    open spec fn view(&self) -> SubscribeErrorView {
        match self {
            SubscribeError::DatabasePoolError(f) => SubscribeErrorView::DatabasePoolError(f@),
            SubscribeError::DatabaseInsertSubscriberError(f) => {
                SubscribeErrorView::DatabaseInsertSubscriberError(f@)
            },
            SubscribeError::DatabaseTransactionCommitError(f) => {
                SubscribeErrorView::DatabaseTransactionCommitError(f@)
            },
            SubscribeError::StoreTokenError(e) => SubscribeErrorView::StoreTokenError(e@),
            SubscribeError::SendEmailError(f) => SubscribeErrorView::SendEmailError(f@),
            SubscribeError::ValidationError(m) => SubscribeErrorView::ValidationError(m@),
        }
    }
}

impl From<String> for SubscribeError {
    fn from(e: String) -> (r: Self) {
        Self::ValidationError(e)
    }
}

impl vstd::std_specs::convert::FromSpecImpl<String> for SubscribeError {
    open spec fn obeys_from_spec() -> bool {
        true
    }

    /// A message alone stands for a form that was not valid.
    open spec fn from_spec(e: String) -> Self {
        SubscribeError::ValidationError(e)
    }
}

impl From<StoreTokenError> for SubscribeError {
    fn from(e: StoreTokenError) -> (r: Self) {
        Self::StoreTokenError(e)
    }
}

impl vstd::std_specs::convert::FromSpecImpl<StoreTokenError> for SubscribeError {
    open spec fn obeys_from_spec() -> bool {
        true
    }

    open spec fn from_spec(e: StoreTokenError) -> Self {
        SubscribeError::StoreTokenError(e)
    }
}

/// The status of a request that was malformed.
pub const BAD_REQUEST: u16 = 400;

/// The status of a request that failed through no fault of the sender.
pub const INTERNAL_SERVER_ERROR: u16 = 500;

/// The status of a request that was carried out.
pub const OK: u16 = 200;

impl SubscribeErrorView {
    /// What the error says of itself.
    pub open spec fn message(self) -> Seq<char> {
        match self {
            SubscribeErrorView::DatabasePoolError(_) => {
                "Failed to acquire a Postgres connection from the pool."@
            },
            SubscribeErrorView::DatabaseInsertSubscriberError(_) => {
                "Failed to insert new subscriber to the database."@
            },
            SubscribeErrorView::DatabaseTransactionCommitError(_) => {
                "Failed to commit SQL transaction to store a new subscriber."@
            },
            SubscribeErrorView::StoreTokenError(_) => {
                "Failed to store the confirmation token for a new subscriber."@
            },
            SubscribeErrorView::SendEmailError(_) => "Failed to send a confirmation email."@,
            SubscribeErrorView::ValidationError(m) => m,
        }
    }

    /// The messages of the errors behind this one, the nearest first. A
    /// validation error has none behind it.
    pub open spec fn sources(self) -> Seq<Seq<char>> {
        match self {
            SubscribeErrorView::DatabasePoolError(f) => f,
            SubscribeErrorView::DatabaseInsertSubscriberError(f) => f,
            SubscribeErrorView::DatabaseTransactionCommitError(f) => f,
            SubscribeErrorView::StoreTokenError(f) => seq![store_token_message()] + f,
            SubscribeErrorView::SendEmailError(f) => f,
            SubscribeErrorView::ValidationError(_) => Seq::empty(),
        }
    }

    /// The status the sender gets: 400 for a form that was not valid, 500
    /// for everything else.
    pub open spec fn status(self) -> u16 {
        match self {
            SubscribeErrorView::ValidationError(_) => BAD_REQUEST,
            _ => INTERNAL_SERVER_ERROR,
        }
    }
}

impl SubscribeError {
    /// The error's own message.
    pub fn message(&self) -> (r: String)
        ensures
            r@ == self@.message(),
    {
        match self {
            SubscribeError::DatabasePoolError(_) => {
                String::from_str("Failed to acquire a Postgres connection from the pool.")
            },
            SubscribeError::DatabaseInsertSubscriberError(_) => {
                String::from_str("Failed to insert new subscriber to the database.")
            },
            SubscribeError::DatabaseTransactionCommitError(_) => {
                String::from_str("Failed to commit SQL transaction to store a new subscriber.")
            },
            SubscribeError::StoreTokenError(_) => {
                String::from_str("Failed to store the confirmation token for a new subscriber.")
            },
            SubscribeError::SendEmailError(_) => {
                String::from_str("Failed to send a confirmation email.")
            },
            SubscribeError::ValidationError(e) => e.clone(),
        }
    }

    /// The messages of the errors behind this one, the nearest first.
    pub fn source(&self) -> (r: Vec<String>)
        ensures
            r.deep_view() == self@.sources(),
    {
        match self {
            SubscribeError::DatabasePoolError(f) => cloned_strings(&f.chain),
            SubscribeError::DatabaseInsertSubscriberError(f) => cloned_strings(&f.chain),
            SubscribeError::DatabaseTransactionCommitError(f) => cloned_strings(&f.chain),
            SubscribeError::StoreTokenError(e) => {
                let mut r: Vec<String> = Vec::new();
                r.push(e.message());
                let mut rest = e.source();
                let ghost head = r.deep_view();
                let ghost tail = rest.deep_view();
                r.append(&mut rest);
                assert(r.deep_view() =~= head + tail);
                assert(head =~= seq![store_token_message()]);
                r
            },
            SubscribeError::SendEmailError(f) => cloned_strings(&f.chain),
            SubscribeError::ValidationError(_) => {
                let r: Vec<String> = Vec::new();
                assert(r.deep_view() =~= Seq::<Seq<char>>::empty());
                r
            },
        }
    }

    /// The status the sender gets.
    pub fn status_code(&self) -> (r: u16)
        ensures
            r == self@.status(),
    {
        match self {
            SubscribeError::ValidationError(_) => BAD_REQUEST,
            SubscribeError::DatabasePoolError(_)
            | SubscribeError::DatabaseInsertSubscriberError(_)
            | SubscribeError::DatabaseTransactionCommitError(_)
            | SubscribeError::StoreTokenError(_)
            | SubscribeError::SendEmailError(_) => INTERNAL_SERVER_ERROR,
        }
    }

    /// The error and what caused it, laid out for a log.
    pub fn report(&self) -> (r: String)
        ensures
            r@ == error_chain(self@.message(), self@.sources()),
    {
        let message = self.message();
        let sources = self.source();
        error_chain_fmt(message.as_str(), &sources)
    }
}

/// One entry of an error chain: the line that introduces a cause, the cause
/// indented by a tab, and a line end.
pub open spec fn caused_by(cause: Seq<char>) -> Seq<char> {
    "Caused by:\n\t"@ + cause + "\n"@
}

/// An error chain laid out: the message and an empty line, then one
/// "Caused by" entry for each cause, in order.
pub open spec fn error_chain(message: Seq<char>, causes: Seq<Seq<char>>) -> Seq<char>
    decreases causes.len(),
{
    if causes.len() == 0 {
        message + "\n\n"@
    } else {
        error_chain(message, causes.drop_last()) + caused_by(causes.last())
    }
}

/// Lays out an error's message and the messages of what caused it.
pub fn error_chain_fmt(message: &str, causes: &Vec<String>) -> (r: String)
    ensures
        r@ == error_chain(message@, causes.deep_view()),
{
    let mut r = joined(message, "\n\n");
    let ghost all = causes.deep_view();
    let mut i: usize = 0;
    assert(all.take(0) =~= Seq::<Seq<char>>::empty());
    while i < causes.len()
        invariant
            i <= causes.len(),
            all == causes.deep_view(),
            r@ == error_chain(message@, all.take(i as int)),
        decreases causes.len() - i,
    {
        proof {
            let next = all.take(i + 1);
            assert(next.drop_last() =~= all.take(i as int));
            assert(next.last() == causes[i as int]@);
        }
        r.append("Caused by:\n\t");
        r.append(causes[i].as_str());
        r.append("\n");
        i += 1;
    }
    assert(all.take(causes.len() as int) =~= all);
    r
}

/// The length of a confirmation token.
pub const TOKEN_LENGTH: usize = 25;

/// A confirmation token is 25 letters and digits of ASCII.
pub open spec fn is_subscription_token(s: Seq<char>) -> bool {
    &&& s.len() == TOKEN_LENGTH
    &&& forall|i: int| 0 <= i < s.len() ==> is_letter_or_digit(#[trigger] s[i])
}

/// The byte of a letter or digit of ASCII.
pub open spec fn is_letter_or_digit_byte(b: u8) -> bool {
    (0x61 <= b && b <= 0x7a) || (0x41 <= b && b <= 0x5a) || (0x30 <= b && b <= 0x39)
}

/// Draws one byte from rand's `Alphanumeric` distribution with the thread's
/// generator (`thread_rng().sample(Alphanumeric)`). Whatever is drawn is one
/// of `a` to `z`, `A` to `Z` and `0` to `9`; which one is left to chance.
/// The generator panics where the system cannot seed it.
#[verifier::external_body]
fn sample_alphanumeric() -> (b: u8)
    ensures
        is_letter_or_digit_byte(b),
{
    thread_rng().sample(Alphanumeric)
}

/// The token that a run of draws spells: character by character, the
/// character whose code is the byte drawn.
pub fn token_from_draws(draws: &Vec<u8>) -> (token: String)
    ensures
        token@.len() == draws.len(),
        forall|i: int| 0 <= i < draws.len() ==> token@[i] == draws[i] as char,
{
    let mut token = String::new();
    let mut i: usize = 0;
    while i < draws.len()
        invariant
            i <= draws.len(),
            token@.len() == i,
            forall|k: int| 0 <= k < i ==> token@[k] == draws[k] as char,
        decreases draws.len() - i,
    {
        token.push(draws[i] as char);
        i += 1;
    }
    token
}

/// Generates a random 25-character-long case-sensitive subscription token:
/// 25 draws from the letters and digits, spelled out in the order drawn.
pub fn generate_subscription_token() -> (token: String)
    ensures
        is_subscription_token(token@),
{
    let mut draws: Vec<u8> = Vec::new();
    while draws.len() < TOKEN_LENGTH
        invariant
            draws.len() <= TOKEN_LENGTH,
            forall|k: int| 0 <= k < draws.len() ==> is_letter_or_digit_byte(#[trigger] draws[k]),
        decreases TOKEN_LENGTH - draws.len(),
    {
        let b = sample_alphanumeric();
        draws.push(b);
    }
    let token = token_from_draws(&draws);
    assert forall|i: int| 0 <= i < token@.len() implies is_letter_or_digit(
        #[trigger] token@[i],
    ) by {
        assert(is_letter_or_digit_byte(draws[i]));
    }
    token
}

/// A version 4 UUID as a 128-bit number: the four bits of the version hold 4
/// and the two bits of the variant hold binary 10.
pub open spec fn is_random_uuid(id: u128) -> bool {
    (id >> 76) & 0xf == 4 && (id >> 62) & 0x3 == 2
}

/// A fresh random identifier: `Uuid::new_v4()` as a 128-bit number, its bytes
/// in the order they are written. The version and variant bits are those of
/// a version 4 UUID; all other bits are left to chance. It panics where the
/// system has no random bytes to give.
#[verifier::external_body]
fn new_subscriber_id() -> (id: u128)
    ensures
        is_random_uuid(id),
{
    Uuid::new_v4().as_u128()
}

/// The current time, read from `Utc::now()`. Nothing is promised of it. It
/// panics where the system's clock stands before 1970.
#[verifier::external_body]
fn current_time() -> Timestamp {
    let now = Utc::now();
    Timestamp { seconds: now.timestamp(), nanoseconds: now.timestamp_subsec_nanos() }
}

/// The row of a subscriber who has not confirmed yet: the given id, the
/// subscriber's address and name, and the given time of subscription.
pub fn subscriber_record(id: u128, now: Timestamp, new_subscriber: &NewSubscriber) -> (record:
    SubscriberRecord)
    ensures
        record@ == (SubscriberRow {
            id,
            email: new_subscriber.email@,
            name: new_subscriber.name@,
            subscribed_at: now,
            status: SubscriptionStatus::PendingConfirmation,
        }),
{
    SubscriberRecord {
        id,
        email: String::from_str(new_subscriber.email.as_ref()),
        name: String::from_str(new_subscriber.name.as_ref()),
        subscribed_at: now,
        status: SubscriptionStatus::PendingConfirmation,
    }
}

/// The row that stores `new_subscriber`: the row of a pending subscriber
/// with a fresh random id and the current time.
pub fn insert_subscriber(new_subscriber: &NewSubscriber) -> (record: SubscriberRecord)
    ensures
        is_random_uuid(record.id),
        record.email@ == new_subscriber.email@,
        record.name@ == new_subscriber.name@,
        record.status == SubscriptionStatus::PendingConfirmation,
{
    let subscriber_id = new_subscriber_id();
    let now = current_time();
    subscriber_record(subscriber_id, now, new_subscriber)
}

/// The row that ties `subscription_token` to the subscriber `subscriber_id`.
pub fn store_token(subscriber_id: u128, subscription_token: &str) -> (record: TokenRecord)
    ensures
        record.subscriber_id == subscriber_id,
        record.subscription_token@ == subscription_token@,
{
    TokenRecord { subscription_token: String::from_str(subscription_token), subscriber_id }
}

/// The link a subscriber follows to confirm.
pub open spec fn confirmation_link(base_url: Seq<char>, token: Seq<char>) -> Seq<char> {
    base_url + "/subscriptions/confirm?subscription_token="@ + token
}

/// The HTML body of the confirmation email: the link is the target of its
/// one anchor.
pub open spec fn confirmation_html(link: Seq<char>) -> Seq<char> {
    "Welcome to our newsletter!<br />Click <a href=\""@ + link
        + "\">here</a> to confirm your subscription."@
}

/// The plain-text body of the confirmation email.
pub open spec fn confirmation_text(link: Seq<char>) -> Seq<char> {
    "Welcome to our newsletter!\nVisit "@ + link + " to confirm your subscription."@
}

/// The subject of the confirmation email.
pub open spec fn confirmation_subject() -> Seq<char> {
    "Welcome"@
}

/// The confirmation email for `new_subscriber`: addressed to the subscriber,
/// with the same confirmation link in both bodies.
pub fn send_confirmation_email(
    new_subscriber: NewSubscriber,
    base_url: &str,
    subscription_token: &str,
) -> (message: EmailMessage)
    ensures
        message.recipient@ == new_subscriber.email@,
        message.subject@ == confirmation_subject(),
        message.html_body@ == confirmation_html(
            confirmation_link(base_url@, subscription_token@),
        ),
        message.text_body@ == confirmation_text(
            confirmation_link(base_url@, subscription_token@),
        ),
{
    let mut confirmation_link = joined(base_url, "/subscriptions/confirm?subscription_token=");
    confirmation_link.append(subscription_token);
    let mut html_body = joined(
        "Welcome to our newsletter!<br />Click <a href=\"",
        confirmation_link.as_str(),
    );
    html_body.append("\">here</a> to confirm your subscription.");
    let mut plain_body = joined(
        "Welcome to our newsletter!\nVisit ",
        confirmation_link.as_str(),
    );
    plain_body.append(" to confirm your subscription.");
    EmailMessage {
        recipient: new_subscriber.email,
        subject: String::from_str("Welcome"),
        html_body,
        text_body: plain_body,
    }
}

/// What the subscribe flow asks its caller to do next.
#[derive(Debug)]
pub enum SubscribeAction {
    /// Open a transaction on the store.
    BeginTransaction,
    /// Insert the subscriber's row, inside the transaction.
    InsertSubscriber(SubscriberRecord),
    /// Insert the token's row, inside the transaction.
    InsertToken(TokenRecord),
    /// Commit the transaction.
    Commit,
    /// Hand the message to the email service.
    SendEmail(EmailMessage),
}

/// A `SubscribeAction` as a mathematical value.
pub enum SubscribeActionView {
    BeginTransaction,
    InsertSubscriber(SubscriberRow),
    InsertToken(TokenRow),
    Commit,
    SendEmail(EmailMessageView),
}

impl View for SubscribeAction {
    type V = SubscribeActionView;

    open spec fn view(&self) -> SubscribeActionView {
        match self {
            SubscribeAction::BeginTransaction => SubscribeActionView::BeginTransaction,
            SubscribeAction::InsertSubscriber(r) => SubscribeActionView::InsertSubscriber(r@),
            SubscribeAction::InsertToken(r) => SubscribeActionView::InsertToken(r@),
            SubscribeAction::Commit => SubscribeActionView::Commit,
            SubscribeAction::SendEmail(m) => SubscribeActionView::SendEmail(m@),
        }
    }
}

/// Where a subscribe flow stands: which action it waits for, and what it
/// needs for the steps that follow.
#[derive(Debug)]
pub enum SubscribeState {
    AwaitingTransaction { subscriber: NewSubscriber, base_url: String },
    AwaitingSubscriberInsert { subscriber: NewSubscriber, base_url: String, subscriber_id: u128 },
    AwaitingTokenInsert { subscriber: NewSubscriber, base_url: String, token: String },
    AwaitingCommit { subscriber: NewSubscriber, base_url: String, token: String },
    AwaitingDispatch,
}

/// A `SubscribeState` as a mathematical value.
pub enum SubscribeStateView {
    AwaitingTransaction { subscriber: NewSubscriberView, base_url: Seq<char> },
    AwaitingSubscriberInsert {
        subscriber: NewSubscriberView,
        base_url: Seq<char>,
        subscriber_id: u128,
    },
    AwaitingTokenInsert { subscriber: NewSubscriberView, base_url: Seq<char>, token: Seq<char> },
    AwaitingCommit { subscriber: NewSubscriberView, base_url: Seq<char>, token: Seq<char> },
    AwaitingDispatch,
}

impl View for SubscribeState {
    type V = SubscribeStateView;

    open spec fn view(&self) -> SubscribeStateView {
        match self {
            SubscribeState::AwaitingTransaction { subscriber, base_url } => {
                SubscribeStateView::AwaitingTransaction {
                    subscriber: subscriber@,
                    base_url: base_url@,
                }
            },
            SubscribeState::AwaitingSubscriberInsert { subscriber, base_url, subscriber_id } => {
                SubscribeStateView::AwaitingSubscriberInsert {
                    subscriber: subscriber@,
                    base_url: base_url@,
                    subscriber_id: *subscriber_id,
                }
            },
            SubscribeState::AwaitingTokenInsert { subscriber, base_url, token } => {
                SubscribeStateView::AwaitingTokenInsert {
                    subscriber: subscriber@,
                    base_url: base_url@,
                    token: token@,
                }
            },
            SubscribeState::AwaitingCommit { subscriber, base_url, token } => {
                SubscribeStateView::AwaitingCommit {
                    subscriber: subscriber@,
                    base_url: base_url@,
                    token: token@,
                }
            },
            SubscribeState::AwaitingDispatch => SubscribeStateView::AwaitingDispatch,
        }
    }
}

/// One decision of the subscribe flow: an action to perform and the state to
/// come back with, or the answer that ends the flow.
#[derive(Debug)]
pub enum SubscribeStep {
    Perform(SubscribeAction, SubscribeState),
    Respond(Result<(), SubscribeError>),
}

/// A `SubscribeStep` as a mathematical value.
pub enum SubscribeStepView {
    Perform(SubscribeActionView, SubscribeStateView),
    Respond(Result<(), SubscribeErrorView>),
}

impl View for SubscribeStep {
    type V = SubscribeStepView;

    open spec fn view(&self) -> SubscribeStepView {
        match self {
            SubscribeStep::Perform(action, state) => SubscribeStepView::Perform(action@, state@),
            SubscribeStep::Respond(Ok(_)) => SubscribeStepView::Respond(Ok(())),
            SubscribeStep::Respond(Err(e)) => SubscribeStepView::Respond(Err(e@)),
        }
    }
}

/// The status that answers a subscription: 200 where it was completed, else
/// the status of the error.
pub open spec fn subscribe_status(response: Result<(), SubscribeErrorView>) -> u16 {
    match response {
        Ok(_) => OK,
        Err(e) => e.status(),
    }
}

/// The status that answers a subscription.
pub fn response_status(response: &Result<(), SubscribeError>) -> (status: u16)
    ensures
        status == subscribe_status(
            match response {
                Ok(_) => Ok(()),
                Err(e) => Err(e@),
            },
        ),
{
    match response {
        Ok(_) => OK,
        Err(e) => e.status_code(),
    }
}

/// The first decision of a subscribe flow. A form that is not valid is
/// answered at once, and nothing is asked of the store or the email service;
/// a valid one opens a transaction.
pub open spec fn subscribe_start(
    name: Seq<char>,
    email: Seq<char>,
    base_url: Seq<char>,
) -> SubscribeStepView {
    match validated(name, email) {
        Err(message) => SubscribeStepView::Respond(
            Err(SubscribeErrorView::ValidationError(message)),
        ),
        Ok(subscriber) => SubscribeStepView::Perform(
            SubscribeActionView::BeginTransaction,
            SubscribeStateView::AwaitingTransaction { subscriber, base_url },
        ),
    }
}

/// The confirmation email as a mathematical value.
pub open spec fn confirmation_message(
    subscriber: NewSubscriberView,
    base_url: Seq<char>,
    token: Seq<char>,
) -> EmailMessageView {
    EmailMessageView {
        recipient: subscriber.email,
        subject: confirmation_subject(),
        html_body: confirmation_html(confirmation_link(base_url, token)),
        text_body: confirmation_text(confirmation_link(base_url, token)),
    }
}

/// The decisions the subscribe flow may take in `state` once the action it
/// waited for ended with `outcome`.
///
/// A failure ends the flow with the error of the action that failed. A
/// success leads to the next action: after the transaction is open, the
/// insert of the subscriber's row, with a fresh random id; then the insert
/// of the row of a fresh token for that id; then the commit; then the
/// confirmation email with that token in its link; then the answer that all
/// went well. The id, the time and the token are the only things left open.
pub open spec fn subscribe_moves(
    state: SubscribeStateView,
    outcome: OutcomeView,
    step: SubscribeStepView,
) -> bool {
    match state {
        SubscribeStateView::AwaitingTransaction { subscriber, base_url } => match outcome {
            OutcomeView::Failed(fault) => step == SubscribeStepView::Respond(
                Err(SubscribeErrorView::DatabasePoolError(fault)),
            ),
            OutcomeView::Succeeded => {
                &&& step matches SubscribeStepView::Perform(
                    SubscribeActionView::InsertSubscriber(row),
                    next,
                )
                &&& is_random_uuid(row.id)
                &&& row.email == subscriber.email
                &&& row.name == subscriber.name
                &&& row.status == SubscriptionStatus::PendingConfirmation
                &&& next == SubscribeStateView::AwaitingSubscriberInsert {
                    subscriber,
                    base_url,
                    subscriber_id: row.id,
                }
            },
        },
        SubscribeStateView::AwaitingSubscriberInsert { subscriber, base_url, subscriber_id } => {
            match outcome {
                OutcomeView::Failed(fault) => step == SubscribeStepView::Respond(
                    Err(SubscribeErrorView::DatabaseInsertSubscriberError(fault)),
                ),
                OutcomeView::Succeeded => {
                    &&& step matches SubscribeStepView::Perform(
                        SubscribeActionView::InsertToken(row),
                        next,
                    )
                    &&& is_subscription_token(row.subscription_token)
                    &&& row.subscriber_id == subscriber_id
                    &&& next == SubscribeStateView::AwaitingTokenInsert {
                        subscriber,
                        base_url,
                        token: row.subscription_token,
                    }
                },
            }
        },
        SubscribeStateView::AwaitingTokenInsert { subscriber, base_url, token } => match outcome {
            OutcomeView::Failed(fault) => step == SubscribeStepView::Respond(
                Err(SubscribeErrorView::StoreTokenError(fault)),
            ),
            OutcomeView::Succeeded => step == SubscribeStepView::Perform(
                SubscribeActionView::Commit,
                SubscribeStateView::AwaitingCommit { subscriber, base_url, token },
            ),
        },
        SubscribeStateView::AwaitingCommit { subscriber, base_url, token } => match outcome {
            OutcomeView::Failed(fault) => step == SubscribeStepView::Respond(
                Err(SubscribeErrorView::DatabaseTransactionCommitError(fault)),
            ),
            OutcomeView::Succeeded => step == SubscribeStepView::Perform(
                SubscribeActionView::SendEmail(confirmation_message(subscriber, base_url, token)),
                SubscribeStateView::AwaitingDispatch,
            ),
        },
        SubscribeStateView::AwaitingDispatch => match outcome {
            OutcomeView::Failed(fault) => step == SubscribeStepView::Respond(
                Err(SubscribeErrorView::SendEmailError(fault)),
            ),
            OutcomeView::Succeeded => step == SubscribeStepView::Respond(Ok(())),
        },
    }
}

/// Starts a subscribe flow for `form`, with `base_url` as the address under
/// which this service is reached.
pub fn subscribe(form: FormData, base_url: &str) -> (step: SubscribeStep)
    ensures
        step@ == subscribe_start(form.name@, form.email@, base_url@),
        grapheme_count(form.name@) <= form.name@.len(),
{
    match NewSubscriber::try_from(form) {
        Err(message) => SubscribeStep::Respond(Err(SubscribeError::ValidationError(message))),
        Ok(subscriber) => SubscribeStep::Perform(
            SubscribeAction::BeginTransaction,
            SubscribeState::AwaitingTransaction { subscriber, base_url: String::from_str(base_url) },
        ),
    }
}

impl SubscribeState {
    /// The next decision of the flow, given how the action it waited for
    /// ended.
    pub fn advance(self, outcome: Outcome) -> (step: SubscribeStep)
        ensures
            subscribe_moves(self@, outcome@, step@),
    {
        match self {
            SubscribeState::AwaitingTransaction { subscriber, base_url } => match outcome {
                Outcome::Failed(fault) => SubscribeStep::Respond(
                    Err(SubscribeError::DatabasePoolError(fault)),
                ),
                Outcome::Succeeded => {
                    let record = insert_subscriber(&subscriber);
                    let subscriber_id = record.id;
                    SubscribeStep::Perform(
                        SubscribeAction::InsertSubscriber(record),
                        SubscribeState::AwaitingSubscriberInsert {
                            subscriber,
                            base_url,
                            subscriber_id,
                        },
                    )
                },
            },
            SubscribeState::AwaitingSubscriberInsert { subscriber, base_url, subscriber_id } => {
                match outcome {
                    Outcome::Failed(fault) => SubscribeStep::Respond(
                        Err(SubscribeError::DatabaseInsertSubscriberError(fault)),
                    ),
                    Outcome::Succeeded => {
                        let token = generate_subscription_token();
                        let record = store_token(subscriber_id, token.as_str());
                        SubscribeStep::Perform(
                            SubscribeAction::InsertToken(record),
                            SubscribeState::AwaitingTokenInsert { subscriber, base_url, token },
                        )
                    },
                }
            },
            SubscribeState::AwaitingTokenInsert { subscriber, base_url, token } => match outcome {
                Outcome::Failed(fault) => SubscribeStep::Respond(
                    Err(SubscribeError::StoreTokenError(StoreTokenError(fault))),
                ),
                Outcome::Succeeded => SubscribeStep::Perform(
                    SubscribeAction::Commit,
                    SubscribeState::AwaitingCommit { subscriber, base_url, token },
                ),
            },
            SubscribeState::AwaitingCommit { subscriber, base_url, token } => match outcome {
                Outcome::Failed(fault) => SubscribeStep::Respond(
                    Err(SubscribeError::DatabaseTransactionCommitError(fault)),
                ),
                Outcome::Succeeded => {
                    let message = send_confirmation_email(
                        subscriber,
                        base_url.as_str(),
                        token.as_str(),
                    );
                    SubscribeStep::Perform(
                        SubscribeAction::SendEmail(message),
                        SubscribeState::AwaitingDispatch,
                    )
                },
            },
            SubscribeState::AwaitingDispatch => match outcome {
                Outcome::Failed(fault) => SubscribeStep::Respond(
                    Err(SubscribeError::SendEmailError(fault)),
                ),
                Outcome::Succeeded => SubscribeStep::Respond(Ok(())),
            },
        }
    }
}

} // verus!
