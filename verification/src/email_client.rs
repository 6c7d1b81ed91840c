//! The email service as this library sees it: where a request goes, what it
//! carries, and which answers count as a delivery.

use crate::domain::SubscriberEmail;
use crate::store::{Fault, Outcome, OutcomeView};
use crate::text::{decimal, decimal_text, joined};
use reqwest::Url;
use std::time::Duration;
use vstd::prelude::*;

verus! {

/// One email: who gets it, its subject, and its body as HTML and as plain
/// text.
#[derive(Debug)]
pub struct EmailMessage {
    pub recipient: SubscriberEmail,
    pub subject: String,
    pub html_body: String,
    pub text_body: String,
}

/// An email as a mathematical value.
pub struct EmailMessageView {
    pub recipient: Seq<char>,
    pub subject: Seq<char>,
    pub html_body: Seq<char>,
    pub text_body: Seq<char>,
}

impl View for EmailMessage {
    type V = EmailMessageView;

    open spec fn view(&self) -> EmailMessageView {
        EmailMessageView {
            recipient: self.recipient@,
            subject: self.subject@,
            html_body: self.html_body@,
            text_body: self.text_body@,
        }
    }
}

/// The body of a request to the email service.
#[derive(Debug)]
pub struct SendEmailRequest {
    pub from: String,
    pub to: String,
    pub subject: String,
    pub html_body: String,
    pub text_body: String,
}

/// A request body as a mathematical value.
pub struct SendEmailRequestView {
    pub from: Seq<char>,
    pub to: Seq<char>,
    pub subject: Seq<char>,
    pub html_body: Seq<char>,
    pub text_body: Seq<char>,
}

impl View for SendEmailRequest {
    type V = SendEmailRequestView;

    open spec fn view(&self) -> SendEmailRequestView {
        SendEmailRequestView {
            from: self.from@,
            to: self.to@,
            subject: self.subject@,
            html_body: self.html_body@,
            text_body: self.text_body@,
        }
    }
}

/// Whether a text is an absolute URL, as `Url::parse` judges it.
pub uninterp spec fn is_url(s: Seq<char>) -> bool;

/// Asks `Url::parse` whether `s` is an absolute URL: true where it gives a
/// URL, false where it reports an error. The answer depends on the text
/// alone.
#[verifier::external_body]
fn parses_as_url(s: &str) -> (b: bool)
    ensures
        b == is_url(s@),
{
    Url::parse(s).is_ok()
}

/// Where emails are posted to, for a service at `base_url`: the base
/// followed by `/email`. There is no such place where the base is not a URL.
pub fn email_endpoint(base_url: &str, base_is_url: bool) -> (r: Option<String>)
    ensures
        r is Some <==> base_is_url,
        r matches Some(url) ==> url@ == base_url@ + "/email"@,
{
    if base_is_url {
        Some(joined(base_url, "/email"))
    } else {
        None
    }
}

/// What is needed to reach the email service: its address, the sender of
/// every email, and how long to wait for an answer.
pub struct EmailClient {
    base_url: String,
    sender: SubscriberEmail,
    timeout: Duration,
}

impl EmailClient {
    pub closed spec fn base_url(self) -> Seq<char> {
        self.base_url@
    }

    pub closed spec fn sender(self) -> Seq<char> {
        self.sender@
    }

    pub closed spec fn timeout(self) -> Duration {
        self.timeout
    }

    pub fn new(base_url: String, sender: SubscriberEmail, timeout: Duration) -> (client: Self)
        ensures
            client.base_url() == base_url@,
            client.sender() == sender@,
            client.timeout() == timeout,
    {
        Self { base_url, sender, timeout }
    }

    /// How long to wait for the service's answer.
    pub fn wait(&self) -> (r: Duration)
        ensures
            r == self.timeout(),
    {
        self.timeout
    }

    /// The URL to post emails to: the service's address followed by
    /// `/email`. None where the address is not a URL.
    pub fn url(&self) -> (r: Option<String>)
        ensures
            r is Some <==> is_url(self.base_url()),
            r matches Some(url) ==> url@ == self.base_url() + "/email"@,
    {
        let base_is_url = parses_as_url(self.base_url.as_str());
        email_endpoint(self.base_url.as_str(), base_is_url)
    }

    /// The request that sends an email from this client's sender to
    /// `recipient`.
    pub fn send_email(
        &self,
        recipient: SubscriberEmail,
        subject: &str,
        html_content: &str,
        text_content: &str,
    ) -> (request: SendEmailRequest)
        ensures
            request@ == (SendEmailRequestView {
                from: self.sender(),
                to: recipient@,
                subject: subject@,
                html_body: html_content@,
                text_body: text_content@,
            }),
    {
        SendEmailRequest {
            from: String::from_str(self.sender.as_ref()),
            to: String::from_str(recipient.as_ref()),
            subject: String::from_str(subject),
            html_body: String::from_str(html_content),
            text_body: String::from_str(text_content),
        }
    }
}

/// The statuses that mean the service took the email: 200 to 299.
pub open spec fn is_success(status: u16) -> bool {
    200 <= status <= 299
}

/// What a refusal of the service is reported as.
pub open spec fn refusal(status: u16) -> Seq<char> {
    "The email service answered with status "@ + decimal_text(status as nat)
}

/// How a delivery ended, given the status the service answered with: any
/// status outside 200 to 299 is a failure.
pub fn delivery_outcome(status: u16) -> (outcome: Outcome)
    ensures
        outcome@ == if is_success(status) {
            OutcomeView::Succeeded
        } else {
            OutcomeView::Failed(seq![refusal(status)])
        },
{
    if 200 <= status && status <= 299 {
        Outcome::Succeeded
    } else {
        let digits = decimal(status);
        let message = joined("The email service answered with status ", digits.as_str());
        let mut chain: Vec<String> = Vec::new();
        chain.push(message);
        let fault = Fault { chain };
        assert(fault@ =~= seq![refusal(status)]);
        Outcome::Failed(fault)
    }
}

} // verus!
