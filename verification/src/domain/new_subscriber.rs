//! A subscriber whose name and email address passed validation and who is
//! not yet stored.

use crate::domain::subscriber_email::SubscriberEmail;
use crate::domain::subscriber_name::SubscriberName;
use vstd::prelude::*;

verus! {

/// A validated name and address, alive for one request.
#[derive(Debug)]
pub struct NewSubscriber {
    pub email: SubscriberEmail,
    pub name: SubscriberName,
}

/// A new subscriber as a mathematical value.
pub struct NewSubscriberView {
    pub email: Seq<char>,
    pub name: Seq<char>,
}

impl View for NewSubscriber {
    type V = NewSubscriberView;

    open spec fn view(&self) -> NewSubscriberView {
        NewSubscriberView { email: self.email@, name: self.name@ }
    }
}

} // verus!
