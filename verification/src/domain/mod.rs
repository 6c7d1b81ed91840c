//! Validated subscriber data. A value of one of these types can only be made
//! by its `parse` function, so holding one is proof that the text was checked.

pub mod new_subscriber;
pub mod subscriber_email;
pub mod subscriber_name;

pub use new_subscriber::NewSubscriber;
pub use subscriber_email::SubscriberEmail;
pub use subscriber_name::SubscriberName;
