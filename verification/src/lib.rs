//! Newsletter subscriber onboarding: validated subscriber data, confirmation
//! tokens, and the decisions of the subscribe and confirm flows.

pub mod configuration;
pub mod domain;
pub mod email_client;
pub mod model;
pub mod routes;
pub mod store;
pub mod text;
