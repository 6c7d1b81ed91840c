//! The request flows: what each of them decides, step by step.

pub mod health_check;
pub mod subscriptions;
pub mod subscriptions_confirm;

pub use health_check::{health_check, HealthCheckResponse};
pub use subscriptions::{subscribe, FormData, StoreTokenError, SubscribeError};
pub use subscriptions_confirm::{confirm, Parameters};
