//! A typed client core for the Zuora Billing REST API.
//!
//! The crate decides and computes; it never touches the network or a clock.
//! A caller with a transport performs the steps that an
//! [`exchange::Exchange`] hands out and reports what happened.
//!
//! - [`client`]: the client, its requests and the taking in of a token.
//! - [`token`]: the bearer token and the store that owns it.
//! - [`request`]: requests as values.
//! - [`retry`]: which failures are retried, how often, and after what wait.
//! - [`decode`]: from a status and a body to a document or a typed value.
//! - [`objects`]: the records of a subscription query.
//! - [`exchange`]: one operation as a machine of events and steps.
//! - [`run`]: whole operations, and what holds of every one of them.
//! - [`error`]: the failures.
//! - [`json`], [`headers`]: what is believed of `serde_json` and of the
//!   header map of `reqwest`.

pub mod client;
pub mod decode;
pub mod error;
pub mod exchange;
pub mod headers;
pub mod json;
pub mod objects;
pub mod request;
pub mod retry;
pub mod run;
pub mod token;

pub use crate::client::{Zuora, ZuoraTrait};
pub use crate::objects::{Subscription, ZuoraSubscriptionResponse};
