//! Phone-number verification: one-time codes are sent through a delivery
//! provider, pending attempts are kept on record, and submitted codes are
//! confirmed.
//!
//! - [`admission`]: how long an attempt blocks a new one for its number.
//! - [`store`]: the record of attempts, one per phone number.
//! - [`reply`]: what the record and the provider answer, as plain values.
//! - [`send_flow`], [`verify_flow`]: the decisions of the two paths, one
//!   action at a time, for a caller that performs the actions.
//! - [`lifecycle`]: what the two paths return and leave on record, and the
//!   laws that follow.
//! - [`server`]: the service that runs both paths over its own record.
//! - [`provider`]: the calls that go out to the provider.
//! - [`locale`]: the language in which a request is answered.
//! - [`error`]: the failures, and how each is shown to the caller.

pub mod admission;
pub mod error;
pub mod lifecycle;
pub mod locale;
pub mod provider;
pub mod reply;
pub mod send_flow;
pub mod server;
pub mod store;
pub mod verify_flow;
