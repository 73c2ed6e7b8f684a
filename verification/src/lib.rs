//! Core of a mailing-list subscription service.
//!
//! Visitors submit a name and an email address; the service records a
//! pending subscription together with a single-use confirmation token and
//! hands the caller a confirmation email to deliver. Following the
//! confirmation link turns the subscription into a confirmed one, and a
//! newsletter broadcast reaches exactly the confirmed subscribers.
//!
//! The crate verifies the whole lifecycle: input validation, token
//! issuance, the transactional store of subscribers and tokens, and the
//! subscribe / confirm / broadcast workflows. Process plumbing (HTTP
//! transport, connection pools, the outbound mail call itself) stays with
//! the embedding application, which drives these verified functions.

pub mod configuration;
pub mod domain;
pub mod email;
pub mod newsletter;
pub mod store;
pub mod subscriptions;
pub mod subscriptions_confirm;
pub mod token;
