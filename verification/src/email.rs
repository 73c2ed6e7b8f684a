//! Outbound email messages and the outcomes a delivery attempt can
//! have.
//!
//! The workflows only build messages; the embedding application owns
//! the sender address, the provider endpoint and the single
//! timeout-bounded attempt, and reports back one of the outcomes below.

use vstd::prelude::*;

verus! {

/// One outbound email, ready for the notification gateway: the
/// recipient address and the three content parts.
#[derive(Debug)]
pub struct EmailMessage {
    pub recipient: String,
    pub subject: String,
    pub html_body: String,
    pub text_body: String,
}

/// The mathematical image of an outbound email.
#[verifier::ext_equal]
pub ghost struct EmailMessageModel {
    pub recipient: Seq<char>,
    pub subject: Seq<char>,
    pub html_body: Seq<char>,
    pub text_body: Seq<char>,
}

impl View for EmailMessage {
    type V = EmailMessageModel;

    open spec fn view(&self) -> EmailMessageModel {
        EmailMessageModel {
            recipient: self.recipient@,
            subject: self.subject@,
            html_body: self.html_body@,
            text_body: self.text_body@,
        }
    }
}

/// Why a single delivery attempt failed. Exactly one attempt is made;
/// no outcome is retried here.
#[derive(Clone, Copy, PartialEq, Eq, Structural, Debug)]
pub enum DeliveryError {
    /// No response arrived within the configured bound.
    Timeout,
    /// The provider answered with a non-success status.
    ProviderRejected,
    /// A lower-level network failure.
    TransportError,
}

} // verus!
