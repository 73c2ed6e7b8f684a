//! Validated identities of subscribers: their name and email address.

pub mod subscriber_email;
pub mod subscriber_name;

use vstd::prelude::*;

use crate::domain::subscriber_email::SubscriberEmail;
use crate::domain::subscriber_name::SubscriberName;

verus! {

/// A fully validated candidate subscriber: both fields passed their
/// respective validators.
#[derive(Debug)]
pub struct NewSubscriber {
    pub email: SubscriberEmail,
    pub name: SubscriberName,
}

} // verus!
