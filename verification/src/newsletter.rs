//! The broadcast workflow: sending newsletter content to every
//! confirmed subscriber, and to nobody else.
//!
//! The workflow builds one message per confirmed subscriber; the
//! embedding application performs the actual sends and reports the
//! outcomes back. Per-recipient failures are independent: one failed
//! delivery is counted, never allowed to abort the rest of the batch.

use vstd::prelude::*;

use crate::email::EmailMessage;
use crate::email::EmailMessageModel;
use crate::store::ConfirmedSubscriber;
use crate::store::SubscriptionStore;
use crate::store::confirmed_recipients;

verus! {

/// The newsletter content as submitted: a title and the two body
/// variants.
pub struct NewsletterContent {
    pub title: String,
    pub text: String,
    pub html: String,
}

/// The mathematical image of a newsletter submission.
#[verifier::ext_equal]
pub ghost struct NewsletterContentModel {
    pub title: Seq<char>,
    pub text: Seq<char>,
    pub html: Seq<char>,
}

impl View for NewsletterContent {
    type V = NewsletterContentModel;

    open spec fn view(&self) -> NewsletterContentModel {
        NewsletterContentModel { title: self.title@, text: self.text@, html: self.html@ }
    }
}

/// The message a broadcast addresses to one recipient.
pub open spec fn newsletter_message(
    recipient: Seq<char>,
    content: NewsletterContentModel,
) -> EmailMessageModel {
    EmailMessageModel {
        recipient,
        subject: content.title,
        html_body: content.html,
        text_body: content.text,
    }
}

/// The messages one broadcast produces: one per confirmed subscriber,
/// in store order, each carrying the newsletter content — and none for
/// anybody still pending.
pub fn broadcast_messages(store: &SubscriptionStore, content: &NewsletterContent) -> (r: Vec<
    EmailMessage,
>)
    ensures
        r@.len() == confirmed_recipients(store@.subscribers).len(),
        forall|k: int|
            0 <= k < r@.len() ==> (#[trigger] r@[k])@ == newsletter_message(
                confirmed_recipients(store@.subscribers)[k].email,
                content@,
            ),
{
    let recipients = store.list_confirmed_subscribers();
    let n = recipients.len();
    let mut out: Vec<EmailMessage> = Vec::new();
    let mut i: usize = 0;
    while i < n
        invariant
            0 <= i <= n,
            n == recipients@.len(),
            recipients@.map_values(|c: ConfirmedSubscriber| c@) == confirmed_recipients(
                store@.subscribers,
            ),
            out@.len() == i,
            forall|k: int|
                0 <= k < i ==> (#[trigger] out@[k])@ == newsletter_message(
                    confirmed_recipients(store@.subscribers)[k].email,
                    content@,
                ),
        decreases n - i,
    {
        proof {
            assert(confirmed_recipients(store@.subscribers)[i as int] == recipients@[i as int]@);
        }
        let msg = EmailMessage {
            recipient: recipients[i].email.clone(),
            subject: content.title.clone(),
            html_body: content.html.clone(),
            text_body: content.text.clone(),
        };
        out.push(msg);
        i = i + 1;
    }
    out
}

/// How many of the reported outcomes are failures.
pub open spec fn count_failures(outcomes: Seq<bool>) -> nat
    decreases outcomes.len(),
{
    if outcomes.len() == 0 {
        0
    } else {
        count_failures(outcomes.drop_last()) + if outcomes.last() {
            0nat
        } else {
            1nat
        }
    }
}

/// The batch report of one broadcast, one outcome per attempted
/// recipient: failures are accumulated and counted, never propagated,
/// so one recipient's failure cannot abort delivery to the others.
pub fn failed_delivery_count(outcomes: &Vec<bool>) -> (n: usize)
    ensures
        n == count_failures(outcomes@),
{
    let len = outcomes.len();
    let mut n: usize = 0;
    let mut i: usize = 0;
    proof {
        assert(outcomes@.take(0) =~= Seq::<bool>::empty());
    }
    while i < len
        invariant
            0 <= i <= len,
            len == outcomes@.len(),
            n <= i,
            n == count_failures(outcomes@.take(i as int)),
        decreases len - i,
    {
        proof {
            assert(outcomes@.take(i + 1).drop_last() =~= outcomes@.take(i as int));
            assert(outcomes@.take(i + 1).last() == outcomes@[i as int]);
        }
        if !outcomes[i] {
            n = n + 1;
        }
        i = i + 1;
    }
    proof {
        assert(outcomes@.take(len as int) =~= outcomes@);
    }
    n
}

} // verus!
