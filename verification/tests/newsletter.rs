use zero2prod::newsletter::NewsletterContent;
use zero2prod::newsletter::broadcast_messages;
use zero2prod::newsletter::failed_delivery_count;
use zero2prod::store::SubscriptionStore;
use zero2prod::subscriptions::FormData;
use zero2prod::subscriptions::subscribe;
use zero2prod::subscriptions_confirm::Parameters;
use zero2prod::subscriptions_confirm::confirm;

fn content() -> NewsletterContent {
    NewsletterContent {
        title: "Newsletter Title".to_string(),
        text: "Newsletter body as plain text".to_string(),
        html: "<p>Newsletter body as html</p>".to_string(),
    }
}

#[test]
fn newsletters_are_not_delivered_to_unconfirmed_subscribers() {
    let mut store = SubscriptionStore::new();
    let pending = FormData { name: "carlos jose".to_string(), email: "carlos.cruz@gmail.com".to_string() };
    subscribe(&mut store, pending, "http://localhost").unwrap();

    let messages = broadcast_messages(&store, &content());
    assert_eq!(messages.len(), 0);
}

#[test]
fn newsletters_reach_exactly_the_confirmed_subscribers() {
    let mut store = SubscriptionStore::new();
    let first = FormData { name: "carlos jose".to_string(), email: "carlos.cruz@gmail.com".to_string() };
    let second = FormData { name: "ursula".to_string(), email: "le.guin@gmail.com".to_string() };
    subscribe(&mut store, first, "http://localhost").unwrap();
    let receipt = subscribe(&mut store, second, "http://localhost").unwrap();

    let params = Parameters { subscription_token: receipt.token.clone() };
    assert!(confirm(&mut store, &params).is_ok());

    let messages = broadcast_messages(&store, &content());
    assert_eq!(messages.len(), 1);
    assert_eq!(messages[0].recipient, "le.guin@gmail.com");
    assert_eq!(messages[0].subject, "Newsletter Title");
    assert_eq!(messages[0].html_body, "<p>Newsletter body as html</p>");
    assert_eq!(messages[0].text_body, "Newsletter body as plain text");
}

#[test]
fn broadcasting_twice_never_reaches_a_pending_subscriber() {
    let mut store = SubscriptionStore::new();
    let pending = FormData { name: "carlos jose".to_string(), email: "carlos.cruz@gmail.com".to_string() };
    let confirmed = FormData { name: "ursula".to_string(), email: "le.guin@gmail.com".to_string() };
    subscribe(&mut store, pending, "http://localhost").unwrap();
    let receipt = subscribe(&mut store, confirmed, "http://localhost").unwrap();
    let params = Parameters { subscription_token: receipt.token.clone() };
    assert!(confirm(&mut store, &params).is_ok());

    for _ in 0..2 {
        let messages = broadcast_messages(&store, &content());
        assert_eq!(messages.len(), 1);
        for m in &messages {
            assert_ne!(m.recipient, "carlos.cruz@gmail.com");
        }
    }
}

#[test]
fn per_recipient_failures_are_counted_not_propagated() {
    let outcomes = vec![true, false, true, false, false];
    assert_eq!(failed_delivery_count(&outcomes), 3);
    let none_failed: Vec<bool> = vec![true, true];
    assert_eq!(failed_delivery_count(&none_failed), 0);
    let empty: Vec<bool> = Vec::new();
    assert_eq!(failed_delivery_count(&empty), 0);
}
