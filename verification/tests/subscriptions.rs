use zero2prod::domain::NewSubscriber;
use zero2prod::email::DeliveryError;
use zero2prod::store::SubscriberStatus;
use zero2prod::store::SubscriptionStore;
use zero2prod::subscriptions::FormData;
use zero2prod::subscriptions::SubscribeError;
use zero2prod::subscriptions::finish_notification;
use zero2prod::subscriptions::subscribe;
use zero2prod::subscriptions::subscribe_with;
use zero2prod::subscriptions_confirm::ConfirmationError;
use zero2prod::subscriptions_confirm::Parameters;
use zero2prod::subscriptions_confirm::confirm;

fn valid_form() -> FormData {
    FormData { name: "carlos jose".to_string(), email: "carlos.cruz@gmail.com".to_string() }
}

#[test]
fn subscribe_persists_a_pending_subscriber_and_a_token() {
    let mut store = SubscriptionStore::new();
    let receipt = subscribe(&mut store, valid_form(), "http://localhost").unwrap();

    assert_eq!(store.subscriber_count(), 1);
    assert_eq!(store.token_count(), 1);
    let row = store.subscriber_at(0);
    assert_eq!(row.name, "carlos jose");
    assert_eq!(row.email, "carlos.cruz@gmail.com");
    assert_eq!(row.status.as_str(), "pending_confirmation");
    assert_eq!(row.id, receipt.subscriber_id);
}

#[test]
fn subscribe_builds_one_email_with_the_identical_link_in_both_bodies() {
    let mut store = SubscriptionStore::new();
    let receipt = subscribe(&mut store, valid_form(), "http://localhost").unwrap();

    let link = format!(
        "http://localhost/subscriptions/confirm?subscription_token={}",
        receipt.token
    );
    let email = &receipt.confirmation_email;
    assert_eq!(email.recipient, "carlos.cruz@gmail.com");
    assert_eq!(email.subject, "subject");
    assert_eq!(
        email.html_body,
        format!(
            "Welcome to our newsletter!<br>Click <a href=\"{}\">here</a> to confirm your subscription.",
            link
        )
    );
    assert_eq!(
        email.text_body,
        format!("Welcome to our newsletter!\nVisit {} to confirm your subscription.", link)
    );
}

#[test]
fn subscribe_with_an_empty_name_writes_nothing() {
    let mut store = SubscriptionStore::new();
    let form = FormData { name: "".to_string(), email: "le.guin@gmail.com".to_string() };
    let err = subscribe(&mut store, form, "http://localhost").unwrap_err();

    assert_eq!(err, SubscribeError::InvalidInput);
    assert_eq!(err.status_code(), 400);
    assert_eq!(store.subscriber_count(), 0);
    assert_eq!(store.token_count(), 0);
}

#[test]
fn subscribe_with_an_empty_email_writes_nothing() {
    let mut store = SubscriptionStore::new();
    let form = FormData { name: "carlos cruz".to_string(), email: "".to_string() };
    let err = subscribe(&mut store, form, "http://localhost").unwrap_err();

    assert_eq!(err, SubscribeError::InvalidInput);
    assert_eq!(store.subscriber_count(), 0);
}

#[test]
fn subscribe_with_a_malformed_email_writes_nothing() {
    let mut store = SubscriptionStore::new();
    let form = FormData { name: "Carlos".to_string(), email: "not-an-email".to_string() };
    let err = subscribe(&mut store, form, "http://localhost").unwrap_err();

    assert_eq!(err, SubscribeError::InvalidInput);
    assert_eq!(store.subscriber_count(), 0);
}

#[test]
fn confirming_the_issued_token_confirms_the_subscriber() {
    let mut store = SubscriptionStore::new();
    let receipt = subscribe(&mut store, valid_form(), "http://localhost").unwrap();

    let params = Parameters { subscription_token: receipt.token.clone() };
    assert!(confirm(&mut store, &params).is_ok());

    let row = store.find_subscriber(receipt.subscriber_id).unwrap();
    assert_eq!(row.status, SubscriberStatus::Confirmed);
    assert_eq!(row.status.as_str(), "confirmed");
    assert_eq!(row.email, "carlos.cruz@gmail.com");
}

#[test]
fn confirming_the_same_token_twice_succeeds_both_times() {
    let mut store = SubscriptionStore::new();
    let receipt = subscribe(&mut store, valid_form(), "http://localhost").unwrap();

    let params = Parameters { subscription_token: receipt.token.clone() };
    assert!(confirm(&mut store, &params).is_ok());
    assert!(confirm(&mut store, &params).is_ok());

    let row = store.find_subscriber(receipt.subscriber_id).unwrap();
    assert_eq!(row.status, SubscriberStatus::Confirmed);
    assert_eq!(store.subscriber_count(), 1);
    assert_eq!(store.token_count(), 1);
}

#[test]
fn confirming_a_token_never_issued_changes_nothing() {
    let mut store = SubscriptionStore::new();
    subscribe(&mut store, valid_form(), "http://localhost").unwrap();

    let params = Parameters { subscription_token: "not-a-real-token".to_string() };
    let err = confirm(&mut store, &params).unwrap_err();

    assert_eq!(err, ConfirmationError::UnknownToken);
    assert_eq!(err.status_code(), 401);
    let row = store.subscriber_at(0);
    assert_eq!(row.status, SubscriberStatus::PendingConfirmation);
}

#[test]
fn a_refused_token_insertion_rolls_back_the_subscriber() {
    let mut store = SubscriptionStore::new();
    let first = FormData { name: "carlos jose".to_string(), email: "carlos.cruz@gmail.com".to_string() };
    let second = FormData { name: "ursula".to_string(), email: "le.guin@gmail.com".to_string() };

    assert!(subscribe_with(&mut store, first, "http://localhost", 1, 0, "SAMETOKEN".to_string()).is_ok());
    assert_eq!(store.subscriber_count(), 1);

    // the second call stages its subscriber, then fails to stage the
    // duplicate token: the whole call must leave no trace
    let err = subscribe_with(&mut store, second, "http://localhost", 2, 0, "SAMETOKEN".to_string())
        .unwrap_err();
    assert_eq!(err, SubscribeError::PersistenceFailed);
    assert_eq!(err.status_code(), 500);
    assert_eq!(store.subscriber_count(), 1);
    assert_eq!(store.token_count(), 1);
    assert!(store.find_subscriber(2).is_none());
}

#[test]
fn a_duplicate_subscriber_id_is_refused_without_a_trace() {
    let mut store = SubscriptionStore::new();
    let first = FormData { name: "carlos jose".to_string(), email: "carlos.cruz@gmail.com".to_string() };
    let second = FormData { name: "ursula".to_string(), email: "le.guin@gmail.com".to_string() };

    assert!(subscribe_with(&mut store, first, "http://localhost", 7, 0, "TOKENA".to_string()).is_ok());
    let err = subscribe_with(&mut store, second, "http://localhost", 7, 0, "TOKENB".to_string())
        .unwrap_err();
    assert_eq!(err, SubscribeError::PersistenceFailed);
    assert_eq!(store.subscriber_count(), 1);
    assert_eq!(store.token_count(), 1);
}

#[test]
fn subscribing_twice_creates_two_independent_pending_subscribers() {
    let mut store = SubscriptionStore::new();
    let r1 = subscribe(&mut store, valid_form(), "http://localhost").unwrap();
    let r2 = subscribe(&mut store, valid_form(), "http://localhost").unwrap();

    assert_ne!(r1.subscriber_id, r2.subscriber_id);
    assert_ne!(r1.token, r2.token);
    assert_eq!(store.subscriber_count(), 2);
    assert_eq!(store.token_count(), 2);
}

#[test]
fn each_receipt_confirms_only_its_own_subscriber() {
    let mut store = SubscriptionStore::new();
    let r1 = subscribe(&mut store, valid_form(), "http://localhost").unwrap();
    let second = FormData { name: "ursula".to_string(), email: "le.guin@gmail.com".to_string() };
    let r2 = subscribe(&mut store, second, "http://localhost").unwrap();

    let params = Parameters { subscription_token: r2.token.clone() };
    assert!(confirm(&mut store, &params).is_ok());

    let confirmed = store.find_subscriber(r2.subscriber_id).unwrap();
    assert_eq!(confirmed.status, SubscriberStatus::Confirmed);
    let untouched = store.find_subscriber(r1.subscriber_id).unwrap();
    assert_eq!(untouched.status, SubscriberStatus::PendingConfirmation);
}

#[test]
fn parsing_a_form_validates_name_before_email() {
    let form = FormData { name: "bad/name".to_string(), email: "also-bad".to_string() };
    let err = NewSubscriber::parse(form).unwrap_err();
    assert_eq!(err, "bad/name is not a valid subscriber name");
}

#[test]
fn notification_outcomes_map_to_the_subscribe_error() {
    assert!(finish_notification(Ok(())).is_ok());
    let err = finish_notification(Err(DeliveryError::Timeout)).unwrap_err();
    assert_eq!(err, SubscribeError::NotificationFailed);
    assert_eq!(err.status_code(), 500);
    let err = finish_notification(Err(DeliveryError::ProviderRejected)).unwrap_err();
    assert_eq!(err, SubscribeError::NotificationFailed);
    let err = finish_notification(Err(DeliveryError::TransportError)).unwrap_err();
    assert_eq!(err, SubscribeError::NotificationFailed);
}

#[test]
fn every_subscribe_error_carries_its_status_code() {
    assert_eq!(SubscribeError::InvalidInput.status_code(), 400);
    assert_eq!(SubscribeError::StoreUnavailable.status_code(), 500);
    assert_eq!(SubscribeError::PersistenceFailed.status_code(), 500);
    assert_eq!(SubscribeError::NotificationFailed.status_code(), 500);
    assert_eq!(ConfirmationError::UnknownToken.status_code(), 401);
    assert_eq!(ConfirmationError::PersistenceFailed.status_code(), 500);
}
