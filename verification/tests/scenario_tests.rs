use push_fanout::dispatch::{broadcast, DeliveryStatus};
use push_fanout::notification::Notification;
use push_fanout::store::{RegisterOutcome, SubscriptionStore};
use push_fanout::subscription::{Keys, SubscribeData};

// The full round trip over the library: subscribe, subscribe again,
// enumerate, and broadcast over a transport stub that always succeeds.
#[test]
fn subscribe_twice_list_and_send_to_all() {
    let mut store = SubscriptionStore::new();
    let payload = SubscribeData {
        expiration_time: None,
        endpoint: "https://push.example/abc".to_string(),
        keys: Keys { p256dh: "K1".to_string(), auth: "A1".to_string() },
    };

    // First subscribe: a new record (the HTTP layer answers 200).
    let first = store.register("dev-a".to_string(), payload.clone());
    assert_eq!(first, Ok(RegisterOutcome::Created));

    // Identical payload again: idempotent, nothing changes (304).
    let second = store.register("dev-a".to_string(), payload.clone());
    assert_eq!(second, Ok(RegisterOutcome::AlreadyExists));

    // Enumerating shows exactly one subscription.
    let all = store.list_all();
    assert_eq!(all.len(), 1);
    assert_eq!(all[0].data.endpoint, "https://push.example/abc");

    // Send-to-all with a stub transport that accepts every message: the
    // batch holds one outcome, and it is a delivery.
    let notification = Notification { title: "T".to_string(), body: "B".to_string() };
    assert_eq!(
        notification.payload_json(),
        b"{\"title\":\"T\",\"body\":\"B\"}".to_vec()
    );
    let ids: Vec<i64> = all.iter().map(|s| s.id).collect();
    let deliveries = vec![Ok(()); ids.len()];
    let outcomes = broadcast(&ids, &deliveries);
    assert_eq!(outcomes.len(), 1);
    assert_eq!(outcomes[0].subscription_id, all[0].id);
    assert_eq!(outcomes[0].status, DeliveryStatus::Delivered);
}
