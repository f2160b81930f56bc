use push_fanout::store::{RegisterError, RegisterOutcome, SubscriptionStore};
use push_fanout::subscription::{Keys, SubscribeData, Subscription};

fn data(endpoint: &str, p256dh: &str, auth: &str) -> SubscribeData {
    SubscribeData {
        expiration_time: None,
        endpoint: endpoint.to_string(),
        keys: Keys { p256dh: p256dh.to_string(), auth: auth.to_string() },
    }
}

#[test]
fn register_then_duplicate_is_idempotent() {
    let mut store = SubscriptionStore::new();
    let first = store.register("dev-a".to_string(), data("https://push.example/abc", "K1", "A1"));
    assert_eq!(first, Ok(RegisterOutcome::Created));

    // Same fingerprint from another device, with an expiration this time:
    // still the same subscription, nothing changes.
    let mut dup = data("https://push.example/abc", "K1", "A1");
    dup.expiration_time = Some(123_456);
    let second = store.register("dev-b".to_string(), dup);
    assert_eq!(second, Ok(RegisterOutcome::AlreadyExists));

    let all = store.list_all();
    assert_eq!(all.len(), 1);
    assert_eq!(all[0].id, 1);
    assert_eq!(all[0].device_id, "dev-a");
    assert_eq!(all[0].data.endpoint, "https://push.example/abc");
    assert_eq!(all[0].data.expiration_time, None);
}

#[test]
fn register_rejects_malformed_payload() {
    let mut store = SubscriptionStore::new();
    let no_endpoint = store.register("dev".to_string(), data("", "K1", "A1"));
    assert_eq!(no_endpoint, Err(RegisterError::Validation));
    let no_p256dh = store.register("dev".to_string(), data("https://push.example/a", "", "A1"));
    assert_eq!(no_p256dh, Err(RegisterError::Validation));
    let no_auth = store.register("dev".to_string(), data("https://push.example/a", "K1", ""));
    assert_eq!(no_auth, Err(RegisterError::Validation));
    assert_eq!(store.list_all().len(), 0);
}

#[test]
fn register_rejects_scheme_less_endpoints() {
    // An endpoint without a web scheme never reaches the store: the
    // signer downstream cannot answer for such a URI.
    let mut store = SubscriptionStore::new();
    for endpoint in ["/", "/abc", "example.com/push", "ftp://example.com", "http://", "https://"] {
        let refused = store.register("dev".to_string(), data(endpoint, "K1", "A1"));
        assert_eq!(refused, Err(RegisterError::Validation), "endpoint {:?}", endpoint);
    }
    assert_eq!(store.list_all().len(), 0);
}

#[test]
fn endpoint_is_web_decides_the_scheme() {
    assert!(data("https://push.example/abc", "K", "A").endpoint_is_web());
    assert!(data("http://localhost/p", "K", "A").endpoint_is_web());
    assert!(data("https://x", "K", "A").endpoint_is_web());
    assert!(!data("https://", "K", "A").endpoint_is_web());
    assert!(!data("http://", "K", "A").endpoint_is_web());
    assert!(!data("httpx://push.example", "K", "A").endpoint_is_web());
    assert!(!data("HTTPS://push.example/abc", "K", "A").endpoint_is_web());
    assert!(!data("/abc", "K", "A").endpoint_is_web());
    assert!(!data("", "K", "A").endpoint_is_web());
}

#[test]
fn register_contended_fingerprint_creates_once() {
    let mut store = SubscriptionStore::new();
    let mut created = 0;
    let mut already = 0;
    for k in 0..5 {
        let device = format!("dev-{}", k);
        match store.register(device, data("https://push.example/same", "K1", "A1")) {
            Ok(RegisterOutcome::Created) => created += 1,
            Ok(RegisterOutcome::AlreadyExists) => already += 1,
            Err(e) => panic!("unexpected register error: {:?}", e),
        }
    }
    assert_eq!(created, 1);
    assert_eq!(already, 4);
    assert_eq!(store.list_all().len(), 1);
}

#[test]
fn find_by_fingerprint_is_exact() {
    let mut store = SubscriptionStore::new();
    store.register("dev-a".to_string(), data("https://push.example/a", "K1", "A1")).unwrap();
    store.register("dev-b".to_string(), data("https://push.example/b", "K2", "A2")).unwrap();

    let hit = store.find_by_fingerprint(&data("https://push.example/a", "K1", "A1"));
    assert_eq!(hit.unwrap().id, 1);

    // The whole triple must match; a differing auth secret is a different
    // subscription.
    let near_miss = store.find_by_fingerprint(&data("https://push.example/a", "K1", "A2"));
    assert!(near_miss.is_none());

    let absent = store.find_by_fingerprint(&data("https://push.example/c", "K3", "A3"));
    assert!(absent.is_none());

    let delegate = Subscription::find_by_subscribe_data(
        &store,
        &data("https://push.example/b", "K2", "A2"),
    );
    assert_eq!(delegate.unwrap().id, 2);
}

#[test]
fn find_by_device_returns_most_recent() {
    let mut store = SubscriptionStore::new();
    store.register("dev-a".to_string(), data("https://push.example/a", "K1", "A1")).unwrap();
    store.register("dev-b".to_string(), data("https://push.example/b", "K2", "A2")).unwrap();
    store.register("dev-a".to_string(), data("https://push.example/c", "K3", "A3")).unwrap();

    let latest = store.find_by_device(&"dev-a".to_string()).unwrap();
    assert_eq!(latest.id, 3);
    assert_eq!(latest.data.endpoint, "https://push.example/c");

    let other = Subscription::new_with_device_id(&store, "dev-b".to_string()).unwrap();
    assert_eq!(other.id, 2);

    assert!(store.find_by_device(&"dev-c".to_string()).is_none());
    assert!(Subscription::new_with_device_id(&store, "dev-c".to_string()).is_none());
}

#[test]
fn remove_by_fingerprint_deletes_exactly_one() {
    let mut store = SubscriptionStore::new();
    store.register("dev-a".to_string(), data("https://push.example/a", "K1", "A1")).unwrap();
    store.register("dev-b".to_string(), data("https://push.example/b", "K2", "A2")).unwrap();

    let removed = store.remove_by_fingerprint(&data("https://push.example/a", "K1", "A1"));
    assert_eq!(removed.unwrap().id, 1);
    assert_eq!(store.list_all().len(), 1);
    assert_eq!(store.list_all()[0].id, 2);

    let nothing = store.remove_by_fingerprint(&data("https://push.example/a", "K1", "A1"));
    assert!(nothing.is_none());

    // The fingerprint is free again; a new registration creates a new
    // record under a fresh id, ids never being reused.
    let again = store.register("dev-a".to_string(), data("https://push.example/a", "K1", "A1"));
    assert_eq!(again, Ok(RegisterOutcome::Created));
    assert_eq!(store.list_all()[1].id, 3);
}

#[test]
fn ids_grow_with_creation_order() {
    let mut store = SubscriptionStore::new();
    for k in 0..4 {
        let endpoint = format!("https://push.example/{}", k);
        store.register("dev".to_string(), data(&endpoint, "K", "A")).unwrap();
    }
    let all = store.list_all();
    assert_eq!(all.len(), 4);
    for k in 0..4 {
        assert_eq!(all[k].id, k as i64 + 1);
    }
}
