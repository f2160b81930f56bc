use push_fanout::dispatch::DeliveryError;
use push_fanout::notification::Notification;
use push_fanout::subscription::{Keys, SubscribeData, Subscription};

// Key material of the shape a browser hands over on subscribing; the
// p256dh value is a real uncompressed P-256 point and the auth secret is
// 16 bytes, so payload encryption has valid inputs to work with.
const P256DH: &str = "BMKQlz6BHaqg_50X-keDzECQscc72EFiYKfoBBH46eknEAiDqwafG6yj4yhbcEEdCV5wE_b6okIgLy_j5Yfi80E";
const AUTH: &str = "JaOBe4ogueg1zizYIR9fYQ";

fn subscription() -> Subscription {
    Subscription {
        id: 1,
        device_id: "dev-a".to_string(),
        data: SubscribeData {
            expiration_time: None,
            endpoint: "https://push.example/abc".to_string(),
            keys: Keys { p256dh: P256DH.to_string(), auth: AUTH.to_string() },
        },
    }
}

// URL-safe base64 without padding, enough to render a raw signing key.
fn b64url_no_pad(data: &[u8]) -> String {
    let alphabet: &[u8; 64] =
        b"ABCDEFGHIJKLMNOPQRSTUVWXYZabcdefghijklmnopqrstuvwxyz0123456789-_";
    let mut out = String::new();
    for chunk in data.chunks(3) {
        let b0 = chunk[0] as u32;
        let b1 = *chunk.get(1).unwrap_or(&0) as u32;
        let b2 = *chunk.get(2).unwrap_or(&0) as u32;
        let triple = (b0 << 16) | (b1 << 8) | b2;
        out.push(alphabet[((triple >> 18) & 63) as usize] as char);
        out.push(alphabet[((triple >> 12) & 63) as usize] as char);
        if chunk.len() > 1 {
            out.push(alphabet[((triple >> 6) & 63) as usize] as char);
        }
        if chunk.len() > 2 {
            out.push(alphabet[(triple & 63) as usize] as char);
        }
    }
    out
}

fn signing_key() -> String {
    // Any nonzero 32-byte scalar below the P-256 group order is a valid
    // private key; this one is fixed so the test is deterministic.
    b64url_no_pad(&[1u8; 32])
}

#[test]
fn create_notification_builds_a_message() {
    let sub = subscription();
    let note = Notification { title: "T".to_string(), body: "B".to_string() };
    let message = sub.create_notification(&signing_key(), &note).unwrap();
    assert_eq!(message.endpoint.to_string(), "https://push.example/abc");
    let payload = message.payload.expect("an encrypted payload");
    assert!(!payload.content.is_empty());
}

#[test]
fn create_notification_rejects_a_bad_signing_key() {
    let sub = subscription();
    let note = Notification { title: "T".to_string(), body: "B".to_string() };
    let err = sub.create_notification("not base64 at all!!", &note).unwrap_err();
    assert!(matches!(err, DeliveryError::Signing(_)));
}

#[test]
fn create_notification_rejects_bad_client_keys() {
    let mut sub = subscription();
    // Four bytes are no P-256 point: encryption cannot start.
    sub.data.keys.p256dh = "AAAA".to_string();
    let note = Notification { title: "T".to_string(), body: "B".to_string() };
    let err = sub.create_notification(&signing_key(), &note).unwrap_err();
    assert!(matches!(err, DeliveryError::Encryption(_)));
}

#[test]
fn build_delegates_to_the_subscription() {
    let sub = subscription();
    let note = Notification { title: "T".to_string(), body: "B".to_string() };
    let message = note.build(&signing_key(), &sub).unwrap();
    assert_eq!(message.endpoint.to_string(), "https://push.example/abc");
}
