use push_fanout::notification::Notification;
use push_fanout::payload::encode_notification_json;

fn note(title: &str, body: &str) -> Notification {
    Notification { title: title.to_string(), body: body.to_string() }
}

#[test]
fn payload_json_plain_text() {
    let payload = note("T", "B").payload_json();
    assert_eq!(payload, b"{\"title\":\"T\",\"body\":\"B\"}".to_vec());
}

#[test]
fn payload_json_escapes_quotes_and_backslashes() {
    let payload = note("a\"b", "c\\d").payload_json();
    assert_eq!(
        payload,
        b"{\"title\":\"a\\\"b\",\"body\":\"c\\\\d\"}".to_vec()
    );
}

#[test]
fn payload_json_escapes_named_control_characters() {
    let payload = note("a\nb\tc", "d\re\u{8}f\u{c}g").payload_json();
    assert_eq!(
        payload,
        b"{\"title\":\"a\\nb\\tc\",\"body\":\"d\\re\\bf\\fg\"}".to_vec()
    );
}

#[test]
fn payload_json_escapes_other_control_characters_as_hex() {
    let payload = note("a\u{1}b", "c\u{1f}d").payload_json();
    assert_eq!(
        payload,
        b"{\"title\":\"a\\u0001b\",\"body\":\"c\\u001fd\"}".to_vec()
    );
}

#[test]
fn payload_json_passes_unicode_through() {
    let payload = note("h\u{e9}llo", "\u{2600} day").payload_json();
    let expected: Vec<u8> = "{\"title\":\"h\u{e9}llo\",\"body\":\"\u{2600} day\"}"
        .as_bytes()
        .to_vec();
    assert_eq!(payload, expected);
}

#[test]
fn payload_json_free_function_agrees() {
    let payload = encode_notification_json("T", "B");
    assert_eq!(payload, note("T", "B").payload_json());
}

#[test]
fn payload_json_empty_strings() {
    let payload = note("", "").payload_json();
    assert_eq!(payload, b"{\"title\":\"\",\"body\":\"\"}".to_vec());
}
