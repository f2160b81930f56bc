//! Subscription records and their fingerprint identity.
//!
//! A subscription is a registered push endpoint together with the keys
//! needed to encrypt messages to it. Two subscriptions are the same
//! subscription exactly when they agree on the `(endpoint, p256dh, auth)`
//! triple, called the fingerprint; the device that registered them does not
//! enter into it.

use vstd::prelude::*;
use vstd::string::StringSliceAdditionalSpecFns;
use vstd::utf8::encode_utf8;

verus! {

/// The bytes of `http://`.
pub open spec fn http_scheme_prefix() -> Seq<u8> {
    seq![0x68u8, 0x74u8, 0x74u8, 0x70u8, 0x3au8, 0x2fu8, 0x2fu8]
}

/// The bytes of `https://`.
pub open spec fn https_scheme_prefix() -> Seq<u8> {
    seq![0x68u8, 0x74u8, 0x74u8, 0x70u8, 0x73u8, 0x3au8, 0x2fu8, 0x2fu8]
}

/// Whether `bytes` begin with `http://` or `https://`, with at least one
/// byte after the scheme. Only an endpoint of this shape may be handed to
/// the signing stage: it either parses as a URI carrying both a scheme
/// and a host, or the push stack refuses it as an error — whereas a
/// scheme-less endpoint can make the signer fail irrecoverably when it
/// reads the scheme and host back out of the parsed URI.
pub open spec fn has_web_scheme(bytes: Seq<u8>) -> bool {
    ||| (bytes.len() > 7 && bytes.take(7) == http_scheme_prefix())
    ||| (bytes.len() > 8 && bytes.take(8) == https_scheme_prefix())
}

/// Decides whether these endpoint bytes begin with a web scheme.
fn endpoint_bytes_have_web_scheme(b: &[u8]) -> (r: bool)
    ensures
        r == has_web_scheme(b@),
{
    let is_http = b.len() > 7 && b[0] == 0x68 && b[1] == 0x74 && b[2] == 0x74 && b[3] == 0x70
        && b[4] == 0x3a && b[5] == 0x2f && b[6] == 0x2f;
    let is_https = b.len() > 8 && b[0] == 0x68 && b[1] == 0x74 && b[2] == 0x74 && b[3] == 0x70
        && b[4] == 0x73 && b[5] == 0x3a && b[6] == 0x2f && b[7] == 0x2f;
    proof {
        if is_http {
            assert(b@.take(7) =~= http_scheme_prefix());
        }
        if is_https {
            assert(b@.take(8) =~= https_scheme_prefix());
        }
        if b@.len() > 7 && b@.take(7) == http_scheme_prefix() {
            assert forall|i: int| 0 <= i < 7 implies b@[i] == http_scheme_prefix()[i] by {
                assert(b@.take(7)[i] == b@[i]);
            }
        }
        if b@.len() > 8 && b@.take(8) == https_scheme_prefix() {
            assert forall|i: int| 0 <= i < 8 implies b@[i] == https_scheme_prefix()[i] by {
                assert(b@.take(8)[i] == b@[i]);
            }
        }
    }
    is_http || is_https
}

/// Encryption keys handed over by the client when it subscribes.
#[derive(Clone, Debug)]
pub struct Keys {
    /// Public key of the client, base64 encoded.
    pub p256dh: String,
    /// Authentication secret of the client, base64 encoded.
    pub auth: String,
}

/// Mathematical image of [`Keys`]: both keys as character sequences.
pub struct KeysView {
    pub p256dh: Seq<char>,
    pub auth: Seq<char>,
}

impl View for Keys {
    type V = KeysView;

    open spec fn view(&self) -> KeysView {
        KeysView { p256dh: self.p256dh@, auth: self.auth@ }
    }
}

/// The payload of a subscribe call: where to push and with which keys.
#[derive(Clone, Debug)]
pub struct SubscribeData {
    /// Optional expiration of the subscription, in milliseconds.
    pub expiration_time: Option<i64>,
    /// The endpoint URI the push service listens on.
    pub endpoint: String,
    /// The client's encryption keys.
    pub keys: Keys,
}

/// Mathematical image of [`SubscribeData`].
pub struct SubscribeDataView {
    pub expiration_time: Option<int>,
    pub endpoint: Seq<char>,
    pub keys: KeysView,
}

impl View for SubscribeData {
    type V = SubscribeDataView;

    open spec fn view(&self) -> SubscribeDataView {
        SubscribeDataView {
            expiration_time: match self.expiration_time {
                Some(t) => Some(t as int),
                None => None,
            },
            endpoint: self.endpoint@,
            keys: self.keys@,
        }
    }
}

impl SubscribeDataView {
    /// The identity of a subscription: the `(endpoint, p256dh, auth)` triple.
    pub open spec fn fingerprint(self) -> (Seq<char>, Seq<char>, Seq<char>) {
        (self.endpoint, self.keys.p256dh, self.keys.auth)
    }

    /// Whether the endpoint names a web URI: `http://` or `https://`
    /// followed by at least one character.
    pub open spec fn has_web_endpoint(self) -> bool {
        has_web_scheme(encode_utf8(self.endpoint))
    }

    /// A payload is well formed when its endpoint names a web URI and
    /// neither key is empty.
    pub open spec fn is_valid(self) -> bool {
        &&& self.has_web_endpoint()
        &&& self.keys.p256dh.len() > 0
        &&& self.keys.auth.len() > 0
    }
}

impl SubscribeData {
    /// Decides whether the endpoint names a web URI the push stack can
    /// address.
    pub fn endpoint_is_web(&self) -> (r: bool)
        ensures
            r == self@.has_web_endpoint(),
    {
        endpoint_bytes_have_web_scheme(self.endpoint.as_str().as_bytes())
    }

    /// Decides whether this payload is well formed; malformed payloads are
    /// rejected before they reach the store.
    pub fn validate(&self) -> (r: bool)
        ensures
            r == self@.is_valid(),
    {
        self.endpoint_is_web() && !self.keys.p256dh.as_str().is_empty()
            && !self.keys.auth.as_str().is_empty()
    }

    /// Decides whether `self` and `other` identify the same subscription,
    /// that is, whether their fingerprints agree.
    pub fn same_fingerprint(&self, other: &SubscribeData) -> (r: bool)
        ensures
            r == (self@.fingerprint() == other@.fingerprint()),
    {
        self.endpoint == other.endpoint && self.keys.p256dh == other.keys.p256dh
            && self.keys.auth == other.keys.auth
    }
}

/// A registered subscription: a payload bound to a device under an opaque
/// sequence id.
#[derive(Clone, Debug)]
pub struct Subscription {
    /// Opaque sequence id, assigned by the store at registration.
    pub id: i64,
    /// The payload the client subscribed with.
    pub data: SubscribeData,
    /// The device identity the subscription was registered under.
    pub device_id: String,
}

/// Mathematical image of [`Subscription`].
pub struct SubscriptionView {
    pub id: int,
    pub data: SubscribeDataView,
    pub device_id: Seq<char>,
}

impl View for Subscription {
    type V = SubscriptionView;

    open spec fn view(&self) -> SubscriptionView {
        SubscriptionView { id: self.id as int, data: self.data@, device_id: self.device_id@ }
    }
}

} // verus!
