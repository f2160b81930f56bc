//! Building wire messages through the `web_push` crate.
//!
//! Signing and payload encryption for the wire-level push protocol belong
//! to `web_push`; the library hands it the verified JSON payload and the
//! subscription's endpoint and keys, and carries its answer — an opaque
//! ready-to-send message, or the reason none could be built. The
//! asynchronous transport that sends the message runs outside the
//! library.

use vstd::prelude::*;

use vstd::string::StringSliceAdditionalSpecFns;

use crate::dispatch::DeliveryError;
use crate::notification::Notification;
use crate::subscription::{has_web_scheme, Subscription};

verus! {

/// `web_push`'s VAPID signature, opaque to the library.
#[verifier::external_type_specification]
#[verifier::external_body]
pub struct ExVapidSignature(web_push::VapidSignature);

/// `web_push`'s ready-to-send message, opaque to the library.
#[verifier::external_type_specification]
#[verifier::external_body]
pub struct ExWebPushMessage(web_push::WebPushMessage);

/// Relies on `web_push::VapidSignatureBuilder::from_base64` (URL-safe
/// alphabet, no padding) and its `build`: the VAPID signature for this
/// endpoint under the given signing key, or the reason none could be
/// produced. Signing draws fresh randomness, so nothing is assumed about
/// the signature's value.
///
/// The endpoint must begin with a web scheme: `build` reads the scheme
/// and the host back out of the parsed URI without a fallback, so on an
/// endpoint that parses without them (`/`, a bare host) it would panic
/// instead of returning an error. With the scheme prefix the endpoint
/// either parses with both — the URI parser refuses an empty authority —
/// or `build` returns the parse error.
#[verifier::external_body]
fn vapid_signature_for(endpoint: &str, p256dh: &str, auth: &str, signing_key: &str) -> (r: Result<
    web_push::VapidSignature,
    String,
>)
    requires
        has_web_scheme(endpoint.spec_bytes()),
{
    let info = web_push::SubscriptionInfo::new(endpoint, p256dh, auth);
    let builder = match web_push::VapidSignatureBuilder::from_base64(
        signing_key,
        web_push::URL_SAFE_NO_PAD,
        &info,
    ) {
        Ok(builder) => builder,
        Err(e) => return Err(format!("{}", e)),
    };
    match builder.build() {
        Ok(signature) => Ok(signature),
        Err(e) => Err(format!("{}", e)),
    }
}

/// Relies on `web_push::WebPushMessageBuilder`: assembles the message for
/// this endpoint, encrypting `payload` under aes128gcm with the client's
/// keys and attaching the VAPID signature, or reports the reason it
/// cannot. Encryption draws fresh randomness, so nothing is assumed about
/// the message's value.
#[verifier::external_body]
fn encrypt_message(
    endpoint: &str,
    p256dh: &str,
    auth: &str,
    signature: web_push::VapidSignature,
    payload: &Vec<u8>,
) -> (r: Result<web_push::WebPushMessage, String>) {
    let info = web_push::SubscriptionInfo::new(endpoint, p256dh, auth);
    let mut builder = web_push::WebPushMessageBuilder::new(&info);
    builder.set_payload(web_push::ContentEncoding::Aes128Gcm, payload.as_slice());
    builder.set_vapid_signature(signature);
    match builder.build() {
        Ok(message) => Ok(message),
        Err(e) => Err(format!("{}", e)),
    }
}

impl Subscription {
    /// Builds the wire message that delivers `notification` to this
    /// subscription: the verified JSON payload, signed for this endpoint
    /// and encrypted to the client's keys by `web_push`. The only
    /// failures are a `Signing` or an `Encryption` failure of this one
    /// target; the transport is not involved yet.
    ///
    /// The endpoint must name a web URI — the shape every registered
    /// subscription has, and what `SubscribeData::endpoint_is_web`
    /// decides — since the signer cannot answer for one without a scheme.
    pub fn create_notification(&self, private_key: &str, notification: &Notification) -> (r:
        Result<web_push::WebPushMessage, DeliveryError>)
        requires
            self.data@.has_web_endpoint(),
        ensures
            r matches Err(e) ==> (e is Signing || e is Encryption),
    {
        let payload = notification.payload_json();
        let signature = match vapid_signature_for(
            self.data.endpoint.as_str(),
            self.data.keys.p256dh.as_str(),
            self.data.keys.auth.as_str(),
            private_key,
        ) {
            Ok(signature) => signature,
            Err(reason) => return Err(DeliveryError::Signing(reason)),
        };
        match encrypt_message(
            self.data.endpoint.as_str(),
            self.data.keys.p256dh.as_str(),
            self.data.keys.auth.as_str(),
            signature,
            &payload,
        ) {
            Ok(message) => Ok(message),
            Err(reason) => Err(DeliveryError::Encryption(reason)),
        }
    }
}

impl Notification {
    /// Builds the wire message that delivers this notification to
    /// `subscription`, whose endpoint must name a web URI.
    pub fn build(&self, private_key: &str, subscription: &Subscription) -> (r: Result<
        web_push::WebPushMessage,
        DeliveryError,
    >)
        requires
            subscription.data@.has_web_endpoint(),
        ensures
            r matches Err(e) ==> (e is Signing || e is Encryption),
    {
        subscription.create_notification(private_key, self)
    }
}

} // verus!
