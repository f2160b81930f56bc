//! Subscription registry and fan-out delivery engine for web push
//! notifications.
//!
//! The library keeps the registry of push subscriptions (deduplicated by the
//! `(endpoint, p256dh, auth)` fingerprint), resolves opaque device identities,
//! frames notification payloads, builds wire messages through the `web_push`
//! crate, and aggregates per-target delivery outcomes for a broadcast. The
//! HTTP layer and the asynchronous transport live outside the library and
//! hand plain values in and out.

pub mod dispatch;
pub mod identity;
pub mod notification;
pub mod payload;
pub mod push;
pub mod store;
pub mod subscription;
