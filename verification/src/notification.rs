//! The notification message: an immutable title/body pair, constructed per
//! dispatch call and never persisted.

use vstd::prelude::*;

use crate::payload::{encode_notification_json, notification_json};

verus! {

/// One notification to deliver: a title and a body.
#[derive(Clone, Debug)]
pub struct Notification {
    /// Title shown to the user.
    pub title: String,
    /// Body text shown under the title.
    pub body: String,
}

/// Mathematical image of [`Notification`].
pub struct NotificationView {
    pub title: Seq<char>,
    pub body: Seq<char>,
}

impl View for Notification {
    type V = NotificationView;

    open spec fn view(&self) -> NotificationView {
        NotificationView { title: self.title@, body: self.body@ }
    }
}

impl Notification {
    /// The JSON payload bytes this notification goes out as.
    pub fn payload_json(&self) -> (r: Vec<u8>)
        ensures
            r@ == notification_json(self@.title, self@.body),
    {
        encode_notification_json(self.title.as_str(), self.body.as_str())
    }
}

} // verus!
