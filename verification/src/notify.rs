//! Notifications for the user: what is shown, with which icon and colour,
//! and for how long.

use vstd::prelude::*;
use vstd::string::*;

verus! {

/// The kinds of notification.
#[derive(Clone, Copy, Debug, PartialEq, Eq, Structural)]
pub enum NotificationKind {
    Info,
    Success,
    Warning,
    Error,
    Hint,
}

/// The icon level of the compositor for a kind of notification: 0 is a
/// warning, 1 information, 2 a hint, 3 an error.
pub open spec fn icon_of(kind: NotificationKind) -> i32 {
    match kind {
        NotificationKind::Warning => 0,
        NotificationKind::Info => 1,
        NotificationKind::Hint => 2,
        NotificationKind::Error => 3,
        NotificationKind::Success => 1,
    }
}

/// The icon level of the compositor for `kind`.
pub fn icon_for(kind: NotificationKind) -> (r: i32)
    ensures
        r == icon_of(kind),
{
    match kind {
        NotificationKind::Warning => 0,
        NotificationKind::Info => 1,
        NotificationKind::Hint => 2,
        NotificationKind::Error => 3,
        NotificationKind::Success => 1,
    }
}

/// A notification that is ready to be shown.
#[derive(Debug, PartialEq, Eq)]
pub struct Notification {
    pub kind: NotificationKind,
    pub text: String,
    pub color: String,
    pub duration_ms: u32,
}

/// What a notification holds.
pub struct NotificationView {
    pub kind: NotificationKind,
    pub text: Seq<char>,
    pub color: Seq<char>,
    pub duration_ms: u32,
}

impl View for Notification {
    type V = NotificationView;

    open spec fn view(&self) -> NotificationView {
        NotificationView {
            kind: self.kind,
            text: self.text@,
            color: self.color@,
            duration_ms: self.duration_ms,
        }
    }
}

/// The notification of an event: title and message, in blue, for five
/// seconds.
pub open spec fn info_note(title: Seq<char>, message: Seq<char>) -> NotificationView {
    NotificationView {
        kind: NotificationKind::Info,
        text: title + ": "@ + message,
        color: "rgb(88ccff)"@,
        duration_ms: 5000,
    }
}

/// The notification of a failure: the message, in red, for eight seconds.
pub open spec fn error_note(message: Seq<char>) -> NotificationView {
    NotificationView {
        kind: NotificationKind::Error,
        text: message,
        color: "rgb(ff8888)"@,
        duration_ms: 8000,
    }
}

/// The notification of a success: the message, in green, for three seconds.
pub open spec fn success_note(message: Seq<char>) -> NotificationView {
    NotificationView {
        kind: NotificationKind::Success,
        text: message,
        color: "rgb(88ff88)"@,
        duration_ms: 3000,
    }
}

/// The notification of an event.
pub fn send(title: &str, message: &str) -> (r: Notification)
    ensures
        r@ == info_note(title@, message@),
{
    let mut text = String::from_str(title);
    text.append(": ");
    text.append(message);
    Notification {
        kind: NotificationKind::Info,
        text,
        color: String::from_str("rgb(88ccff)"),
        duration_ms: 5000,
    }
}

/// The notification of a failure.
pub fn send_error(message: &str) -> (r: Notification)
    ensures
        r@ == error_note(message@),
{
    Notification {
        kind: NotificationKind::Error,
        text: String::from_str(message),
        color: String::from_str("rgb(ff8888)"),
        duration_ms: 8000,
    }
}

/// The notification of a success.
pub fn send_success(message: &str) -> (r: Notification)
    ensures
        r@ == success_note(message@),
{
    Notification {
        kind: NotificationKind::Success,
        text: String::from_str(message),
        color: String::from_str("rgb(88ff88)"),
        duration_ms: 3000,
    }
}

} // verus!
