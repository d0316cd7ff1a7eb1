//! The content of a desktop notification: the display fields the external
//! notifier program is handed, and the timeout policy.

use vstd::prelude::*;

verus! {

/// How long a notification stays on screen: the daemon's default, pinned
/// until dismissed, or a fixed number of milliseconds.
#[derive(Clone, Copy, Debug, PartialEq, Eq, Structural)]
pub enum Timeout {
    Default,
    Never,
    Milliseconds(u32),
}

/// The content of one desktop notification.
#[derive(Debug)]
pub struct Notification {
    pub appname: String,
    pub icon: String,
    pub summary: String,
    pub body: String,
    pub timeout: Timeout,
}

/// The mathematical content of a [`Notification`]: each text field as a
/// sequence of characters, plus the timeout policy.
pub ghost struct NotificationView {
    pub appname: Seq<char>,
    pub icon: Seq<char>,
    pub summary: Seq<char>,
    pub body: Seq<char>,
    pub timeout: Timeout,
}

impl View for Notification {
    type V = NotificationView;

    open spec fn view(&self) -> NotificationView {
        NotificationView {
            appname: self.appname@,
            icon: self.icon@,
            summary: self.summary@,
            body: self.body@,
            timeout: self.timeout,
        }
    }
}

impl Clone for Notification {
    /// An independent copy with the same content.
    fn clone(&self) -> (r: Self)
        ensures
            r == *self,
    {
        Notification {
            appname: self.appname.clone(),
            icon: self.icon.clone(),
            summary: self.summary.clone(),
            body: self.body.clone(),
            timeout: self.timeout,
        }
    }
}

} // verus!
