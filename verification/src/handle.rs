//! The notification handle: notification content paired with the identifier
//! the daemon assigned when that content was last shown, and the update
//! protocol that replaces the visible notification in place.

use vstd::prelude::*;

use crate::dispatch::{
    decode_dispatch, decoded, dispatch_arg_list, dispatch_args, outcome_view, Error,
};
use crate::notification::{Notification, NotificationView};

verus! {

/// Notification content together with the identifier the daemon assigned
/// the last time that content was successfully shown.  Between a content
/// mutation and the next successful update the identifier is stale: it
/// names the previously displayed content.
#[derive(Debug)]
pub struct NotificationHandle {
    id: u32,
    notification: Notification,
}

/// The mathematical content of a [`NotificationHandle`].
pub ghost struct HandleView {
    pub id: u32,
    pub content: NotificationView,
}

impl View for NotificationHandle {
    type V = HandleView;

    closed spec fn view(&self) -> HandleView {
        HandleView { id: self.id, content: self.notification@ }
    }
}

impl Clone for NotificationHandle {
    /// An independent copy with the same content and identifier.
    fn clone(&self) -> (r: Self)
        ensures
            r@ == self@,
    {
        NotificationHandle { id: self.id, notification: self.notification.clone() }
    }
}

impl NotificationHandle {
    /// Returns the Handle's id.
    pub fn id(&self) -> (r: u32)
        ensures
            r == self@.id,
    {
        self.id
    }

    /// Read access to the wrapped notification content.
    pub fn content(&self) -> (r: &Notification)
        ensures
            r@ == self@.content,
    {
        &self.notification
    }

    /// Write access to the wrapped notification content.  Mutating content
    /// does not itself contact the daemon; only an update call does.
    pub fn content_mut(&mut self) -> (r: &mut Notification)
        ensures
            r@ == old(self)@.content,
            final(self)@.content == (*final(r))@,
            final(self)@.id == old(self)@.id,
    {
        &mut self.notification
    }

    /// The argument list of the dispatch that updates this handle: the
    /// current content, with this handle's identifier as the replace
    /// target.
    pub fn update_args(&self) -> (r: Vec<String>)
        ensures
            r.deep_view() == dispatch_arg_list(self@.content, Some(self@.id)),
    {
        dispatch_args(&self.notification, Some(self.id))
    }

    /// Applies the outcome of an update dispatch.  On a decoded identifier
    /// the handle records it and the content is left untouched; on a
    /// failure the handle is unchanged, the stale identifier in place, and
    /// the error is returned.
    pub fn update_fallible(&mut self, outcome: Option<Vec<u8>>) -> (r: Result<(), Error>)
        ensures
            final(self)@.content == old(self)@.content,
            (match decoded(outcome_view(outcome)) {
                Ok(new_id) => r is Ok && final(self)@.id == new_id,
                Err(e) => r == Err::<(), Error>(e) && final(self)@.id == old(self)@.id,
            }),
    {
        match decode_dispatch(outcome) {
            Ok(new_id) => {
                self.id = new_id;
                Ok(())
            },
            Err(e) => Err(e),
        }
    }

    /// The variant of [`Self::update_fallible`] for call sites that treat a
    /// failed update as fatal: it accepts only outcomes that decode to an
    /// identifier, so it cannot fail.  An unverified caller holding an
    /// arbitrary outcome must test it and abort itself where the decode
    /// fails.
    pub fn update(&mut self, outcome: Option<Vec<u8>>)
        requires
            decoded(outcome_view(outcome)) is Ok,
        ensures
            final(self)@.content == old(self)@.content,
            final(self)@.id == decoded(outcome_view(outcome))->Ok_0,
    {
        let _ = self.update_fallible(outcome);
    }
}

/// Builds a handle from the outcome of a first dispatch of `notification`
/// (one with no replace target): on a decoded identifier, a handle wrapping
/// an independent copy of the content and that identifier; on a failure,
/// the error unchanged.
pub fn show_notification(notification: &Notification, outcome: Option<Vec<u8>>) -> (r: Result<
    NotificationHandle,
    Error,
>)
    ensures
        (match decoded(outcome_view(outcome)) {
            Ok(id) => r is Ok && r->Ok_0@.id == id && r->Ok_0@.content == notification@,
            Err(e) => r == Err::<NotificationHandle, Error>(e),
        }),
{
    match decode_dispatch(outcome) {
        Ok(id) => Ok(NotificationHandle { id, notification: notification.clone() }),
        Err(e) => Err(e),
    }
}

} // verus!
