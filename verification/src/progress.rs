//! The per-job progress bus: a multi-subscriber broadcast channel carrying
//! `ProgressEvent`s. Delivery is best effort — a publish never blocks on
//! subscribers, and a slow or absent subscriber just misses events.

use vstd::prelude::*;
use crate::api_types::ProgressEvent;

verus! {

/// The sending half of tokio's broadcast channel, which carries a job's
/// progress events to its subscribers.
#[verifier::external_type_specification]
#[verifier::external_body]
#[verifier::reject_recursive_types(T)]
pub struct ExBroadcastSender<T>(tokio::sync::broadcast::Sender<T>);

/// Relies on `tokio::sync::broadcast::Sender::clone`: a clone is another
/// sending handle of the same channel.
pub assume_specification<T>[ <tokio::sync::broadcast::Sender<T> as core::clone::Clone>::clone ](
    sender: &tokio::sync::broadcast::Sender<T>,
) -> tokio::sync::broadcast::Sender<T>;

/// Relies on `tokio::sync::broadcast::channel`: makes a fresh broadcast
/// channel holding up to `capacity` events and returns its sending half (the
/// initial receiving half is dropped; subscribers are made from the sender).
/// The call panics outside the capacity bounds required here.
#[verifier::external_body]
pub(crate) fn new_progress_sender(capacity: usize) -> tokio::sync::broadcast::Sender<ProgressEvent>
    requires
        0 < capacity <= usize::MAX / 2,
{
    let (tx, _rx) = tokio::sync::broadcast::channel(capacity);
    tx
}

/// Relies on `tokio::sync::broadcast::Sender::send`: hands the event to the
/// receivers subscribed now. Without receivers the send reports an error,
/// which the bus deliberately drops — delivery is at most once, best effort.
#[verifier::external_body]
pub(crate) fn send_progress(sender: &tokio::sync::broadcast::Sender<ProgressEvent>, event: ProgressEvent) {
    let _ = sender.send(event);
}

/// A handle the download and merge stages report progress through.
#[derive(Clone)]
pub struct ProgressSender {
    sender: tokio::sync::broadcast::Sender<ProgressEvent>,
}

impl ProgressSender {
    /// Wraps the sending half of a job's broadcast channel.
    pub fn new(sender: tokio::sync::broadcast::Sender<ProgressEvent>) -> ProgressSender {
        ProgressSender { sender }
    }

    /// Publishes one event to whoever is subscribed right now.
    pub fn send(&self, event: ProgressEvent) {
        send_progress(&self.sender, event);
    }
}

} // verus!
