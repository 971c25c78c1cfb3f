//! The change notifier's side of the program: what to do with each result
//! the file watcher delivers, and the channel that carries change signals to
//! the consumer.
//!
//! A modification is forwarded as one signal on a bounded channel. The channel
//! has a single slot: while a signal waits there, further ones are dropped, so
//! a burst of notifications reaches the consumer as one change.

use crate::endpoints::SIGNAL_CAPACITY;
use vstd::prelude::*;

verus! {

/// `notify::Event`, one file-system event as the watcher reports it: its
/// kind, the paths it is about and further attributes.
#[verifier::external_type_specification]
pub struct ExEvent(notify::Event);

/// `notify::EventKind`, the top-level kind of an event, with its variants.
#[verifier::external_type_specification]
pub struct ExEventKind(notify::EventKind);

/// `notify::event::AccessKind`, the detail of an access event. Nothing inside
/// it is visible here.
#[verifier::external_type_specification]
#[verifier::external_body]
pub struct ExAccessKind(notify::event::AccessKind);

/// `notify::event::CreateKind`, the detail of a creation event. Nothing inside
/// it is visible here.
#[verifier::external_type_specification]
#[verifier::external_body]
pub struct ExCreateKind(notify::event::CreateKind);

/// `notify::event::ModifyKind`, the detail of a modification event. Nothing
/// inside it is visible here.
#[verifier::external_type_specification]
#[verifier::external_body]
pub struct ExModifyKind(notify::event::ModifyKind);

/// `notify::event::RemoveKind`, the detail of a removal event. Nothing inside
/// it is visible here.
#[verifier::external_type_specification]
#[verifier::external_body]
pub struct ExRemoveKind(notify::event::RemoveKind);

/// `notify::event::EventAttributes`, the further attributes of an event.
/// Nothing inside it is visible here.
#[verifier::external_type_specification]
#[verifier::external_body]
pub struct ExEventAttributes(notify::event::EventAttributes);

/// `std::path::PathBuf`, an owned file-system path. Nothing inside it is
/// visible here.
#[verifier::external_type_specification]
#[verifier::external_body]
pub struct ExPathBuf(std::path::PathBuf);

/// `notify::Error`, the watcher's error. Nothing inside it is visible here.
#[verifier::external_type_specification]
#[verifier::external_body]
pub struct ExWatchError(notify::Error);

/// `tokio::sync::mpsc::Sender`, the sending half of a bounded channel.
#[verifier::external_type_specification]
#[verifier::external_body]
#[verifier::reject_recursive_types(T)]
pub struct ExSender<T>(tokio::sync::mpsc::Sender<T>);

/// `tokio::sync::mpsc::Receiver`, the receiving half of a bounded channel.
#[verifier::external_type_specification]
#[verifier::external_body]
#[verifier::reject_recursive_types(T)]
pub struct ExReceiver<T>(tokio::sync::mpsc::Receiver<T>);

/// The number of messages the channel behind a sender was made to buffer:
/// what `Sender::max_capacity` answers. It is fixed when the channel is made.
pub uninterp spec fn channel_bound(sender: tokio::sync::mpsc::Sender<()>) -> nat;

/// `notify::EventKind::is_modify`, which says whether a kind is the `Modify`
/// variant. Claimed without proof: exactly that.
pub assume_specification[ notify::EventKind::is_modify ](
    kind: &notify::EventKind,
) -> (modified: bool)
    ensures
        modified == (kind is Modify),
;

/// Calls `tokio::sync::mpsc::channel`, which makes a channel that buffers up
/// to `buffer` messages and panics for a buffer of zero or one above
/// `usize::MAX >> 3`. Claimed without proof: the sender's channel is bounded
/// by `buffer`.
#[verifier::external_body]
fn bounded_channel(buffer: usize) -> (ends: (
    tokio::sync::mpsc::Sender<()>,
    tokio::sync::mpsc::Receiver<()>,
))
    requires
        0 < buffer <= usize::MAX / 8,
    ensures
        channel_bound(ends.0) == buffer,
{
    tokio::sync::mpsc::channel(buffer)
}

/// Calls `tokio::sync::mpsc::Sender::try_send` with a unit message and says
/// whether the message was taken. The call never waits: it fails when the
/// buffer is full or the receiver is gone. Which of these happens depends on
/// what the other half has done, so nothing is claimed of the answer.
#[verifier::external_body]
fn try_signal(sender: &tokio::sync::mpsc::Sender<()>) -> (accepted: bool) {
    sender.try_send(()).is_ok()
}

/// What became of one result delivered by the watcher.
#[derive(Debug)]
pub enum Relayed {
    /// A modification; its signal now waits for the consumer.
    Forwarded,
    /// A modification; the channel took no signal, because one was already
    /// waiting or because the consumer is gone. The signal is dropped.
    Coalesced,
    /// An event of another kind; nothing was sent.
    Ignored,
    /// The watcher reported an error, which is handed back to be logged.
    Failed(notify::Error),
}

/// Makes the channel for change signals. It holds one signal at most.
pub fn change_channel() -> (ends: (
    tokio::sync::mpsc::Sender<()>,
    tokio::sync::mpsc::Receiver<()>,
))
    ensures
        channel_bound(ends.0) == SIGNAL_CAPACITY,
{
    bounded_channel(SIGNAL_CAPACITY)
}

/// What became of a signal, given the channel's answer: forwarded if the
/// channel took it, coalesced if it did not.
pub fn relayed_by(accepted: bool) -> (relayed: Relayed)
    ensures
        accepted ==> relayed is Forwarded,
        !accepted ==> relayed is Coalesced,
{
    if accepted {
        Relayed::Forwarded
    } else {
        Relayed::Coalesced
    }
}

/// Signals a change on `sender` if the event was a modification, without
/// waiting, and ignores the event otherwise.
///
/// Whether the channel takes the signal is up to the channel; the answer says
/// which, as [`relayed_by`] maps it. A signal that is not taken is dropped: it
/// is neither queued nor tried again, and no error is raised.
pub fn forward(sender: &tokio::sync::mpsc::Sender<()>, modified: bool) -> (relayed: Relayed)
    ensures
        modified ==> relayed is Forwarded || relayed is Coalesced,
        !modified ==> relayed is Ignored,
{
    if modified {
        relayed_by(try_signal(sender))
    } else {
        Relayed::Ignored
    }
}

/// What [`relay`] may answer to a result delivered by the watcher: an error
/// comes back as it is, a modification is forwarded or coalesced, and any
/// other event is ignored.
pub open spec fn relays(
    delivered: Result<notify::Event, notify::Error>,
    relayed: Relayed,
) -> bool {
    match delivered {
        Err(error) => relayed == Relayed::Failed(error),
        Ok(event) => if event.kind is Modify {
            relayed is Forwarded || relayed is Coalesced
        } else {
            relayed is Ignored
        },
    }
}

/// Handles one result delivered by the watcher: an error comes back as it is,
/// and an event is forwarded if it reports a modification.
pub fn relay(
    sender: &tokio::sync::mpsc::Sender<()>,
    delivered: Result<notify::Event, notify::Error>,
) -> (relayed: Relayed)
    ensures
        relays(delivered, relayed),
{
    match delivered {
        Err(error) => Relayed::Failed(error),
        Ok(event) => forward(sender, event.kind.is_modify()),
    }
}

} // verus!
