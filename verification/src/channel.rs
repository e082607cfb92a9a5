//! The channel primitives the supervisor is built on, from the
//! `crossbeam_channel` crate: a zero-capacity cancellation channel whose
//! closure is the shutdown broadcast, and a single-slot result channel per
//! started module.
//!
//! Every item here is trusted: its contract states only what the crate's
//! own source and documentation show.

use crossbeam_channel::Receiver;
use crossbeam_channel::RecvError;
use crossbeam_channel::Sender;
use vstd::prelude::*;

use crate::outcome::ModuleResult;

verus! {

#[verifier::external_type_specification]
#[verifier::external_body]
#[verifier::reject_recursive_types(T)]
pub struct ExSender<T>(Sender<T>);

#[verifier::external_type_specification]
#[verifier::external_body]
#[verifier::reject_recursive_types(T)]
pub struct ExReceiver<T>(Receiver<T>);

#[verifier::external_type_specification]
#[verifier::external_body]
pub struct ExRecvError(RecvError);

/// Relies on `crossbeam_channel::bounded(0)`: a zero-capacity rendezvous
/// channel. No value is ever sent on it here; dropping its one sender
/// disconnects the channel, which every pending or future `recv` on any
/// clone of the receiver observes as an error.
#[verifier::external_body]
pub(crate) fn cancellation_channel() -> (Sender<()>, Receiver<()>) {
    crossbeam_channel::bounded(0)
}

/// Relies on `crossbeam_channel::bounded(1)`: a buffered channel with one
/// slot, so the single post a module execution makes never blocks.
#[verifier::external_body]
pub(crate) fn result_channel() -> (Sender<ModuleResult>, Receiver<ModuleResult>) {
    crossbeam_channel::bounded(1)
}

/// Relies on `crossbeam_channel::Sender::send`: places the value in the
/// channel's slot if the receiving side still exists, and drops it
/// otherwise, as the supervisor may be gone by the time a module finishes.
#[verifier::external_body]
pub(crate) fn post_result(tx: Sender<ModuleResult>, res: ModuleResult) {
    let _ = tx.send(res);
}

/// Relies on `crossbeam_channel::Receiver::clone`: a new receiving handle
/// to the same channel, so every context clone observes the same
/// cancellation signal.
#[verifier::external_body]
pub(crate) fn clone_receiver(rx: &Receiver<()>) -> Receiver<()> {
    rx.clone()
}

/// Relies on `crossbeam_channel::Sender`'s `Drop`: consuming the last
/// sender disconnects the channel, which unblocks every pending read of
/// the cancellation signal and makes every future read fail immediately.
/// This closure, not a delivered value, is the shutdown broadcast.
#[verifier::external_body]
pub(crate) fn close_cancellation(ctrl: Sender<()>) {
    drop(ctrl);
}

} // verus!
