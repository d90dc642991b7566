//! The command channel through which the owner of a cluster reaches one of
//! its nodes.
//!
//! The channel is a bounded channel of `crossbeam_channel`. Verus does not
//! read that crate: what this module states of it is believed, not proved.

use crossbeam_channel::{Receiver, Sender};
use vstd::prelude::*;

verus! {

/// A command for a running node.
#[derive(Clone, Copy, Debug, PartialEq, Eq, Structural)]
pub enum Command {
    /// Leave the event loop and stop.
    Shutdown,
}

/// How many commands may wait in a node's channel. With one, a sender
/// cannot get ahead of a node by more than a single command.
pub const COMMAND_CAPACITY: usize = 1;

/// `crossbeam_channel::Sender`, the sending end of a channel. Nothing of its
/// inside is known here.
#[verifier::external_type_specification]
#[verifier::external_body]
#[verifier::reject_recursive_types(T)]
pub struct ExSender<T>(Sender<T>);

/// `crossbeam_channel::Receiver`, the receiving end of a channel. Nothing of
/// its inside is known here.
#[verifier::external_type_specification]
#[verifier::external_body]
#[verifier::reject_recursive_types(T)]
pub struct ExReceiver<T>(Receiver<T>);

/// The capacity with which the channel of `sender` was made: what
/// `Sender::capacity` returns, `None` for a channel without a bound.
pub uninterp spec fn sender_capacity(sender: Sender<Command>) -> Option<usize>;

/// `crossbeam_channel::bounded`: makes a channel that holds at most
/// `capacity` messages and returns its two ends.
///
/// Believed: the sender reports the capacity that was asked for. The
/// outside function allocates room for `capacity` messages at once, and it
/// panics where twice the next power of two above `capacity` does not fit
/// the machine word; the bound keeps far from both.
#[verifier::external_body]
pub(crate) fn bounded(capacity: usize) -> (ends: (Sender<Command>, Receiver<Command>))
    requires
        capacity <= 0x1_0000,
    ensures
        sender_capacity(ends.0) == Some(capacity),
{
    crossbeam_channel::bounded(capacity)
}

/// `Sender::capacity`: the capacity with which the channel was made.
///
/// Believed: the result is the capacity that `sender_capacity` names.
#[verifier::external_body]
pub(crate) fn capacity_of(sender: &Sender<Command>) -> (capacity: Option<usize>)
    ensures
        capacity == sender_capacity(*sender),
{
    sender.capacity()
}

/// Makes the command channel of one node.
pub fn command_channel() -> (ends: (Sender<Command>, Receiver<Command>))
    ensures
        sender_capacity(ends.0) == Some(COMMAND_CAPACITY),
{
    bounded(COMMAND_CAPACITY)
}

} // verus!
