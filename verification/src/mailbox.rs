//! The command mailbox: a multi-producer FIFO channel into the worker.
//!
//! The channel itself is `std::sync::mpsc`; the few calls the library
//! makes into it stand behind trusted items here.

use vstd::prelude::*;

use crate::command::ChannelError;
use crate::command::Command;

verus! {

#[verifier::external_type_specification]
#[verifier::external_body]
#[verifier::reject_recursive_types(T)]
pub struct ExSender<T>(std::sync::mpsc::Sender<T>);

#[verifier::external_type_specification]
#[verifier::external_body]
#[verifier::reject_recursive_types(T)]
pub struct ExReceiver<T>(std::sync::mpsc::Receiver<T>);

/// Relies on std::sync::mpsc::channel: a fresh sending half connected to
/// a fresh receiving half, unbounded and FIFO.
#[verifier::external_body]
pub(crate) fn new_channel<T>() -> (std::sync::mpsc::Sender<T>, std::sync::mpsc::Receiver<T>) {
    std::sync::mpsc::channel()
}

/// Relies on std::sync::mpsc::Sender::send: it never blocks, and it fails
/// exactly when the receiving half has been dropped, handing the unsent
/// message back inside the error.
#[verifier::external_body]
pub(crate) fn channel_send<T>(tx: &std::sync::mpsc::Sender<T>, msg: T) -> (r: Result<(), T>)
    ensures
        r matches Err(m) ==> m == msg,
{
    tx.send(msg).map_err(|e| e.0)
}

/// Relies on std::sync::mpsc::Receiver::recv: it blocks until a message
/// arrives (`Some`) or every sending half has been dropped (`None`).
/// If a sending half stays alive but silent, the call does not return;
/// the library places no timeout on it.
#[verifier::external_body]
pub(crate) fn channel_recv<T>(rx: &std::sync::mpsc::Receiver<T>) -> Option<T> {
    rx.recv().ok()
}

/// The sending half of the worker's command channel, shared by every
/// caller thread. Posting never blocks; it fails only once the worker's
/// receiving half is gone.
pub struct Mailbox {
    tx: std::sync::mpsc::Sender<Command>,
}

impl Mailbox {
    /// Wrap the sending half of the channel whose receiving half the
    /// worker loop drains.
    pub fn new(tx: std::sync::mpsc::Sender<Command>) -> Mailbox {
        Mailbox { tx }
    }

    /// Post one command. `Err(Disconnected)` is the only failure, and it
    /// means the receiving half has been dropped; the command is lost.
    pub fn send(&self, cmd: Command) -> (r: Result<(), ChannelError>)
        ensures
            r matches Err(e) ==> e == ChannelError::Disconnected,
    {
        match channel_send(&self.tx, cmd) {
            Ok(()) => Ok(()),
            Err(_) => Err(ChannelError::Disconnected),
        }
    }
}

} // verus!
