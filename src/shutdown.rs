//! The shutdown channel between the controller and the dispatch loop.
//!
//! The receiving end and the proof that a signal was sent are types of this
//! module whose fields are private: a receiver only comes with a fresh
//! channel, and a `SignalSent` only from sending on one.
use vstd::prelude::*;
use crossbeam_channel::{Receiver, Sender};

verus! {

#[verifier::external_type_specification]
#[verifier::external_body]
#[verifier::reject_recursive_types(T)]
pub struct ExSender<T>(Sender<T>);

#[verifier::external_type_specification]
#[verifier::external_body]
#[verifier::reject_recursive_types(T)]
pub struct ExReceiver<T>(Receiver<T>);

/// Relies on `crossbeam_channel::bounded(1)`: a fresh channel that holds at
/// most one pending shutdown signal.
#[verifier::external_body]
fn bounded_one() -> (r: (Sender<()>, Receiver<()>)) {
    crossbeam_channel::bounded(1)
}

/// Relies on `crossbeam_channel::Sender::try_send`: queues the signal without
/// blocking; whether it was queued depends on the other end.
#[verifier::external_body]
fn try_send_unit(tx: &Sender<()>) -> (r: bool) {
    tx.try_send(()).is_ok()
}

/// Relies on `crossbeam_channel::Receiver::try_recv`: takes a pending signal
/// without blocking; whether one was pending depends on the other end.
#[verifier::external_body]
fn try_recv_unit(rx: &Receiver<()>) -> (r: bool) {
    rx.try_recv().is_ok()
}

/// The receiving end of a shutdown channel, held by the dispatch loop.
pub struct ShutdownReceiver {
    rx: Receiver<()>,
}

/// Evidence that the shutdown signal was sent on a channel's sender.
pub struct SignalSent {
    queued: bool,
}

/// A fresh shutdown channel of capacity one: its sender, and its receiver.
pub fn shutdown_channel() -> (r: (Sender<()>, ShutdownReceiver)) {
    let (tx, rx) = bounded_one();
    (tx, ShutdownReceiver { rx })
}

/// Sends the shutdown signal on `tx` without blocking, consuming the sender
/// so that it sends no second signal.
pub fn send_signal(tx: Sender<()>) -> (r: SignalSent) {
    let queued = try_send_unit(&tx);
    SignalSent { queued }
}

impl View for SignalSent {
    type V = bool;

    closed spec fn view(&self) -> bool {
        self.queued
    }
}

impl SignalSent {
    /// Whether the signal was queued; it is not when the loop's end of the
    /// channel is already gone or a signal is still pending.
    pub fn queued(&self) -> (r: bool)
        ensures
            r == self@,
    {
        self.queued
    }
}

impl ShutdownReceiver {
    /// Takes a pending shutdown signal, if there is one, without blocking.
    pub fn take_signal(&self) -> (r: bool) {
        try_recv_unit(&self.rx)
    }
}

} // verus!
