//! The ordered channel between the handle, the ticker and the renderer.
//!
//! What a channel holds at a given moment is shared between threads, so no
//! contract here speaks of it: each states only what holds whatever the
//! other end did.

use std::sync::mpsc::{Receiver, Sender};
use vstd::prelude::*;

verus! {

/// `std::sync::mpsc::Sender`, carried through as it is.
#[verifier::external_type_specification]
#[verifier::external_body]
#[verifier::reject_recursive_types(T)]
pub struct ExSender<T>(Sender<T>);

/// `std::sync::mpsc::Receiver`, carried through as it is.
#[verifier::external_type_specification]
#[verifier::external_body]
#[verifier::reject_recursive_types(T)]
pub struct ExReceiver<T>(Receiver<T>);

/// Calls `std::sync::mpsc::channel`: a new unbounded channel, as its sending
/// and its receiving end. Nothing is claimed of them.
#[verifier::external_body]
pub(crate) fn open<T>() -> (ends: (Sender<T>, Receiver<T>)) {
    std::sync::mpsc::channel()
}

/// Calls `Sender::clone`: another sending end of the same channel. Nothing
/// is claimed of it.
#[verifier::external_body]
pub(crate) fn share<T>(sender: &Sender<T>) -> (other: Sender<T>) {
    sender.clone()
}

/// Calls `Sender::send`, which never blocks, and tells whether the value was
/// queued. It fails once the receiving end is gone; the value is then
/// dropped. Which of the two happens is up to the other end, so nothing is
/// claimed of the answer.
#[verifier::external_body]
pub(crate) fn post<T>(sender: &Sender<T>, value: T) -> (queued: bool) {
    match sender.send(value) {
        Ok(()) => true,
        Err(_) => false,
    }
}

/// Calls `Receiver::recv`, which waits for the next value in the order of
/// arrival, and hands it out; `None` once every sending end is gone and the
/// queue is empty. Nothing is claimed of the value.
#[verifier::external_body]
pub(crate) fn take<T>(receiver: &Receiver<T>) -> (value: Option<T>) {
    match receiver.recv() {
        Ok(value) => Some(value),
        Err(_) => None,
    }
}

} // verus!
