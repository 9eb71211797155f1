//! One-shot completion channels.
//!
//! A caller that submits a buffer transfer registers the sending half of an
//! mpsc channel in the completion registry and blocks on the receiving half;
//! the background receiver delivers the transfer's status through it. The
//! channel operations themselves are std's and stand behind trusted
//! declarations; what the delivered status means is verified code
//! ([`buffer_status_result`]).

use vstd::prelude::*;

use std::sync::mpsc::Receiver;
use std::sync::mpsc::Sender;

use crate::constants::VIRTIO_SND_S_OK;
use crate::errors::Error;
use crate::layout::BufferReleaseMsg;

verus! {

/// Declares std::sync::mpsc::Sender, the sending half of a channel, so it
/// can stand in signatures and registry values; opaque to the verifier.
#[verifier::external_type_specification]
#[verifier::external_body]
#[verifier::reject_recursive_types(T)]
pub struct ExSender<T>(Sender<T>);

/// Declares std::sync::mpsc::Receiver, the receiving half of a channel, so a
/// pending transfer can carry it; opaque to the verifier.
#[verifier::external_type_specification]
#[verifier::external_body]
#[verifier::reject_recursive_types(T)]
pub struct ExReceiver<T>(Receiver<T>);

/// Relies on std::sync::mpsc::channel: returns the two halves of a fresh
/// asynchronous channel, connected to each other.
#[verifier::external_body]
pub fn release_msg_channel() -> (r: (Sender<BufferReleaseMsg>, Receiver<BufferReleaseMsg>)) {
    std::sync::mpsc::channel()
}

/// Relies on std::sync::mpsc::Sender::send: hands the message to the
/// channel; returns whether a receiving half was still there to take it.
/// Nothing can be promised of the outcome, since it depends on what another
/// thread has done with the receiving half.
#[verifier::external_body]
pub fn send_release_msg(sender: &Sender<BufferReleaseMsg>, msg: BufferReleaseMsg) -> (delivered:
    bool) {
    match sender.send(msg) {
        Ok(()) => true,
        Err(_) => false,
    }
}

/// Relies on std::sync::mpsc::Receiver::recv: blocks until a message arrives
/// (`Some`) or every sending half has been dropped (`None`). Which message
/// arrives depends on the sending thread, so nothing is promised of it.
#[verifier::external_body]
pub fn recv_release_msg(promise: Receiver<BufferReleaseMsg>) -> (r: Option<BufferReleaseMsg>) {
    match promise.recv() {
        Ok(msg) => Some(msg),
        Err(_) => None,
    }
}

/// What a delivered completion means for the caller: the consumed length and
/// latency on success, the server's status code as a buffer-I/O error
/// otherwise.
pub open spec fn spec_buffer_status_result(msg: BufferReleaseMsg) -> Result<(usize, u32), Error> {
    if msg.status == VIRTIO_SND_S_OK {
        Ok((msg.consumed_len, msg.latency))
    } else {
        Err(Error::IOBufferError(msg.status))
    }
}

/// Turns a delivered completion into the caller's result.
pub fn buffer_status_result(msg: BufferReleaseMsg) -> (r: Result<(usize, u32), Error>)
    ensures
        r == spec_buffer_status_result(msg),
{
    if msg.status == VIRTIO_SND_S_OK {
        Ok((msg.consumed_len, msg.latency))
    } else {
        Err(Error::IOBufferError(msg.status))
    }
}

/// Blocks the calling thread on a completion channel until the background
/// receiver delivers the transfer's status, and interprets it. When the
/// sending half disappears without a status — the receiver thread is gone —
/// the caller gets a distinct failure rather than an indefinite hang.
pub fn await_status(promise: Receiver<BufferReleaseMsg>) -> (r: Result<(usize, u32), Error>)
    ensures
        r == Err::<(usize, u32), Error>(Error::BufferStatusSenderLost) || (exists|
            msg: BufferReleaseMsg,
        | r == #[trigger] spec_buffer_status_result(msg)),
{
    match recv_release_msg(promise) {
        None => Err(Error::BufferStatusSenderLost),
        Some(msg) => buffer_status_result(msg),
    }
}

} // verus!
