//! Decision logic of the background receiver.
//!
//! One receiver thread (run outside this crate) multiplexes the two data
//! sockets' status channels, the event socket and a stop signal. It hands
//! each message it reads to the functions here, which check the message's
//! size, normalize the carried status, and resolve the completion registry
//! entry the message belongs to.

use vstd::prelude::*;

use std::collections::HashMap;
use std::sync::mpsc::Sender;

use crate::channel::send_release_msg;
use crate::constants::EVENT_MSG_SIZE;
use crate::constants::IO_STATUS_MSG_SIZE;
use crate::errors::Error;
use crate::errors::ProtocolErrorKind;
use crate::layout::BufferReleaseMsg;
use crate::layout::IoStatusMsg;
use crate::layout::virtio_snd_event;

verus! {

broadcast use vstd::std_specs::hash::group_hash_axioms;

/// How the delivery of one transfer-status message went. Only a size
/// mismatch is fatal to the receiver; both non-delivered outcomes are merely
/// logged by the caller.
#[derive(Clone, Copy, Debug, PartialEq, Eq, Structural)]
pub enum DeliveryOutcome {
    /// The registered waiter took the completion.
    Delivered,
    /// No registry entry matched the message's buffer offset.
    NoSubscriber,
    /// A registry entry matched, but its waiter was gone.
    WaiterGone,
}

/// A status carried on the wire equal to the maximum representable value is
/// lowered by one, so that the sentinel cannot collide with an
/// indefinite-wait convention used elsewhere.
pub open spec fn spec_normalize_status(status: u32) -> u32 {
    if status == u32::MAX {
        (u32::MAX - 1) as u32
    } else {
        status
    }
}

/// The completion a transfer-status message carries to its waiter.
pub open spec fn spec_release_msg_of(msg: IoStatusMsg) -> BufferReleaseMsg {
    BufferReleaseMsg {
        status: spec_normalize_status(msg.status.status),
        latency: msg.status.latency_bytes,
        consumed_len: msg.consumed_len as usize,
    }
}

/// Builds the completion a transfer-status message delivers, normalizing a
/// maximum-value status down by one.
pub fn release_msg_of(msg: IoStatusMsg) -> (r: BufferReleaseMsg)
    ensures
        r == spec_release_msg_of(msg),
{
    let mut status = msg.status.status;
    if status == u32::MAX {
        // Anyone waiting on this status would keep waiting for as long as it
        // stays the maximum value.
        status = status - 1;
    }
    BufferReleaseMsg {
        status,
        latency: msg.status.latency_bytes,
        consumed_len: msg.consumed_len as usize,
    }
}

/// Whether the completion registry holds a waiter for the buffer offset a
/// status message echoes.
pub open spec fn spec_subscriber_found(
    m: Map<usize, Sender<BufferReleaseMsg>>,
    msg: IoStatusMsg,
) -> bool {
    m.contains_key(msg.buffer_offset as usize)
}

/// The completion registry after a correctly-sized status message was
/// processed: the entry for the echoed offset is gone, all others stand.
pub open spec fn spec_registry_after_delivery(
    m: Map<usize, Sender<BufferReleaseMsg>>,
    msg: IoStatusMsg,
) -> Map<usize, Sender<BufferReleaseMsg>> {
    m.remove(msg.buffer_offset as usize)
}

/// Processes one transfer-status message that arrived as `recv_size` bytes,
/// decoded into `msg`, against one direction's completion registry.
///
/// A size other than the record's fixed size is a protocol error and leaves
/// the registry untouched. Otherwise the entry for the echoed offset is
/// removed and the completion is delivered through it; a missing entry or a
/// vanished waiter is reported in the outcome, not an error.
pub fn recv_buffer_status_msg(
    subscribers: &mut HashMap<usize, Sender<BufferReleaseMsg>>,
    recv_size: usize,
    msg: IoStatusMsg,
) -> (r: Result<DeliveryOutcome, Error>)
    ensures
        recv_size != IO_STATUS_MSG_SIZE ==> r == Err::<DeliveryOutcome, Error>(
            Error::ProtocolError(
                ProtocolErrorKind::UnexpectedMessageSize(IO_STATUS_MSG_SIZE, recv_size),
            ),
        ) && final(subscribers)@ == old(subscribers)@,
        recv_size == IO_STATUS_MSG_SIZE && !spec_subscriber_found(old(subscribers)@, msg) ==> r
            == Ok::<DeliveryOutcome, Error>(DeliveryOutcome::NoSubscriber) && final(subscribers)@
            == old(subscribers)@,
        recv_size == IO_STATUS_MSG_SIZE && spec_subscriber_found(old(subscribers)@, msg) ==> (r
            == Ok::<DeliveryOutcome, Error>(DeliveryOutcome::Delivered) || r == Ok::<
            DeliveryOutcome,
            Error,
        >(DeliveryOutcome::WaiterGone)) && final(subscribers)@ == spec_registry_after_delivery(
            old(subscribers)@,
            msg,
        ),
{
    if recv_size != IO_STATUS_MSG_SIZE {
        return Err(
            Error::ProtocolError(
                ProtocolErrorKind::UnexpectedMessageSize(IO_STATUS_MSG_SIZE, recv_size),
            ),
        );
    }
    let release = release_msg_of(msg);
    let offset = msg.buffer_offset as usize;
    match subscribers.remove(&offset) {
        None => {
            proof {
                assert(old(subscribers)@.remove(offset) =~= old(subscribers)@);
            }
            // The caller logs the stray message; other in-flight transfers
            // are not disturbed.
            Ok(DeliveryOutcome::NoSubscriber)
        },
        Some(sender) => {
            if send_release_msg(&sender, release) {
                Ok(DeliveryOutcome::Delivered)
            } else {
                // The caller logs the lost waiter; this is not escalated.
                Ok(DeliveryOutcome::WaiterGone)
            }
        },
    }
}

/// Checks the size of an event record that arrived as `recv_size` bytes,
/// decoded into `msg`. Events are opaque to this layer.
pub fn recv_event(recv_size: usize, msg: virtio_snd_event) -> (r: Result<virtio_snd_event, Error>)
    ensures
        recv_size == EVENT_MSG_SIZE ==> r == Ok::<virtio_snd_event, Error>(msg),
        recv_size != EVENT_MSG_SIZE ==> r == Err::<virtio_snd_event, Error>(
            Error::ProtocolError(
                ProtocolErrorKind::UnexpectedMessageSize(EVENT_MSG_SIZE, recv_size),
            ),
        ),
{
    if recv_size != EVENT_MSG_SIZE {
        return Err(
            Error::ProtocolError(
                ProtocolErrorKind::UnexpectedMessageSize(EVENT_MSG_SIZE, recv_size),
            ),
        );
    }
    Ok(msg)
}

/// Registering a completion waiter under a transfer's buffer offset
/// guarantees that the delivery of that transfer's status message finds a
/// waiter, whenever the registration took effect first — which the transfer
/// entry points enforce by registering strictly before the transfer message
/// is sent.
pub proof fn lemma_registration_guarantees_delivery(
    m: Map<usize, Sender<BufferReleaseMsg>>,
    sender: Sender<BufferReleaseMsg>,
    msg: IoStatusMsg,
)
    ensures
        spec_subscriber_found(m.insert(msg.buffer_offset as usize, sender), msg),
{
}

/// A status message whose offset has no matching registry entry leaves the
/// registry exactly as it was; and whatever offset a status message names,
/// every other registered waiter stays registered, untouched.
pub proof fn lemma_unmatched_status_preserves_registry(
    m: Map<usize, Sender<BufferReleaseMsg>>,
    msg: IoStatusMsg,
)
    ensures
        !spec_subscriber_found(m, msg) ==> spec_registry_after_delivery(m, msg) == m,
        forall|k: usize|
            m.contains_key(k) && k != msg.buffer_offset as usize
                ==> #[trigger] spec_registry_after_delivery(m, msg).contains_key(k)
                && spec_registry_after_delivery(m, msg)[k] == m[k],
{
    if !spec_subscriber_found(m, msg) {
        assert(m.remove(msg.buffer_offset as usize) =~= m);
    }
}

} // verus!
