//! Validation of the connection handshake.
//!
//! In one atomic receive the server hands over a fixed-size config payload
//! and exactly five file descriptors. The payload size, the announced
//! version and the descriptor count are each checked, in that order; any
//! mismatch is fatal to the connection attempt.

use vstd::prelude::*;

use crate::constants::NUM_FDS;
use crate::constants::VIOS_CONFIG_SIZE;
use crate::constants::VIOS_VERSION;
use crate::errors::Error;
use crate::errors::ProtocolErrorKind;

verus! {

/// The server's immutable configuration, received with the handshake.
#[derive(Clone, Copy, Debug, PartialEq, Eq, Structural)]
pub struct VioSConfig {
    pub version: u32,
    pub jacks: u32,
    pub streams: u32,
    pub chmaps: u32,
}

/// The five descriptors of a successful handshake, assigned by their fixed,
/// protocol-defined positions.
#[derive(Clone, Copy, Debug, PartialEq, Eq, Structural)]
pub struct HandshakeFds {
    pub rx_shm_file: i32,
    pub tx_shm_file: i32,
    pub rx_socket: i32,
    pub tx_socket: i32,
    pub event_socket: i32,
}

/// What a correct handshake assigns: the descriptors are consumed
/// last-to-first relative to how they arrive, so the rx shared-memory file is
/// the last descriptor received and the event socket the first.
pub open spec fn spec_handshake_fds(fds: Seq<i32>) -> HandshakeFds
    recommends
        fds.len() == NUM_FDS,
{
    HandshakeFds {
        rx_shm_file: fds[4],
        tx_shm_file: fds[3],
        rx_socket: fds[2],
        tx_socket: fds[1],
        event_socket: fds[0],
    }
}

/// Checks the handshake that arrived as a payload of `recv_size` bytes,
/// decoded into `config`, together with the received descriptors `fds`.
///
/// Rejects, in this order: a payload whose size is not exactly the config
/// record's size; a version other than the client's own; a descriptor count
/// other than exactly five. On success the descriptors are assigned in the
/// fixed wire order.
pub fn validate_handshake(recv_size: usize, config: VioSConfig, fds: &Vec<i32>) -> (r: Result<
    HandshakeFds,
    Error,
>)
    ensures
        recv_size != VIOS_CONFIG_SIZE ==> r == Err::<HandshakeFds, Error>(
            Error::ProtocolError(ProtocolErrorKind::UnexpectedConfigSize(recv_size)),
        ),
        recv_size == VIOS_CONFIG_SIZE && config.version != VIOS_VERSION ==> r == Err::<
            HandshakeFds,
            Error,
        >(Error::ProtocolError(ProtocolErrorKind::VersionMismatch(config.version))),
        recv_size == VIOS_CONFIG_SIZE && config.version == VIOS_VERSION && fds@.len() != NUM_FDS
            ==> r == Err::<HandshakeFds, Error>(
            Error::ProtocolError(
                ProtocolErrorKind::UnexpectedNumberOfFileDescriptors(
                    NUM_FDS,
                    fds@.len() as usize,
                ),
            ),
        ),
        recv_size == VIOS_CONFIG_SIZE && config.version == VIOS_VERSION && fds@.len() == NUM_FDS
            ==> r == Ok::<HandshakeFds, Error>(spec_handshake_fds(fds@)),
{
    if recv_size != VIOS_CONFIG_SIZE {
        return Err(Error::ProtocolError(ProtocolErrorKind::UnexpectedConfigSize(recv_size)));
    }
    if config.version != VIOS_VERSION {
        return Err(Error::ProtocolError(ProtocolErrorKind::VersionMismatch(config.version)));
    }
    if fds.len() != NUM_FDS {
        return Err(
            Error::ProtocolError(
                ProtocolErrorKind::UnexpectedNumberOfFileDescriptors(NUM_FDS, fds.len()),
            ),
        );
    }
    Ok(
        HandshakeFds {
            rx_shm_file: fds[4],
            tx_shm_file: fds[3],
            rx_socket: fds[2],
            tx_socket: fds[1],
            event_socket: fds[0],
        },
    )
}

} // verus!
