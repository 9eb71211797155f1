//! Protocol constants: command opcodes, status codes, stream directions, and
//! the exact byte sizes of the fixed-layout wire records.

use vstd::prelude::*;

verus! {

/// Protocol version this client implements; the server must announce the same
/// version in its handshake config.
pub const VIOS_VERSION: u32 = 1;

/// Number of file descriptors that must accompany the handshake payload.
pub const NUM_FDS: usize = 5;

// Control-channel command opcodes.
pub const VIRTIO_SND_R_JACK_INFO: u32 = 1;
pub const VIRTIO_SND_R_JACK_REMAP: u32 = 2;
pub const VIRTIO_SND_R_PCM_INFO: u32 = 0x0100;
pub const VIRTIO_SND_R_PCM_SET_PARAMS: u32 = 0x0101;
pub const VIRTIO_SND_R_PCM_PREPARE: u32 = 0x0102;
pub const VIRTIO_SND_R_PCM_RELEASE: u32 = 0x0103;
pub const VIRTIO_SND_R_PCM_START: u32 = 0x0104;
pub const VIRTIO_SND_R_PCM_STOP: u32 = 0x0105;
pub const VIRTIO_SND_R_CHMAP_INFO: u32 = 0x0200;

/// Status code a reply carries when the command (or a buffer transfer)
/// succeeded: zero, with any nonzero value a server-reported failure code.
pub const VIRTIO_SND_S_OK: u32 = 0;

// Stream directions.
pub const VIRTIO_SND_D_OUTPUT: u8 = 0;
pub const VIRTIO_SND_D_INPUT: u8 = 1;

// Exact sizes, in bytes, of the fixed-layout wire records. Replies and
// notifications are rejected when their byte length differs from these.
pub const VIOS_CONFIG_SIZE: usize = 16;
pub const QUERY_INFO_SIZE: usize = 16;
pub const JACK_INFO_SIZE: usize = 24;
pub const PCM_INFO_SIZE: usize = 32;
pub const CHMAP_INFO_SIZE: usize = 24;
pub const EVENT_MSG_SIZE: usize = 8;
pub const IO_STATUS_MSG_SIZE: usize = 16;

} // verus!
