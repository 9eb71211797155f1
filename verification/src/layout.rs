//! The fixed-layout records exchanged with the server, as plain structs.
//!
//! On the wire each of these is a fixed-size, fixed-endianness byte blob; the
//! unverified I/O shell converts between those blobs and these structs
//! opaquely. The field layout and the byte sizes in [`crate::constants`] are
//! a wire contract.

use vstd::prelude::*;

verus! {

/// Common header of every control-channel request and reply: one opcode or
/// status field.
#[derive(Clone, Copy, Debug, PartialEq, Eq, Structural)]
pub struct virtio_snd_hdr {
    pub code: u32,
}

/// Header of a command that targets one PCM stream.
#[derive(Clone, Copy, Debug, PartialEq, Eq, Structural)]
pub struct virtio_snd_pcm_hdr {
    pub hdr: virtio_snd_hdr,
    pub stream_id: u32,
}

/// Header of a command that targets one jack.
#[derive(Clone, Copy, Debug, PartialEq, Eq, Structural)]
pub struct virtio_snd_jack_hdr {
    pub hdr: virtio_snd_hdr,
    pub jack_id: u32,
}

/// Request to remap a jack's association and sequence.
#[derive(Clone, Copy, Debug, PartialEq, Eq, Structural)]
pub struct virtio_snd_jack_remap {
    pub hdr: virtio_snd_jack_hdr,
    pub association: u32,
    pub sequence: u32,
}

/// Request for a range of capability records (jacks, streams or channel
/// maps). The reply must be exactly `count` records of the fixed record size.
#[derive(Clone, Copy, Debug, PartialEq, Eq, Structural)]
pub struct virtio_snd_query_info {
    pub hdr: virtio_snd_hdr,
    pub start_id: u32,
    pub count: u32,
    pub size: u32,
}

/// Common header of the capability info records.
#[derive(Clone, Copy, Debug, PartialEq, Eq, Structural)]
pub struct virtio_snd_info {
    pub hda_fn_nid: u32,
}

/// Capability record describing one jack.
#[derive(Clone, Copy, Debug, PartialEq, Eq, Structural)]
pub struct virtio_snd_jack_info {
    pub hdr: virtio_snd_info,
    pub features: u32,
    pub hda_reg_defconf: u32,
    pub hda_reg_caps: u32,
    pub connected: u8,
}

/// Capability record describing one PCM stream.
#[derive(Clone, Copy, Debug, PartialEq, Eq, Structural)]
pub struct virtio_snd_pcm_info {
    pub hdr: virtio_snd_info,
    pub features: u32,
    pub formats: u64,
    pub rates: u64,
    pub direction: u8,
    pub channels_min: u8,
    pub channels_max: u8,
}

/// Capability record describing one channel map.
#[derive(Clone, Copy, Debug, PartialEq, Eq)]
pub struct virtio_snd_chmap_info {
    pub hdr: virtio_snd_info,
    pub direction: u8,
    pub channels: u8,
    pub positions: [u8; 18],
}

/// Request to configure a stream's parameters.
#[derive(Clone, Copy, Debug, PartialEq, Eq, Structural)]
pub struct virtio_snd_pcm_set_params {
    pub hdr: virtio_snd_pcm_hdr,
    pub buffer_bytes: u32,
    pub period_bytes: u32,
    pub features: u32,
    pub channels: u8,
    pub format: u8,
    pub rate: u8,
    pub padding: u8,
}

/// Header of a transfer-initiate message: the stream it belongs to.
#[derive(Clone, Copy, Debug, PartialEq, Eq, Structural)]
pub struct virtio_snd_pcm_xfer {
    pub stream_id: u32,
}

/// Status part of a transfer-status message.
#[derive(Clone, Copy, Debug, PartialEq, Eq, Structural)]
pub struct virtio_snd_pcm_status {
    pub status: u32,
    pub latency_bytes: u32,
}

/// An opaque event record pushed by the server; this layer does not interpret
/// its contents.
#[derive(Clone, Copy, Debug, PartialEq, Eq, Structural)]
pub struct virtio_snd_event {
    pub hdr: virtio_snd_hdr,
    pub data: u32,
}

/// Transfer-initiate message sent on a direction's data socket: stream id,
/// offset of the staged bytes in that direction's ring, and their length.
#[derive(Clone, Copy, Debug, PartialEq, Eq, Structural)]
pub struct IoTransferMsg {
    pub io_xfer: virtio_snd_pcm_xfer,
    pub buffer_offset: u32,
    pub buffer_len: u32,
}

impl IoTransferMsg {
    /// Builds the transfer-initiate message for `buffer_len` bytes staged at
    /// `buffer_offset` on stream `stream_id`. The wire fields are 32 bits
    /// wide, so the offset and length must fit in them.
    pub fn new(stream_id: u32, buffer_offset: usize, buffer_len: usize) -> (r: IoTransferMsg)
        requires
            buffer_offset <= u32::MAX,
            buffer_len <= u32::MAX,
        ensures
            r.io_xfer.stream_id == stream_id,
            r.buffer_offset == buffer_offset,
            r.buffer_len == buffer_len,
    {
        IoTransferMsg {
            io_xfer: virtio_snd_pcm_xfer { stream_id },
            buffer_offset: buffer_offset as u32,
            buffer_len: buffer_len as u32,
        }
    }
}

/// Transfer-status message read from a direction's data socket: the status
/// and latency reported by the server, the echoed offset of the buffer the
/// status belongs to, and how many bytes were consumed.
#[derive(Clone, Copy, Debug, PartialEq, Eq, Structural)]
pub struct IoStatusMsg {
    pub status: virtio_snd_pcm_status,
    pub buffer_offset: u32,
    pub consumed_len: u32,
}

/// Completion handed to the caller thread that awaits a buffer transfer.
#[derive(Clone, Copy, Debug, PartialEq, Eq, Structural)]
pub struct BufferReleaseMsg {
    pub status: u32,
    pub latency: u32,
    pub consumed_len: usize,
}

} // verus!
