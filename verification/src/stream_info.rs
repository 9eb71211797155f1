//! Cached description of one PCM stream, and the parameter set used to
//! configure it.

use vstd::prelude::*;

use crate::constants::VIRTIO_SND_R_PCM_SET_PARAMS;
use crate::layout::virtio_snd_hdr;
use crate::layout::virtio_snd_info;
use crate::layout::virtio_snd_pcm_hdr;
use crate::layout::virtio_snd_pcm_info;
use crate::layout::virtio_snd_pcm_set_params;

verus! {

/// Description of a stream made available by the server, with the locally
/// assigned index (`id`) under which the client addresses it.
#[derive(Clone, Copy, Debug, PartialEq, Eq, Structural)]
pub struct VioSStreamInfo {
    pub id: u32,
    pub hda_fn_nid: u32,
    pub features: u32,
    pub formats: u64,
    pub rates: u64,
    pub direction: u8,
    pub channels_min: u8,
    pub channels_max: u8,
}

/// The stream description built from the server's capability record, under
/// the locally assigned index `id`.
pub open spec fn spec_stream_info(id: u32, info: virtio_snd_pcm_info) -> VioSStreamInfo {
    VioSStreamInfo {
        id,
        hda_fn_nid: info.hdr.hda_fn_nid,
        features: info.features,
        formats: info.formats,
        rates: info.rates,
        direction: info.direction,
        channels_min: info.channels_min,
        channels_max: info.channels_max,
    }
}

/// The capability record a cached stream description corresponds to.
pub open spec fn spec_pcm_info_of(s: VioSStreamInfo) -> virtio_snd_pcm_info {
    virtio_snd_pcm_info {
        hdr: virtio_snd_info { hda_fn_nid: s.hda_fn_nid },
        features: s.features,
        formats: s.formats,
        rates: s.rates,
        direction: s.direction,
        channels_min: s.channels_min,
        channels_max: s.channels_max,
    }
}

impl VioSStreamInfo {
    /// Builds the cached description of the stream at index `id` from the
    /// server's capability record.
    pub fn new(id: u32, info: &virtio_snd_pcm_info) -> (r: VioSStreamInfo)
        ensures
            r == spec_stream_info(id, *info),
    {
        VioSStreamInfo {
            id,
            hda_fn_nid: info.hdr.hda_fn_nid,
            features: info.features,
            formats: info.formats,
            rates: info.rates,
            direction: info.direction,
            channels_min: info.channels_min,
            channels_max: info.channels_max,
        }
    }

    /// The capability record this description was built from.
    pub fn to_pcm_info(&self) -> (r: virtio_snd_pcm_info)
        ensures
            r == spec_pcm_info_of(*self),
    {
        virtio_snd_pcm_info {
            hdr: virtio_snd_info { hda_fn_nid: self.hda_fn_nid },
            features: self.features,
            formats: self.formats,
            rates: self.rates,
            direction: self.direction,
            channels_min: self.channels_min,
            channels_max: self.channels_max,
        }
    }
}

/// Groups the parameters used to configure a stream prior to using it.
#[derive(Clone, Copy, Debug, PartialEq, Eq, Structural)]
pub struct VioSStreamParams {
    pub buffer_bytes: u32,
    pub period_bytes: u32,
    pub features: u32,
    pub channels: u8,
    pub format: u8,
    pub rate: u8,
}

/// The set-parameters command that configures stream `stream_id` with `p`.
pub open spec fn spec_set_params_msg(stream_id: u32, p: VioSStreamParams) -> virtio_snd_pcm_set_params {
    virtio_snd_pcm_set_params {
        hdr: virtio_snd_pcm_hdr {
            hdr: virtio_snd_hdr { code: VIRTIO_SND_R_PCM_SET_PARAMS },
            stream_id,
        },
        buffer_bytes: p.buffer_bytes,
        period_bytes: p.period_bytes,
        features: p.features,
        channels: p.channels,
        format: p.format,
        rate: p.rate,
        padding: 0u8,
    }
}

impl VioSStreamParams {
    /// The set-parameters command for stream `stream_id` carrying these
    /// parameters.
    pub fn to_raw_params(&self, stream_id: u32) -> (r: virtio_snd_pcm_set_params)
        ensures
            r == spec_set_params_msg(stream_id, *self),
    {
        virtio_snd_pcm_set_params {
            hdr: virtio_snd_pcm_hdr {
                hdr: virtio_snd_hdr { code: VIRTIO_SND_R_PCM_SET_PARAMS },
                stream_id,
            },
            buffer_bytes: self.buffer_bytes,
            period_bytes: self.period_bytes,
            features: self.features,
            channels: self.channels,
            format: self.format,
            rate: self.rate,
            padding: 0u8,
        }
    }
}

} // verus!
