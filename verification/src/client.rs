//! The client façade: immutable capability caches, the two staging rings
//! with their completion registries, the event queue, and the coordination
//! state shared with the background receiver.
//!
//! All methods work on plain values. The unverified shell owns the sockets
//! and the memory mappings; it sends the command and transfer messages built
//! here, hands received bytes back in, and spawns, signals and joins the
//! receiver thread when the lifecycle transitions here tell it to.

use vstd::prelude::*;

use std::collections::HashMap;
use std::collections::VecDeque;
use std::sync::mpsc::Receiver;
use std::sync::mpsc::Sender;

use crate::buffer_queue::BufferView;
use crate::buffer_queue::IoBufferQueue;
use crate::channel::release_msg_channel;
use crate::constants::CHMAP_INFO_SIZE;
use crate::constants::JACK_INFO_SIZE;
use crate::constants::PCM_INFO_SIZE;
use crate::constants::QUERY_INFO_SIZE;
use crate::constants::VIRTIO_SND_D_INPUT;
use crate::constants::VIRTIO_SND_D_OUTPUT;
use crate::constants::VIRTIO_SND_R_CHMAP_INFO;
use crate::constants::VIRTIO_SND_R_JACK_INFO;
use crate::constants::VIRTIO_SND_R_JACK_REMAP;
use crate::constants::VIRTIO_SND_R_PCM_INFO;
use crate::constants::VIRTIO_SND_R_PCM_PREPARE;
use crate::constants::VIRTIO_SND_R_PCM_RELEASE;
use crate::constants::VIRTIO_SND_R_PCM_START;
use crate::constants::VIRTIO_SND_R_PCM_STOP;
use crate::constants::VIRTIO_SND_S_OK;
use crate::errors::Error;
use crate::errors::ProtocolErrorKind;
use crate::handshake::VioSConfig;
use crate::layout::BufferReleaseMsg;
use crate::layout::IoTransferMsg;
use crate::layout::virtio_snd_chmap_info;
use crate::layout::virtio_snd_event;
use crate::layout::virtio_snd_hdr;
use crate::layout::virtio_snd_jack_hdr;
use crate::layout::virtio_snd_jack_info;
use crate::layout::virtio_snd_jack_remap;
use crate::layout::virtio_snd_pcm_hdr;
use crate::layout::virtio_snd_pcm_info;
use crate::layout::virtio_snd_pcm_set_params;
use crate::layout::virtio_snd_query_info;
use crate::stream_info::VioSStreamInfo;
use crate::stream_info::VioSStreamParams;
use crate::stream_info::spec_set_params_msg;
use crate::stream_info::spec_stream_info;

verus! {

broadcast use vstd::std_specs::hash::group_hash_axioms, vstd::std_specs::vecdeque::group_vec_dequeue_axioms;

/// Coordination flags shared between the façade and the background receiver:
/// whether the receiver should keep running, and whether server events are
/// being buffered for a consumer.
#[derive(Clone, Copy, Debug, PartialEq, Eq, Structural)]
pub struct ThreadFlags {
    pub running: bool,
    pub reporting_events: bool,
}

/// What the caller of a stop transition has to do with the real thread.
#[derive(Clone, Copy, Debug, PartialEq, Eq, Structural)]
pub enum StopAction {
    /// No receiver thread exists; nothing to do.
    NoThread,
    /// Signal the stop notifier and join the thread.
    SignalAndJoin,
}

/// A transfer that has been staged and registered but not yet sent: the
/// range of the ring holding its payload, the transfer-initiate message to
/// put on the data socket, and the channel half on which to await the
/// completion.
pub struct PendingTransfer {
    pub buffer: BufferView,
    pub msg: IoTransferMsg,
    pub status_promise: Receiver<BufferReleaseMsg>,
}

/// The query command asking for `count` capability records under the given
/// opcode, starting at index 0.
pub open spec fn spec_query_info(code: u32, count: u32) -> virtio_snd_query_info {
    virtio_snd_query_info {
        hdr: virtio_snd_hdr { code },
        start_id: 0u32,
        count,
        size: QUERY_INFO_SIZE as u32,
    }
}

/// The command that remaps a jack's association and sequence.
pub open spec fn spec_jack_remap_msg(
    jack_id: u32,
    association: u32,
    sequence: u32,
) -> virtio_snd_jack_remap {
    virtio_snd_jack_remap {
        hdr: virtio_snd_jack_hdr { hdr: virtio_snd_hdr { code: VIRTIO_SND_R_JACK_REMAP }, jack_id },
        association,
        sequence,
    }
}

/// Interprets the status field of a command reply: the success value means
/// the command went through, anything else is the server's failure code.
pub fn check_cmd_status(code: u32) -> (r: Result<(), Error>)
    ensures
        code == VIRTIO_SND_S_OK ==> r == Ok::<(), Error>(()),
        code != VIRTIO_SND_S_OK ==> r == Err::<(), Error>(Error::CommandFailed(code)),
{
    if code == VIRTIO_SND_S_OK {
        Ok(())
    } else {
        Err(Error::CommandFailed(code))
    }
}

/// The client for the audio server.
///
/// Holds everything the protocol logic decides over; the sockets, mappings
/// and the receiver thread itself live with the unverified shell that wraps
/// this state.
pub struct VioSClient {
    pub config: VioSConfig,
    pub jacks: Vec<virtio_snd_jack_info>,
    pub streams: Vec<VioSStreamInfo>,
    pub chmaps: Vec<virtio_snd_chmap_info>,
    /// Staging ring of the transmit (playback) direction.
    pub tx: IoBufferQueue,
    /// Staging ring of the receive (capture) direction.
    pub rx: IoBufferQueue,
    /// Server events buffered for polling, oldest first.
    pub events: VecDeque<virtio_snd_event>,
    /// Completion waiters of in-flight transmit transfers, keyed by the
    /// transfer's buffer offset.
    pub tx_subscribers: HashMap<usize, Sender<BufferReleaseMsg>>,
    /// Completion waiters of in-flight receive transfers, keyed by the
    /// transfer's buffer offset.
    pub rx_subscribers: HashMap<usize, Sender<BufferReleaseMsg>>,
    /// Flags read by the background receiver once per wake cycle.
    pub recv_thread_state: ThreadFlags,
    /// Whether a background receiver thread currently exists.
    pub recv_thread_present: bool,
}

impl VioSClient {
    /// Both staging rings are well-formed.
    pub open spec fn wf(self) -> bool {
        self.tx.wf() && self.rx.wf()
    }

    /// The configuration and the capability caches agree between `self` and
    /// `o`.
    pub open spec fn same_capability_state(self, o: VioSClient) -> bool {
        &&& self.config == o.config
        &&& self.jacks@ == o.jacks@
        &&& self.streams@ == o.streams@
        &&& self.chmaps@ == o.chmaps@
    }

    /// The receiver coordination state agrees between `self` and `o`.
    pub open spec fn same_lifecycle(self, o: VioSClient) -> bool {
        &&& self.recv_thread_state == o.recv_thread_state
        &&& self.recv_thread_present == o.recv_thread_present
    }

    /// The rings, the completion registries and the event queue agree
    /// between `self` and `o`.
    pub open spec fn same_streaming_state(self, o: VioSClient) -> bool {
        &&& self.tx == o.tx
        &&& self.rx == o.rx
        &&& self.tx_subscribers@ == o.tx_subscribers@
        &&& self.rx_subscribers@ == o.rx_subscribers@
        &&& self.events@ == o.events@
    }

    /// A fresh client right after the handshake: the given config, empty
    /// capability caches, fresh rings over regions of the given sizes, no
    /// buffered events, no registered waiters, and a receiver that is
    /// considered running but not yet spawned.
    pub fn new(config: VioSConfig, tx_size: usize, rx_size: usize) -> (c: VioSClient)
        requires
            tx_size <= u32::MAX,
            rx_size <= u32::MAX,
        ensures
            c.wf(),
            c.config == config,
            c.jacks@.len() == 0,
            c.streams@.len() == 0,
            c.chmaps@.len() == 0,
            c.tx == (IoBufferQueue { size: tx_size, next: 0 }),
            c.rx == (IoBufferQueue { size: rx_size, next: 0 }),
            c.events@.len() == 0,
            c.tx_subscribers@ == Map::<usize, Sender<BufferReleaseMsg>>::empty(),
            c.rx_subscribers@ == Map::<usize, Sender<BufferReleaseMsg>>::empty(),
            c.recv_thread_state == (ThreadFlags { running: true, reporting_events: false }),
            !c.recv_thread_present,
    {
        VioSClient {
            config,
            jacks: Vec::new(),
            streams: Vec::new(),
            chmaps: Vec::new(),
            tx: IoBufferQueue::new(tx_size),
            rx: IoBufferQueue::new(rx_size),
            events: VecDeque::new(),
            tx_subscribers: HashMap::new(),
            rx_subscribers: HashMap::new(),
            recv_thread_state: ThreadFlags { running: true, reporting_events: false },
            recv_thread_present: false,
        }
    }

    /// Get the number of jacks.
    pub fn num_jacks(&self) -> (r: u32)
        ensures
            r == self.config.jacks,
    {
        self.config.jacks
    }

    /// Get the number of PCM streams.
    pub fn num_streams(&self) -> (r: u32)
        ensures
            r == self.config.streams,
    {
        self.config.streams
    }

    /// Get the number of channel maps.
    pub fn num_chmaps(&self) -> (r: u32)
        ensures
            r == self.config.chmaps,
    {
        self.config.chmaps
    }

    /// Get the cached capability record of a jack.
    pub fn jack_info(&self, idx: u32) -> (r: Option<virtio_snd_jack_info>)
        ensures
            (idx as int) < self.jacks@.len() ==> r == Some(self.jacks@[idx as int]),
            (idx as int) >= self.jacks@.len() ==> r == None::<virtio_snd_jack_info>,
    {
        if (idx as usize) < self.jacks.len() {
            Some(self.jacks[idx as usize])
        } else {
            None
        }
    }

    /// Get the cached capability record of a PCM stream.
    pub fn stream_info(&self, idx: u32) -> (r: Option<virtio_snd_pcm_info>)
        ensures
            (idx as int) < self.streams@.len() ==> r == Some(
                crate::stream_info::spec_pcm_info_of(self.streams@[idx as int]),
            ),
            (idx as int) >= self.streams@.len() ==> r == None::<virtio_snd_pcm_info>,
    {
        if (idx as usize) < self.streams.len() {
            Some(self.streams[idx as usize].to_pcm_info())
        } else {
            None
        }
    }

    /// Get the cached capability record of a channel map.
    pub fn chmap_info(&self, idx: u32) -> (r: Option<virtio_snd_chmap_info>)
        ensures
            (idx as int) < self.chmaps@.len() ==> r == Some(self.chmaps@[idx as int]),
            (idx as int) >= self.chmaps@.len() ==> r == None::<virtio_snd_chmap_info>,
    {
        if (idx as usize) < self.chmaps.len() {
            Some(self.chmaps[idx as usize])
        } else {
            None
        }
    }

    /// The query for the jack capability table, or nothing when the server
    /// announced no jacks.
    pub fn jack_info_query(&self) -> (r: Option<virtio_snd_query_info>)
        ensures
            self.config.jacks == 0 ==> r == None::<virtio_snd_query_info>,
            self.config.jacks != 0 ==> r == Some(
                spec_query_info(VIRTIO_SND_R_JACK_INFO, self.config.jacks),
            ),
    {
        if self.config.jacks == 0 {
            None
        } else {
            Some(
                virtio_snd_query_info {
                    hdr: virtio_snd_hdr { code: VIRTIO_SND_R_JACK_INFO },
                    start_id: 0u32,
                    count: self.config.jacks,
                    size: QUERY_INFO_SIZE as u32,
                },
            )
        }
    }

    /// The query for the stream capability table, or nothing when the server
    /// announced no streams.
    pub fn stream_info_query(&self) -> (r: Option<virtio_snd_query_info>)
        ensures
            self.config.streams == 0 ==> r == None::<virtio_snd_query_info>,
            self.config.streams != 0 ==> r == Some(
                spec_query_info(VIRTIO_SND_R_PCM_INFO, self.config.streams),
            ),
    {
        if self.config.streams == 0 {
            None
        } else {
            Some(
                virtio_snd_query_info {
                    hdr: virtio_snd_hdr { code: VIRTIO_SND_R_PCM_INFO },
                    start_id: 0u32,
                    count: self.config.streams,
                    size: QUERY_INFO_SIZE as u32,
                },
            )
        }
    }

    /// The query for the channel-map capability table, or nothing when the
    /// server announced no channel maps.
    pub fn chmap_info_query(&self) -> (r: Option<virtio_snd_query_info>)
        ensures
            self.config.chmaps == 0 ==> r == None::<virtio_snd_query_info>,
            self.config.chmaps != 0 ==> r == Some(
                spec_query_info(VIRTIO_SND_R_CHMAP_INFO, self.config.chmaps),
            ),
    {
        if self.config.chmaps == 0 {
            None
        } else {
            Some(
                virtio_snd_query_info {
                    hdr: virtio_snd_hdr { code: VIRTIO_SND_R_CHMAP_INFO },
                    start_id: 0u32,
                    count: self.config.chmaps,
                    size: QUERY_INFO_SIZE as u32,
                },
            )
        }
    }

    /// Stores the jack capability table received as a reply of `reply_len`
    /// bytes, parsed into `records`. The reply must be exactly one record per
    /// announced jack, else it is a size-mismatch protocol error and nothing
    /// changes.
    pub fn cache_jacks_info(&mut self, reply_len: usize, records: Vec<virtio_snd_jack_info>) -> (r:
        Result<(), Error>)
        requires
            old(self).config.jacks * JACK_INFO_SIZE <= usize::MAX,
            records@.len() * JACK_INFO_SIZE == reply_len,
        ensures
            reply_len != old(self).config.jacks * JACK_INFO_SIZE ==> r == Err::<(), Error>(
                Error::ProtocolError(
                    ProtocolErrorKind::UnexpectedMessageSize(
                        (old(self).config.jacks * JACK_INFO_SIZE) as usize,
                        reply_len,
                    ),
                ),
            ) && *final(self) == *old(self),
            reply_len == old(self).config.jacks * JACK_INFO_SIZE ==> r == Ok::<(), Error>(())
                && final(self).jacks@ == records@ && final(self).config == old(self).config
                && final(self).streams@ == old(self).streams@ && final(self).chmaps@ == old(self).chmaps@ && final(self).same_streaming_state(*old(self)) && final(self).same_lifecycle(*old(self)),
    {
        let expected: usize = (self.config.jacks as usize) * JACK_INFO_SIZE;
        if reply_len != expected {
            return Err(
                Error::ProtocolError(ProtocolErrorKind::UnexpectedMessageSize(expected, reply_len)),
            );
        }
        self.jacks = records;
        Ok(())
    }

    /// Stores the stream capability table received as a reply of `reply_len`
    /// bytes, parsed into `records`, assigning each stream its local index.
    /// The reply must be exactly one record per announced stream, else it is
    /// a size-mismatch protocol error and nothing changes.
    pub fn cache_streams_info(&mut self, reply_len: usize, records: Vec<virtio_snd_pcm_info>) -> (r:
        Result<(), Error>)
        requires
            old(self).config.streams * PCM_INFO_SIZE <= usize::MAX,
            records@.len() * PCM_INFO_SIZE == reply_len,
        ensures
            reply_len != old(self).config.streams * PCM_INFO_SIZE ==> r == Err::<(), Error>(
                Error::ProtocolError(
                    ProtocolErrorKind::UnexpectedMessageSize(
                        (old(self).config.streams * PCM_INFO_SIZE) as usize,
                        reply_len,
                    ),
                ),
            ) && *final(self) == *old(self),
            reply_len == old(self).config.streams * PCM_INFO_SIZE ==> r == Ok::<(), Error>(())
                && final(self).streams@.len() == records@.len() && (forall|i: int|
                0 <= i < records@.len() ==> final(self).streams@[i] == spec_stream_info(
                    i as u32,
                    records@[i],
                )) && final(self).config == old(self).config && final(self).jacks@ == old(self).jacks@ && final(self).chmaps@ == old(self).chmaps@ && final(self).same_streaming_state(*old(self)) && final(self).same_lifecycle(*old(self)),
    {
        let expected: usize = (self.config.streams as usize) * PCM_INFO_SIZE;
        if reply_len != expected {
            return Err(
                Error::ProtocolError(ProtocolErrorKind::UnexpectedMessageSize(expected, reply_len)),
            );
        }
        let mut streams: Vec<VioSStreamInfo> = Vec::new();
        let mut id: usize = 0;
        while id < records.len()
            invariant
                id <= records@.len(),
                records@.len() == old(self).config.streams,
                streams@.len() == id,
                forall|j: int|
                    0 <= j < id ==> streams@[j] == spec_stream_info(j as u32, records@[j]),
            decreases records@.len() - id,
        {
            let info = records[id];
            streams.push(VioSStreamInfo::new(id as u32, &info));
            id = id + 1;
        }
        self.streams = streams;
        Ok(())
    }

    /// Stores the channel-map capability table received as a reply of
    /// `reply_len` bytes, parsed into `records`. The reply must be exactly
    /// one record per announced channel map, else it is a size-mismatch
    /// protocol error and nothing changes.
    pub fn cache_chmaps_info(&mut self, reply_len: usize, records: Vec<virtio_snd_chmap_info>) -> (
        r: Result<(), Error>)
        requires
            old(self).config.chmaps * CHMAP_INFO_SIZE <= usize::MAX,
            records@.len() * CHMAP_INFO_SIZE == reply_len,
        ensures
            reply_len != old(self).config.chmaps * CHMAP_INFO_SIZE ==> r == Err::<(), Error>(
                Error::ProtocolError(
                    ProtocolErrorKind::UnexpectedMessageSize(
                        (old(self).config.chmaps * CHMAP_INFO_SIZE) as usize,
                        reply_len,
                    ),
                ),
            ) && *final(self) == *old(self),
            reply_len == old(self).config.chmaps * CHMAP_INFO_SIZE ==> r == Ok::<(), Error>(())
                && final(self).chmaps@ == records@ && final(self).config == old(self).config
                && final(self).jacks@ == old(self).jacks@ && final(self).streams@ == old(self).streams@ && final(self).same_streaming_state(*old(self)) && final(self).same_lifecycle(*old(self)),
    {
        let expected: usize = (self.config.chmaps as usize) * CHMAP_INFO_SIZE;
        if reply_len != expected {
            return Err(
                Error::ProtocolError(ProtocolErrorKind::UnexpectedMessageSize(expected, reply_len)),
            );
        }
        self.chmaps = records;
        Ok(())
    }

    /// The command that remaps jack `jack_id`, or a usage error when no such
    /// jack was announced. No I/O is performed on the error path.
    pub fn remap_jack(&self, jack_id: u32, association: u32, sequence: u32) -> (r: Result<
        virtio_snd_jack_remap,
        Error,
    >)
        ensures
            jack_id >= self.config.jacks ==> r == Err::<virtio_snd_jack_remap, Error>(
                Error::InvalidJackId(jack_id),
            ),
            jack_id < self.config.jacks ==> r == Ok::<virtio_snd_jack_remap, Error>(
                spec_jack_remap_msg(jack_id, association, sequence),
            ),
    {
        if jack_id >= self.config.jacks {
            return Err(Error::InvalidJackId(jack_id));
        }
        Ok(
            virtio_snd_jack_remap {
                hdr: virtio_snd_jack_hdr {
                    hdr: virtio_snd_hdr { code: VIRTIO_SND_R_JACK_REMAP },
                    jack_id,
                },
                association,
                sequence,
            },
        )
    }

    /// The set-parameters command for stream `stream_id`, or a usage error
    /// when no such stream is cached.
    pub fn set_stream_parameters(&self, stream_id: u32, params: VioSStreamParams) -> (r: Result<
        virtio_snd_pcm_set_params,
        Error,
    >)
        ensures
            (stream_id as int) >= self.streams@.len() ==> r == Err::<
                virtio_snd_pcm_set_params,
                Error,
            >(Error::InvalidStreamId(stream_id)),
            (stream_id as int) < self.streams@.len() ==> r == Ok::<
                virtio_snd_pcm_set_params,
                Error,
            >(spec_set_params_msg(stream_id, params)),
    {
        if (stream_id as usize) >= self.streams.len() {
            return Err(Error::InvalidStreamId(stream_id));
        }
        Ok(params.to_raw_params(stream_id))
    }

    /// Validates a caller-built set-parameters command against the cached
    /// streams and passes it through unchanged.
    pub fn set_stream_parameters_raw(&self, raw_params: virtio_snd_pcm_set_params) -> (r: Result<
        virtio_snd_pcm_set_params,
        Error,
    >)
        ensures
            (raw_params.hdr.stream_id as int) >= self.streams@.len() ==> r == Err::<
                virtio_snd_pcm_set_params,
                Error,
            >(Error::InvalidStreamId(raw_params.hdr.stream_id)),
            (raw_params.hdr.stream_id as int) < self.streams@.len() ==> r == Ok::<
                virtio_snd_pcm_set_params,
                Error,
            >(raw_params),
    {
        let stream_id = raw_params.hdr.stream_id;
        if (stream_id as usize) >= self.streams.len() {
            return Err(Error::InvalidStreamId(stream_id));
        }
        Ok(raw_params)
    }

    /// The stream command under opcode `op` for `stream_id`, or a usage
    /// error when no such stream is cached.
    pub open spec fn spec_stream_op(self, stream_id: u32, op: u32) -> Result<
        virtio_snd_pcm_hdr,
        Error,
    > {
        if (stream_id as int) >= self.streams@.len() {
            Err(Error::InvalidStreamId(stream_id))
        } else {
            Ok(virtio_snd_pcm_hdr { hdr: virtio_snd_hdr { code: op }, stream_id })
        }
    }

    fn common_stream_op(&self, stream_id: u32, op: u32) -> (r: Result<virtio_snd_pcm_hdr, Error>)
        ensures
            r == self.spec_stream_op(stream_id, op),
    {
        if (stream_id as usize) >= self.streams.len() {
            return Err(Error::InvalidStreamId(stream_id));
        }
        Ok(virtio_snd_pcm_hdr { hdr: virtio_snd_hdr { code: op }, stream_id })
    }

    /// The PREPARE command for a stream.
    pub fn prepare_stream(&self, stream_id: u32) -> (r: Result<virtio_snd_pcm_hdr, Error>)
        ensures
            r == self.spec_stream_op(stream_id, VIRTIO_SND_R_PCM_PREPARE),
    {
        self.common_stream_op(stream_id, VIRTIO_SND_R_PCM_PREPARE)
    }

    /// The RELEASE command for a stream.
    pub fn release_stream(&self, stream_id: u32) -> (r: Result<virtio_snd_pcm_hdr, Error>)
        ensures
            r == self.spec_stream_op(stream_id, VIRTIO_SND_R_PCM_RELEASE),
    {
        self.common_stream_op(stream_id, VIRTIO_SND_R_PCM_RELEASE)
    }

    /// The START command for a stream.
    pub fn start_stream(&self, stream_id: u32) -> (r: Result<virtio_snd_pcm_hdr, Error>)
        ensures
            r == self.spec_stream_op(stream_id, VIRTIO_SND_R_PCM_START),
    {
        self.common_stream_op(stream_id, VIRTIO_SND_R_PCM_START)
    }

    /// The STOP command for a stream.
    pub fn stop_stream(&self, stream_id: u32) -> (r: Result<virtio_snd_pcm_hdr, Error>)
        ensures
            r == self.spec_stream_op(stream_id, VIRTIO_SND_R_PCM_STOP),
    {
        self.common_stream_op(stream_id, VIRTIO_SND_R_PCM_STOP)
    }

    /// Stages an outgoing (playback) transfer of `size` bytes on stream
    /// `stream_id`: allocates a range of the transmit ring for the caller to
    /// fill, registers a completion waiter under the range's offset, and
    /// builds the transfer message — in that order, so the waiter exists
    /// strictly before anything can be sent. On any error nothing is staged,
    /// registered, or left to send.
    pub fn begin_inject_audio_data(&mut self, stream_id: u32, size: usize) -> (r: Result<
        PendingTransfer,
        Error,
    >)
        requires
            old(self).wf(),
        ensures
            final(self).wf(),
            r matches Err(_) ==> *final(self) == *old(self),
            (stream_id as int) >= old(self).streams@.len() ==> (r matches Err(e) && e
                == Error::InvalidStreamId(stream_id)),
            (stream_id as int) < old(self).streams@.len() && old(self).streams@[stream_id as int].direction != VIRTIO_SND_D_OUTPUT ==> (r matches Err(e) && e
                == Error::WrongDirection(VIRTIO_SND_D_OUTPUT)),
            (stream_id as int) < old(self).streams@.len() && old(self).streams@[stream_id as int].direction == VIRTIO_SND_D_OUTPUT && !old(self).tx.spec_alloc_fits(size) ==> (r matches Err(e) && e == Error::OutOfSpace),
            (stream_id as int) < old(self).streams@.len() && old(self).streams@[stream_id as int].direction == VIRTIO_SND_D_OUTPUT && old(self).tx.spec_alloc_fits(size) ==> (r matches Ok(pt) && {
                let offset = old(self).tx.spec_alloc_offset(size);
                &&& pt.buffer == (BufferView { offset, len: size })
                &&& pt.msg.io_xfer.stream_id == stream_id
                &&& pt.msg.buffer_offset == offset
                &&& pt.msg.buffer_len == size
                &&& final(self).tx == old(self).tx.spec_allocate(size)
                &&& final(self).tx_subscribers@.dom() == old(self).tx_subscribers@.dom().insert(
                    offset,
                )
                &&& final(self).tx_subscribers@.contains_key(offset)
                &&& (forall|k: usize|
                    old(self).tx_subscribers@.contains_key(k) && k != offset ==> #[trigger] final(self).tx_subscribers@[k] == old(self).tx_subscribers@[k])
                &&& final(self).rx == old(self).rx
                &&& final(self).rx_subscribers@ == old(self).rx_subscribers@
                &&& final(self).events@ == old(self).events@
                &&& final(self).same_capability_state(*old(self))
                &&& final(self).same_lifecycle(*old(self))
            }),
    {
        let sid = stream_id as usize;
        if sid >= self.streams.len() {
            return Err(Error::InvalidStreamId(stream_id));
        }
        if self.streams[sid].direction != VIRTIO_SND_D_OUTPUT {
            return Err(Error::WrongDirection(VIRTIO_SND_D_OUTPUT));
        }
        let dst_offset = match self.tx.allocate_buffer(size) {
            Ok(offset) => offset,
            Err(e) => { return Err(e) },
        };
        let buffer_slice = match self.tx.buffer_at(dst_offset, size) {
            Ok(v) => v,
            Err(e) => { return Err(e) },
        };
        // Register to receive the status before the transfer message can be
        // sent to the server.
        let (sender, receiver) = release_msg_channel();
        self.tx_subscribers.insert(dst_offset, sender);
        let msg = IoTransferMsg::new(stream_id, dst_offset, size);
        Ok(PendingTransfer { buffer: buffer_slice, msg, status_promise: receiver })
    }

    /// Stages an incoming (capture) transfer of `size` bytes on stream
    /// `stream_id`: allocates a range of the receive ring, registers a
    /// completion waiter under the range's offset, and builds the transfer
    /// message — in that order, so the waiter exists strictly before
    /// anything can be sent. On any error nothing is staged, registered, or
    /// left to send.
    pub fn begin_request_audio_data(&mut self, stream_id: u32, size: usize) -> (r: Result<
        PendingTransfer,
        Error,
    >)
        requires
            old(self).wf(),
        ensures
            final(self).wf(),
            r matches Err(_) ==> *final(self) == *old(self),
            (stream_id as int) >= old(self).streams@.len() ==> (r matches Err(e) && e
                == Error::InvalidStreamId(stream_id)),
            (stream_id as int) < old(self).streams@.len() && old(self).streams@[stream_id as int].direction != VIRTIO_SND_D_INPUT ==> (r matches Err(e) && e
                == Error::WrongDirection(VIRTIO_SND_D_INPUT)),
            (stream_id as int) < old(self).streams@.len() && old(self).streams@[stream_id as int].direction == VIRTIO_SND_D_INPUT && !old(self).rx.spec_alloc_fits(size) ==> (r matches Err(e) && e == Error::OutOfSpace),
            (stream_id as int) < old(self).streams@.len() && old(self).streams@[stream_id as int].direction == VIRTIO_SND_D_INPUT && old(self).rx.spec_alloc_fits(size) ==> (r matches Ok(pt) && {
                let offset = old(self).rx.spec_alloc_offset(size);
                &&& pt.buffer == (BufferView { offset, len: size })
                &&& pt.msg.io_xfer.stream_id == stream_id
                &&& pt.msg.buffer_offset == offset
                &&& pt.msg.buffer_len == size
                &&& final(self).rx == old(self).rx.spec_allocate(size)
                &&& final(self).rx_subscribers@.dom() == old(self).rx_subscribers@.dom().insert(
                    offset,
                )
                &&& final(self).rx_subscribers@.contains_key(offset)
                &&& (forall|k: usize|
                    old(self).rx_subscribers@.contains_key(k) && k != offset ==> #[trigger] final(self).rx_subscribers@[k] == old(self).rx_subscribers@[k])
                &&& final(self).tx == old(self).tx
                &&& final(self).tx_subscribers@ == old(self).tx_subscribers@
                &&& final(self).events@ == old(self).events@
                &&& final(self).same_capability_state(*old(self))
                &&& final(self).same_lifecycle(*old(self))
            }),
    {
        let sid = stream_id as usize;
        if sid >= self.streams.len() {
            return Err(Error::InvalidStreamId(stream_id));
        }
        if self.streams[sid].direction != VIRTIO_SND_D_INPUT {
            return Err(Error::WrongDirection(VIRTIO_SND_D_INPUT));
        }
        let src_offset = match self.rx.allocate_buffer(size) {
            Ok(offset) => offset,
            Err(e) => { return Err(e) },
        };
        let buffer_slice = match self.rx.buffer_at(src_offset, size) {
            Ok(v) => v,
            Err(e) => { return Err(e) },
        };
        // Register to receive the status before the transfer message can be
        // sent to the server.
        let (sender, receiver) = release_msg_channel();
        self.rx_subscribers.insert(src_offset, sender);
        let msg = IoTransferMsg::new(stream_id, src_offset, size);
        Ok(PendingTransfer { buffer: buffer_slice, msg, status_promise: receiver })
    }

    /// A bounds-checked view of the receive ring, used to read back the
    /// consumed bytes of a completed capture transfer.
    pub fn rx_buffer_at(&self, offset: usize, len: usize) -> (r: Result<BufferView, Error>)
        ensures
            match r {
                Ok(v) => offset + len <= self.rx.size && v.offset == offset && v.len == len,
                Err(e) => e == Error::VolatileMemoryError && offset + len > self.rx.size,
            },
    {
        self.rx.buffer_at(offset, len)
    }

    /// Whether the background receiver should keep running; read once per
    /// wake cycle.
    pub fn recv_thread_should_run(&self) -> (r: bool)
        ensures
            r == self.recv_thread_state.running,
    {
        self.recv_thread_state.running
    }

    /// Buffers a received server event when event reporting is on; returns
    /// whether it was queued (and the event notifier should be signalled).
    /// With reporting off the event is discarded silently.
    pub fn handle_event(&mut self, evt: virtio_snd_event) -> (queued: bool)
        ensures
            queued == old(self).recv_thread_state.reporting_events,
            queued ==> final(self).events@ == old(self).events@.push(evt) && final(self).same_capability_state(*old(self)) && final(self).same_lifecycle(*old(self)) && final(self).tx == old(self).tx && final(self).rx == old(self).rx && final(self).tx_subscribers@
                == old(self).tx_subscribers@ && final(self).rx_subscribers@ == old(self).rx_subscribers@,
            !queued ==> *final(self) == *old(self),
    {
        if self.recv_thread_state.reporting_events {
            self.events.push_back(evt);
            true
        } else {
            false
        }
    }

    /// Removes and returns the oldest buffered event, if any.
    pub fn pop_event(&mut self) -> (r: Option<virtio_snd_event>)
        ensures
            final(self).same_capability_state(*old(self)),
            final(self).same_lifecycle(*old(self)),
            final(self).tx == old(self).tx,
            final(self).rx == old(self).rx,
            final(self).tx_subscribers@ == old(self).tx_subscribers@,
            final(self).rx_subscribers@ == old(self).rx_subscribers@,
            old(self).events@.len() == 0 ==> r == None::<virtio_snd_event> && final(self).events@
                == old(self).events@,
            old(self).events@.len() > 0 ==> r == Some(old(self).events@[0]) && final(self).events@
                == old(self).events@.subrange(1, old(self).events@.len() as int),
    {
        self.events.pop_front()
    }

    /// Opts the client into event buffering; the shell then hands the caller
    /// a clone of the event notifier.
    pub fn enable_event_reporting(&mut self)
        ensures
            final(self).recv_thread_state.reporting_events,
            final(self).recv_thread_state.running == old(self).recv_thread_state.running,
            final(self).recv_thread_present == old(self).recv_thread_present,
            final(self).same_capability_state(*old(self)),
            final(self).same_streaming_state(*old(self)),
    {
        self.recv_thread_state.reporting_events = true;
    }

    /// Notes that a background receiver is to exist; returns whether the
    /// caller must actually spawn one. A second call is a no-op, which makes
    /// starting idempotent.
    pub fn start_bg_thread(&mut self) -> (spawn: bool)
        ensures
            spawn == !old(self).recv_thread_present,
            final(self).recv_thread_present,
            final(self).recv_thread_state == old(self).recv_thread_state,
            final(self).same_capability_state(*old(self)),
            final(self).same_streaming_state(*old(self)),
    {
        if self.recv_thread_present {
            false
        } else {
            self.recv_thread_present = true;
            true
        }
    }

    /// The stop transition: with a receiver present, the running flag is
    /// cleared and the thread is forgotten, and the caller must signal and
    /// join it; with none present nothing changes.
    pub open spec fn spec_stop(self) -> (VioSClient, StopAction) {
        if self.recv_thread_present {
            (
                VioSClient {
                    recv_thread_state: ThreadFlags {
                        running: false,
                        reporting_events: self.recv_thread_state.reporting_events,
                    },
                    recv_thread_present: false,
                    ..self
                },
                StopAction::SignalAndJoin,
            )
        } else {
            (self, StopAction::NoThread)
        }
    }

    /// Requests the background receiver to stop. Idempotent: stopping an
    /// idle client succeeds and changes nothing. When a thread exists, the
    /// running flag is cleared before the caller is told to signal and join,
    /// so the receiver exits on its next wake cycle.
    pub fn stop_bg_thread(&mut self) -> (r: StopAction)
        ensures
            (*final(self), r) == old(self).spec_stop(),
    {
        if !self.recv_thread_present {
            StopAction::NoThread
        } else {
            self.recv_thread_state.running = false;
            self.recv_thread_present = false;
            StopAction::SignalAndJoin
        }
    }
}

/// Stopping is idempotent: on a client without a receiver the stop
/// transition changes nothing, and whatever state a stop leaves behind, a
/// second stop right after it finds no thread and changes nothing either.
pub proof fn lemma_stop_idempotent(c: VioSClient)
    ensures
        !c.recv_thread_present ==> c.spec_stop() == (c, StopAction::NoThread),
        c.spec_stop().0.spec_stop() == (c.spec_stop().0, StopAction::NoThread),
{
}

} // verus!
