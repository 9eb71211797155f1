//! Error taxonomy of the client.
//!
//! Variants that wrapped an operating-system error in the surrounding system
//! carry the raw OS error code here as an `i32`, handed in by the unverified
//! I/O shell.

use vstd::prelude::*;

verus! {

/// A violation of the wire protocol, always fatal to the operation that
/// detected it.
#[derive(Clone, Copy, Debug, PartialEq, Eq, Structural)]
pub enum ProtocolErrorKind {
    /// The server sent a config payload of the wrong size (actual size).
    UnexpectedConfigSize(usize),
    /// Wrong number of descriptors arrived with the handshake
    /// (expected, received).
    UnexpectedNumberOfFileDescriptors(usize, usize),
    /// The server announced a version this client does not speak.
    VersionMismatch(u32),
    /// A message's byte length differed from its fixed layout
    /// (expected, received).
    UnexpectedMessageSize(usize, usize),
}

/// Everything that can go wrong between this client and the audio server.
#[derive(Clone, Copy, Debug, PartialEq, Eq, Structural)]
pub enum Error {
    /// The initial connection to the server's socket failed (OS error code).
    ServerConnectionError(i32),
    /// A send or receive on a server socket failed at the OS level.
    ServerError(i32),
    /// A send or receive on a server socket failed with an I/O error.
    ServerIOError(i32),
    /// The size of a shared-memory file could not be determined.
    FileSizeError(i32),
    /// Duplicating a file descriptor failed.
    DupError(i32),
    /// Memory-mapping the server's shared memory failed.
    ServerMmapError(i32),
    /// Accessing the guest's shared memory failed.
    GuestMmapError(i32),
    /// Memory-mapping a client-provided region failed.
    BaseMmapError(i32),
    /// A requested range fell outside the mapped buffer area.
    VolatileMemoryError,
    /// The server broke the wire protocol.
    ProtocolError(ProtocolErrorKind),
    /// The server exposes no PCM streams.
    NoStreamsAvailable,
    /// No jack with this id exists.
    InvalidJackId(u32),
    /// No stream with this id exists.
    InvalidStreamId(u32),
    /// The operation does not match the stream's direction; carries the
    /// direction the operation requires.
    WrongDirection(u8),
    /// The ring buffer cannot hold a payload of the requested size.
    OutOfSpace,
    /// The requested frame rate is not supported.
    UnsupportedFrameRate(u32),
    /// The platform lacks a facility this client needs.
    PlatformNotSupported,
    /// The server replied to a command with this non-success status code.
    CommandFailed(u32),
    /// A buffer transfer completed with this non-success status code.
    IOBufferError(u32),
    /// Duplicating a seqpacket socket failed.
    UnixSeqpacketDupError(i32),
    /// The completion sender was dropped without sending a buffer status; the
    /// receiver thread may have exited.
    BufferStatusSenderLost,
    /// Creating the receiver-wakeup event failed.
    EventCreateError(i32),
    /// Duplicating the receiver-wakeup event failed.
    EventDupError(i32),
    /// Signalling an event failed.
    EventWriteError(i32),
    /// Creating the receiver thread's wait context failed.
    WaitContextCreateError(i32),
    /// Waiting for readiness in the receiver thread failed.
    WaitError(i32),
}

} // verus!
