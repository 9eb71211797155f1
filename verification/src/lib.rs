//! Client core for a virtio-snd style audio server reached over shared memory
//! and seqpacket sockets.
//!
//! This crate holds the protocol logic of the client: the connection
//! handshake checks, the ring-buffer allocator that stages transfer payloads,
//! the command and query message builders with their reply-size checks, the
//! completion registry that lets caller threads block on asynchronous buffer
//! statuses, and the decision logic of the background receiver. All I/O (the
//! sockets, the memory mappings, the receiver thread itself) lives outside
//! this crate and hands plain values in and out.

#![allow(non_camel_case_types)]

pub mod buffer_queue;
pub mod channel;
pub mod client;
pub mod constants;
pub mod errors;
pub mod handshake;
pub mod layout;
pub mod receiver;
pub mod stream_info;
