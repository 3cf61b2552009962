//! A windowed read buffer for streaming byte sources.
//!
//! A [`Frame`] accumulates bytes from a socket- or file-like source up to a
//! fixed capacity. When the caller takes the accumulated bytes out with
//! [`Frame::consume`], the last `preserved` bytes stay resident, so a parser
//! scanning for a delimiter that straddles a read boundary never loses
//! context. [`Frame::finish`] flushes what remains at end-of-stream, dropping
//! the retained prefix when an earlier consume already accounted for it.
//!
//! The buffer itself is a `bytes::BytesMut`; the asynchronous read loops that
//! feed a `Frame` from a real source live outside this crate and drive it
//! through [`Frame::spare`] and [`Frame::accept_chunk`].

pub mod backing;
pub mod frame;

pub use frame::Frame;
pub use frame::ReadStep;
