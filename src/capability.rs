//! What a transport can do, one trait per capability.
//!
//! Each operation comes with a spec relation between the transport before the
//! call, its arguments, the transport after the call and the outcome. An
//! implementation promises that every call it makes lands in that relation, so
//! a caller may reason about a transport through the relation alone. By default
//! the relation admits every step: a transport that describes its behaviour
//! overrides it.
use vstd::prelude::*;

verus! {

/// The error that a transport reports.
pub type IoError = std::io::Error;

/// Declares std's `io::Error` to the verifier as an opaque type: errors are
/// handed back to the caller as they came, and nothing inside one is read.
#[verifier::external_type_specification]
#[verifier::external_body]
pub struct ExIoError(std::io::Error);

/// The outcome of an attempt that must not block: it made progress, it could
/// not make any without waiting, or the transport failed.
#[derive(Debug)]
pub enum IoPoll<T> {
    Ready(T),
    NotReady,
    Failed(IoError),
}

/// Blocking reads of bytes.
pub trait ByteRead: Sized {
    /// `read` may move `pre` to `post`, leave `after` in the buffer that held
    /// `before`, and return `r`.
    open spec fn read_step(pre: Self, before: Seq<u8>, post: Self, after: Seq<u8>, r: Result<usize, IoError>) -> bool {
        true
    }

    /// Fills a prefix of `buf` from the stream and returns its length; `Ok(0)`
    /// means the end of the stream. May block.
    fn read(&mut self, buf: &mut [u8]) -> (r: Result<usize, IoError>)
        ensures
            Self::read_step(*old(self), old(buf)@, *final(self), final(buf)@, r),
            r matches Ok(n) ==> n <= old(buf)@.len(),
    ;
}

/// Blocking writes of bytes.
pub trait ByteWrite: Sized {
    /// `write` may move `pre` to `post` with `data` given and return `r`.
    open spec fn write_step(pre: Self, data: Seq<u8>, post: Self, r: Result<usize, IoError>) -> bool {
        true
    }

    /// `flush` may move `pre` to `post` and return `r`.
    open spec fn flush_step(pre: Self, post: Self, r: Result<(), IoError>) -> bool {
        true
    }

    /// Writes a prefix of `buf` and returns its length, which may be less than
    /// the whole. May block.
    fn write(&mut self, buf: &[u8]) -> (r: Result<usize, IoError>)
        ensures
            Self::write_step(*old(self), buf@, *final(self), r),
            r matches Ok(n) ==> n <= buf@.len(),
    ;

    /// Hands everything buffered so far to the transport.
    fn flush(&mut self) -> (r: Result<(), IoError>)
        ensures
            Self::flush_step(*old(self), *final(self), r),
    ;
}

/// Switching the coalescing of small writes (`TCP_NODELAY`).
pub trait NoDelay: Sized {
    /// `set_nodelay(nodelay)` may move `pre` to `post` and return `r`.
    open spec fn nodelay_step(pre: Self, nodelay: bool, post: Self, r: Result<(), IoError>) -> bool {
        true
    }

    /// Sets the `TCP_NODELAY` option to `nodelay`.
    fn set_nodelay(&mut self, nodelay: bool) -> (r: Result<(), IoError>)
        ensures
            Self::nodelay_step(*old(self), nodelay, *final(self), r),
    ;
}

/// The remote end of a connected stream.
pub trait PeerAddr: Sized {
    /// `peer_addr` on `s` may return `r`.
    open spec fn peer_addr_result(s: Self, r: Result<crate::address::SocketAddress, IoError>) -> bool {
        true
    }

    /// Returns the address that this stream is connected to.
    fn peer_addr(&self) -> (r: Result<crate::address::SocketAddress, IoError>)
        ensures
            Self::peer_addr_result(*self, r),
    ;
}

/// Reads that never block, into a growable buffer of type `B`.
pub trait PollRead<B>: Sized {
    /// `prepare_uninitialized_buffer` on `s` may turn `before` into `after`
    /// and return `r`.
    open spec fn prepare_step(s: Self, before: Seq<u8>, after: Seq<u8>, r: bool) -> bool {
        true
    }

    /// `read_buf` may move `pre` to `post`, the buffer from `buf_pre` to
    /// `buf_post`, and return `r`.
    open spec fn read_buf_step(pre: Self, buf_pre: B, post: Self, buf_post: B, r: IoPoll<usize>) -> bool {
        true
    }

    /// Prepares `buf`, about to be read into, and tells whether it had to be
    /// zeroed for that. Does no I/O and cannot fail.
    fn prepare_uninitialized_buffer(&self, buf: &mut [u8]) -> (r: bool)
        ensures
            Self::prepare_step(*self, old(buf)@, final(buf)@, r),
    ;

    /// Appends the bytes that are available to `buf`, or reports that none are
    /// yet, without blocking.
    fn read_buf(&mut self, buf: &mut B) -> (r: IoPoll<usize>)
        ensures
            Self::read_buf_step(*old(self), *old(buf), *final(self), *final(buf), r),
    ;
}

/// Writes and half-closes that never block, from a buffer of type `B`.
pub trait PollWrite<B>: Sized {
    /// `shutdown` may move `pre` to `post` and return `r`.
    open spec fn shutdown_step(pre: Self, post: Self, r: IoPoll<()>) -> bool {
        true
    }

    /// `write_buf` may move `pre` to `post`, the buffer from `buf_pre` to
    /// `buf_post`, and return `r`.
    open spec fn write_buf_step(pre: Self, buf_pre: B, post: Self, buf_post: B, r: IoPoll<usize>) -> bool {
        true
    }

    /// Closes the write half, or reports that it is still draining, without
    /// blocking.
    fn shutdown(&mut self) -> (r: IoPoll<()>)
        ensures
            Self::shutdown_step(*old(self), *final(self), r),
    ;

    /// Writes as much of `buf` as the transport takes now, advancing the
    /// buffer's read cursor past it, without blocking.
    fn write_buf(&mut self, buf: &mut B) -> (r: IoPoll<usize>)
        ensures
            Self::write_buf_step(*old(self), *old(buf), *final(self), *final(buf), r),
    ;
}

} // verus!
