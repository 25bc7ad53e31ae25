//! The stream that holds either transport.
use vstd::prelude::*;
use crate::address::SocketAddress;
use crate::capability::{ByteRead, ByteWrite, IoError, IoPoll, NoDelay, PeerAddr, PollRead, PollWrite};

verus! {

/// Stream, either plain TCP or TLS.
///
/// The variant is fixed when the stream is built: no operation moves a
/// stream from one variant to the other.
pub enum Stream<S, T> {
    /// Unencrypted socket stream.
    Plain(S),
    /// Encrypted socket stream.
    Tls(T),
}

impl<S, T> Stream<S, T> {
    /// Whether the stream holds the plain transport.
    pub open spec fn spec_is_plain(self) -> bool {
        self is Plain
    }

    /// Whether `pre` and `post` hold the same variant.
    pub open spec fn same_variant(pre: Self, post: Self) -> bool {
        pre.spec_is_plain() == post.spec_is_plain()
    }

    /// A stream keeps its variant over its whole lifetime: along any run of
    /// states in which each operation kept the variant, as every operation of
    /// the capability traits on a `Stream` does, each state holds the variant
    /// that the first one held.
    pub proof fn lemma_variant_kept_over_run(states: Seq<Self>)
        requires
            forall|i: int| 0 <= i < states.len() - 1 ==> Self::same_variant(#[trigger] states[i], states[i + 1]),
        ensures
            forall|i: int| 0 <= i < states.len() ==> (#[trigger] states[i]).spec_is_plain() == states[0].spec_is_plain(),
        decreases states.len(),
    {
        if states.len() > 1 {
            let front = states.drop_last();
            Self::lemma_variant_kept_over_run(front);
            assert forall|i: int| 0 <= i < states.len() implies (#[trigger] states[i]).spec_is_plain()
                == states[0].spec_is_plain() by {
                if i < states.len() - 1 {
                    assert(states[i] == front[i]);
                } else {
                    assert(states[i - 1] == front[i - 1]);
                    assert(Self::same_variant(states[i - 1], states[i]));
                }
            }
        }
    }

    /// Whether the stream holds the plain transport.
    pub fn is_plain(&self) -> (r: bool)
        ensures
            r == self.spec_is_plain(),
    {
        match self {
            Stream::Plain(_) => true,
            Stream::Tls(_) => false,
        }
    }
}

impl<S: ByteRead, T: ByteRead> ByteRead for Stream<S, T> {
    open spec fn read_step(pre: Self, before: Seq<u8>, post: Self, after: Seq<u8>, r: Result<usize, IoError>) -> bool {
        match (pre, post) {
            (Stream::Plain(a), Stream::Plain(b)) => S::read_step(a, before, b, after, r),
            (Stream::Tls(a), Stream::Tls(b)) => T::read_step(a, before, b, after, r),
            _ => false,
        }
    }

    fn read(&mut self, buf: &mut [u8]) -> (r: Result<usize, IoError>)
        ensures
            Self::same_variant(*old(self), *final(self)),
    {
        match self {
            Stream::Plain(s) => s.read(buf),
            Stream::Tls(s) => s.read(buf),
        }
    }
}

impl<S: ByteWrite, T: ByteWrite> ByteWrite for Stream<S, T> {
    open spec fn write_step(pre: Self, data: Seq<u8>, post: Self, r: Result<usize, IoError>) -> bool {
        match (pre, post) {
            (Stream::Plain(a), Stream::Plain(b)) => S::write_step(a, data, b, r),
            (Stream::Tls(a), Stream::Tls(b)) => T::write_step(a, data, b, r),
            _ => false,
        }
    }

    open spec fn flush_step(pre: Self, post: Self, r: Result<(), IoError>) -> bool {
        match (pre, post) {
            (Stream::Plain(a), Stream::Plain(b)) => S::flush_step(a, b, r),
            (Stream::Tls(a), Stream::Tls(b)) => T::flush_step(a, b, r),
            _ => false,
        }
    }

    fn write(&mut self, buf: &[u8]) -> (r: Result<usize, IoError>)
        ensures
            Self::same_variant(*old(self), *final(self)),
    {
        match self {
            Stream::Plain(s) => s.write(buf),
            Stream::Tls(s) => s.write(buf),
        }
    }

    fn flush(&mut self) -> (r: Result<(), IoError>)
        ensures
            Self::same_variant(*old(self), *final(self)),
    {
        match self {
            Stream::Plain(s) => s.flush(),
            Stream::Tls(s) => s.flush(),
        }
    }
}

impl<S: NoDelay, T: NoDelay> NoDelay for Stream<S, T> {
    open spec fn nodelay_step(pre: Self, nodelay: bool, post: Self, r: Result<(), IoError>) -> bool {
        match (pre, post) {
            (Stream::Plain(a), Stream::Plain(b)) => S::nodelay_step(a, nodelay, b, r),
            (Stream::Tls(a), Stream::Tls(b)) => T::nodelay_step(a, nodelay, b, r),
            _ => false,
        }
    }

    fn set_nodelay(&mut self, nodelay: bool) -> (r: Result<(), IoError>)
        ensures
            Self::same_variant(*old(self), *final(self)),
    {
        match self {
            Stream::Plain(s) => s.set_nodelay(nodelay),
            Stream::Tls(s) => s.set_nodelay(nodelay),
        }
    }
}

impl<S: PeerAddr, T: PeerAddr> PeerAddr for Stream<S, T> {
    open spec fn peer_addr_result(s: Self, r: Result<SocketAddress, IoError>) -> bool {
        match s {
            Stream::Plain(a) => S::peer_addr_result(a, r),
            Stream::Tls(a) => T::peer_addr_result(a, r),
        }
    }

    fn peer_addr(&self) -> (r: Result<SocketAddress, IoError>) {
        match self {
            Stream::Plain(s) => s.peer_addr(),
            Stream::Tls(s) => s.peer_addr(),
        }
    }
}

impl<B, S: PollRead<B>, T: PollRead<B>> PollRead<B> for Stream<S, T> {
    open spec fn prepare_step(s: Self, before: Seq<u8>, after: Seq<u8>, r: bool) -> bool {
        match s {
            Stream::Plain(a) => S::prepare_step(a, before, after, r),
            Stream::Tls(a) => T::prepare_step(a, before, after, r),
        }
    }

    open spec fn read_buf_step(pre: Self, buf_pre: B, post: Self, buf_post: B, r: IoPoll<usize>) -> bool {
        match (pre, post) {
            (Stream::Plain(a), Stream::Plain(b)) => S::read_buf_step(a, buf_pre, b, buf_post, r),
            (Stream::Tls(a), Stream::Tls(b)) => T::read_buf_step(a, buf_pre, b, buf_post, r),
            _ => false,
        }
    }

    fn prepare_uninitialized_buffer(&self, buf: &mut [u8]) -> (r: bool) {
        match self {
            Stream::Plain(s) => s.prepare_uninitialized_buffer(buf),
            Stream::Tls(s) => s.prepare_uninitialized_buffer(buf),
        }
    }

    fn read_buf(&mut self, buf: &mut B) -> (r: IoPoll<usize>)
        ensures
            Self::same_variant(*old(self), *final(self)),
    {
        match self {
            Stream::Plain(s) => s.read_buf(buf),
            Stream::Tls(s) => s.read_buf(buf),
        }
    }
}

impl<B, S: PollWrite<B>, T: PollWrite<B>> PollWrite<B> for Stream<S, T> {
    open spec fn shutdown_step(pre: Self, post: Self, r: IoPoll<()>) -> bool {
        match (pre, post) {
            (Stream::Plain(a), Stream::Plain(b)) => S::shutdown_step(a, b, r),
            (Stream::Tls(a), Stream::Tls(b)) => T::shutdown_step(a, b, r),
            _ => false,
        }
    }

    open spec fn write_buf_step(pre: Self, buf_pre: B, post: Self, buf_post: B, r: IoPoll<usize>) -> bool {
        match (pre, post) {
            (Stream::Plain(a), Stream::Plain(b)) => S::write_buf_step(a, buf_pre, b, buf_post, r),
            (Stream::Tls(a), Stream::Tls(b)) => T::write_buf_step(a, buf_pre, b, buf_post, r),
            _ => false,
        }
    }

    fn shutdown(&mut self) -> (r: IoPoll<()>)
        ensures
            Self::same_variant(*old(self), *final(self)),
    {
        match self {
            Stream::Plain(s) => s.shutdown(),
            Stream::Tls(s) => s.shutdown(),
        }
    }

    fn write_buf(&mut self, buf: &mut B) -> (r: IoPoll<usize>)
        ensures
            Self::same_variant(*old(self), *final(self)),
    {
        match self {
            Stream::Plain(s) => s.write_buf(buf),
            Stream::Tls(s) => s.write_buf(buf),
        }
    }
}

} // verus!
