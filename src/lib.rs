//! A stream that is either a plain socket or an encrypted one, chosen at run time.
//!
//! Nothing here depends on a particular encryption library: any pair of transports
//! that implement the capability traits of [`capability`] can be wrapped in a
//! [`Stream`], and every operation on the wrapper is forwarded to the transport it
//! holds, unchanged.
use vstd::prelude::*;

pub mod address;
pub mod capability;
pub mod stream;

pub use address::SocketAddress;
pub use capability::{ByteRead, ByteWrite, NoDelay, PeerAddr, PollRead, PollWrite, IoPoll, IoError};
pub use stream::Stream;
