//! Encoding and decoding of IEEE 802.3 Ethernet II frames: a fixed 14-byte
//! header (destination MAC, source MAC, EtherType) followed by a payload.
use vstd::prelude::*;

pub mod frame;
pub mod header;
pub mod owned_frame;
pub mod wire;

pub use frame::Ethernet2Frame;
pub use header::Ethernet2Header;
pub use owned_frame::OwnedEthernet2Frame;

verus! {

/// Why a frame or header could not be read or written.
#[derive(Clone, Copy, Debug, PartialEq, Eq, Structural)]
pub enum Error {
    /// The input holds fewer bytes than the 14-byte header.
    TooShort,
    /// The input holds a header but no payload byte after it.
    NoBody,
    /// The destination buffer cannot hold the encoded bytes.
    BufferTooShort,
}

} // verus!
