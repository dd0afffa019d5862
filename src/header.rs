//! The fixed 14-byte Ethernet II header.
use crate::wire::{
    be_bytes, be_value, ether_type_bits, ether_type_of, lemma_ether_type_round_trip, read_mac,
    read_u16_be, u16_be_bytes, write_bytes,
};
use crate::Error;
use ether_type::EtherType;
use mac_parser::MACAddress;
use vstd::prelude::*;

verus! {

/// An Ethernet II header as described in IEEE 802.3.
#[derive(Clone, Copy, Debug, PartialEq, Eq)]
pub struct Ethernet2Header {
    /// Destination
    pub dst: MACAddress,
    /// Source
    pub src: MACAddress,
    /// EtherType of the payload
    pub ether_type: EtherType,
}

impl Ethernet2Header {
    /// The header length in bytes.
    pub const HEADER_LENGTH: usize = 14;

    /// The 14 bytes that stand for this header on the wire: destination,
    /// source, then the EtherType big-endian.
    pub open spec fn wire(self) -> Seq<u8> {
        self.dst.0@ + self.src.0@ + be_bytes(ether_type_bits(self.ether_type))
    }

    /// `self` is what the first 14 bytes of `b` decode to.
    pub open spec fn decoded_from(self, b: Seq<u8>) -> bool {
        &&& b.len() >= 14
        &&& self.dst.0@ == b.subrange(0, 6)
        &&& self.src.0@ == b.subrange(6, 12)
        &&& self.ether_type == ether_type_of(be_value(b[12], b[13]))
    }

    /// Decodes a header from the start of `from`; bytes past the 14th are
    /// not read. Returns the header and the number of bytes consumed.
    pub fn try_from_ctx(from: &[u8]) -> (r: Result<(Self, usize), Error>)
        ensures
            match r {
                Ok((h, n)) => from@.len() >= 14 && n == 14 && h.decoded_from(from@),
                Err(e) => from@.len() < 14 && e == Error::TooShort,
            },
    {
        if from.len() < Self::HEADER_LENGTH {
            return Err(Error::TooShort);
        }
        let dst = read_mac(from, 0);
        let src = read_mac(from, 6);
        let ether_type = EtherType::from_bits(read_u16_be(from[12], from[13]));
        Ok((Self { dst, src, ether_type }, Self::HEADER_LENGTH))
    }

    /// Writes the header to the start of `buf`, leaving the bytes after it
    /// untouched. Returns the number of bytes written. On a buffer shorter
    /// than 14 bytes nothing is written.
    pub fn try_into_ctx(self, buf: &mut [u8]) -> (r: Result<usize, Error>)
        ensures
            match r {
                Ok(n) => {
                    &&& old(buf)@.len() >= 14
                    &&& n == 14
                    &&& final(buf)@ == self.wire() + old(buf)@.subrange(14, old(buf)@.len() as int)
                },
                Err(e) => {
                    &&& old(buf)@.len() < 14
                    &&& e == Error::BufferTooShort
                    &&& final(buf)@ == old(buf)@
                },
            },
    {
        if buf.len() < Self::HEADER_LENGTH {
            return Err(Error::BufferTooShort);
        }
        let et = u16_be_bytes(self.ether_type.into_bits());
        write_bytes(buf, 0, self.dst.0.as_slice());
        write_bytes(buf, 6, self.src.0.as_slice());
        write_bytes(buf, 12, et.as_slice());
        assert(final(buf)@ =~= self.wire() + old(buf)@.subrange(14, old(buf)@.len() as int));
        Ok(Self::HEADER_LENGTH)
    }

    /// Decodes a header from the start of `bytes`.
    ///
    /// Returns `None` exactly when `bytes` is shorter than 14 bytes.
    pub fn from_bytes(bytes: &[u8]) -> (r: Option<Self>)
        ensures
            r is Some <==> bytes@.len() >= 14,
            r matches Some(h) ==> h.decoded_from(bytes@),
    {
        match Self::try_from_ctx(bytes) {
            Ok((h, _)) => Some(h),
            Err(_) => None,
        }
    }

    /// Decodes a header from exactly 14 bytes; this cannot fail.
    pub fn from_fixed_bytes(bytes: [u8; 14]) -> (r: Self)
        ensures
            r.decoded_from(bytes@),
    {
        Self::from_bytes(bytes.as_slice()).unwrap()
    }

    /// Writes the header to the start of `buf`.
    ///
    /// Returns `None`, and writes nothing, exactly when `buf` is shorter than
    /// 14 bytes.
    pub fn to_bytes(self, buf: &mut [u8]) -> (r: Option<()>)
        ensures
            r is Some <==> old(buf)@.len() >= 14,
            r is Some ==> final(buf)@ == self.wire() + old(buf)@.subrange(
                14,
                old(buf)@.len() as int,
            ),
            r is None ==> final(buf)@ == old(buf)@,
    {
        match self.try_into_ctx(buf) {
            Ok(_) => Some(()),
            Err(_) => None,
        }
    }

    /// The 14 bytes of the header; this cannot fail.
    pub fn to_fixed_bytes(self) -> (r: [u8; 14])
        ensures
            r@ == self.wire(),
    {
        let mut buf = [0u8; 14];
        let res = self.try_into_ctx(&mut buf);
        assert(res is Ok);
        buf
    }
}

/// Decoding any 14 bytes as a header and encoding the header again gives
/// back the same 14 bytes.
pub proof fn lemma_header_round_trip(b: Seq<u8>)
    requires
        b.len() == 14,
    ensures
        forall|h: Ethernet2Header| #[trigger] h.decoded_from(b) ==> h.wire() == b,
{
    assert forall|h: Ethernet2Header| #[trigger] h.decoded_from(b) implies h.wire() == b by {
        lemma_ether_type_round_trip(b[12], b[13]);
        assert(h.wire() =~= b);
    }
}

} // verus!
