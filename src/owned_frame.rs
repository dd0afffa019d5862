//! An Ethernet II frame that holds its own copy of the payload, so that it
//! can outlive the buffer it was decoded from.
use crate::frame::Ethernet2Frame;
use crate::header::Ethernet2Header;
use crate::Error;
use vstd::prelude::*;

verus! {

/// A header and an owned payload.
pub struct OwnedEthernet2Frame {
    pub header: Ethernet2Header,
    pub payload: Vec<u8>,
}

impl OwnedEthernet2Frame {
    /// The bytes that stand for this frame on the wire: the header, then the
    /// payload as it is.
    pub open spec fn wire(self) -> Seq<u8> {
        self.header.wire() + self.payload@
    }

    /// The number of bytes of the frame on the wire.
    pub open spec fn spec_length(self) -> int {
        14 + self.payload@.len() as int
    }

    /// `self` is what the whole of `b` decodes to: a header and at least one
    /// payload byte.
    pub open spec fn decoded_from(self, b: Seq<u8>) -> bool {
        &&& b.len() > 14
        &&& self.header.decoded_from(b)
        &&& self.payload@ == b.subrange(14, b.len() as int)
    }

    /// Decodes a frame from the whole of `from`, copying the payload.
    /// Returns the frame and the number of bytes consumed.
    pub fn try_from_ctx(from: &[u8]) -> (r: Result<(Self, usize), Error>)
        ensures
            match r {
                Ok((f, n)) => f.decoded_from(from@) && n == from@.len(),
                Err(e) => from@.len() <= 14 && e == Error::NoBody,
            },
    {
        match Ethernet2Frame::try_from_ctx(from) {
            Ok((frame, n)) => Ok(
                (
                    OwnedEthernet2Frame {
                        header: frame.header,
                        payload: vstd::slice::slice_to_vec(frame.payload),
                    },
                    n,
                ),
            ),
            Err(e) => Err(e),
        }
    }

    /// Writes the frame to the start of `buf`, leaving the bytes after it
    /// untouched. Returns the number of bytes written. On a buffer shorter
    /// than the frame nothing is written.
    pub fn try_into_ctx(self, buf: &mut [u8]) -> (r: Result<usize, Error>)
        ensures
            match r {
                Ok(n) => {
                    &&& old(buf)@.len() >= self.spec_length()
                    &&& n == self.spec_length()
                    &&& final(buf)@ == self.wire() + old(buf)@.subrange(
                        self.spec_length(),
                        old(buf)@.len() as int,
                    )
                },
                Err(e) => {
                    &&& old(buf)@.len() < self.spec_length()
                    &&& e == Error::BufferTooShort
                    &&& final(buf)@ == old(buf)@
                },
            },
    {
        let frame = Ethernet2Frame { header: self.header, payload: self.payload.as_slice() };
        frame.try_into_ctx(buf)
    }
}

/// The owned and the borrowed decoding of one buffer agree: the same header
/// and the same payload bytes.
pub proof fn lemma_owned_matches_borrowed<'a>(b: Seq<u8>)
    ensures
        forall|o: OwnedEthernet2Frame, f: Ethernet2Frame<'a>|
            #![trigger o.decoded_from(b), f.decoded_from(b)]
            o.decoded_from(b) && f.decoded_from(b) ==> o.header == f.header && o.payload@
                == f.payload@,
{
    assert forall|o: OwnedEthernet2Frame, f: Ethernet2Frame<'a>|
        #![trigger o.decoded_from(b), f.decoded_from(b)]
        o.decoded_from(b) && f.decoded_from(b) implies o.header == f.header && o.payload@
            == f.payload@ by {
        assert(o.header.dst.0 =~= f.header.dst.0);
        assert(o.header.src.0 =~= f.header.src.0);
    }
}

} // verus!
