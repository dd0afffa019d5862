//! An Ethernet II frame whose payload is borrowed from the buffer it was
//! decoded from.
use crate::header::{lemma_header_round_trip, Ethernet2Header};
use crate::wire::write_bytes;
use crate::Error;
use vstd::prelude::*;

verus! {

/// A header and the payload that follows it, which is a view into the input.
pub struct Ethernet2Frame<'a> {
    pub header: Ethernet2Header,
    pub payload: &'a [u8],
}

impl<'a> Ethernet2Frame<'a> {
    /// The bytes that stand for this frame on the wire: the header, then the
    /// payload as it is.
    pub open spec fn wire(self) -> Seq<u8> {
        self.header.wire() + self.payload@
    }

    /// The number of bytes of the frame on the wire.
    pub open spec fn spec_length(self) -> int {
        14 + self.payload@.len() as int
    }

    /// `self` is what the whole of `b` decodes to: a header and at least one
    /// payload byte.
    pub open spec fn decoded_from(self, b: Seq<u8>) -> bool {
        &&& b.len() > 14
        &&& self.header.decoded_from(b)
        &&& self.payload@ == b.subrange(14, b.len() as int)
    }

    /// Total length in bytes.
    pub fn length_in_bytes(&self) -> (r: usize)
        requires
            self.spec_length() <= usize::MAX,
        ensures
            r == self.spec_length(),
    {
        Ethernet2Header::HEADER_LENGTH + self.payload.len()
    }

    /// Decodes a frame from the whole of `from`: the header, then all bytes
    /// that remain as the payload. Returns the frame and the number of bytes
    /// consumed.
    pub fn try_from_ctx(from: &'a [u8]) -> (r: Result<(Ethernet2Frame<'a>, usize), Error>)
        ensures
            match r {
                Ok((f, n)) => f.decoded_from(from@) && n == from@.len(),
                Err(e) => from@.len() <= 14 && e == Error::NoBody,
            },
    {
        if from.len() <= Ethernet2Header::HEADER_LENGTH {
            return Err(Error::NoBody);
        }
        let header = match Ethernet2Header::try_from_ctx(from) {
            Ok((h, _)) => h,
            Err(e) => return Err(e),
        };
        let payload = &from[Ethernet2Header::HEADER_LENGTH..from.len()];
        Ok((Ethernet2Frame { header, payload }, from.len()))
    }

    /// Writes the frame to the start of `buf`, leaving the bytes after it
    /// untouched. Returns the number of bytes written. On a buffer shorter
    /// than the frame nothing is written.
    pub fn try_into_ctx(self, buf: &mut [u8]) -> (r: Result<usize, Error>)
        ensures
            match r {
                Ok(n) => {
                    &&& old(buf)@.len() >= self.spec_length()
                    &&& n == self.spec_length()
                    &&& final(buf)@ == self.wire() + old(buf)@.subrange(
                        self.spec_length(),
                        old(buf)@.len() as int,
                    )
                },
                Err(e) => {
                    &&& old(buf)@.len() < self.spec_length()
                    &&& e == Error::BufferTooShort
                    &&& final(buf)@ == old(buf)@
                },
            },
    {
        if buf.len() < Ethernet2Header::HEADER_LENGTH || buf.len() - Ethernet2Header::HEADER_LENGTH
            < self.payload.len() {
            return Err(Error::BufferTooShort);
        }
        let ghost before = buf@;
        let res = self.header.try_into_ctx(buf);
        assert(res is Ok);
        write_bytes(buf, Ethernet2Header::HEADER_LENGTH, self.payload);
        assert(final(buf)@ =~= self.wire() + before.subrange(
            self.spec_length(),
            before.len() as int,
        ));
        Ok(Ethernet2Header::HEADER_LENGTH + self.payload.len())
    }

    /// Decodes a frame from the whole of `bytes`.
    ///
    /// Returns `None` exactly when `bytes` holds no payload byte after the
    /// 14-byte header.
    pub fn from_bytes(bytes: &'a [u8]) -> (r: Option<Ethernet2Frame<'a>>)
        ensures
            r is Some <==> bytes@.len() > 14,
            r matches Some(f) ==> f.decoded_from(bytes@),
    {
        match Self::try_from_ctx(bytes) {
            Ok((f, _)) => Some(f),
            Err(_) => None,
        }
    }

    /// Writes the frame to the start of `buf`.
    ///
    /// Returns `None`, and writes nothing, exactly when `buf` is shorter than
    /// the frame.
    pub fn to_bytes(self, buf: &mut [u8]) -> (r: Option<()>)
        ensures
            r is Some <==> old(buf)@.len() >= self.spec_length(),
            r is Some ==> final(buf)@ == self.wire() + old(buf)@.subrange(
                self.spec_length(),
                old(buf)@.len() as int,
            ),
            r is None ==> final(buf)@ == old(buf)@,
    {
        match self.try_into_ctx(buf) {
            Ok(_) => Some(()),
            Err(_) => None,
        }
    }
}

/// Decoding a buffer of more than 14 bytes as a frame and encoding the frame
/// again gives back the same bytes.
pub proof fn lemma_frame_round_trip<'a>(b: Seq<u8>)
    requires
        b.len() > 14,
    ensures
        forall|f: Ethernet2Frame<'a>| #[trigger] f.decoded_from(b) ==> f.wire() == b,
{
    assert forall|f: Ethernet2Frame<'a>| #[trigger] f.decoded_from(b) implies f.wire() == b by {
        let head = b.subrange(0, 14);
        assert(f.header.decoded_from(head)) by {
            assert(head.subrange(0, 6) =~= b.subrange(0, 6));
            assert(head.subrange(6, 12) =~= b.subrange(6, 12));
        }
        lemma_header_round_trip(head);
        assert(f.wire() =~= b);
    }
}

} // verus!
