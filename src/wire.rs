//! The header's field types, which come from `mac_parser` and `ether_type`,
//! and the big-endian layout of the EtherType field.
use ether_type::EtherType;
use mac_parser::MACAddress;
use vstd::prelude::*;

verus! {

/// `mac_parser::MACAddress`, a tuple struct with one public `[u8; 6]` field,
/// declared with that field visible.
#[verifier::external_type_specification]
pub struct ExMACAddress(MACAddress);

/// `ether_type::EtherType`, an enum of five known protocols and
/// `Unknown(u16)`, declared with its variants visible.
#[verifier::external_type_specification]
pub struct ExEtherType(EtherType);

/// Relies on `mac_parser::MACAddress::new`: it wraps the six octets as they are.
pub assume_specification[ MACAddress::new ](address: [u8; 6]) -> (r: MACAddress)
    ensures
        r.0 == address,
;

/// The 16-bit value of an EtherType, as `EtherType::into_bits` computes it.
pub open spec fn ether_type_bits(t: EtherType) -> u16 {
    match t {
        EtherType::IPv4 => 0x0800,
        EtherType::ARP => 0x0806,
        EtherType::WoLAN => 0x0842,
        EtherType::IPv6 => 0x86DD,
        EtherType::Eapol => 0x888e,
        EtherType::Unknown(x) => x,
    }
}

/// The EtherType that a 16-bit value stands for, as `EtherType::from_bits`
/// computes it: a known protocol, or `Unknown` holding the raw value.
pub open spec fn ether_type_of(v: u16) -> EtherType {
    if v == 0x0800 {
        EtherType::IPv4
    } else if v == 0x0806 {
        EtherType::ARP
    } else if v == 0x0842 {
        EtherType::WoLAN
    } else if v == 0x86DD {
        EtherType::IPv6
    } else if v == 0x888e {
        EtherType::Eapol
    } else {
        EtherType::Unknown(v)
    }
}

/// Relies on `ether_type::EtherType::from_bits`, generated by
/// `macro_bits::serializable_enum!`: each listed value maps to its variant,
/// any other value to `Unknown` with the value kept.
pub assume_specification[ EtherType::from_bits ](value: u16) -> (r: EtherType)
    ensures
        r == ether_type_of(value),
;

/// Relies on `ether_type::EtherType::into_bits`, generated by
/// `macro_bits::serializable_enum!`: each variant maps to its listed value,
/// `Unknown` to the value it holds.
pub assume_specification[ EtherType::into_bits ](t: EtherType) -> (r: u16)
    ensures
        r == ether_type_bits(t),
;

/// The two bytes of `v`, most significant first.
pub open spec fn be_bytes(v: u16) -> Seq<u8> {
    seq![(v / 256) as u8, (v % 256) as u8]
}

/// The 16-bit value whose big-endian bytes are `hi`, `lo`.
pub open spec fn be_value(hi: u8, lo: u8) -> u16 {
    (hi as int * 256 + lo as int) as u16
}

/// Reading two bytes big-endian and writing the value back gives the same bytes.
pub proof fn lemma_be_round_trip(hi: u8, lo: u8)
    ensures
        be_bytes(be_value(hi, lo)) == seq![hi, lo],
{
    let v = hi as int * 256 + lo as int;
    assert(v / 256 == hi as int && v % 256 == lo as int) by (nonlinear_arith)
        requires
            v == hi as int * 256 + lo as int,
            0 <= lo < 256,
            0 <= hi < 256,
    ;
    assert(be_bytes(be_value(hi, lo)) =~= seq![hi, lo]);
}

/// Every two bytes survive a trip through `EtherType`, whether or not their
/// value names a known protocol.
pub proof fn lemma_ether_type_round_trip(hi: u8, lo: u8)
    ensures
        ether_type_bits(ether_type_of(be_value(hi, lo))) == be_value(hi, lo),
        be_bytes(ether_type_bits(ether_type_of(be_value(hi, lo)))) == seq![hi, lo],
{
    lemma_be_round_trip(hi, lo);
}

/// The 16-bit value stored big-endian in `hi`, `lo`.
pub fn read_u16_be(hi: u8, lo: u8) -> (r: u16)
    ensures
        r == be_value(hi, lo),
{
    hi as u16 * 256 + lo as u16
}

/// The big-endian bytes of `v`.
pub fn u16_be_bytes(v: u16) -> (r: [u8; 2])
    ensures
        r@ == be_bytes(v),
{
    let r = [(v / 256) as u8, (v % 256) as u8];
    assert(r@ =~= be_bytes(v));
    r
}

/// Reads the six octets of a MAC address starting at `at`.
pub fn read_mac(b: &[u8], at: usize) -> (r: MACAddress)
    requires
        at + 6 <= b@.len(),
    ensures
        r.0@ == b@.subrange(at as int, at + 6),
{
    let len = b.len();
    let mut octets = [0u8; 6];
    let mut i: usize = 0;
    while i < 6
        invariant
            i <= 6,
            len == b@.len(),
            at + 6 <= b@.len(),
            forall|j: int| 0 <= j < i ==> octets@[j] == b@[at + j],
        decreases 6 - i,
    {
        octets[i] = b[at + i];
        i += 1;
    }
    assert(octets@ =~= b@.subrange(at as int, at + 6));
    MACAddress::new(octets)
}

/// Copies `src` into `buf` starting at `at`, leaving every other byte as it was.
pub fn write_bytes(buf: &mut [u8], at: usize, src: &[u8])
    requires
        at + src@.len() <= old(buf)@.len(),
    ensures
        final(buf)@ == old(buf)@.subrange(0, at as int) + src@ + old(buf)@.subrange(
            at + src@.len(),
            old(buf)@.len() as int,
        ),
{
    let len = buf.len();
    let mut i: usize = 0;
    while i < src.len()
        invariant
            i <= src@.len(),
            len == old(buf)@.len(),
            at + src@.len() <= old(buf)@.len(),
            buf@.len() == old(buf)@.len(),
            forall|j: int| 0 <= j < at ==> buf@[j] == old(buf)@[j],
            forall|j: int| 0 <= j < i ==> buf@[at + j] == src@[j],
            forall|j: int| at + src@.len() <= j < buf@.len() ==> buf@[j] == old(buf)@[j],
        decreases src@.len() - i,
    {
        buf[at + i] = src[i];
        i += 1;
    }
    assert(buf@ =~= old(buf)@.subrange(0, at as int) + src@ + old(buf)@.subrange(
        at + src@.len(),
        old(buf)@.len() as int,
    ));
}

} // verus!
