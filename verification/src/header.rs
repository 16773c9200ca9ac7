//! The 64-byte ROM header: a structured record and its serialization in a
//! fixed big-endian field order.
use vstd::prelude::*;

use crate::endian::lemma_u32_be_round_trip;
use crate::endian::push_u16_be;
use crate::endian::push_u32_be;
use crate::endian::spec_u16_to_be_bytes;
use crate::endian::spec_u32_from_be_bytes;
use crate::endian::spec_u32_to_be_bytes;
use crate::layout::DEFAULT_CART_TIMING;
use crate::layout::DEFAULT_CLOCK_RATE;
use crate::layout::HEADER_LEN;
use crate::layout::HEADER_NAME_LEN;

verus! {

/// The fields of the 64-byte header, in their serialized order. Every
/// multi-byte field is written big-endian; `name` is 20 raw bytes written
/// verbatim.
pub struct RomHeader {
    pub cart_timing: u32,
    pub clock_rate: u32,
    pub load_addr: u32,
    pub release: u32,
    pub crc1: u32,
    pub crc2: u32,
    pub rsvd_18: u32,
    pub rsvd_1c: u32,
    pub name: [u8; HEADER_NAME_LEN],
    pub rsvd_34: u32,
    pub manuf_id: u32,
    pub cart_id: u16,
    pub country_code: u16,
}

impl RomHeader {
    /// A header holds the default values: the native cartridge timing word,
    /// the standard clock rate, and zero everywhere else.
    pub open spec fn is_default(self) -> bool {
        &&& self.cart_timing == DEFAULT_CART_TIMING
        &&& self.clock_rate == DEFAULT_CLOCK_RATE
        &&& self.load_addr == 0
        &&& self.release == 0
        &&& self.crc1 == 0
        &&& self.crc2 == 0
        &&& self.rsvd_18 == 0
        &&& self.rsvd_1c == 0
        &&& self.name@ == Seq::new(HEADER_NAME_LEN as nat, |i: int| 0u8)
        &&& self.rsvd_34 == 0
        &&& self.manuf_id == 0
        &&& self.cart_id == 0
        &&& self.country_code == 0
    }

    /// The 64 bytes of this header: every field in declared order, the
    /// multi-byte ones big-endian, the name verbatim.
    pub open spec fn spec_serialized(self) -> Seq<u8> {
        spec_u32_to_be_bytes(self.cart_timing) + spec_u32_to_be_bytes(self.clock_rate)
            + spec_u32_to_be_bytes(self.load_addr) + spec_u32_to_be_bytes(self.release)
            + spec_u32_to_be_bytes(self.crc1) + spec_u32_to_be_bytes(self.crc2)
            + spec_u32_to_be_bytes(self.rsvd_18) + spec_u32_to_be_bytes(self.rsvd_1c) + self.name@
            + spec_u32_to_be_bytes(self.rsvd_34) + spec_u32_to_be_bytes(self.manuf_id)
            + spec_u16_to_be_bytes(self.cart_id) + spec_u16_to_be_bytes(self.country_code)
    }

    /// A header with the default field values.
    pub fn new() -> (r: RomHeader)
        ensures
            r.is_default(),
    {
        Default::default()
    }

    /// Serializes this header: exactly 64 bytes, every field in declared
    /// order, big-endian.
    pub fn serialize(&self) -> (r: Vec<u8>)
        ensures
            r@ == self.spec_serialized(),
            r@.len() == HEADER_LEN,
    {
        let mut out: Vec<u8> = Vec::new();
        push_u32_be(&mut out, self.cart_timing);
        push_u32_be(&mut out, self.clock_rate);
        push_u32_be(&mut out, self.load_addr);
        push_u32_be(&mut out, self.release);
        push_u32_be(&mut out, self.crc1);
        push_u32_be(&mut out, self.crc2);
        push_u32_be(&mut out, self.rsvd_18);
        push_u32_be(&mut out, self.rsvd_1c);
        let ghost before_name = out@;
        for i in 0..HEADER_NAME_LEN
            invariant
                out@ == before_name + self.name@.subrange(0, i as int),
        {
            out.push(self.name[i]);
            assert(out@ =~= before_name + self.name@.subrange(0, i + 1 as int));
        }
        assert(self.name@.subrange(0, HEADER_NAME_LEN as int) =~= self.name@);
        push_u32_be(&mut out, self.rsvd_34);
        push_u32_be(&mut out, self.manuf_id);
        push_u16_be(&mut out, self.cart_id);
        push_u16_be(&mut out, self.country_code);
        assert(out@ =~= self.spec_serialized());
        out
    }
}

/// The first two serialized fields decode back, big-endian, to the header's
/// `cart_timing` and `clock_rate`, whatever their values.
pub proof fn lemma_serialized_header_decodes(h: RomHeader)
    ensures
        spec_u32_from_be_bytes(
            h.spec_serialized()[0],
            h.spec_serialized()[1],
            h.spec_serialized()[2],
            h.spec_serialized()[3],
        ) == h.cart_timing,
        spec_u32_from_be_bytes(
            h.spec_serialized()[4],
            h.spec_serialized()[5],
            h.spec_serialized()[6],
            h.spec_serialized()[7],
        ) == h.clock_rate,
{
    let s = h.spec_serialized();
    assert forall|i: int| 0 <= i < 4 implies s[i] == spec_u32_to_be_bytes(h.cart_timing)[i] by {}
    assert forall|i: int| 0 <= i < 4 implies s[4 + i] == spec_u32_to_be_bytes(h.clock_rate)[i] by {}
    lemma_u32_be_round_trip(h.cart_timing);
    lemma_u32_be_round_trip(h.clock_rate);
}

impl Default for RomHeader {
    /// A header with the default field values.
    fn default() -> (r: Self)
        ensures
            r.is_default(),
    {
        let r = RomHeader {
            cart_timing: DEFAULT_CART_TIMING,
            clock_rate: DEFAULT_CLOCK_RATE,
            load_addr: 0,
            release: 0,
            crc1: 0,
            crc2: 0,
            rsvd_18: 0,
            rsvd_1c: 0,
            name: [0u8; HEADER_NAME_LEN],
            rsvd_34: 0,
            manuf_id: 0,
            cart_id: 0,
            country_code: 0,
        };
        assert(r.name@ =~= Seq::new(HEADER_NAME_LEN as nat, |i: int| 0u8));
        r
    }
}

} // verus!
