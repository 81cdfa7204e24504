//! Table-free CRC-16/CCITT variant (polynomial 0x1021, initial value 0,
//! no reflection). Each byte's table entry is recomputed from the polynomial,
//! which yields the same 256 values as the conventional lookup table.

use vstd::prelude::*;

verus! {

/// One shift-and-reduce step of the CRC register under polynomial 0x1021.
pub open spec fn poly_step(v: u16) -> u16 {
    if v & 0x8000 == 0x8000 {
        (v << 1) ^ 0x1021
    } else {
        v << 1
    }
}

/// The lookup-table entry for one input byte: eight polynomial steps applied
/// to the byte placed in the high half of the register.
pub open spec fn tab_entry(b: u8) -> u16 {
    poly_step(poly_step(poly_step(poly_step(poly_step(poly_step(poly_step(poly_step(
        (b as u16) << 8,
    ))))))))
}

/// Folding one byte into the running checksum.
pub open spec fn crc16_step(crc: u16, byte: u8) -> u16 {
    (crc << 8) ^ tab_entry(byte ^ ((crc >> 8) as u8))
}

/// The checksum of a byte sequence: zero for the empty sequence, then one
/// `crc16_step` per byte, left to right.
pub open spec fn crc16_spec(s: Seq<u8>) -> u16
    decreases s.len(),
{
    if s.len() == 0 {
        0
    } else {
        crc16_step(crc16_spec(s.drop_last()), s.last())
    }
}

/// The checksum of the empty sequence is zero: the identity case of the
/// checksum, the one input whose checksum carries no information.
pub proof fn lemma_crc16_empty()
    ensures
        crc16_spec(Seq::<u8>::empty()) == 0,
{
}

fn poly_step_exec(v: u16) -> (r: u16)
    ensures
        r == poly_step(v),
{
    if v & 0x8000 == 0x8000 {
        (v << 1) ^ 0x1021
    } else {
        v << 1
    }
}

fn crc16_entry(b: u8) -> (r: u16)
    ensures
        r == tab_entry(b),
{
    let v: u16 = (b as u16) << 8;
    let v = poly_step_exec(v);
    let v = poly_step_exec(v);
    let v = poly_step_exec(v);
    let v = poly_step_exec(v);
    let v = poly_step_exec(v);
    let v = poly_step_exec(v);
    let v = poly_step_exec(v);
    poly_step_exec(v)
}

/// The running checksum over a whole byte slice.
pub fn crc16_cal(ptr: &[u8]) -> (r: u16)
    ensures
        r == crc16_spec(ptr@),
{
    let mut crc: u16 = 0;
    let mut i: usize = 0;
    while i < ptr.len()
        invariant
            i <= ptr@.len(),
            crc == crc16_spec(ptr@.take(i as int)),
        decreases ptr@.len() - i,
    {
        proof {
            assert(crc >> 8 < 256) by (bit_vector);
        }
        let temp: u8 = (crc >> 8) as u8;
        let index: u8 = ptr[i] ^ temp;
        let entry = crc16_entry(index);
        proof {
            assert(ptr@.take(i + 1).drop_last() =~= ptr@.take(i as int));
            assert(ptr@.take(i + 1).last() == ptr@[i as int]);
        }
        crc = (crc << 8) ^ entry;
        i = i + 1;
    }
    proof {
        assert(ptr@.take(ptr@.len() as int) =~= ptr@);
    }
    crc
}

} // verus!
