//! The sensor's 8-bit CRC: polynomial 0x31, initial value 0xFF, no
//! reflection and no final XOR.
use vstd::prelude::*;

verus! {

/// Polynomial of the CRC, without its implicit x^8 term.
pub const POLYNOMIAL: u8 = 0x31;

/// Register value before the first byte is fed in.
pub const INITIAL: u8 = 0xFF;

/// One bit step of the register: shift left, folding in the polynomial when
/// the top bit falls out.
pub open spec fn crc_shift(r: u8) -> u8 {
    if r & 0x80u8 == 0x80u8 {
        ((r << 1u8) ^ 0x31u8) as u8
    } else {
        (r << 1u8) as u8
    }
}

/// `n` bit steps of the register.
pub open spec fn crc_shifts(r: u8, n: nat) -> u8
    decreases n,
{
    if n == 0 {
        r
    } else {
        crc_shifts(crc_shift(r), (n - 1) as nat)
    }
}

/// The register after one more byte has been fed in.
pub open spec fn crc_update(r: u8, b: u8) -> u8 {
    crc_shifts(r ^ b, 8)
}

/// The CRC of a byte sequence.
pub open spec fn crc8_spec(s: Seq<u8>) -> u8
    decreases s.len(),
{
    if s.len() == 0 {
        0xFFu8
    } else {
        crc_update(crc8_spec(s.drop_last()), s.last())
    }
}

/// Calculate the CRC8 of the given bytes.
///
/// Fed two data bytes followed by the CRC byte the sensor sent for them, the
/// result is 0 exactly when that CRC byte is correct.
pub fn crc8(bytes: &[u8]) -> (r: u8)
    ensures
        r == crc8_spec(bytes@),
{
    let mut crc: u8 = INITIAL;
    let mut i: usize = 0;
    while i < bytes.len()
        invariant
            i <= bytes@.len(),
            crc == crc8_spec(bytes@.subrange(0, i as int)),
        decreases bytes@.len() - i,
    {
        let byte = bytes[i];
        let ghost before = crc;
        crc = crc ^ byte;
        let mut bit: u8 = 0;
        while bit < 8
            invariant
                bit <= 8,
                crc_shifts(crc, (8 - bit) as nat) == crc_update(before, byte),
            decreases 8 - bit,
        {
            if crc & 0x80 == 0x80 {
                crc = (crc << 1) ^ POLYNOMIAL;
            } else {
                crc = crc << 1;
            }
            bit = bit + 1;
        }
        proof {
            let next = bytes@.subrange(0, i + 1);
            assert(next.drop_last() =~= bytes@.subrange(0, i as int));
            assert(next.last() == byte);
        }
        i = i + 1;
    }
    assert(bytes@.subrange(0, bytes@.len() as int) =~= bytes@);
    crc
}

/// Check two data bytes against the CRC byte that follows them, handing back
/// the calculated CRC when it is not zero.
pub fn validate_crc(bytes: [u8; 3]) -> (r: Result<(), u8>)
    ensures
        crc8_spec(bytes@) == 0 ==> r is Ok,
        crc8_spec(bytes@) != 0 ==> r == Err::<(), u8>(crc8_spec(bytes@)),
{
    let crc = crc8(&bytes);
    if crc == 0 {
        Ok(())
    } else {
        Err(crc)
    }
}

/// A zero register stays zero under bit steps.
proof fn lemma_shifts_zero(n: nat)
    ensures
        crc_shifts(0, n) == 0,
    decreases n,
{
    assert(crc_shift(0) == 0) by (bit_vector);
    if n > 0 {
        lemma_shifts_zero((n - 1) as nat);
    }
}

/// Bit steps never map two registers to one.
proof fn lemma_shifts_injective(a: u8, b: u8, n: nat)
    requires
        a != b,
    ensures
        crc_shifts(a, n) != crc_shifts(b, n),
    decreases n,
{
    if n > 0 {
        assert(a != b ==> crc_shift(a) != crc_shift(b)) by (bit_vector);
        lemma_shifts_injective(crc_shift(a), crc_shift(b), (n - 1) as nat);
    }
}

/// Feeding one byte keeps distinct registers distinct, and feeding distinct
/// bytes into one register gives distinct registers.
proof fn lemma_update_injective(r1: u8, b1: u8, r2: u8, b2: u8)
    requires
        (r1 == r2) != (b1 == b2),
    ensures
        crc_update(r1, b1) != crc_update(r2, b2),
{
    assert((r1 == r2) != (b1 == b2) ==> r1 ^ b1 != r2 ^ b2) by (bit_vector);
    lemma_shifts_injective(r1 ^ b1, r2 ^ b2, 8);
}

/// Appending its own CRC to any byte sequence brings the CRC to zero.
pub proof fn lemma_append_crc(s: Seq<u8>)
    ensures
        crc8_spec(s.push(crc8_spec(s))) == 0,
{
    let t = s.push(crc8_spec(s));
    assert(t.drop_last() =~= s);
    let c = crc8_spec(s);
    assert(c ^ c == 0) by (bit_vector);
    lemma_shifts_zero(8);
}

/// The CRC of three bytes, written out.
proof fn lemma_crc8_three(a: u8, b: u8, c: u8)
    ensures
        crc8_spec(seq![a, b, c]) == crc_update(crc_update(crc_update(0xFF, a), b), c),
{
    let s = seq![a, b, c];
    assert(s.drop_last() =~= seq![a, b]);
    assert(seq![a, b].drop_last() =~= seq![a]);
    assert(seq![a].drop_last() =~= Seq::<u8>::empty());
    reveal_with_fuel(crc8_spec, 4);
}

/// For any two data bytes, the CRC of the bytes followed by their own CRC is
/// zero: a freshly computed CRC byte always validates.
pub proof fn lemma_crc_round_trip(a: u8, b: u8)
    ensures
        crc8_spec(seq![a, b, crc8_spec(seq![a, b])]) == 0,
{
    lemma_append_crc(seq![a, b]);
    assert(seq![a, b].push(crc8_spec(seq![a, b])) =~= seq![a, b, crc8_spec(seq![a, b])]);
}

/// Changing exactly one of three bytes whose CRC is zero makes the CRC
/// non-zero: every single-byte corruption of a validated pair is detected.
pub proof fn lemma_single_byte_change_detected(h: Seq<u8>, i: int, v: u8)
    requires
        h.len() == 3,
        crc8_spec(h) == 0,
        0 <= i < 3,
        v != h[i],
    ensures
        crc8_spec(h.update(i, v)) != 0,
{
    let g = h.update(i, v);
    assert(h =~= seq![h[0], h[1], h[2]]);
    assert(g =~= seq![g[0], g[1], g[2]]);
    lemma_crc8_three(h[0], h[1], h[2]);
    lemma_crc8_three(g[0], g[1], g[2]);
    let h1 = crc_update(0xFF, h[0]);
    let g1 = crc_update(0xFF, g[0]);
    if i == 0 {
        lemma_update_injective(0xFF, h[0], 0xFF, g[0]);
    }
    let h2 = crc_update(h1, h[1]);
    let g2 = crc_update(g1, g[1]);
    if i <= 1 {
        lemma_update_injective(h1, h[1], g1, g[1]);
    }
    lemma_update_injective(h2, h[2], g2, g[2]);
}

} // verus!
