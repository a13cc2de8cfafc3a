//! CRC-8 with polynomial 0x07, seed 0x00, no reflection and no final XOR,
//! computed bit by bit, most significant bit first.
use vstd::prelude::*;

verus! {

/// Shift one input bit (0 or 1) into the CRC register.
pub open spec fn crc_shift(crc: u8, bit: u8) -> u8 {
    let shifted = ((crc << 1u8) | bit) as u8;
    if crc & 0x80u8 != 0 {
        shifted ^ 0x07u8
    } else {
        shifted
    }
}

/// Bit `n` (counted from the most significant, 0..8) of `c`, as 0 or 1.
pub open spec fn msb_bit(c: u8, n: nat) -> u8 {
    (c >> ((7 - n) as u8)) & 1u8
}

/// The register after shifting in the first `n` bits of `c`, most significant first.
pub open spec fn crc_bits(crc: u8, c: u8, n: nat) -> u8
    decreases n,
{
    if n == 0 {
        crc
    } else {
        crc_shift(crc_bits(crc, c, (n - 1) as nat), msb_bit(c, (n - 1) as nat))
    }
}

/// The register after shifting in all eight bits of `c`.
pub open spec fn crc_byte(crc: u8, c: u8) -> u8 {
    crc_bits(crc, c, 8)
}

/// The register after shifting in every byte of `data`, in order.
pub open spec fn crc_update(crc: u8, data: Seq<u8>) -> u8
    decreases data.len(),
{
    if data.len() == 0 {
        crc
    } else {
        crc_byte(crc_update(crc, data.drop_last()), data.last())
    }
}

/// The register after eight further zero bits.
pub open spec fn crc_finalize(crc: u8) -> u8 {
    crc_byte(crc, 0)
}

/// The CRC-8 of `data`.
pub open spec fn crc_of(data: Seq<u8>) -> u8 {
    crc_finalize(crc_update(0, data))
}

/// `crc_byte` written out as eight shifts, so the bit-vector solver can read it.
spec fn crc_byte_unrolled(crc: u8, c: u8) -> u8 {
    let s1 = crc_shift(crc, (c >> 7u8) & 1u8);
    let s2 = crc_shift(s1, (c >> 6u8) & 1u8);
    let s3 = crc_shift(s2, (c >> 5u8) & 1u8);
    let s4 = crc_shift(s3, (c >> 4u8) & 1u8);
    let s5 = crc_shift(s4, (c >> 3u8) & 1u8);
    let s6 = crc_shift(s5, (c >> 2u8) & 1u8);
    let s7 = crc_shift(s6, (c >> 1u8) & 1u8);
    crc_shift(s7, (c >> 0u8) & 1u8)
}

proof fn lemma_crc_byte_unrolled(crc: u8, c: u8)
    ensures
        crc_byte(crc, c) == crc_byte_unrolled(crc, c),
{
    reveal_with_fuel(crc_bits, 9);
}

/// Shifting in a byte is linear: the register and the byte contribute
/// independently, and a byte shifted into a clear register is that byte.
proof fn lemma_crc_byte_bv(s: u8, t: u8, a: u8, b: u8)
    by (bit_vector)
    ensures
        crc_byte_unrolled(s ^ t, a ^ b) == crc_byte_unrolled(s, a) ^ crc_byte_unrolled(t, b),
        crc_byte_unrolled(0, a) == a,
        crc_byte_unrolled(s, 0) == 0 ==> s == 0,
{
}

/// Shifting a byte into the register is linear over XOR.
pub proof fn lemma_crc_byte_linear(s: u8, t: u8, a: u8, b: u8)
    ensures
        crc_byte(s ^ t, a ^ b) == crc_byte(s, a) ^ crc_byte(t, b),
        crc_byte(0, a) == a,
        crc_byte(s, 0) == 0 ==> s == 0,
{
    lemma_crc_byte_unrolled(s ^ t, a ^ b);
    lemma_crc_byte_unrolled(s, a);
    lemma_crc_byte_unrolled(t, b);
    lemma_crc_byte_unrolled(0, a);
    lemma_crc_byte_unrolled(s, 0);
    lemma_crc_byte_bv(s, t, a, b);
}

/// Feeding `a` then `b` is feeding `a + b`.
pub proof fn lemma_crc_update_concat(crc: u8, a: Seq<u8>, b: Seq<u8>)
    ensures
        crc_update(crc_update(crc, a), b) == crc_update(crc, a + b),
    decreases b.len(),
{
    if b.len() == 0 {
        assert(a + b =~= a);
    } else {
        lemma_crc_update_concat(crc, a, b.drop_last());
        assert((a + b).drop_last() =~= a + b.drop_last());
        assert((a + b).last() == b.last());
    }
}

/// Appending the CRC of `data` to `data` leaves a zero residue: the
/// acceptance test of every frame.
pub proof fn lemma_crc_round_trip(data: Seq<u8>)
    ensures
        crc_of(data.push(crc_of(data))) == 0,
{
    let s = crc_update(0, data);
    let c = crc_finalize(s);
    assert(data.push(c).drop_last() =~= data);
    assert(crc_update(0, data.push(c)) == crc_byte(s, c));
    let z: u8 = 0;
    lemma_crc_byte_linear(s, z, z, c);
    assert(s ^ z == s && z ^ c == c && c ^ c == z) by (bit_vector)
        requires z == 0;
    lemma_crc_byte_linear(z, z, c, z);
    lemma_crc_byte_linear(z, z, z, z);
}

/// The bytewise XOR of two sequences of equal length.
pub open spec fn xor_bytes(a: Seq<u8>, b: Seq<u8>) -> Seq<u8> {
    Seq::new(a.len(), |k: int| a[k] ^ b[k])
}

/// `data` with bit `j` of byte `i` inverted.
pub open spec fn flip_bit(data: Seq<u8>, i: int, j: u8) -> Seq<u8> {
    data.update(i, data[i] ^ (1u8 << j))
}

/// A sequence of `len` zero bytes but for bit `j` of byte `i`.
spec fn single_bit(len: nat, i: int, j: u8) -> Seq<u8> {
    Seq::new(len, |k: int| if k == i { 1u8 << j } else { 0u8 })
}

/// Feeding the XOR of two streams gives the XOR of the two registers.
pub proof fn lemma_crc_update_xor(s: u8, t: u8, a: Seq<u8>, b: Seq<u8>)
    requires
        a.len() == b.len(),
    ensures
        crc_update(s ^ t, xor_bytes(a, b)) == crc_update(s, a) ^ crc_update(t, b),
    decreases a.len(),
{
    if a.len() > 0 {
        lemma_crc_update_xor(s, t, a.drop_last(), b.drop_last());
        assert(xor_bytes(a, b).drop_last() =~= xor_bytes(a.drop_last(), b.drop_last()));
        lemma_crc_byte_linear(crc_update(s, a.drop_last()), crc_update(t, b.drop_last()), a.last(), b.last());
    }
}

proof fn lemma_single_bit_prefix(len: nat, i: int, j: u8, k: int)
    requires
        0 <= i < len,
        j < 8,
        0 <= k <= len,
    ensures
        k <= i ==> crc_update(0, single_bit(len, i, j).subrange(0, k)) == 0,
        k > i ==> crc_update(0, single_bit(len, i, j).subrange(0, k)) != 0,
    decreases k,
{
    let e = single_bit(len, i, j);
    if k > 0 {
        lemma_single_bit_prefix(len, i, j, k - 1);
        assert(e.subrange(0, k).drop_last() =~= e.subrange(0, k - 1));
        let prev = crc_update(0, e.subrange(0, k - 1));
        let z: u8 = 0;
        if k - 1 == i {
            lemma_crc_byte_linear(z, z, 1u8 << j, z);
            assert(1u8 << j != 0) by (bit_vector)
                requires j < 8;
        } else {
            lemma_crc_byte_linear(prev, z, z, z);
            lemma_crc_byte_linear(z, z, z, z);
        }
    }
}

/// A single inverted bit anywhere in a frame whose residue is zero gives a
/// nonzero residue: every single-bit error is detected.
pub proof fn lemma_single_bit_flip_detected(data: Seq<u8>, i: int, j: u8)
    requires
        0 <= i < data.len(),
        j < 8,
        crc_of(data) == 0,
    ensures
        crc_of(flip_bit(data, i, j)) != 0,
{
    let e = single_bit(data.len(), i, j);
    let z: u8 = 0;
    assert forall|k: int| 0 <= k < data.len() implies #[trigger] flip_bit(data, i, j)[k] == xor_bytes(data, e)[k] by {
        let x = data[k];
        assert(x ^ 0u8 == x) by (bit_vector);
    }
    assert(flip_bit(data, i, j) =~= xor_bytes(data, e));
    lemma_crc_update_xor(z, z, data, e);
    lemma_single_bit_prefix(data.len(), i, j, data.len() as int);
    assert(e.subrange(0, data.len() as int) =~= e);
    let sd = crc_update(0, data);
    let se = crc_update(0, e);
    let fe = crc_byte(se, z);
    lemma_crc_byte_linear(sd, z, z, z);
    assert(z ^ z == z && sd ^ z == sd && z ^ se == se) by (bit_vector)
        requires z == 0, sd == 0;
    lemma_crc_byte_linear(sd, se, z, z);
    lemma_crc_byte_linear(se, z, z, z);
    assert(z ^ fe == fe) by (bit_vector)
        requires z == 0;
}

/// The seed of the CRC register.
pub fn init() -> (r: u8)
    ensures
        r == 0,
{
    0x00
}

/// Shift the eight bits of `c` into `crc`, most significant first.
fn update_byte(crc0: u8, c: u8) -> (r: u8)
    ensures
        r == crc_byte(crc0, c),
{
    let mut crc = crc0;
    let mut i: u8 = 0;
    while i < 8
        invariant
            i <= 8,
            crc == crc_bits(crc0, c, i as nat),
        decreases 8 - i,
    {
        let bit = (crc & 0x80) != 0;
        let prev = crc;
        crc = (crc << 1) | ((c >> (7 - i)) & 0x01);
        if bit {
            crc ^= 0x07;
        }
        assert(crc == crc_shift(prev, msb_bit(c, i as nat)));
        i += 1;
    }
    crc
}

/// Update a CRC with more data.
pub fn update(crc0: u8, data: &[u8]) -> (r: u8)
    ensures
        r == crc_update(crc0, data@),
{
    let mut crc = crc0;
    let mut k: usize = 0;
    while k < data.len()
        invariant
            k <= data@.len(),
            crc == crc_update(crc0, data@.subrange(0, k as int)),
        decreases data@.len() - k,
    {
        assert(data@.subrange(0, k as int + 1).drop_last() =~= data@.subrange(0, k as int));
        crc = update_byte(crc, data[k]);
        k += 1;
    }
    assert(data@.subrange(0, k as int) =~= data@);
    crc
}

/// Finish the CRC calculation: eight further zero bits.
pub fn finalize(crc0: u8) -> (r: u8)
    ensures
        r == crc_finalize(crc0),
{
    let mut crc = crc0;
    let mut i: u8 = 0;
    while i < 8
        invariant
            i <= 8,
            crc == crc_bits(crc0, 0, i as nat),
        decreases 8 - i,
    {
        let bit = (crc & 0x80) != 0;
        let prev = crc;
        crc <<= 1;
        if bit {
            crc ^= 0x07;
        }
        assert(msb_bit(0, i as nat) == 0) by (bit_vector)
            requires i < 8;
        assert(crc_shift(prev, 0) == if prev & 0x80 != 0 {
            ((prev << 1u8) ^ 0x07u8) as u8
        } else {
            prev << 1u8
        }) by (bit_vector);
        i += 1;
    }
    crc
}

/// A CRC accumulator that takes bytes one at a time.
pub struct CrcCalc(u8);

impl CrcCalc {
    /// The CRC register before finalization.
    pub closed spec fn state(&self) -> u8 {
        self.0
    }

    /// Make a new CRC calculator.
    pub fn new() -> (r: CrcCalc)
        ensures
            r.state() == 0,
    {
        CrcCalc(init())
    }

    /// Reset the CRC calculator.
    pub fn reset(&mut self)
        ensures
            final(self).state() == 0,
    {
        self.0 = init();
    }

    /// Add one byte to the CRC calculator.
    pub fn add(&mut self, byte: u8)
        ensures
            final(self).state() == crc_byte(old(self).state(), byte),
    {
        let one = [byte];
        let s = update(self.0, &one);
        proof {
            reveal_with_fuel(crc_update, 2);
            assert(one@.drop_last() =~= Seq::<u8>::empty());
        }
        self.0 = s;
    }

    /// Add several bytes to the CRC calculator.
    pub fn add_buffer(&mut self, bytes: &[u8])
        ensures
            final(self).state() == crc_update(old(self).state(), bytes@),
    {
        self.0 = update(self.0, bytes);
    }

    /// Get the CRC of everything added since the last reset.
    pub fn get(&self) -> (r: u8)
        ensures
            r == crc_finalize(self.state()),
    {
        finalize(self.0)
    }
}

/// Calculates the CRC-8 of the given bytes.
pub fn calculate_crc(data: &[u8]) -> (r: u8)
    ensures
        r == crc_of(data@),
{
    let mut crc_calc = CrcCalc::new();
    crc_calc.add_buffer(data);
    crc_calc.get()
}

} // verus!
