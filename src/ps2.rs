//! A basic PS/2 decoder: it collects the bits of each 11-bit word and
//! checks them, without decoding the bytes further.
use vstd::prelude::*;

verus! {

/// Timer ticks without a new bit after which a partial word is dropped.
pub const MAX_TICKS_BEFORE_RESET: u8 = 3;

/// The mask of the last of the eleven bits of a word.
pub const LAST_BIT: u16 = 0b100_0000_0000;

/// The number of set bits in `x`.
pub open spec fn bit_count(x: u8) -> nat
    decreases x,
{
    if x == 0 {
        0
    } else {
        (x % 2) as nat + bit_count(x / 2)
    }
}

/// The byte carried by an 11-bit PS/2 word, if the word has a clear start
/// bit, a set stop bit and odd parity over the data and parity bits.
pub open spec fn word_data(word: u16) -> Option<u8> {
    let data = ((word >> 1u16) & 0xFF) as u8;
    let parity_bit = word & 0b010_0000_0000 != 0;
    if word & 1 != 0 {
        None
    } else if word & LAST_BIT == 0 {
        None
    } else if (bit_count(data) % 2 == 0) != parity_bit {
        None
    } else {
        Some(data)
    }
}

/// A mask of one of the eleven bits of a word.
pub open spec fn is_word_bit(mask: u16) -> bool {
    mask == 0x1 || mask == 0x2 || mask == 0x4 || mask == 0x8 || mask == 0x10 || mask == 0x20
        || mask == 0x40 || mask == 0x80 || mask == 0x100 || mask == 0x200 || mask == 0x400
}

/// The state of a [`Ps2Decoder`].
pub struct Ps2View {
    /// The mask of the next bit to collect.
    pub bit_mask: u16,
    /// The bits collected so far.
    pub collector: u16,
    /// Timer ticks since the last bit.
    pub ticks: u8,
}

impl Ps2View {
    /// The state of a fresh decoder, and after a completed word.
    pub open spec fn empty(ticks: u8) -> Ps2View {
        Ps2View { bit_mask: 1, collector: 0, ticks }
    }
}

/// Handles decoding incoming PS/2 packets.
///
/// Each packet has 11 bits:
///
/// * Start Bit
/// * 8 Data Bits (LSB first)
/// * Parity Bit
/// * Stop Bit
#[derive(Debug)]
pub struct Ps2Decoder {
    bit_mask: u16,
    collector: u16,
    ticks: u8,
}

impl View for Ps2Decoder {
    type V = Ps2View;

    closed spec fn view(&self) -> Ps2View {
        Ps2View { bit_mask: self.bit_mask, collector: self.collector, ticks: self.ticks }
    }
}

impl Ps2Decoder {
    /// The next bit is one of the eleven, only bits below it are collected,
    /// and a partial word is dropped before the tick count passes the limit.
    pub open spec fn wf(&self) -> bool {
        &&& is_word_bit(self@.bit_mask)
        &&& self@.collector < self@.bit_mask
        &&& self@.ticks <= MAX_TICKS_BEFORE_RESET
        &&& self@.collector != 0 ==> self@.ticks < MAX_TICKS_BEFORE_RESET
    }

    /// Create a new PS/2 Decoder.
    pub fn new() -> (r: Ps2Decoder)
        ensures
            r.wf(),
            r@ == Ps2View::empty(0),
    {
        Ps2Decoder { bit_mask: 1, collector: 0, ticks: 0 }
    }

    /// Reset the PS/2 decoder, dropping any partial word.
    pub fn reset(&mut self)
        requires
            old(self)@.ticks <= MAX_TICKS_BEFORE_RESET,
        ensures
            final(self).wf(),
            final(self)@ == Ps2View::empty(old(self)@.ticks),
    {
        self.bit_mask = 1;
        self.collector = 0;
    }

    /// Call this on a timer tick. Too many timer ticks without a new bit
    /// arriving drops the partial word.
    pub fn poll(&mut self)
        requires
            old(self).wf(),
        ensures
            final(self).wf(),
            old(self)@.collector == 0 ==> final(self)@ == old(self)@,
            old(self)@.collector != 0 && old(self)@.ticks + 1 == MAX_TICKS_BEFORE_RESET
                ==> final(self)@ == Ps2View::empty(MAX_TICKS_BEFORE_RESET),
            old(self)@.collector != 0 && old(self)@.ticks + 1 < MAX_TICKS_BEFORE_RESET
                ==> final(self)@ == (Ps2View { ticks: (old(self)@.ticks + 1) as u8, ..old(self)@ }),
    {
        if self.collector != 0 {
            self.ticks += 1;
            if self.ticks == MAX_TICKS_BEFORE_RESET {
                self.reset();
            }
        }
    }

    /// Add a bit, and if we have enough, return the 11-bit PS/2 word.
    pub fn add_bit(&mut self, bit: bool) -> (r: Option<u16>)
        requires
            old(self).wf(),
        ensures
            final(self).wf(),
            ({
                let v = old(self)@;
                let c = if bit {
                    v.collector | v.bit_mask
                } else {
                    v.collector
                };
                if v.bit_mask == LAST_BIT {
                    &&& r == Some(c)
                    &&& c < 0x800
                    &&& final(self)@ == Ps2View::empty(0)
                } else {
                    &&& r is None
                    &&& final(self)@ == Ps2View { bit_mask: (v.bit_mask * 2) as u16, collector: c, ticks: 0 }
                }
            }),
    {
        let ghost mask = self.bit_mask;
        let ghost col = self.collector;
        if bit {
            self.collector |= self.bit_mask;
        }
        self.ticks = 0;
        proof {
            assert(is_word_bit(mask) && col < mask ==> (col | mask) < mask * 2 && col < mask * 2)
                by (bit_vector);
        }
        // Was that the last bit we needed?
        if self.bit_mask == LAST_BIT {
            let result = self.collector;
            self.reset();
            Some(result)
        } else {
            proof {
                assert(is_word_bit(mask) && mask != LAST_BIT ==> is_word_bit((mask * 2) as u16)
                    && mask << 1u16 == mask * 2) by (bit_vector);
            }
            self.bit_mask <<= 1;
            None
        }
    }

    /// Check an 11-bit word has a start bit, a stop bit and odd parity.
    ///
    /// If so, you get back the 8 bit data within the word. Otherwise you get
    /// `None`.
    pub fn check_word(word: u16) -> (r: Option<u8>)
        ensures
            r == word_data(word),
    {
        let start_bit = (word & 0b000_0000_0001) != 0;
        let parity_bit = (word & 0b010_0000_0000) != 0;
        let stop_bit = (word & LAST_BIT) != 0;
        let data = ((word >> 1) & 0xFF) as u8;

        if start_bit {
            return None;
        }

        if !stop_bit {
            return None;
        }

        let need_parity = !odd_ones(data);

        // Check we have the correct parity bit
        if need_parity != parity_bit {
            return None;
        }

        Some(data)
    }
}

/// Whether `x` has an odd number of set bits.
fn odd_ones(x: u8) -> (r: bool)
    ensures
        r == (bit_count(x) % 2 == 1),
{
    let mut v = x;
    let mut odd = false;
    let ghost mut seen: nat = 0;
    while v != 0
        invariant
            seen + bit_count(v) == bit_count(x),
            odd == (seen % 2 == 1),
        decreases v,
    {
        if v % 2 == 1 {
            odd = !odd;
        }
        proof {
            seen = seen + (v % 2) as nat;
        }
        v = v / 2;
    }
    odd
}

} // verus!
