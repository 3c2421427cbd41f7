//! The bus setup types and the mode encoder.
//!
//! A SPI device is configured with one byte whose bits select the clock
//! phase and polarity, the bit order on the wire, and how chip-select is
//! driven.  `encode` computes that byte; `spec_mode_byte` is its exact
//! mathematical statement, and `lemma_mode_byte_layout` pins down every
//! bit of the result.

use vstd::prelude::*;

verus! {

/// Number of bits in one transferred word.
#[derive(Clone, Copy, PartialEq, Eq, Debug)]
pub enum WordLength {
    EightBit,
    NineBit,
}

/// The SPI mode: the combination of clock polarity (CPOL) and clock
/// phase (CPHA).
#[derive(Clone, Copy, PartialEq, Eq, Debug)]
pub enum SpiMode {
    SpiMode0,
    SpiMode1,
    SpiMode2,
    SpiMode3,
}

/// How the chip-select line is driven while a transfer runs.
#[derive(Clone, Copy, PartialEq, Eq, Debug)]
pub enum CsMode {
    CsHigh,
    CsLow,
    NoCs,
}

/// Which end of each word goes out first.
#[derive(Clone, Copy, PartialEq, Eq, Debug)]
pub enum BitOrder {
    LSB,
    MSB,
}

/// Construction-time bus configuration, consumed once to compute the
/// encoded mode byte.
#[derive(Clone, Copy, PartialEq, Eq, Debug)]
pub struct SpiSetup {
    pub spi_mode: SpiMode,
    pub cs_mode: CsMode,
    pub bit_order: BitOrder,
}

/// Bits per word as the platform expects them.
pub open spec fn spec_word_bits(w: WordLength) -> u8 {
    match w {
        WordLength::EightBit => 8u8,
        WordLength::NineBit => 9u8,
    }
}

impl WordLength {
    /// The number of bits per word.
    pub fn bits(self) -> (r: u8)
        ensures
            r == spec_word_bits(self),
    {
        match self {
            WordLength::EightBit => 8,
            WordLength::NineBit => 9,
        }
    }

    /// The word length for a bit count the platform supports.
    pub fn from_bits(w: u8) -> (r: WordLength)
        requires
            w == 8 || w == 9,
        ensures
            spec_word_bits(r) == w,
    {
        if w == 8 {
            WordLength::EightBit
        } else {
            WordLength::NineBit
        }
    }
}

/// The CPHA (bit 1) and CPOL (bit 2) flags for a SPI mode.
pub open spec fn spec_clock_bits(m: SpiMode) -> u8 {
    match m {
        SpiMode::SpiMode0 => 0u8,
        SpiMode::SpiMode1 => 2u8,
        SpiMode::SpiMode2 => 4u8,
        SpiMode::SpiMode3 => 6u8,
    }
}

/// The bit-order flag: bit 3, set exactly when words go out LSB-first.
pub open spec fn spec_order_bit(o: BitOrder) -> u8 {
    match o {
        BitOrder::LSB => 8u8,
        BitOrder::MSB => 0u8,
    }
}

/// The chip-select flags: bit 6 when no chip-select is used, bit 4 when
/// it is used and active-high, no bits when it is used and active-low.
pub open spec fn spec_cs_bits(c: CsMode) -> u8 {
    match c {
        CsMode::NoCs => 64u8,
        CsMode::CsHigh => 16u8,
        CsMode::CsLow => 0u8,
    }
}

/// The encoded mode byte of a bus setup.
pub open spec fn spec_mode_byte(s: SpiSetup) -> u8 {
    (spec_clock_bits(s.spi_mode) | spec_order_bit(s.bit_order)) | spec_cs_bits(s.cs_mode)
}

/// Encodes a bus setup into the one mode byte the device is configured
/// with.  Pure and total: the same setup always yields the same byte.
pub fn encode(setup: &SpiSetup) -> (r: u8)
    ensures
        r == spec_mode_byte(*setup),
{
    let clock: u8 = match setup.spi_mode {
        SpiMode::SpiMode0 => 0,
        SpiMode::SpiMode1 => 2,
        SpiMode::SpiMode2 => 4,
        SpiMode::SpiMode3 => 6,
    };
    let order: u8 = match setup.bit_order {
        BitOrder::LSB => 8,
        BitOrder::MSB => 0,
    };
    let cs: u8 = match setup.cs_mode {
        CsMode::NoCs => 64,
        CsMode::CsHigh => 16,
        CsMode::CsLow => 0,
    };
    (clock | order) | cs
}

/// The bit layout of the encoded mode byte, for every one of the possible
/// setups: bit 1 is CPHA, bit 2 is CPOL, bit 3 marks LSB-first order,
/// bit 4 marks an active-high chip-select in use, bit 6 marks that no
/// chip-select is used, and no other bit is ever set.
pub proof fn lemma_mode_byte_layout(s: SpiSetup)
    ensures
        spec_mode_byte(s) & 2 == 2 <==> (s.spi_mode is SpiMode1 || s.spi_mode is SpiMode3),
        spec_mode_byte(s) & 4 == 4 <==> (s.spi_mode is SpiMode2 || s.spi_mode is SpiMode3),
        spec_mode_byte(s) & 8 == 8 <==> s.bit_order is LSB,
        spec_mode_byte(s) & 16 == 16 <==> s.cs_mode is CsHigh,
        spec_mode_byte(s) & 64 == 64 <==> s.cs_mode is NoCs,
        spec_mode_byte(s) & 0xa1 == 0,
{
    let c = spec_clock_bits(s.spi_mode);
    let o = spec_order_bit(s.bit_order);
    let k = spec_cs_bits(s.cs_mode);
    assert(((c == 0 || c == 2 || c == 4 || c == 6) && (o == 0 || o == 8) && (k == 0 || k == 16
        || k == 64)) ==> {
        &&& ((c | o) | k) & 2 == 2 <==> (c == 2 || c == 6)
        &&& ((c | o) | k) & 4 == 4 <==> (c == 4 || c == 6)
        &&& ((c | o) | k) & 8 == 8 <==> o == 8
        &&& ((c | o) | k) & 16 == 16 <==> k == 16
        &&& ((c | o) | k) & 64 == 64 <==> k == 64
        &&& ((c | o) | k) & 0xa1 == 0
    }) by (bit_vector);
}

} // verus!
