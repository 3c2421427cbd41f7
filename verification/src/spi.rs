//! The lower-level configuration layer of the bus.
//!
//! Where [`crate::bus`] drives a device through a descriptor, this
//! module holds the explicit two-step view of construction — build a
//! configured bus value first, apply the configuration to the hardware
//! afterwards — so the configuration decisions can be exercised against
//! a fake platform layer.  Everything the hardware application step
//! needs (the numeric mode, word width and clock speed, the read-back
//! verification, and the order errors are reported in) is computed and
//! decided here; the `ioctl` calls themselves stay outside the crate.

use vstd::prelude::*;

use crate::error::BusError;

verus! {

/// The SPI mode of the lower-level configuration layer.
#[derive(Clone, Copy, PartialEq, Eq, Debug)]
pub enum SPIMode {
    SpiMode0,
    SpiMode1,
    SpiMode2,
    SpiMode3,
}

/// Word width of the lower-level configuration layer.
#[derive(Clone, Copy, PartialEq, Eq, Debug)]
pub enum BitsPerWord {
    EightBits,
    NineBits,
}

/// The bus clock speeds the platform's clock divider offers, plus a
/// value reserved for exercising the configuration path.
#[allow(non_camel_case_types)]
#[derive(Clone, Copy, PartialEq, Eq, Debug)]
pub enum ClockSpeed {
    cs_125_MHz,
    cs_62_5_MHz,
    cs_31_2_MHz,
    cs_15_6_MHz,
    cs_7_8_MHz,
    cs_3_9_MHz,
    cs_1953_kHz,
    cs_976_kHz,
    cs_488_kHz,
    cs_244_kHz,
    cs_122_kHz,
    cs_61_kHz,
    cs_30_5_kHz,
    cs_15_2_kHz,
    cs_7629_Hz,
    TEST,
}

/// The numeric value a SPI mode is written to the device as.
pub open spec fn spec_mode_value(m: SPIMode) -> u8 {
    match m {
        SPIMode::SpiMode0 => 0u8,
        SPIMode::SpiMode1 => 1u8,
        SPIMode::SpiMode2 => 2u8,
        SPIMode::SpiMode3 => 3u8,
    }
}

/// The numeric value a word width is written to the device as.
pub open spec fn spec_bits_value(b: BitsPerWord) -> u8 {
    match b {
        BitsPerWord::EightBits => 8u8,
        BitsPerWord::NineBits => 9u8,
    }
}

/// The clock speed in hertz a speed setting is written to the device as.
pub open spec fn spec_speed_value(c: ClockSpeed) -> u32 {
    match c {
        ClockSpeed::cs_125_MHz => 125_000_000u32,
        ClockSpeed::cs_62_5_MHz => 62_500_000u32,
        ClockSpeed::cs_31_2_MHz => 31_200_000u32,
        ClockSpeed::cs_15_6_MHz => 15_600_000u32,
        ClockSpeed::cs_7_8_MHz => 7_800_000u32,
        ClockSpeed::cs_3_9_MHz => 3_900_000u32,
        ClockSpeed::cs_1953_kHz => 1_953_000u32,
        ClockSpeed::cs_976_kHz => 976_000u32,
        ClockSpeed::cs_488_kHz => 488_000u32,
        ClockSpeed::cs_244_kHz => 244_000u32,
        ClockSpeed::cs_122_kHz => 122_000u32,
        ClockSpeed::cs_61_kHz => 61_000u32,
        ClockSpeed::cs_30_5_kHz => 30_500u32,
        ClockSpeed::cs_15_2_kHz => 15_200u32,
        ClockSpeed::cs_7629_Hz => 7_629u32,
        ClockSpeed::TEST => 100u32,
    }
}

impl SPIMode {
    /// The numeric mode written to the device.
    pub fn value(&self) -> (r: u8)
        ensures
            r == spec_mode_value(*self),
    {
        match self {
            SPIMode::SpiMode0 => 0,
            SPIMode::SpiMode1 => 1,
            SPIMode::SpiMode2 => 2,
            SPIMode::SpiMode3 => 3,
        }
    }
}

impl BitsPerWord {
    /// The numeric word width written to the device.
    pub fn value(&self) -> (r: u8)
        ensures
            r == spec_bits_value(*self),
    {
        match self {
            BitsPerWord::EightBits => 8,
            BitsPerWord::NineBits => 9,
        }
    }
}

impl ClockSpeed {
    /// The clock speed in hertz written to the device.
    pub fn value(&self) -> (r: u32)
        ensures
            r == spec_speed_value(*self),
    {
        match self {
            ClockSpeed::cs_125_MHz => 125_000_000,
            ClockSpeed::cs_62_5_MHz => 62_500_000,
            ClockSpeed::cs_31_2_MHz => 31_200_000,
            ClockSpeed::cs_15_6_MHz => 15_600_000,
            ClockSpeed::cs_7_8_MHz => 7_800_000,
            ClockSpeed::cs_3_9_MHz => 3_900_000,
            ClockSpeed::cs_1953_kHz => 1_953_000,
            ClockSpeed::cs_976_kHz => 976_000,
            ClockSpeed::cs_488_kHz => 488_000,
            ClockSpeed::cs_244_kHz => 244_000,
            ClockSpeed::cs_122_kHz => 122_000,
            ClockSpeed::cs_61_kHz => 61_000,
            ClockSpeed::cs_30_5_kHz => 30_500,
            ClockSpeed::cs_15_2_kHz => 15_200,
            ClockSpeed::cs_7629_Hz => 7_629,
            ClockSpeed::TEST => 100,
        }
    }
}

/// Everything the lower-level bus is configured with.
pub struct SPIBusConfig {
    pub spi_dev_path: String,
    pub spi_mode: SPIMode,
    pub bits_per_word: BitsPerWord,
    pub bus_clock_speed: ClockSpeed,
}

/// A bus value of the lower-level layer: its configuration, held until
/// the caller applies it to the hardware.
pub struct SPIBus {
    config: SPIBusConfig,
}

/// What can go wrong while a configuration is applied to the device.
#[derive(Clone, Copy, PartialEq, Eq, Debug)]
pub enum SPIError {
    CouldNotSetMode,
    CouldNotSetBitsPerWord,
    CouldNotSetMaxSpeed,
}

impl SPIBus {
    /// The configuration this bus carries.
    pub closed spec fn spec_config(&self) -> SPIBusConfig {
        self.config
    }

    /// Builds the bus value that carries `setup`.  Applying the
    /// configuration to the hardware is the caller's separate step; its
    /// outcome is decided by [`reconfigure_outcome`].
    pub fn new(setup: SPIBusConfig) -> (r: SPIBus)
        ensures
            r.spec_config() == setup,
    {
        SPIBus { config: setup }
    }

    /// The configuration, for the caller that applies it.
    pub fn config(&self) -> (r: &SPIBusConfig)
        ensures
            r == self.spec_config(),
    {
        &self.config
    }

    /// Serial write helper; unfinished in every revision of this layer,
    /// so it reports failure on every input.
    pub fn write(_data: &Vec<u8>) -> (r: bool)
        ensures
            r == false,
    {
        false
    }

    /// Serial read helper; unfinished in every revision of this layer,
    /// so it reports failure and leaves the buffer untouched.
    pub fn read(data: &mut Vec<u8>) -> (r: bool)
        ensures
            r == false,
            final(data)@ == old(data)@,
    {
        false
    }
}

/// Builds a lower-level bus on a SPI device node with the layer's
/// defaults: mode 0, eight-bit words, and a 976 kHz clock.
///
/// Whether the node exists is a platform fact the caller establishes —
/// a filesystem query, before any bus call — and reports as
/// `path_exists`; a path that does not refer to an existing device node
/// is rejected here, so construction never yields a bus for a missing
/// node.
pub fn new_bus(spi_dev_path: &str, path_exists: bool) -> (r: Result<SPIBus, BusError>)
    ensures
        r is Err <==> !path_exists,
        r matches Err(e) ==> e == BusError::DevicePathNotFound,
        r matches Ok(b) ==> {
            &&& b.spec_config().spi_dev_path@ == spi_dev_path@
            &&& b.spec_config().spi_mode == SPIMode::SpiMode0
            &&& b.spec_config().bits_per_word == BitsPerWord::EightBits
            &&& b.spec_config().bus_clock_speed == ClockSpeed::cs_976_kHz
        },
{
    if !path_exists {
        return Err(BusError::DevicePathNotFound);
    }
    Ok(
        SPIBus::new(
            SPIBusConfig {
                spi_dev_path: spi_dev_path.to_owned(),
                spi_mode: SPIMode::SpiMode0,
                bits_per_word: BitsPerWord::EightBits,
                bus_clock_speed: ClockSpeed::cs_976_kHz,
            },
        ),
    )
}

/// The read-back verification of one configuration write: a setting is
/// applied exactly when the value read back exists and equals the value
/// requested.
pub fn readback_confirms(requested: u32, readback: Option<u32>) -> (r: bool)
    ensures
        r <==> (readback matches Some(v) && v == requested),
{
    match readback {
        Some(v) => v == requested,
        None => false,
    }
}

/// Decides the outcome of applying a configuration, from the verified
/// outcome of each of its three writes.  The first failing step names
/// the error, in the order the writes are issued: mode, then word
/// width, then clock speed.
pub fn reconfigure_outcome(mode_ok: bool, bits_ok: bool, speed_ok: bool) -> (r: Result<
    (),
    SPIError,
>)
    ensures
        r is Ok <==> (mode_ok && bits_ok && speed_ok),
        !mode_ok ==> (r matches Err(e) && e == SPIError::CouldNotSetMode),
        mode_ok && !bits_ok ==> (r matches Err(e) && e == SPIError::CouldNotSetBitsPerWord),
        mode_ok && bits_ok && !speed_ok ==> (r matches Err(e) && e
            == SPIError::CouldNotSetMaxSpeed),
{
    if !mode_ok {
        Err(SPIError::CouldNotSetMode)
    } else if !bits_ok {
        Err(SPIError::CouldNotSetBitsPerWord)
    } else if !speed_ok {
        Err(SPIError::CouldNotSetMaxSpeed)
    } else {
        Ok(())
    }
}

/// The transfer descriptor of the platform's SPI interface, field for
/// field as the kernel declares it.  The caller places buffer addresses
/// in `tx_buf` and `rx_buf` when it hands the descriptor to the
/// platform.
#[allow(non_camel_case_types)]
pub struct spi_ioc_transfer {
    pub tx_buf: u64,
    pub rx_buf: u64,
    pub len: u32,
    pub speed_hz: u32,
    pub delay_usecs: u16,
    pub bits_per_word: u8,
    pub cs_change: u8,
    pub tx_nbits: u8,
    pub rx_nbits: u8,
    pub word_delay_usecs: u8,
    pub pad: u8,
}

impl spi_ioc_transfer {
    /// Builds a transfer descriptor; every field that is not given is
    /// zero.
    pub fn new(
        tx_buf: Option<u64>,
        rx_buf: Option<u64>,
        len: Option<u32>,
        speed_hz: Option<u32>,
        delay_usecs: Option<u16>,
        bits_per_word: Option<u8>,
        cs_change: Option<u8>,
        tx_nbits: Option<u8>,
        rx_nbits: Option<u8>,
        word_delay_usecs: Option<u8>,
        pad: Option<u8>,
    ) -> (r: spi_ioc_transfer)
        ensures
            r.tx_buf == (match tx_buf {
                Some(v) => v,
                None => 0u64,
            }),
            r.rx_buf == (match rx_buf {
                Some(v) => v,
                None => 0u64,
            }),
            r.len == (match len {
                Some(v) => v,
                None => 0u32,
            }),
            r.speed_hz == (match speed_hz {
                Some(v) => v,
                None => 0u32,
            }),
            r.delay_usecs == (match delay_usecs {
                Some(v) => v,
                None => 0u16,
            }),
            r.bits_per_word == (match bits_per_word {
                Some(v) => v,
                None => 0u8,
            }),
            r.cs_change == (match cs_change {
                Some(v) => v,
                None => 0u8,
            }),
            r.tx_nbits == (match tx_nbits {
                Some(v) => v,
                None => 0u8,
            }),
            r.rx_nbits == (match rx_nbits {
                Some(v) => v,
                None => 0u8,
            }),
            r.word_delay_usecs == (match word_delay_usecs {
                Some(v) => v,
                None => 0u8,
            }),
            r.pad == (match pad {
                Some(v) => v,
                None => 0u8,
            }),
    {
        spi_ioc_transfer {
            tx_buf: match tx_buf {
                Some(v) => v,
                None => 0,
            },
            rx_buf: match rx_buf {
                Some(v) => v,
                None => 0,
            },
            len: match len {
                Some(v) => v,
                None => 0,
            },
            speed_hz: match speed_hz {
                Some(v) => v,
                None => 0,
            },
            delay_usecs: match delay_usecs {
                Some(v) => v,
                None => 0,
            },
            bits_per_word: match bits_per_word {
                Some(v) => v,
                None => 0,
            },
            cs_change: match cs_change {
                Some(v) => v,
                None => 0,
            },
            tx_nbits: match tx_nbits {
                Some(v) => v,
                None => 0,
            },
            rx_nbits: match rx_nbits {
                Some(v) => v,
                None => 0,
            },
            word_delay_usecs: match word_delay_usecs {
                Some(v) => v,
                None => 0,
            },
            pad: match pad {
                Some(v) => v,
                None => 0,
            },
        }
    }
}

} // verus!
