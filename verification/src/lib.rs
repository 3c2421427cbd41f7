//! Control-plane logic for a Linux SPI bus client driving e-paper displays.
//!
//! The crate covers opening a handle on a SPI device node, encoding the
//! device mode byte, single-phase transfers, and two-phase command/data
//! transfers that toggle a DC GPIO line between phases.  All platform work
//! (file descriptors, `ioctl` calls, the native transfer primitive) happens
//! outside this crate; here every decision the protocol makes is stated in
//! contracts and verified.

pub mod bus;
pub mod error;
pub mod mode;
pub mod spi;

pub use bus::OpenPhase;
pub use bus::SpiBus;
pub use bus::SpiBusOpenFlow;
pub use error::BusError;
pub use mode::encode;
pub use mode::BitOrder;
pub use mode::CsMode;
pub use mode::SpiMode;
pub use mode::SpiSetup;
pub use mode::WordLength;
