//! The failure taxonomy of the bus.
//!
//! Every recoverable condition the library reports is one of these
//! variants.  Construction-time failures (a path that refers to no
//! existing device node, a failed open, a failed mode application) abort
//! handle creation; transfer-time failures abort the one call and leave
//! the handle usable.

use vstd::prelude::*;

verus! {

/// Everything that can go wrong on the bus.
#[derive(Clone, Copy, PartialEq, Eq, Debug)]
pub enum BusError {
    /// The given path does not refer to an existing device node.
    DevicePathNotFound,
    /// The platform could not hand out a descriptor for the device node.
    CouldNotGetFileDescriptor,
    /// Applying the encoded mode byte to the device failed.
    CouldNotSetMode,
    /// Reading the mode back for verification failed or disagreed.
    CouldNotGetMode,
    /// The native transfer primitive reported a send failure.
    CouldNotSendMessage,
    /// The native transfer primitive could not open what it needed.
    CouldNotOpenFile,
    /// The capability is intentionally unfinished.
    NotImplemented,
    /// A two-phase transfer was requested with both phases empty.
    EmptyTransaction,
    /// The native layer returned a result code outside its documented set.
    UnexpectedNativeResult(u8),
}

} // verus!
