//! The bus handle and the transaction protocol.
//!
//! A [`SpiBus`] owns the one file descriptor of an open SPI device node.
//! Because whether a device node exists, acquiring a descriptor, and
//! talking to the device are platform work, the protocol is split into
//! decisions and events: the caller establishes each platform fact — the
//! node's existence, then the outcome of every native call — and the
//! library decides what follows from it.  [`SpiBus::new`] turns the
//! existence fact into either the rejection or a [`SpiBusOpenFlow`]; the
//! caller feeds each native outcome into the flow, and a completed flow
//! turns into a handle.  Transfers follow the same shape: the handle
//! computes a fully-specified request, the caller runs the native
//! primitive on it, and the reported result code is mapped back into the
//! error taxonomy here.

use vstd::prelude::*;

use crate::error::BusError;
use crate::mode::encode;
use crate::mode::spec_mode_byte;
use crate::mode::spec_word_bits;
use crate::mode::SpiSetup;
use crate::mode::WordLength;

verus! {

/// The sentinel a handle stores while it holds no descriptor.
pub const NO_DESCRIPTOR: i32 = -1;

/// An open SPI bus: the sole owner of one device-node descriptor,
/// together with the transfer parameters every transaction uses.
pub struct SpiBus {
    delay_us: u16,
    speed_hz: u32,
    bits: WordLength,
    c_fd: i32,
}

/// Where a [`SpiBusOpenFlow`] stands between validation and a usable
/// handle.
#[derive(Clone, Copy, PartialEq, Eq, Debug)]
pub enum OpenPhase {
    /// The path is validated; no descriptor has been requested yet.
    AcquireDescriptor,
    /// A descriptor is held; the encoded mode has not been applied.
    ConfigureMode { pending_fd: i32 },
    /// The mode was applied; the flow can become a handle.
    Complete { ready_fd: i32 },
    /// A platform step failed; the flow is dead.  A descriptor that was
    /// already acquired waits here — as the orphan, or the sentinel when
    /// there is none — until the caller takes it for closing, so failed
    /// construction releases the descriptor too.
    Failed { orphan_fd: i32 },
}

/// The steps between a validated device path and a usable [`SpiBus`].
///
/// The flow enforces the construction order: the descriptor is acquired
/// first, then the encoded mode byte is applied, exactly once, and only
/// then can a handle be taken.  A ghost counter records how often the
/// mode was applied, so the "exactly once" rule is part of the
/// well-formedness invariant rather than a comment.
pub struct SpiBusOpenFlow {
    dev_path: String,
    delay_us: u16,
    speed_hz: u32,
    bits: WordLength,
    mode_byte: u8,
    phase: OpenPhase,
    applied: Ghost<nat>,
}

impl SpiBusOpenFlow {
    /// The device node this flow opens.
    pub closed spec fn spec_dev_path(&self) -> Seq<char> {
        self.dev_path@
    }

    /// The inter-word delay the handle will use.
    pub closed spec fn spec_delay_us(&self) -> u16 {
        self.delay_us
    }

    /// The clock speed the handle will use.
    pub closed spec fn spec_speed_hz(&self) -> u32 {
        self.speed_hz
    }

    /// The word length the handle will use.
    pub closed spec fn spec_bits(&self) -> WordLength {
        self.bits
    }

    /// The encoded mode byte this flow applies to the device.
    pub closed spec fn spec_encoded_mode(&self) -> u8 {
        self.mode_byte
    }

    /// The phase the flow stands in.
    pub closed spec fn spec_phase(&self) -> OpenPhase {
        self.phase
    }

    /// How often the encoded mode has been applied to the device.
    pub closed spec fn spec_applied(&self) -> nat {
        self.applied@
    }

    /// The descriptor held while the mode is still to be applied.
    pub closed spec fn spec_pending_fd(&self) -> i32 {
        match self.phase {
            OpenPhase::ConfigureMode { pending_fd } => pending_fd,
            _ => NO_DESCRIPTOR,
        }
    }

    /// The descriptor of a completed flow.
    pub closed spec fn spec_ready_fd(&self) -> i32 {
        match self.phase {
            OpenPhase::Complete { ready_fd } => ready_fd,
            _ => NO_DESCRIPTOR,
        }
    }

    /// The descriptor a failed flow still owes the caller, or the
    /// sentinel when it owes none.
    pub closed spec fn spec_orphan_fd(&self) -> i32 {
        match self.phase {
            OpenPhase::Failed { orphan_fd } => orphan_fd,
            _ => NO_DESCRIPTOR,
        }
    }

    /// The construction-order invariant: a held descriptor is valid, the
    /// mode is untouched before the configuration step, and a completed
    /// flow has applied it exactly once.
    pub open spec fn wf(&self) -> bool {
        &&& (self.spec_phase() is AcquireDescriptor || self.spec_phase() is ConfigureMode)
            ==> self.spec_applied() == 0
        &&& self.spec_phase() is Complete ==> self.spec_applied() == 1
        &&& self.spec_phase() is Failed ==> self.spec_applied() <= 1
        &&& self.spec_phase() is ConfigureMode ==> self.spec_pending_fd() >= 0
        &&& self.spec_phase() is Complete ==> self.spec_ready_fd() >= 0
    }

    /// True exactly when the flow holds a descriptor and waits for the
    /// mode to be applied.
    pub fn is_configuring(&self) -> (r: bool)
        ensures
            r == (self.spec_phase() is ConfigureMode),
    {
        match self.phase {
            OpenPhase::ConfigureMode { .. } => true,
            _ => false,
        }
    }

    /// True exactly when the flow has completed all steps.
    pub fn is_complete(&self) -> (r: bool)
        ensures
            r == (self.spec_phase() is Complete),
    {
        match self.phase {
            OpenPhase::Complete { .. } => true,
            _ => false,
        }
    }

    /// The device node this flow opens, for the caller that performs
    /// the platform calls.
    pub fn device_path(&self) -> (r: &str)
        ensures
            r@ == self.spec_dev_path(),
    {
        self.dev_path.as_str()
    }

    /// The encoded mode byte, for the caller that performs the apply.
    pub fn encoded_mode(&self) -> (r: u8)
        ensures
            r == self.spec_encoded_mode(),
    {
        self.mode_byte
    }

    /// The held descriptor, for the caller that performs the apply.
    pub fn pending_descriptor(&self) -> (r: i32)
        requires
            self.spec_phase() is ConfigureMode,
        ensures
            r == self.spec_pending_fd(),
    {
        match self.phase {
            OpenPhase::ConfigureMode { pending_fd } => pending_fd,
            _ => NO_DESCRIPTOR,
        }
    }

    /// Records the outcome of the descriptor request.  Result code 0
    /// means the platform handed out `fd`; 1 means it could not.  Any
    /// other code is outside the native contract and must be treated as
    /// a fatal defect by the caller, not fed into the flow.
    pub fn descriptor_acquired(&mut self, code: u8, fd: i32) -> (r: Result<(), BusError>)
        requires
            old(self).wf(),
            old(self).spec_phase() is AcquireDescriptor,
            code == 0 || code == 1,
            code == 0 ==> fd >= 0,
        ensures
            final(self).wf(),
            spec_same_setup(*final(self), *old(self)),
            code == 0 ==> r is Ok && final(self).spec_phase() == (OpenPhase::ConfigureMode {
                pending_fd: fd,
            }) && final(self).spec_pending_fd() == fd,
            code == 1 ==> final(self).spec_phase() is Failed && final(self).spec_orphan_fd()
                == NO_DESCRIPTOR && (r matches Err(e) && e == BusError::CouldNotGetFileDescriptor),
    {
        if code == 0 {
            self.phase = OpenPhase::ConfigureMode { pending_fd: fd };
            Ok(())
        } else {
            self.phase = OpenPhase::Failed { orphan_fd: NO_DESCRIPTOR };
            Err(BusError::CouldNotGetFileDescriptor)
        }
    }

    /// Records the outcome of applying the encoded mode byte.  Result
    /// code 0 means the device took the mode; 1 means the apply call
    /// failed; 2 means the verifying read-back failed or disagreed.  Any
    /// other code is outside the native contract and must be treated as
    /// a fatal defect by the caller, not fed into the flow.  On failure
    /// the acquired descriptor is not lost: the failed flow keeps it,
    /// and [`SpiBusOpenFlow::take_orphan_descriptor`] hands it out for
    /// closing, so construction releases the descriptor on its error
    /// paths too.
    pub fn mode_applied(&mut self, code: u8) -> (r: Result<(), BusError>)
        requires
            old(self).wf(),
            old(self).spec_phase() is ConfigureMode,
            code == 0 || code == 1 || code == 2,
        ensures
            final(self).wf(),
            spec_same_setup(*final(self), *old(self)),
            final(self).spec_applied() == old(self).spec_applied() + 1,
            code == 0 ==> r is Ok && final(self).spec_phase() == (OpenPhase::Complete {
                ready_fd: old(self).spec_pending_fd(),
            }) && final(self).spec_ready_fd() == old(self).spec_pending_fd(),
            code != 0 ==> final(self).spec_phase() is Failed && final(self).spec_orphan_fd()
                == old(self).spec_pending_fd(),
            code == 1 ==> (r matches Err(e) && e == BusError::CouldNotSetMode),
            code == 2 ==> (r matches Err(e) && e == BusError::CouldNotGetMode),
    {
        let pending = match self.phase {
            OpenPhase::ConfigureMode { pending_fd } => pending_fd,
            _ => NO_DESCRIPTOR,
        };
        self.applied = Ghost(self.applied@ + 1);
        if code == 0 {
            self.phase = OpenPhase::Complete { ready_fd: pending };
            Ok(())
        } else if code == 1 {
            self.phase = OpenPhase::Failed { orphan_fd: pending };
            Err(BusError::CouldNotSetMode)
        } else {
            self.phase = OpenPhase::Failed { orphan_fd: pending };
            Err(BusError::CouldNotGetMode)
        }
    }

    /// Takes the descriptor a failed flow still owes, exactly once, so
    /// the caller can close it: failed construction must release the
    /// descriptor just as surely as a handle's own release does.  On a
    /// flow that owes none — not failed, failed before a descriptor was
    /// acquired, or already relieved — nothing is handed out.
    pub fn take_orphan_descriptor(&mut self) -> (r: Option<i32>)
        ensures
            r == (if old(self).spec_orphan_fd() >= 0 {
                Some(old(self).spec_orphan_fd())
            } else {
                None::<i32>
            }),
            final(self).spec_orphan_fd() == NO_DESCRIPTOR,
            final(self).spec_phase() is Failed <==> old(self).spec_phase() is Failed,
            !(old(self).spec_phase() is Failed) ==> *final(self) == *old(self),
            spec_same_setup(*final(self), *old(self)),
            final(self).spec_applied() == old(self).spec_applied(),
            old(self).wf() ==> final(self).wf(),
    {
        match self.phase {
            OpenPhase::Failed { orphan_fd } => {
                self.phase = OpenPhase::Failed { orphan_fd: NO_DESCRIPTOR };
                if orphan_fd >= 0 {
                    Some(orphan_fd)
                } else {
                    None
                }
            },
            _ => None,
        }
    }

    /// Turns a completed flow into the handle that owns the descriptor.
    pub fn into_bus(self) -> (r: SpiBus)
        requires
            self.wf(),
            self.spec_phase() is Complete,
        ensures
            r.spec_fd() == self.spec_ready_fd(),
            r.has_descriptor(),
            r.spec_delay_us() == self.spec_delay_us(),
            r.spec_speed_hz() == self.spec_speed_hz(),
            r.spec_bits() == self.spec_bits(),
    {
        let ready = match self.phase {
            OpenPhase::Complete { ready_fd } => ready_fd,
            _ => NO_DESCRIPTOR,
        };
        SpiBus { delay_us: self.delay_us, speed_hz: self.speed_hz, bits: self.bits, c_fd: ready }
    }
}

/// Two flows open the same device node and carry the same transfer
/// parameters and mode byte.
pub open spec fn spec_same_setup(a: SpiBusOpenFlow, b: SpiBusOpenFlow) -> bool {
    &&& a.spec_dev_path() == b.spec_dev_path()
    &&& a.spec_delay_us() == b.spec_delay_us()
    &&& a.spec_speed_hz() == b.spec_speed_hz()
    &&& a.spec_bits() == b.spec_bits()
    &&& a.spec_encoded_mode() == b.spec_encoded_mode()
}

/// A usable handle comes only out of a flow that applied the encoded
/// mode exactly once: completion pins the ghost application count to one.
pub proof fn lemma_mode_applied_once(f: SpiBusOpenFlow)
    requires
        f.wf(),
        f.spec_phase() is Complete,
    ensures
        f.spec_applied() == 1,
{
}

impl SpiBus {
    /// The inter-word delay of every transfer on this handle.
    pub closed spec fn spec_delay_us(&self) -> u16 {
        self.delay_us
    }

    /// The clock speed of every transfer on this handle.
    pub closed spec fn spec_speed_hz(&self) -> u32 {
        self.speed_hz
    }

    /// The word length of every transfer on this handle.
    pub closed spec fn spec_bits(&self) -> WordLength {
        self.bits
    }

    /// The stored descriptor, or the sentinel after release.
    pub closed spec fn spec_fd(&self) -> i32 {
        self.c_fd
    }

    /// The handle still owns its descriptor.
    pub open spec fn has_descriptor(&self) -> bool {
        self.spec_fd() >= 0
    }

    /// True exactly when the handle still owns its descriptor.
    pub fn has_open_descriptor(&self) -> (r: bool)
        ensures
            r == self.has_descriptor(),
    {
        self.c_fd >= 0
    }

    /// The handle as it stands after its descriptor is released.
    pub closed spec fn spec_released(self) -> SpiBus {
        SpiBus { c_fd: NO_DESCRIPTOR, ..self }
    }

    /// What a release hands back: the descriptor on the first release,
    /// nothing afterwards.
    pub closed spec fn spec_release_yield(self) -> Option<i32> {
        if self.c_fd >= 0 {
            Some(self.c_fd)
        } else {
            None
        }
    }

    /// Begins opening a handle on a SPI device node.
    ///
    /// Whether the node exists is a platform fact: the caller queries
    /// the filesystem — no bus call, no descriptor — and reports it as
    /// `path_exists`.  The decision is made here, first: a path that
    /// does not refer to an existing device node is rejected with
    /// [`BusError::DevicePathNotFound`], and since every native step
    /// needs the flow that only an existing node yields, no native call
    /// can precede the rejection.  An existing node yields the open flow
    /// that sequences the remaining steps.
    pub fn new(
        bus_id: &str,
        delay_us: u16,
        speed_hz: u32,
        bits: WordLength,
        setup: SpiSetup,
        path_exists: bool,
    ) -> (r: Result<SpiBusOpenFlow, BusError>)
        ensures
            r is Err <==> !path_exists,
            r matches Err(e) ==> e == BusError::DevicePathNotFound,
            r matches Ok(f) ==> {
                &&& f.wf()
                &&& f.spec_phase() is AcquireDescriptor
                &&& f.spec_dev_path() == bus_id@
                &&& f.spec_encoded_mode() == spec_mode_byte(setup)
                &&& f.spec_delay_us() == delay_us
                &&& f.spec_speed_hz() == speed_hz
                &&& f.spec_bits() == bits
            },
    {
        if !path_exists {
            return Err(BusError::DevicePathNotFound);
        }
        let mode_byte = encode(&setup);
        Ok(
            SpiBusOpenFlow {
                dev_path: bus_id.to_owned(),
                delay_us,
                speed_hz,
                bits,
                mode_byte,
                phase: OpenPhase::AcquireDescriptor,
                applied: Ghost(0),
            },
        )
    }

    /// Gives up the descriptor, exactly once.
    ///
    /// The first release hands the descriptor out so the caller can close
    /// it; the handle then stores the sentinel, and every later release
    /// hands out nothing.  Closing can therefore never happen twice
    /// through this handle.
    pub fn release_descriptor(&mut self) -> (r: Option<i32>)
        ensures
            *final(self) == old(self).spec_released(),
            r == old(self).spec_release_yield(),
            old(self).has_descriptor() ==> r == Some(old(self).spec_fd()),
            !old(self).has_descriptor() ==> r is None,
            !final(self).has_descriptor(),
            final(self).spec_delay_us() == old(self).spec_delay_us(),
            final(self).spec_speed_hz() == old(self).spec_speed_hz(),
            final(self).spec_bits() == old(self).spec_bits(),
    {
        if self.c_fd >= 0 {
            let fd = self.c_fd;
            self.c_fd = NO_DESCRIPTOR;
            Some(fd)
        } else {
            self.c_fd = NO_DESCRIPTOR;
            None
        }
    }
}

/// Everything the native single-phase transfer primitive is handed for
/// one transaction: the descriptor, the words to send, a zero-filled
/// receive buffer, and the handle's transfer parameters.
pub struct TransferRequest {
    pub fd: i32,
    pub tx_words: Vec<u8>,
    pub rx_words: Vec<u8>,
    pub rx_count: u32,
    pub delay_us: u16,
    pub speed_hz: u32,
    pub bits: u8,
}

/// `r` is the transfer request a handle `bus` computes for transmit
/// words `tx` and requested receive count `max_rx_words`: the receive
/// buffer is zero-filled and sized to the requested count, or to the
/// transmit length when no count is given.
pub open spec fn transaction_request_matches(
    bus: SpiBus,
    tx: Seq<u8>,
    max_rx_words: Option<u32>,
    r: TransferRequest,
) -> bool {
    &&& r.fd == bus.spec_fd()
    &&& r.tx_words@ == tx
    &&& (max_rx_words matches Some(n) ==> r.rx_count == n)
    &&& (max_rx_words is None ==> r.rx_count == tx.len())
    &&& r.rx_words@.len() == r.rx_count
    &&& (forall|i: int| 0 <= i < r.rx_words@.len() ==> r.rx_words@[i] == 0u8)
    &&& r.delay_us == bus.spec_delay_us()
    &&& r.speed_hz == bus.spec_speed_hz()
    &&& r.bits == spec_word_bits(bus.spec_bits())
}

/// Everything the native two-phase transfer primitive is handed for one
/// command/data transaction under a single chip-select assertion: both
/// phase buffers, the DC GPIO line to toggle between them, a zero-filled
/// receive buffer, and the handle's transfer parameters.
pub struct DcTransferRequest {
    pub fd: i32,
    pub gpio_dev: String,
    pub dc_line_no: u8,
    pub command_words: Vec<u64>,
    pub data_words: Vec<u64>,
    pub command_mode_active_high: bool,
    pub rx_words: Vec<u64>,
    pub rx_count: u32,
    pub delay_us: u16,
    pub speed_hz: u32,
    pub bits: u8,
}

/// The sequence holds no NUL character, so the native boundary can carry
/// it as a C string.
pub open spec fn spec_nul_free(s: Seq<char>) -> bool {
    forall|i: int| 0 <= i < s.len() ==> s[i] != '\0'
}

/// The requested receive count of a two-phase transfer, which defaults
/// to zero.
pub open spec fn spec_requested_or_zero(max_rx_words: Option<u32>) -> u32 {
    match max_rx_words {
        Some(n) => n,
        None => 0u32,
    }
}

/// `q` is the two-phase transfer request a handle `bus` computes for the
/// given phases and DC line.  The receive buffer is zero-filled and
/// sized to the requested count; only when that count is zero does it
/// hold a single word instead, so the native boundary is never handed a
/// zero-length buffer.
pub open spec fn dc_transaction_request_matches(
    bus: SpiBus,
    cmd: Seq<u64>,
    data: Seq<u64>,
    max_rx_words: Option<u32>,
    gpio_dev: Seq<char>,
    dc_line_no: u8,
    command_mode_active_high: bool,
    q: DcTransferRequest,
) -> bool {
    &&& q.fd == bus.spec_fd()
    &&& q.gpio_dev@ == gpio_dev
    &&& q.dc_line_no == dc_line_no
    &&& q.command_words@ == cmd
    &&& q.data_words@ == data
    &&& q.command_mode_active_high == command_mode_active_high
    &&& q.rx_count == spec_requested_or_zero(max_rx_words)
    &&& q.rx_words@.len() == (if q.rx_count == 0 {
        1int
    } else {
        q.rx_count as int
    })
    &&& (forall|i: int| 0 <= i < q.rx_words@.len() ==> q.rx_words@[i] == 0u64)
    &&& q.delay_us == bus.spec_delay_us()
    &&& q.speed_hz == bus.spec_speed_hz()
    &&& q.bits == spec_word_bits(bus.spec_bits())
}

/// A vector of `n` zeroed 8-bit words.
fn zeroed_words_u8(n: usize) -> (r: Vec<u8>)
    ensures
        r@.len() == n,
        forall|i: int| 0 <= i < n ==> r@[i] == 0u8,
{
    let mut v: Vec<u8> = Vec::new();
    while v.len() < n
        invariant
            v@.len() <= n,
            forall|i: int| 0 <= i < v@.len() ==> v@[i] == 0u8,
        decreases n - v@.len(),
    {
        v.push(0);
    }
    v
}

/// A vector of `n` zeroed 64-bit words.
fn zeroed_words_u64(n: usize) -> (r: Vec<u64>)
    ensures
        r@.len() == n,
        forall|i: int| 0 <= i < n ==> r@[i] == 0u64,
{
    let mut v: Vec<u64> = Vec::new();
    while v.len() < n
        invariant
            v@.len() <= n,
            forall|i: int| 0 <= i < v@.len() ==> v@[i] == 0u64,
        decreases n - v@.len(),
    {
        v.push(0);
    }
    v
}

impl SpiBus {
    /// Computes the single-phase transfer request for the given transmit
    /// words: the receive buffer is zero-filled and sized to the
    /// requested count, or to the transmit length when no count is
    /// given.  The native primitive is then run on the request, and its
    /// result code goes to [`SpiBus::transaction_complete`].
    pub fn transaction_request(&self, tx_data: Vec<u8>, max_rx_words: Option<u32>) -> (r:
        TransferRequest)
        requires
            self.has_descriptor(),
            tx_data@.len() <= u32::MAX,
        ensures
            transaction_request_matches(*self, tx_data@, max_rx_words, r),
    {
        let rx_count: u32 = match max_rx_words {
            Some(n) => n,
            None => tx_data.len() as u32,
        };
        let rx_words = zeroed_words_u8(rx_count as usize);
        TransferRequest {
            fd: self.c_fd,
            tx_words: tx_data,
            rx_words,
            rx_count,
            delay_us: self.delay_us,
            speed_hz: self.speed_hz,
            bits: self.bits.bits(),
        }
    }

    /// Maps the native result code of a single-phase transfer: 0 hands
    /// the filled receive buffer back whole, 1 reports a send failure
    /// and 2 a failed open, each without a buffer.  Any other code is
    /// outside the native contract and must be treated as a fatal
    /// defect by the caller, never mapped.
    pub fn transaction_complete(code: u8, rx_words: Vec<u8>) -> (r: Result<Vec<u8>, BusError>)
        requires
            code == 0 || code == 1 || code == 2,
        ensures
            code == 0 ==> (r matches Ok(v) && v@ == rx_words@),
            code == 1 ==> (r matches Err(e) && e == BusError::CouldNotSendMessage),
            code == 2 ==> (r matches Err(e) && e == BusError::CouldNotOpenFile),
    {
        if code == 0 {
            Ok(rx_words)
        } else if code == 1 {
            Err(BusError::CouldNotSendMessage)
        } else {
            Err(BusError::CouldNotOpenFile)
        }
    }

    /// Computes the two-phase command/data transfer request.
    ///
    /// Either phase may be empty — an empty phase is skipped on the wire
    /// but does not abort the transaction — yet a request with both
    /// phases empty is rejected before it can reach the native boundary.
    /// Both phases ride in one request, so chip-select is asserted once
    /// for the whole transaction and the DC line is toggled between the
    /// phases by the native primitive alone.  The receive buffer is
    /// sized to the requested count; a request for zero words still
    /// carries one word of buffer, which the completion step cuts away
    /// again, so the native boundary never sees a zero-length buffer.
    pub fn dc_transaction_request(
        &self,
        tx_command: Vec<u64>,
        tx_data: Vec<u64>,
        max_rx_words: Option<u32>,
        csdc_gpio_dev: &str,
        dc_gpio_line_no: u8,
        command_mode_active_high: bool,
    ) -> (r: Result<DcTransferRequest, BusError>)
        requires
            self.has_descriptor(),
            tx_command@.len() <= u32::MAX,
            tx_data@.len() <= u32::MAX,
            spec_nul_free(csdc_gpio_dev@),
        ensures
            r is Err <==> (tx_command@.len() == 0 && tx_data@.len() == 0),
            r matches Err(e) ==> e == BusError::EmptyTransaction,
            r matches Ok(q) ==> dc_transaction_request_matches(
                *self,
                tx_command@,
                tx_data@,
                max_rx_words,
                csdc_gpio_dev@,
                dc_gpio_line_no,
                command_mode_active_high,
                q,
            ),
    {
        if tx_command.len() == 0 && tx_data.len() == 0 {
            return Err(BusError::EmptyTransaction);
        }
        let rx_count: u32 = match max_rx_words {
            Some(n) => n,
            None => 0,
        };
        let rx_len: usize = if rx_count == 0 {
            1
        } else {
            rx_count as usize
        };
        let rx_words = zeroed_words_u64(rx_len);
        Ok(
            DcTransferRequest {
                fd: self.c_fd,
                gpio_dev: csdc_gpio_dev.to_owned(),
                dc_line_no: dc_gpio_line_no,
                command_words: tx_command,
                data_words: tx_data,
                command_mode_active_high,
                rx_words,
                rx_count,
                delay_us: self.delay_us,
                speed_hz: self.speed_hz,
                bits: self.bits.bits(),
            },
        )
    }

    /// Maps the native result code of a two-phase transfer: 0 hands the
    /// first `rx_count` words of the filled receive buffer back — cutting
    /// away the safety word a zero-count request carried — 1 reports a
    /// send failure, 2 a failed open, and every other code — outside the
    /// documented native set — becomes its own typed error instead of
    /// ending the program.
    pub fn dc_transaction_complete(code: u8, rx_words: Vec<u64>, rx_count: u32) -> (r: Result<
        Vec<u64>,
        BusError,
    >)
        requires
            rx_count <= rx_words@.len(),
        ensures
            code == 0 ==> (r matches Ok(v) && v@ == rx_words@.subrange(0, rx_count as int)),
            code == 1 ==> (r matches Err(e) && e == BusError::CouldNotSendMessage),
            code == 2 ==> (r matches Err(e) && e == BusError::CouldNotOpenFile),
            !(code == 0 || code == 1 || code == 2) ==> (r matches Err(e) && e
                == BusError::UnexpectedNativeResult(code)),
    {
        if code == 0 {
            let mut received = rx_words;
            received.truncate(rx_count as usize);
            Ok(received)
        } else if code == 1 {
            Err(BusError::CouldNotSendMessage)
        } else if code == 2 {
            Err(BusError::CouldNotOpenFile)
        } else {
            Err(BusError::UnexpectedNativeResult(code))
        }
    }
}

/// A transfer reads the handle and never changes it, and the request it
/// computes depends only on the handle and the call's own arguments: two
/// requests computed from the same handle and inputs agree on every
/// field, so consecutive transfers on one handle are independent.
pub proof fn lemma_transaction_request_deterministic(
    bus: SpiBus,
    tx: Seq<u8>,
    max_rx_words: Option<u32>,
    r1: TransferRequest,
    r2: TransferRequest,
)
    requires
        transaction_request_matches(bus, tx, max_rx_words, r1),
        transaction_request_matches(bus, tx, max_rx_words, r2),
    ensures
        r1.fd == r2.fd,
        r1.tx_words@ == r2.tx_words@,
        r1.rx_count == r2.rx_count,
        r1.rx_words@ == r2.rx_words@,
        r1.delay_us == r2.delay_us,
        r1.speed_hz == r2.speed_hz,
        r1.bits == r2.bits,
{
    assert(r1.rx_words@ =~= r2.rx_words@);
}

/// The two-phase analogue: a command/data request depends only on the
/// handle and the call's own arguments, so consecutive transactions on
/// one handle are independent.
pub proof fn lemma_dc_transaction_request_deterministic(
    bus: SpiBus,
    cmd: Seq<u64>,
    data: Seq<u64>,
    max_rx_words: Option<u32>,
    gpio_dev: Seq<char>,
    dc_line_no: u8,
    command_mode_active_high: bool,
    q1: DcTransferRequest,
    q2: DcTransferRequest,
)
    requires
        dc_transaction_request_matches(
            bus,
            cmd,
            data,
            max_rx_words,
            gpio_dev,
            dc_line_no,
            command_mode_active_high,
            q1,
        ),
        dc_transaction_request_matches(
            bus,
            cmd,
            data,
            max_rx_words,
            gpio_dev,
            dc_line_no,
            command_mode_active_high,
            q2,
        ),
    ensures
        q1.fd == q2.fd,
        q1.gpio_dev@ == q2.gpio_dev@,
        q1.dc_line_no == q2.dc_line_no,
        q1.command_words@ == q2.command_words@,
        q1.data_words@ == q2.data_words@,
        q1.command_mode_active_high == q2.command_mode_active_high,
        q1.rx_count == q2.rx_count,
        q1.rx_words@ == q2.rx_words@,
        q1.delay_us == q2.delay_us,
        q1.speed_hz == q2.speed_hz,
        q1.bits == q2.bits,
{
    assert(q1.rx_words@ =~= q2.rx_words@);
}

/// A released handle holds no descriptor, a second release yields
/// nothing, and releasing again changes nothing: the underlying
/// descriptor can be closed at most once through a handle.
pub proof fn lemma_release_at_most_once(b: SpiBus)
    ensures
        !b.spec_released().has_descriptor(),
        b.spec_released().spec_release_yield() is None,
        b.spec_released().spec_released() == b.spec_released(),
{
}

/// The textual write helpers of the bus interface.  They are
/// intentionally unfinished: every call reports
/// [`BusError::NotImplemented`], the one place that error is ever
/// produced — the transaction paths never return it.
pub trait Write<T> {
    /// Writes `data` to the bus.
    fn write(&self, data: T) -> (r: Result<(), BusError>)
        ensures
            r matches Err(e) && e == BusError::NotImplemented,
    ;
}

impl<'a> Write<&'a str> for SpiBus {
    fn write(&self, _data: &'a str) -> (r: Result<(), BusError>) {
        Err(BusError::NotImplemented)
    }
}

impl Write<Vec<u8>> for SpiBus {
    fn write(&self, _tx_data: Vec<u8>) -> (r: Result<(), BusError>) {
        Err(BusError::NotImplemented)
    }
}

} // verus!
