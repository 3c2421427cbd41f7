use epaper_spi::BitOrder;
use epaper_spi::BusError;
use epaper_spi::CsMode;
use epaper_spi::SpiBus;
use epaper_spi::SpiBusOpenFlow;
use epaper_spi::SpiMode;
use epaper_spi::SpiSetup;
use epaper_spi::WordLength;

fn default_setup() -> SpiSetup {
    SpiSetup {
        spi_mode: SpiMode::SpiMode0,
        cs_mode: CsMode::CsHigh,
        bit_order: BitOrder::MSB,
    }
}

fn flow_on_valid_path() -> SpiBusOpenFlow {
    // The device node of the target board; its existence is the
    // platform fact the caller reports.
    SpiBus::new("/dev/spidev0.0", 0, 500000, WordLength::EightBit, default_setup(), true)
        .expect("an existing device node must be accepted")
}

#[test]
fn init_bus_false_path() -> Result<(), String> {
    let setup = SpiSetup {
        spi_mode: SpiMode::SpiMode0,
        cs_mode: CsMode::CsLow,
        bit_order: BitOrder::MSB,
    };

    // "/dev/spi_bus" exists on no machine this library targets.
    if let Err(val) = SpiBus::new("/dev/spi_bus", 0, 0, WordLength::EightBit, setup, false) {
        if val == BusError::DevicePathNotFound {
            Ok(())
        } else {
            return Err("wrong error given".to_string());
        }
    } else {
        return Err("\"found\" a non existant path".to_string());
    }
}

#[test]
fn rejection_follows_existence_not_the_path_text() {
    // A missing node is rejected however plausible its name reads.
    let r = SpiBus::new("/dev/spidev0.1", 0, 0, WordLength::EightBit, default_setup(), false);
    assert_eq!(r.err(), Some(BusError::DevicePathNotFound));
    // An existing node is accepted whatever bus number it carries.
    let r = SpiBus::new("/dev/spidev4.0", 0, 0, WordLength::EightBit, default_setup(), true);
    assert!(r.is_ok());
}

#[test]
fn open_flow_reaches_a_handle() {
    let mut flow = flow_on_valid_path();
    assert!(!flow.is_complete());
    // The encoded mode for mode 0, active-high chip-select, MSB-first.
    assert_eq!(flow.encoded_mode(), 16);
    assert!(flow.descriptor_acquired(0, 3).is_ok());
    assert_eq!(flow.pending_descriptor(), 3);
    assert!(flow.mode_applied(0).is_ok());
    assert!(flow.is_complete());
    let mut bus = flow.into_bus();
    assert_eq!(bus.release_descriptor(), Some(3));
}

#[test]
fn failed_descriptor_request_reports_it() {
    let mut flow = flow_on_valid_path();
    let r = flow.descriptor_acquired(1, 0);
    assert_eq!(r, Err(BusError::CouldNotGetFileDescriptor));
    assert!(!flow.is_complete());
    // No descriptor was acquired, so none is owed.
    assert_eq!(flow.take_orphan_descriptor(), None);
}

#[test]
fn failed_mode_write_reports_it() {
    let mut flow = flow_on_valid_path();
    flow.descriptor_acquired(0, 3).unwrap();
    let r = flow.mode_applied(1);
    assert_eq!(r, Err(BusError::CouldNotSetMode));
    assert!(!flow.is_complete());
}

#[test]
fn failed_mode_readback_reports_it() {
    let mut flow = flow_on_valid_path();
    flow.descriptor_acquired(0, 3).unwrap();
    let r = flow.mode_applied(2);
    assert_eq!(r, Err(BusError::CouldNotGetMode));
    assert!(!flow.is_complete());
}

#[test]
fn failed_mode_step_hands_the_descriptor_back_once() {
    let mut flow = flow_on_valid_path();
    flow.descriptor_acquired(0, 3).unwrap();
    assert!(flow.mode_applied(1).is_err());
    // The acquired descriptor survives the failure for the caller to
    // close, and is handed out only once.
    assert_eq!(flow.take_orphan_descriptor(), Some(3));
    assert_eq!(flow.take_orphan_descriptor(), None);
}

#[test]
fn unfailed_flow_owes_no_descriptor() {
    let mut flow = flow_on_valid_path();
    assert_eq!(flow.take_orphan_descriptor(), None);
    flow.descriptor_acquired(0, 3).unwrap();
    assert_eq!(flow.take_orphan_descriptor(), None);
    flow.mode_applied(0).unwrap();
    assert_eq!(flow.take_orphan_descriptor(), None);
}

#[test]
fn release_hands_out_the_descriptor_only_once() {
    let mut flow = flow_on_valid_path();
    flow.descriptor_acquired(0, 7).unwrap();
    flow.mode_applied(0).unwrap();
    let mut bus = flow.into_bus();
    assert_eq!(bus.release_descriptor(), Some(7));
    assert_eq!(bus.release_descriptor(), None);
    assert_eq!(bus.release_descriptor(), None);
}
