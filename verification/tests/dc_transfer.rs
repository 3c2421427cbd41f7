use epaper_spi::BitOrder;
use epaper_spi::BusError;
use epaper_spi::CsMode;
use epaper_spi::SpiBus;
use epaper_spi::SpiMode;
use epaper_spi::SpiSetup;
use epaper_spi::WordLength;

fn open_bus(fd: i32) -> SpiBus {
    let setup = SpiSetup {
        spi_mode: SpiMode::SpiMode0,
        cs_mode: CsMode::CsHigh,
        bit_order: BitOrder::MSB,
    };
    let mut flow = SpiBus::new("/dev/spidev0.0", 0, 500000, WordLength::EightBit, setup, true)
        .expect("an existing device node must be accepted");
    flow.descriptor_acquired(0, fd).unwrap();
    flow.mode_applied(0).unwrap();
    flow.into_bus()
}

#[test]
fn dc_request_carries_both_phases_in_one_transaction() {
    let bus = open_bus(3);
    let command: Vec<u64> = vec![0xaa];
    let data: Vec<u64> = vec![0, 0x55, 2, 0xff, 128, 0x69];
    let request = bus
        .dc_transaction_request(command.clone(), data.clone(), None, "gpiochip0", 25, true)
        .expect("a two-phase request with words must be accepted");
    // One request, one native call, one chip-select assertion around
    // both phases.
    assert_eq!(request.fd, 3);
    assert_eq!(request.gpio_dev, "gpiochip0");
    assert_eq!(request.dc_line_no, 25);
    assert_eq!(request.command_words, command);
    assert_eq!(request.data_words, data);
    assert!(request.command_mode_active_high);
    assert_eq!(request.rx_count, 0);
    assert_eq!(request.rx_words, vec![0u64; 1]);
    assert_eq!(request.delay_us, 0);
    assert_eq!(request.speed_hz, 500000);
    assert_eq!(request.bits, 8);

    let received = SpiBus::dc_transaction_complete(0, request.rx_words, request.rx_count)
        .expect("result code 0 must succeed");
    // No receive words were requested, so none come back; the one-word
    // safety buffer stays at the native boundary.
    assert_eq!(received.len(), 0);
}

#[test]
fn test_dc() -> Result<(), String> {
    let spi_dev = open_bus(3);

    let command: Vec<u64> = vec![170];
    let command2: Vec<u64> = vec![170];
    let data: Vec<u64> = vec![0, 0x55, 2, 0xff, 128, 0x69];
    let data2: Vec<u64> = vec![0, 0x55, 2, 0xff, 128, 0x69];
    let command3: Vec<u64> = vec![170];
    let command4: Vec<u64> = vec![];
    let data3: Vec<u64> = vec![];
    let data4: Vec<u64> = vec![0, 0x55, 2, 0xff, 128, 0x69];

    let result = spi_dev
        .dc_transaction_request(command, data, None, "gpiochip0", 25, true)
        .and_then(|request| SpiBus::dc_transaction_complete(0, request.rx_words, request.rx_count));
    match result {
        Ok(_) => {}
        Err(reason) => {
            return Err(format!("test1 I errored bc: {:?}", reason));
        }
    }

    let result = spi_dev
        .dc_transaction_request(command2, data2, None, "gpiochip0", 25, true)
        .and_then(|request| SpiBus::dc_transaction_complete(0, request.rx_words, request.rx_count));
    match result {
        Ok(_) => {}
        Err(reason) => {
            return Err(format!("test2 I errored bc: {:?}", reason));
        }
    }

    // A zero-length data phase is valid.
    match spi_dev
        .dc_transaction_request(command3, data3, None, "gpiochip0", 25, true)
        .and_then(|request| SpiBus::dc_transaction_complete(0, request.rx_words, request.rx_count))
    {
        Ok(_) => {}
        Err(reason) => {
            return Err(format!("test3 I errored bc: {:?}", reason));
        }
    }

    // A zero-length command phase is valid.
    match spi_dev
        .dc_transaction_request(command4, data4, None, "gpiochip0", 25, true)
        .and_then(|request| SpiBus::dc_transaction_complete(0, request.rx_words, request.rx_count))
    {
        Ok(_) => {}
        Err(reason) => {
            return Err(format!("test4 I errored bc: {:?}", reason));
        }
    }

    return Ok(());
}

#[test]
fn all_empty_request_fails_validation() {
    let bus = open_bus(3);
    let r = bus.dc_transaction_request(vec![], vec![], None, "gpiochip0", 25, true);
    assert_eq!(r.err(), Some(BusError::EmptyTransaction));
}

#[test]
fn dc_receive_buffer_matches_the_requested_count() {
    let bus = open_bus(3);
    let request = bus
        .dc_transaction_request(vec![1], vec![2], Some(4), "gpiochip0", 25, false)
        .expect("a two-phase request with words must be accepted");
    assert_eq!(request.rx_count, 4);
    assert_eq!(request.rx_words, vec![0u64; 4]);
    assert!(!request.command_mode_active_high);
    let received = SpiBus::dc_transaction_complete(0, request.rx_words, request.rx_count)
        .expect("result code 0 must succeed");
    assert_eq!(received, vec![0u64; 4]);
}

#[test]
fn dc_zero_count_request_still_carries_one_buffer_word() {
    let bus = open_bus(3);
    let request = bus
        .dc_transaction_request(vec![1], vec![2], Some(0), "gpiochip0", 25, true)
        .expect("a two-phase request with words must be accepted");
    assert_eq!(request.rx_count, 0);
    assert_eq!(request.rx_words, vec![0u64; 1]);
    let received = SpiBus::dc_transaction_complete(0, request.rx_words, request.rx_count)
        .expect("result code 0 must succeed");
    assert_eq!(received.len(), 0);
}

#[test]
fn dc_failure_codes_map_to_typed_errors() {
    assert_eq!(
        SpiBus::dc_transaction_complete(1, vec![0], 0),
        Err(BusError::CouldNotSendMessage)
    );
    assert_eq!(
        SpiBus::dc_transaction_complete(2, vec![0], 0),
        Err(BusError::CouldNotOpenFile)
    );
    assert_eq!(
        SpiBus::dc_transaction_complete(7, vec![0], 0),
        Err(BusError::UnexpectedNativeResult(7))
    );
}
