use epaper_spi::bus::Write;
use epaper_spi::BitOrder;
use epaper_spi::BusError;
use epaper_spi::CsMode;
use epaper_spi::SpiBus;
use epaper_spi::SpiMode;
use epaper_spi::SpiSetup;
use epaper_spi::WordLength;

fn open_bus(fd: i32) -> SpiBus {
    let setup = SpiSetup {
        spi_mode: SpiMode::SpiMode0,
        cs_mode: CsMode::CsHigh,
        bit_order: BitOrder::MSB,
    };
    let mut flow = SpiBus::new("/dev/spidev0.0", 0, 500000, WordLength::EightBit, setup, true)
        .expect("an existing device node must be accepted");
    flow.descriptor_acquired(0, fd).unwrap();
    flow.mode_applied(0).unwrap();
    flow.into_bus()
}

#[test]
fn request_sizes_receive_buffer_to_transmit_length() {
    let bus = open_bus(3);
    let tx: Vec<u8> = vec![0, 1, 2, 3, 4, 5];
    let request = bus.transaction_request(tx.clone(), None);
    assert_eq!(request.fd, 3);
    assert_eq!(request.tx_words, tx);
    assert_eq!(request.rx_count, 6);
    assert_eq!(request.rx_words, vec![0u8; 6]);
    assert_eq!(request.delay_us, 0);
    assert_eq!(request.speed_hz, 500000);
    assert_eq!(request.bits, 8);

    let received = SpiBus::transaction_complete(0, request.rx_words)
        .expect("result code 0 must succeed");
    assert_eq!(received.len(), 6);
}

#[test]
fn request_honours_an_explicit_receive_count() {
    let bus = open_bus(3);
    let request = bus.transaction_request(vec![9, 9], Some(4));
    assert_eq!(request.rx_count, 4);
    assert_eq!(request.rx_words, vec![0u8; 4]);
}

#[test]
fn native_failure_codes_map_to_typed_errors() {
    assert_eq!(
        SpiBus::transaction_complete(1, vec![0; 6]),
        Err(BusError::CouldNotSendMessage)
    );
    assert_eq!(
        SpiBus::transaction_complete(2, vec![0; 6]),
        Err(BusError::CouldNotOpenFile)
    );
}

#[test]
fn test_transfer_send() -> Result<(), String> {
    let spi_dev = open_bus(3);
    let data: Vec<u8> = vec![0, 0x55, 2, 0xff, 128, 0x69];

    let request = spi_dev.transaction_request(data.clone(), None);
    match SpiBus::transaction_complete(0, request.rx_words) {
        Ok(_) => {}
        Err(reason) => {
            return Err(format!("I errored bc: {:?}", reason));
        }
    }

    let request = spi_dev.transaction_request(data.clone(), None);
    match SpiBus::transaction_complete(0, request.rx_words) {
        Ok(_) => {}
        Err(reason) => {
            return Err(format!("I errored bc: {:?}", reason));
        }
    }
    return Ok(());
}

#[test]
fn consecutive_requests_on_one_handle_are_identical() {
    let bus = open_bus(5);
    let first = bus.transaction_request(vec![1, 2, 3], None);
    let second = bus.transaction_request(vec![1, 2, 3], None);
    assert_eq!(first.fd, second.fd);
    assert_eq!(first.tx_words, second.tx_words);
    assert_eq!(first.rx_count, second.rx_count);
    assert_eq!(first.rx_words, second.rx_words);
    assert_eq!(first.delay_us, second.delay_us);
    assert_eq!(first.speed_hz, second.speed_hz);
    assert_eq!(first.bits, second.bits);
}

#[test]
fn textual_write_helpers_are_not_implemented() {
    let bus = open_bus(3);
    assert_eq!(bus.write("hello"), Err(BusError::NotImplemented));
    assert_eq!(bus.write(vec![1u8, 2u8]), Err(BusError::NotImplemented));
}
