use neotron_bmc::calculate_crc;
use neotron_bmc::protocol::{Response, ResponseResult};
use neotron_bmc::spi::{IsrAction, SpiPeripheral};

#[test]
fn frame_ready_on_nth_byte_only() {
    let mut spi: SpiPeripheral<8, 8> = SpiPeripheral::new();
    spi.start(4);
    let bytes = [0xC0, 0x11, 0x03, 0xC6];
    for (k, b) in bytes.iter().enumerate() {
        let action = spi.handle_isr(Some(*b), false);
        assert_eq!(action.have_packet, k == 3);
        assert_eq!(action.transmit, None);
    }
    let (data, crc) = spi.get_received().unwrap();
    assert_eq!(data, &bytes);
    assert_eq!(crc, 0);
    // Trailing bytes are ignored.
    let action = spi.handle_isr(Some(0x55), false);
    assert!(!action.have_packet);
    assert_eq!(spi.get_received().unwrap().0, &bytes);
}

#[test]
fn restart_discards_partial_frame() {
    let mut spi: SpiPeripheral<8, 8> = SpiPeripheral::new();
    spi.start(4);
    spi.handle_isr(Some(0x01), false);
    spi.handle_isr(Some(0x02), false);
    spi.stop();
    // Nothing is taken while chip-select is released.
    assert!(!spi.handle_isr(Some(0x03), false).have_packet);
    assert_eq!(spi.get_received().unwrap().0, &[0x01, 0x02]);
    spi.start(2);
    assert_eq!(spi.get_received().unwrap(), (&[][..], 0));
    assert!(!spi.handle_isr(Some(0xA0), false).have_packet);
    assert!(spi.handle_isr(Some(0x69), false).have_packet);
    let (data, crc) = spi.get_received().unwrap();
    assert_eq!(data, &[0xA0, 0x69]);
    assert_eq!(crc, 0);
}

#[test]
fn received_crc_is_running_crc() {
    let mut spi: SpiPeripheral<4, 4> = SpiPeripheral::new();
    spi.start(3);
    spi.handle_isr(Some(0xC0), false);
    spi.handle_isr(Some(0x11), false);
    spi.handle_isr(Some(0x03), false);
    assert_eq!(spi.get_received().unwrap().1, calculate_crc(&[0xC0, 0x11, 0x03]));
}

#[test]
fn transmit_then_padding() {
    let mut spi: SpiPeripheral<4, 4> = SpiPeripheral::new();
    spi.start(4);
    assert_eq!(spi.set_transmit(&[0xA0, 0x69]), Ok(()));
    assert_eq!(spi.handle_isr(None, true), IsrAction { have_packet: false, transmit: Some(0xA0) });
    assert_eq!(spi.handle_isr(None, true).transmit, Some(0x69));
    assert_eq!(spi.handle_isr(None, true).transmit, Some(0x00));
    assert_eq!(spi.handle_isr(None, true).transmit, Some(0x00));
}

#[test]
fn transmit_too_large() {
    let mut spi: SpiPeripheral<4, 4> = SpiPeripheral::new();
    assert_eq!(spi.set_transmit(&[1, 2, 3, 4, 5]), Err(4));
    assert_eq!(spi.handle_isr(None, true).transmit, Some(0x00));
    assert_eq!(spi.set_transmit(&[1, 2, 3, 4]), Ok(()));
    assert_eq!(spi.handle_isr(None, true).transmit, Some(1));
}

#[test]
fn transmit_sendable() {
    let mut spi: SpiPeripheral<4, 4> = SpiPeripheral::new();
    let rsp = Response::new_ok_with_data(&[0x00, 0x01]);
    assert_eq!(spi.set_transmit_sendable(&rsp), Ok(()));
    let sent: Vec<u8> = (0..5).map(|_| spi.handle_isr(None, true).transmit.unwrap()).collect();
    assert_eq!(sent, vec![0xA0, 0x00, 0x01, 0x4F, 0x00]);
    let big = Response::new_ok_with_data(&[1, 2, 3]);
    assert_eq!(spi.set_transmit_sendable(&big), Err(()));
    assert_eq!(spi.handle_isr(None, true).transmit, Some(0x00));
    let err = Response::new_without_data(ResponseResult::BadRegister);
    assert_eq!(spi.set_transmit_sendable(&err), Ok(()));
    assert_eq!(spi.handle_isr(None, true).transmit, Some(0xA3));
}

#[test]
fn receive_and_transmit_in_one_interrupt() {
    let mut spi: SpiPeripheral<4, 4> = SpiPeripheral::new();
    spi.start(1);
    let action = spi.handle_isr(Some(0x42), true);
    assert!(action.have_packet);
    assert_eq!(action.transmit, Some(0x00));
}

#[test]
fn zero_length_start_takes_nothing() {
    let mut spi: SpiPeripheral<4, 4> = SpiPeripheral::new();
    spi.start(0);
    assert!(!spi.handle_isr(Some(0x42), false).have_packet);
    assert_eq!(spi.get_received().unwrap().0.len(), 0);
    spi.reset();
    spi.start(4);
    spi.handle_isr(Some(1), false);
    assert_eq!(spi.get_received().unwrap().0, &[1]);
}
