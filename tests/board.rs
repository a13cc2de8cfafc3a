use neotron_bmc::commands::{AccessMode, Command};
use neotron_bmc::power::{DcPowerState, Edge, PowerAction, PowerButton};
use neotron_bmc::ps2::Ps2Decoder;
use neotron_bmc::speaker::RegisterState;

#[test]
fn command_catalog() {
    assert_eq!(Command::ProtocolVersion.address(), 0x00);
    assert_eq!(Command::SpeakerDutyCycle.address(), 0x73);
    assert_eq!(Command::from_address(0x34), Some(Command::UartBaudRate));
    assert_eq!(Command::from_address(0x02), None);
    assert_eq!(Command::from_address(0x74), None);
    assert_eq!(Command::InterruptStatus.mode(), AccessMode::WriteOneToClear);
    assert_eq!(Command::InterruptControl.mode(), AccessMode::ReadWrite);
    assert_eq!(Command::FirmwareVersion.mode(), AccessMode::ReadOnly);
    assert_eq!(Command::UartBuffer.mode(), AccessMode::Fifo);
    assert_eq!(Command::UartBuffer.length(), 64);
    assert_eq!(Command::Ps2KbBuffer.length(), 16);
    assert_eq!(Command::FirmwareVersion.length(), 32);
    for a in 0..=255u8 {
        if let Some(c) = Command::from_address(a) {
            assert_eq!(c.address(), a);
        }
    }
}

fn feed(dec: &mut Ps2Decoder, word: u16) -> Option<u16> {
    let mut out = None;
    for i in 0..11 {
        out = dec.add_bit(word & (1 << i) != 0);
        if i < 10 {
            assert_eq!(out, None);
        }
    }
    out
}

#[test]
fn ps2_collects_eleven_bits() {
    let mut dec = Ps2Decoder::new();
    // start 0, data 0x1C, parity 0 (three ones: odd already), stop 1
    let word: u16 = (1 << 10) | (0x1C << 1);
    assert_eq!(feed(&mut dec, word), Some(word));
    assert_eq!(Ps2Decoder::check_word(word), Some(0x1C));
    assert_eq!(feed(&mut dec, 0x7FF), Some(0x7FF));
}

#[test]
fn ps2_check_word_rejects() {
    let good: u16 = (1 << 10) | (0x1C << 1);
    assert_eq!(Ps2Decoder::check_word(good | 1), None);
    assert_eq!(Ps2Decoder::check_word(good & !(1 << 10)), None);
    assert_eq!(Ps2Decoder::check_word(good | (1 << 9)), None);
    // data 0x00 has no ones, so the parity bit must be set
    assert_eq!(Ps2Decoder::check_word((1 << 10) | (1 << 9)), Some(0x00));
    assert_eq!(Ps2Decoder::check_word(1 << 10), None);
}

#[test]
fn ps2_timeout_drops_partial_word() {
    let mut dec = Ps2Decoder::new();
    dec.add_bit(false);
    dec.add_bit(true);
    dec.poll();
    dec.poll();
    dec.poll();
    // The partial word is gone: a full word comes through unchanged.
    let word: u16 = (1 << 10) | (0x1C << 1);
    assert_eq!(feed(&mut dec, word), Some(word));
    let mut dec = Ps2Decoder::new();
    dec.add_bit(true);
    dec.reset();
    assert_eq!(feed(&mut dec, word), Some(word));
}

#[test]
fn speaker_registers() {
    let mut s = RegisterState::new();
    s.set_period(0x1234);
    assert_eq!(s.period_high(), 0x12);
    assert_eq!(s.period_low(), 0x34);
    s.set_period_high(0xAB);
    assert_eq!(s.period(), 0xAB34);
    assert_eq!(s.period_high(), 0xAB);
    assert_eq!(s.period_low(), 0x34);
    s.set_period_low(0xCD);
    assert_eq!(s.period(), 0xABCD);
    assert_eq!(s.period_high(), 0xAB);
    assert_eq!(s.period_low(), 0xCD);
    let mut z = RegisterState::default();
    assert_eq!(z, RegisterState::new());
    z.set_period_high(1);
    assert_eq!(z.period(), 256);
    z.set_period_low(1);
    assert_eq!(z.period(), 257);
    assert!(!s.needs_update());
    s.set_duration(100);
    assert_eq!(s.duration(), 100);
    assert!(s.needs_update());
    s.set_needs_update(false);
    assert!(!s.needs_update());
    s.set_duty_cycle(128);
    assert_eq!(s.duty_cycle(), 128);
    s.set_period(510);
    assert_eq!(s.compare_ticks(), 256);
    s.set_period(0xFFFF);
    s.set_duty_cycle(255);
    assert_eq!(s.compare_ticks(), 0xFFFF);
    assert!(s.is_playing());
    s.set_duration(0);
    assert!(!s.is_playing());
}

#[test]
fn power_button_sequence() {
    let s = DcPowerState::Off;
    let (s, a) = s.on_button_poll(None, Some(Edge::Rising));
    assert_eq!((s, a), (DcPowerState::Starting, Some(PowerAction::PowerOn)));
    let (s, a) = s.on_button_poll(Some(Edge::Rising), None);
    assert_eq!((s, a), (DcPowerState::Starting, None));
    let (s, a) = s.on_button_poll(None, Some(Edge::Falling));
    assert_eq!((s, a), (DcPowerState::On, None));
    let (s, a) = s.on_button_poll(None, Some(Edge::Rising));
    assert_eq!((s, a), (DcPowerState::On, None));
    let (s, a) = s.on_button_poll(Some(Edge::Rising), None);
    assert_eq!((s, a), (DcPowerState::Off, Some(PowerAction::PowerOff)));
    let (s, a) = s.on_button_poll(Some(Edge::Rising), Some(Edge::Rising));
    assert_eq!((s, a), (DcPowerState::Off, None));
}

#[test]
fn power_button_debounced() {
    let mut button = PowerButton::new();
    assert_eq!(button.state(), DcPowerState::Off);
    // A short press: two polls pressed.
    assert_eq!(button.poll(true), None);
    assert_eq!(button.poll(true), Some(PowerAction::PowerOn));
    assert_eq!(button.state(), DcPowerState::Starting);
    // Keep holding: the long press is ignored while starting.
    for _ in 0..14 {
        assert_eq!(button.poll(true), None);
    }
    assert_eq!(button.state(), DcPowerState::Starting);
    // Release for two polls.
    assert_eq!(button.poll(false), None);
    assert_eq!(button.poll(false), None);
    assert_eq!(button.state(), DcPowerState::On);
    // A long press: sixteen polls pressed.
    for _ in 0..15 {
        assert_eq!(button.poll(true), None);
        assert_eq!(button.state(), DcPowerState::On);
    }
    assert_eq!(button.poll(true), Some(PowerAction::PowerOff));
    assert_eq!(button.state(), DcPowerState::Off);
}

#[test]
fn power_button_bounce_is_ignored() {
    let mut button = PowerButton::new();
    for _ in 0..10 {
        assert_eq!(button.poll(true), None);
        assert_eq!(button.poll(false), None);
    }
    assert_eq!(button.state(), DcPowerState::Off);
}
