//! The register catalog: each one-byte register address, what it holds,
//! how wide it is and how the host may access it.
use vstd::prelude::*;

verus! {

/// How the host may access a register.
#[derive(Debug, Copy, Clone, PartialEq, Eq, Structural)]
pub enum AccessMode {
    /// The host may only read.
    ReadOnly,
    /// The host may read, and a write replaces the stored value.
    ReadWrite,
    /// A read gives the current bitmask; each bit set in a write clears
    /// that bit of the stored mask.
    WriteOneToClear,
    /// A read drains up to the capacity in queued bytes; a write enqueues
    /// up to the capacity.
    Fifo,
}

/// The registers the host can read and write.
#[derive(Debug, Copy, Clone, PartialEq, Eq, Structural)]
pub enum Command {
    /// The BMC protocol version, three bytes: major, minor, patch.
    ProtocolVersion,
    /// The BMC firmware version, as a null-padded UTF-8 string.
    FirmwareVersion,
    /// Which interrupts are currently active, as a bitmask.
    InterruptStatus,
    /// Which interrupts are currently enabled, as a bitmask.
    InterruptControl,
    /// The current state of the buttons.
    ButtonStatus,
    /// Temperature in degrees Celsius, as an `i8`.
    SystemTemperature,
    /// Standby 3.3V rail voltage in Volts/32, as a `u8`.
    SystemVoltage33S,
    /// Main 3.3V rail voltage in Volts/32, as a `u8`.
    SystemVoltage33,
    /// 5.0V rail voltage in Volts/32, as a `u8`.
    SystemVoltage55,
    /// Enable/disable the power supply.
    PowerControl,
    /// Data received/to be sent over the UART.
    UartBuffer,
    /// Settings for the UART FIFO.
    UartFifoControl,
    /// Settings for the UART.
    UartControl,
    /// The current state of the UART.
    UartStatus,
    /// The UART baud rate in bps, as a little-endian `u32`.
    UartBaudRate,
    /// Data received/to be sent over the PS/2 keyboard port.
    Ps2KbBuffer,
    /// Settings for the PS/2 keyboard port.
    Ps2KbControl,
    /// Current state of the PS/2 keyboard port.
    Ps2KbStatus,
    /// Data received/to be sent over the PS/2 mouse port.
    Ps2MouseBuffer,
    /// Settings for the PS/2 mouse port.
    Ps2MouseControl,
    /// Current state of the PS/2 mouse port.
    Ps2MouseStatus,
    /// Data received/to be sent over the I2C bus.
    I2cBuffer,
    /// Settings for the I2C FIFO.
    I2cFifoControl,
    /// Settings for the I2C bus.
    I2cControl,
    /// Current state of the I2C bus.
    I2cStatus,
    /// The I2C clock rate in Hz, as a little-endian `u32`.
    I2cBaudRate,
    /// Duration of note, in milliseconds.
    SpeakerDuration,
    /// Low byte of the 16-bit period, in 48 kHz ticks.
    SpeakerPeriodLow,
    /// High byte of the 16-bit period, in 48 kHz ticks.
    SpeakerPeriodHigh,
    /// Speaker duty cycle, in 1/255.
    SpeakerDutyCycle,
}

impl Command {
    /// The register address.
    pub open spec fn spec_address(self) -> u8 {
        match self {
            Command::ProtocolVersion => 0x00,
            Command::FirmwareVersion => 0x01,
            Command::InterruptStatus => 0x10,
            Command::InterruptControl => 0x11,
            Command::ButtonStatus => 0x20,
            Command::SystemTemperature => 0x21,
            Command::SystemVoltage33S => 0x22,
            Command::SystemVoltage33 => 0x23,
            Command::SystemVoltage55 => 0x24,
            Command::PowerControl => 0x25,
            Command::UartBuffer => 0x30,
            Command::UartFifoControl => 0x31,
            Command::UartControl => 0x32,
            Command::UartStatus => 0x33,
            Command::UartBaudRate => 0x34,
            Command::Ps2KbBuffer => 0x40,
            Command::Ps2KbControl => 0x41,
            Command::Ps2KbStatus => 0x42,
            Command::Ps2MouseBuffer => 0x50,
            Command::Ps2MouseControl => 0x51,
            Command::Ps2MouseStatus => 0x52,
            Command::I2cBuffer => 0x60,
            Command::I2cFifoControl => 0x61,
            Command::I2cControl => 0x62,
            Command::I2cStatus => 0x63,
            Command::I2cBaudRate => 0x64,
            Command::SpeakerDuration => 0x70,
            Command::SpeakerPeriodLow => 0x71,
            Command::SpeakerPeriodHigh => 0x72,
            Command::SpeakerDutyCycle => 0x73,
        }
    }

    /// The register at address `a`, if there is one.
    pub open spec fn spec_from_address(a: u8) -> Option<Command> {
        if a == 0x00 {
            Some(Command::ProtocolVersion)
        } else if a == 0x01 {
            Some(Command::FirmwareVersion)
        } else if a == 0x10 {
            Some(Command::InterruptStatus)
        } else if a == 0x11 {
            Some(Command::InterruptControl)
        } else if a == 0x20 {
            Some(Command::ButtonStatus)
        } else if a == 0x21 {
            Some(Command::SystemTemperature)
        } else if a == 0x22 {
            Some(Command::SystemVoltage33S)
        } else if a == 0x23 {
            Some(Command::SystemVoltage33)
        } else if a == 0x24 {
            Some(Command::SystemVoltage55)
        } else if a == 0x25 {
            Some(Command::PowerControl)
        } else if a == 0x30 {
            Some(Command::UartBuffer)
        } else if a == 0x31 {
            Some(Command::UartFifoControl)
        } else if a == 0x32 {
            Some(Command::UartControl)
        } else if a == 0x33 {
            Some(Command::UartStatus)
        } else if a == 0x34 {
            Some(Command::UartBaudRate)
        } else if a == 0x40 {
            Some(Command::Ps2KbBuffer)
        } else if a == 0x41 {
            Some(Command::Ps2KbControl)
        } else if a == 0x42 {
            Some(Command::Ps2KbStatus)
        } else if a == 0x50 {
            Some(Command::Ps2MouseBuffer)
        } else if a == 0x51 {
            Some(Command::Ps2MouseControl)
        } else if a == 0x52 {
            Some(Command::Ps2MouseStatus)
        } else if a == 0x60 {
            Some(Command::I2cBuffer)
        } else if a == 0x61 {
            Some(Command::I2cFifoControl)
        } else if a == 0x62 {
            Some(Command::I2cControl)
        } else if a == 0x63 {
            Some(Command::I2cStatus)
        } else if a == 0x64 {
            Some(Command::I2cBaudRate)
        } else if a == 0x70 {
            Some(Command::SpeakerDuration)
        } else if a == 0x71 {
            Some(Command::SpeakerPeriodLow)
        } else if a == 0x72 {
            Some(Command::SpeakerPeriodHigh)
        } else if a == 0x73 {
            Some(Command::SpeakerDutyCycle)
        } else {
            None
        }
    }

    /// How the host may access the register.
    pub open spec fn spec_mode(self) -> AccessMode {
        match self {
            Command::ProtocolVersion => AccessMode::ReadOnly,
            Command::FirmwareVersion => AccessMode::ReadOnly,
            Command::InterruptStatus => AccessMode::WriteOneToClear,
            Command::InterruptControl => AccessMode::ReadWrite,
            Command::ButtonStatus => AccessMode::ReadOnly,
            Command::SystemTemperature => AccessMode::ReadOnly,
            Command::SystemVoltage33S => AccessMode::ReadOnly,
            Command::SystemVoltage33 => AccessMode::ReadOnly,
            Command::SystemVoltage55 => AccessMode::ReadOnly,
            Command::PowerControl => AccessMode::ReadWrite,
            Command::UartBuffer => AccessMode::Fifo,
            Command::UartFifoControl => AccessMode::ReadWrite,
            Command::UartControl => AccessMode::ReadWrite,
            Command::UartStatus => AccessMode::WriteOneToClear,
            Command::UartBaudRate => AccessMode::ReadWrite,
            Command::Ps2KbBuffer => AccessMode::Fifo,
            Command::Ps2KbControl => AccessMode::ReadWrite,
            Command::Ps2KbStatus => AccessMode::WriteOneToClear,
            Command::Ps2MouseBuffer => AccessMode::Fifo,
            Command::Ps2MouseControl => AccessMode::ReadWrite,
            Command::Ps2MouseStatus => AccessMode::WriteOneToClear,
            Command::I2cBuffer => AccessMode::Fifo,
            Command::I2cFifoControl => AccessMode::ReadWrite,
            Command::I2cControl => AccessMode::ReadWrite,
            Command::I2cStatus => AccessMode::WriteOneToClear,
            Command::I2cBaudRate => AccessMode::ReadWrite,
            Command::SpeakerDuration => AccessMode::ReadWrite,
            Command::SpeakerPeriodLow => AccessMode::ReadWrite,
            Command::SpeakerPeriodHigh => AccessMode::ReadWrite,
            Command::SpeakerDutyCycle => AccessMode::ReadWrite,
        }
    }

    /// The width of the register in bytes; for a FIFO, its capacity.
    pub open spec fn spec_length(self) -> u8 {
        match self {
            Command::ProtocolVersion => 3,
            Command::FirmwareVersion => 32,
            Command::InterruptStatus => 2,
            Command::InterruptControl => 2,
            Command::ButtonStatus => 1,
            Command::SystemTemperature => 1,
            Command::SystemVoltage33S => 1,
            Command::SystemVoltage33 => 1,
            Command::SystemVoltage55 => 1,
            Command::PowerControl => 1,
            Command::UartBuffer => 64,
            Command::UartFifoControl => 1,
            Command::UartControl => 1,
            Command::UartStatus => 1,
            Command::UartBaudRate => 4,
            Command::Ps2KbBuffer => 16,
            Command::Ps2KbControl => 1,
            Command::Ps2KbStatus => 1,
            Command::Ps2MouseBuffer => 16,
            Command::Ps2MouseControl => 1,
            Command::Ps2MouseStatus => 1,
            Command::I2cBuffer => 16,
            Command::I2cFifoControl => 1,
            Command::I2cControl => 1,
            Command::I2cStatus => 1,
            Command::I2cBaudRate => 4,
            Command::SpeakerDuration => 1,
            Command::SpeakerPeriodLow => 1,
            Command::SpeakerPeriodHigh => 1,
            Command::SpeakerDutyCycle => 1,
        }
    }

    /// The register address.
    pub fn address(self) -> (r: u8)
        ensures
            r == self.spec_address(),
    {
        match self {
            Command::ProtocolVersion => 0x00,
            Command::FirmwareVersion => 0x01,
            Command::InterruptStatus => 0x10,
            Command::InterruptControl => 0x11,
            Command::ButtonStatus => 0x20,
            Command::SystemTemperature => 0x21,
            Command::SystemVoltage33S => 0x22,
            Command::SystemVoltage33 => 0x23,
            Command::SystemVoltage55 => 0x24,
            Command::PowerControl => 0x25,
            Command::UartBuffer => 0x30,
            Command::UartFifoControl => 0x31,
            Command::UartControl => 0x32,
            Command::UartStatus => 0x33,
            Command::UartBaudRate => 0x34,
            Command::Ps2KbBuffer => 0x40,
            Command::Ps2KbControl => 0x41,
            Command::Ps2KbStatus => 0x42,
            Command::Ps2MouseBuffer => 0x50,
            Command::Ps2MouseControl => 0x51,
            Command::Ps2MouseStatus => 0x52,
            Command::I2cBuffer => 0x60,
            Command::I2cFifoControl => 0x61,
            Command::I2cControl => 0x62,
            Command::I2cStatus => 0x63,
            Command::I2cBaudRate => 0x64,
            Command::SpeakerDuration => 0x70,
            Command::SpeakerPeriodLow => 0x71,
            Command::SpeakerPeriodHigh => 0x72,
            Command::SpeakerDutyCycle => 0x73,
        }
    }

    /// The register at address `a`; `None` for an address outside the catalog.
    pub fn from_address(a: u8) -> (r: Option<Command>)
        ensures
            r == Self::spec_from_address(a),
    {
        match a {
            0x00 => Some(Command::ProtocolVersion),
            0x01 => Some(Command::FirmwareVersion),
            0x10 => Some(Command::InterruptStatus),
            0x11 => Some(Command::InterruptControl),
            0x20 => Some(Command::ButtonStatus),
            0x21 => Some(Command::SystemTemperature),
            0x22 => Some(Command::SystemVoltage33S),
            0x23 => Some(Command::SystemVoltage33),
            0x24 => Some(Command::SystemVoltage55),
            0x25 => Some(Command::PowerControl),
            0x30 => Some(Command::UartBuffer),
            0x31 => Some(Command::UartFifoControl),
            0x32 => Some(Command::UartControl),
            0x33 => Some(Command::UartStatus),
            0x34 => Some(Command::UartBaudRate),
            0x40 => Some(Command::Ps2KbBuffer),
            0x41 => Some(Command::Ps2KbControl),
            0x42 => Some(Command::Ps2KbStatus),
            0x50 => Some(Command::Ps2MouseBuffer),
            0x51 => Some(Command::Ps2MouseControl),
            0x52 => Some(Command::Ps2MouseStatus),
            0x60 => Some(Command::I2cBuffer),
            0x61 => Some(Command::I2cFifoControl),
            0x62 => Some(Command::I2cControl),
            0x63 => Some(Command::I2cStatus),
            0x64 => Some(Command::I2cBaudRate),
            0x70 => Some(Command::SpeakerDuration),
            0x71 => Some(Command::SpeakerPeriodLow),
            0x72 => Some(Command::SpeakerPeriodHigh),
            0x73 => Some(Command::SpeakerDutyCycle),
            _ => None,
        }
    }

    /// How the host may access the register.
    pub fn mode(self) -> (r: AccessMode)
        ensures
            r == self.spec_mode(),
    {
        match self {
            Command::ProtocolVersion => AccessMode::ReadOnly,
            Command::FirmwareVersion => AccessMode::ReadOnly,
            Command::InterruptStatus => AccessMode::WriteOneToClear,
            Command::InterruptControl => AccessMode::ReadWrite,
            Command::ButtonStatus => AccessMode::ReadOnly,
            Command::SystemTemperature => AccessMode::ReadOnly,
            Command::SystemVoltage33S => AccessMode::ReadOnly,
            Command::SystemVoltage33 => AccessMode::ReadOnly,
            Command::SystemVoltage55 => AccessMode::ReadOnly,
            Command::PowerControl => AccessMode::ReadWrite,
            Command::UartBuffer => AccessMode::Fifo,
            Command::UartFifoControl => AccessMode::ReadWrite,
            Command::UartControl => AccessMode::ReadWrite,
            Command::UartStatus => AccessMode::WriteOneToClear,
            Command::UartBaudRate => AccessMode::ReadWrite,
            Command::Ps2KbBuffer => AccessMode::Fifo,
            Command::Ps2KbControl => AccessMode::ReadWrite,
            Command::Ps2KbStatus => AccessMode::WriteOneToClear,
            Command::Ps2MouseBuffer => AccessMode::Fifo,
            Command::Ps2MouseControl => AccessMode::ReadWrite,
            Command::Ps2MouseStatus => AccessMode::WriteOneToClear,
            Command::I2cBuffer => AccessMode::Fifo,
            Command::I2cFifoControl => AccessMode::ReadWrite,
            Command::I2cControl => AccessMode::ReadWrite,
            Command::I2cStatus => AccessMode::WriteOneToClear,
            Command::I2cBaudRate => AccessMode::ReadWrite,
            Command::SpeakerDuration => AccessMode::ReadWrite,
            Command::SpeakerPeriodLow => AccessMode::ReadWrite,
            Command::SpeakerPeriodHigh => AccessMode::ReadWrite,
            Command::SpeakerDutyCycle => AccessMode::ReadWrite,
        }
    }

    /// The width of the register in bytes; for a FIFO, its capacity.
    pub fn length(self) -> (r: u8)
        ensures
            r == self.spec_length(),
    {
        match self {
            Command::ProtocolVersion => 3,
            Command::FirmwareVersion => 32,
            Command::InterruptStatus => 2,
            Command::InterruptControl => 2,
            Command::ButtonStatus => 1,
            Command::SystemTemperature => 1,
            Command::SystemVoltage33S => 1,
            Command::SystemVoltage33 => 1,
            Command::SystemVoltage55 => 1,
            Command::PowerControl => 1,
            Command::UartBuffer => 64,
            Command::UartFifoControl => 1,
            Command::UartControl => 1,
            Command::UartStatus => 1,
            Command::UartBaudRate => 4,
            Command::Ps2KbBuffer => 16,
            Command::Ps2KbControl => 1,
            Command::Ps2KbStatus => 1,
            Command::Ps2MouseBuffer => 16,
            Command::Ps2MouseControl => 1,
            Command::Ps2MouseStatus => 1,
            Command::I2cBuffer => 16,
            Command::I2cFifoControl => 1,
            Command::I2cControl => 1,
            Command::I2cStatus => 1,
            Command::I2cBaudRate => 4,
            Command::SpeakerDuration => 1,
            Command::SpeakerPeriodLow => 1,
            Command::SpeakerPeriodHigh => 1,
            Command::SpeakerDutyCycle => 1,
        }
    }
}

/// Each register has one address, and that address leads back to it.
pub proof fn lemma_address_round_trip(c: Command)
    ensures
        Command::spec_from_address(c.spec_address()) == Some(c),
{
}

/// An address that names a register is that register's address.
pub proof fn lemma_address_unique(a: u8)
    ensures
        Command::spec_from_address(a) matches Some(c) ==> c.spec_address() == a,
{
}

} // verus!
