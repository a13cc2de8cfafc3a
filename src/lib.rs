//! Board management controller: the host register protocol and its CRC-8,
//! the register catalog, the interrupt-driven serial transport engine, and
//! the board-side logic around them (PS/2 word collection, speaker
//! settings, the power button).
pub mod commands;
pub mod crc;
pub mod power;
pub mod protocol;
pub mod ps2;
pub mod speaker;
pub mod spi;

pub use crc::{calculate_crc, CrcCalc};
pub use protocol::{
    Error, ProtocolVersion, Receivable, Request, RequestType, Response, ResponseResult, Sendable,
};
