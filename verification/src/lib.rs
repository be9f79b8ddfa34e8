//! I2S communication for the SPI peripheral, version 1.2, of STM32 microcontrollers (STM32F1,
//! STM32F2, STM32F4, STM32L0 and STM32L1).
//!
//! The library is used through a HAL that provides types implementing [`I2sPeripheral`] or
//! [`DualI2sPeripheral`]. An [`I2sDriver`](driver::I2sDriver) or an
//! [`I2sTransfer`](transfer::I2sTransfer) wraps an `I2sPeripheral` and gives a single I2S bus; a
//! [`DualI2sDriver`](dual::DualI2sDriver) wraps a `DualI2sPeripheral` and gives full duplex
//! communication.
//!
//! # How the hardware is described
//!
//! A peripheral is a capability: whoever owns the value is the only one who can reach the
//! register block behind it. A driver keeps the peripheral inside a
//! [`Recorded`](registers::Recorded), which is the only way it has to the registers and which
//! records every access, in order. The contracts of the drivers and of the transfer say which
//! accesses a call adds to that record, for every value the hardware may answer.
//!
//! # About PCM standards
//!
//! Compared to the other standards, PCM is monophonic: the channel flag is meaningless, and
//! with the same prescaler the sampling frequency doubles. When the master clock is enabled its
//! frequency is 128 times the sampling frequency instead of 256 times.
//!
//! # Issues and limitations
//!
//! In master transmit mode the CHSIDE flag is sporadically wrong: the transfer tracks the
//! position in a frame with its own cursor and never reads that flag.

use vstd::prelude::*;

mod sealed;

pub mod registers;
pub mod marker;
pub mod prescaler;
pub mod format;
pub mod driver;
pub mod dual;
pub mod protocol;
pub mod transfer;

use crate::registers::Register;

verus! {

/// Exclusive access to one SPI/I2S register block.
///
/// Nothing is assumed of what a read returns: that is up to the hardware.
pub trait RegisterBlock {
    /// Address of the first register of the block.
    fn base_address(&self) -> u32;

    /// Volatile read of a register.
    fn read_register(&mut self, reg: Register) -> u32;

    /// Volatile write of a register.
    fn write_register(&mut self, reg: Register, value: u32);
}

/// A SPI device that can be used for I2S communication.
///
/// This trait is meant to be implemented on a type that represents a full SPI device: the SPI
/// peripheral, the pins that it uses, and possibly a clock object.
///
/// An implementation must own the peripheral, so that nothing else reaches its registers while
/// the value lives.
pub trait I2sPeripheral: RegisterBlock {
    type WsPin: WsPin;

    /// Get the frequency of the I2S clock source of the device.
    ///
    /// Implementers are allowed to panic in case the source frequency is unavailable.
    fn i2s_freq(&self) -> u32;

    /// Get a reference to the WS pin.
    fn ws_pin(&self) -> &Self::WsPin;

    /// Get a mutable reference to the WS pin.
    fn ws_pin_mut(&mut self) -> &mut Self::WsPin;

    /// Reset the peripheral through the RCC register. This must be atomic.
    fn rcc_reset(&mut self);
}

/// A device that can be used for full duplex I2S communication.
///
/// This trait is meant to be implemented on a type that represents a device made of a SPI
/// peripheral with I2S support, the corresponding I2SEXT peripheral, the pins that they use
/// and possibly a clock object.
///
/// An implementation must own both peripherals. It hands the access to each register block out
/// once per driver, as a value of `Registers`; the two blocks share one reset line.
pub trait DualI2sPeripheral {
    type WsPin: WsPin;

    type Registers: RegisterBlock;

    /// Hand out the access to the register block of the SPI peripheral.
    fn main_registers(&mut self) -> Self::Registers;

    /// Hand out the access to the register block of the I2SEXT peripheral.
    fn ext_registers(&mut self) -> Self::Registers;

    /// Get the frequency of the I2S clock source of the device.
    ///
    /// Implementers are allowed to panic in case the source frequency is unavailable.
    fn i2s_freq(&self) -> u32;

    /// Get a reference to the WS pin.
    fn ws_pin(&self) -> &Self::WsPin;

    /// Get a mutable reference to the WS pin.
    fn ws_pin_mut(&mut self) -> &mut Self::WsPin;

    /// Reset both peripherals through the RCC register. This must be atomic. The two register
    /// blocks are handed in because a reset needs exclusive access to both.
    fn rcc_reset(&mut self, main: &mut Self::Registers, ext: &mut Self::Registers);
}

/// A pin carrying the WS (word select) signal from or to an I2S peripheral.
///
/// Implementing this trait means implementing the read operation on a pin physically
/// configured in alternate mode.
pub trait WsPin {
    /// Return `true` if the level at the WS pin is low.
    fn is_low(&self) -> bool;

    /// Return `true` if the level at the WS pin is high.
    fn is_high(&self) -> bool;
}

/// Whether `high` is what the WS pin of a device answers when asked whether it is high:
/// `pin` is the pin that the device hands out, and `high` is its answer.
pub open spec fn spec_ws_is_high<I: I2sPeripheral>(peripheral: I, pin: I::WsPin, high: bool) -> bool {
    &&& call_ensures(I::ws_pin, (&peripheral,), &pin)
    &&& call_ensures(<I::WsPin as WsPin>::is_high, (&pin,), high)
}

/// Whether `low` is what the WS pin of a device answers when asked whether it is low: `pin`
/// is the pin that the device hands out, and `low` is its answer.
pub open spec fn spec_ws_is_low<I: I2sPeripheral>(peripheral: I, pin: I::WsPin, low: bool) -> bool {
    &&& call_ensures(I::ws_pin, (&peripheral,), &pin)
    &&& call_ensures(<I::WsPin as WsPin>::is_low, (&pin,), low)
}

/// Whether `started` is what the WS pin of a device answers when asked whether it is at the
/// level that starts a frame: whether it is high where `start_level` is `true`, and whether
/// it is low where it is `false`.
pub open spec fn spec_ws_is_start<I: I2sPeripheral>(
    peripheral: I,
    pin: I::WsPin,
    start_level: bool,
    started: bool,
) -> bool {
    if start_level {
        spec_ws_is_high(peripheral, pin, started)
    } else {
        spec_ws_is_low(peripheral, pin, started)
    }
}

} // verus!
