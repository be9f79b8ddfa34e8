//! Types definitions for I2S drivers.
//!
//! This module provides thin abstractions that give access to the relevant hardware details
//! while preventing irrelevant or meaningless operations. It is meant for advanced usage, for
//! example with interrupts or DMA. The job is mainly done by [`I2sDriver`], which wraps an
//! [`I2sPeripheral`] to control it.
//!
//! An [`I2sDriverConfig`] is a driver builder. Because of its typestate, its methods do not
//! modify a configuration: they return a new one.
//!
//! `I2sDriver` gives direct access to the hardware. It has no concept of audio data: it is up
//! to the user to reconstruct this information from the status flags and the data register.

use vstd::prelude::*;
use core::marker::PhantomData;
use crate::marker::{lemma_direction_values, lemma_standard_values};
use crate::marker::{ChannelFlag, Direction, Master, Philips, Receive, Role, Slave, Transmit};
use crate::prescaler::{request_prescaler, require_prescaler, sample_rate};
use crate::prescaler::{
    spec_coef, spec_prescaler_fields, spec_request_division, spec_require_division,
    spec_sample_rate,
};
use crate::registers::{modify_bits, register_address, setup};
use crate::registers::{
    spec_has_bits, spec_is_register_address, spec_modify_bits, spec_read, spec_reset_clocks,
    spec_setup, spec_write, spec_ws_look, Access, Recorded, Register,
};
use crate::registers::{
    CR2_ERRIE, CR2_RXDMAEN, CR2_RXNEIE, CR2_TXDMAEN, CR2_TXEIE, I2SCFGR_I2SE, SR_BSY,
    SR_CHSIDE, SR_FRE, SR_OVR, SR_RXNE, SR_TXE, SR_UDR,
};
use crate::{I2sPeripheral, RegisterBlock, WsPin};

verus! {

/// The channel associated with a sample.
#[derive(Debug, Clone, Copy, PartialEq, Eq, Structural)]
pub enum Channel {
    /// Left channel
    Left,
    /// Right channel
    Right,
}

/// Role of the peripheral on the bus.
#[derive(Debug, Clone, Copy, PartialEq, Eq, Structural)]
pub enum SlaveOrMaster {
    Slave,
    Master,
}

/// Communication direction.
#[derive(Debug, Clone, Copy, PartialEq, Eq, Structural)]
pub enum TransmitOrReceive {
    Transmit,
    Receive,
}

/// I2S standard selection.
#[derive(Debug, Clone, Copy, PartialEq, Eq, Structural)]
pub enum I2sStandard {
    /// Philips I2S
    Philips,
    /// MSB Justified
    Msb,
    /// LSB Justified
    Lsb,
    /// PCM with short frame synchronisation.
    PcmShortSync,
    /// PCM with long frame synchronisation.
    PcmLongSync,
}

/// Steady state clock polarity
#[derive(Debug, Clone, Copy, PartialEq, Eq, Structural)]
pub enum ClockPolarity {
    /// Clock low when idle
    IdleLow,
    /// Clock high when idle
    IdleHigh,
}

/// Data length to be transferred and channel length
#[derive(Debug, Clone, Copy, PartialEq, Eq, Structural)]
pub enum DataFormat {
    /// 16 bit data length on 16 bit wide channel
    Data16Channel16,
    /// 16 bit data length on 32 bit wide channel
    Data16Channel32,
    /// 24 bit data length on 32 bit wide channel
    Data24Channel32,
    /// 32 bit data length on 32 bit wide channel
    Data32Channel32,
}

/// What makes a configuration unusable.
#[derive(Debug, Clone, Copy, PartialEq, Eq, Structural)]
pub enum ConfigError {
    /// No prescaler setting gives exactly the required sampling frequency.
    FrequencyUnreachable,
    /// A linear divider below 2 was given: the hardware forbids it.
    InvalidDivider,
}

impl Default for DataFormat {
    fn default() -> (format: Self)
        ensures
            format == DataFormat::Data16Channel16,
    {
        DataFormat::Data16Channel16
    }
}


/// What can go wrong while transmitting.
#[derive(Debug, Clone, Copy, PartialEq, Eq, Structural)]
pub enum TransmitError {
    /// The hardware asked for a word that software had not loaded yet. This can only happen
    /// in slave mode.
    Underrun,
}

/// What can go wrong while receiving. An overrun carries the word that was in the data
/// register when the error was taken.
#[derive(Debug, Clone, Copy, PartialEq, Eq, Structural)]
pub enum ReceiveError {
    /// A word arrived while the previous one had not been read: data was lost.
    Overrun(u16),
    /// The WS line changed at an unexpected moment.
    Frame,
    /// Both of the above.
    FrameAndOverrun(u16),
}

/// Various ways to specify sampling frequency.
#[derive(Debug, Clone, Copy, PartialEq, Eq, Structural)]
pub enum Frequency {
    /// The odd factor and the linear divider of the prescaler. The divider is at least 2.
    Prescaler(bool, u8),
    /// A sampling frequency to approach as closely as the prescaler allows.
    Request(u32),
    /// A sampling frequency to reach exactly.
    Require(u32),
}

/// What a driver configuration holds.
pub struct ConfigView {
    pub role: SlaveOrMaster,
    pub direction: TransmitOrReceive,
    pub standard: I2sStandard,
    pub clock_polarity: ClockPolarity,
    pub data_format: DataFormat,
    pub master_clock: bool,
    pub frequency: Frequency,
}

impl ConfigView {
    /// Whether a configuration holds none of the settings of a master unless it is one: a
    /// slave has the master clock disabled and the prescaler of a reset, odd factor 0 and
    /// divider 2.
    pub open spec fn slave_has_defaults(self) -> bool {
        self.role == SlaveOrMaster::Slave ==> !self.master_clock && self.frequency
            == Frequency::Prescaler(false, 2)
    }
}

/// The prescaler fields `(odd, div)` that a way to specify the sampling frequency leads to, on
/// a device whose clock source has the frequency `i2s_clock`. There are none where a required
/// frequency cannot be reached exactly.
pub open spec fn spec_prescaler(
    frequency: Frequency,
    i2s_clock: u32,
    master_clock: bool,
    standard: I2sStandard,
    format: DataFormat,
) -> Option<(bool, u8)> {
    let coef = spec_coef(master_clock, standard, format);
    match frequency {
        Frequency::Prescaler(odd, div) => Some((odd, div)),
        Frequency::Request(freq) => Some(
            spec_prescaler_fields(spec_request_division(i2s_clock as int, coef, freq as int)),
        ),
        Frequency::Require(freq) => match spec_require_division(
            i2s_clock as int,
            coef,
            freq as int,
        ) {
            Some(division) => Some(spec_prescaler_fields(division)),
            None => None,
        },
    }
}

/// The prescaler fields `(odd, div)` for a way to specify the sampling frequency. Only a
/// required frequency can fail.
pub fn prescaler_fields(
    frequency: Frequency,
    i2s_clock: u32,
    master_clock: bool,
    standard: I2sStandard,
    format: DataFormat,
) -> (result: Result<(bool, u8), ConfigError>)
    ensures
        match result {
            Ok(prescaler) => spec_prescaler(frequency, i2s_clock, master_clock, standard, format)
                == Some(prescaler),
            Err(e) => {
                &&& e == ConfigError::FrequencyUnreachable
                &&& frequency is Require
                &&& spec_prescaler(frequency, i2s_clock, master_clock, standard, format) is None
            },
        },
{
    match frequency {
        Frequency::Prescaler(odd, div) => Ok((odd, div)),
        Frequency::Request(freq) => Ok(
            request_prescaler(i2s_clock, freq, master_clock, standard, format),
        ),
        Frequency::Require(freq) => require_prescaler(
            i2s_clock,
            freq,
            master_clock,
            standard,
            format,
        ),
    }
}

/// Every pair of prescaler fields that a frequency with a valid divider leads to has a
/// divider of at least 2, and stands for a division from 4 to 511.
pub proof fn lemma_prescaler_is_valid(
    frequency: Frequency,
    i2s_clock: u32,
    master_clock: bool,
    standard: I2sStandard,
    format: DataFormat,
)
    requires
        frequency matches Frequency::Prescaler(_, div) ==> div >= 2,
    ensures
        spec_prescaler(frequency, i2s_clock, master_clock, standard, format) matches Some(
            prescaler,
        ) ==> prescaler.1 >= 2 && 4 <= crate::prescaler::spec_division(prescaler.0, prescaler.1)
            <= 511,
{
}

/// Content of the status register.
///
///  - `MS`: `Master` or `Slave`
///  - `DIR`: communication direction, `Transmit` or `Receive`
///  - `STD`: I2S standard, eg `Philips`
pub struct Status<MS, DIR, STD> {
    value: u32,
    _ms: PhantomData<MS>,
    _tr: PhantomData<DIR>,
    _std: PhantomData<STD>,
}

impl<MS, DIR, STD> Status<MS, DIR, STD> {
    /// The content of the register as it was read.
    pub closed spec fn bits(&self) -> u32 {
        self.value
    }

    /// The status that a content of the register stands for.
    pub(crate) fn from_bits(value: u32) -> (status: Self)
        ensures
            status.bits() == value,
    {
        Status { value, _ms: PhantomData, _tr: PhantomData, _std: PhantomData }
    }

    /// Get the BSY flag. If `true` the I2s device is busy communicating.
    pub fn bsy(&self) -> (flag: bool)
        ensures
            flag == spec_has_bits(self.bits(), SR_BSY),
    {
        self.value & SR_BSY != 0
    }
}

impl<MS, DIR, STD> Status<MS, DIR, STD> where STD: ChannelFlag {
    /// Get the CHSIDE flag. It indicate the channel that has been received or will be
    /// transmitted.
    ///
    /// This flag is updated when TXE or RXNE flags are set. This flag is meaningless and
    /// therefore not reliable in case of an error. This flag is not meaningful when using the
    /// PCM standard.
    pub fn chside(&self) -> (channel: Channel)
        ensures
            channel == if spec_has_bits(self.bits(), SR_CHSIDE) {
                Channel::Right
            } else {
                Channel::Left
            },
    {
        if self.value & SR_CHSIDE != 0 {
            Channel::Right
        } else {
            Channel::Left
        }
    }
}

impl<DIR, STD> Status<Slave, DIR, STD> {
    /// Get the FRE flag. If `true`, a frame error occurred.
    ///
    /// This flag is set by hardware when the WS line changes at an unexpected moment. Usually,
    /// this indicates a synchronisation issue. This flag can only be set in Slave mode and
    /// therefore can only be read in this mode.
    ///
    /// This flag is cleared when reading the status register.
    pub fn fre(&self) -> (flag: bool)
        ensures
            flag == spec_has_bits(self.bits(), SR_FRE),
    {
        self.value & SR_FRE != 0
    }
}

impl<MS, STD> Status<MS, Receive, STD> {
    /// Get the OVR flag. If `true` an overrun error occurred.
    ///
    /// This flag is set when data are received and the previous data have not yet been read.
    /// As a result, the incoming data are lost. Since this flag can happen only in Receive
    /// mode, it can only be read in this mode.
    ///
    /// This flag is cleared by a read operation on the data register followed by a read to the
    /// status register.
    pub fn ovr(&self) -> (flag: bool)
        ensures
            flag == spec_has_bits(self.bits(), SR_OVR),
    {
        self.value & SR_OVR != 0
    }

    /// Get the RXNE flag. If `true` a valid received data is present in the Rx buffer.
    ///
    /// This flag can only happen in reception mode and therefore can only be read in this
    /// mode.
    ///
    /// This flag is cleared when the data register is read.
    pub fn rxne(&self) -> (flag: bool)
        ensures
            flag == spec_has_bits(self.bits(), SR_RXNE),
    {
        self.value & SR_RXNE != 0
    }
}

impl<MS, STD> Status<MS, Transmit, STD> {
    /// Get the TXE flag. If `true` the Tx buffer is empty and the next sample can be loaded
    /// into it.
    ///
    /// This flag can only happen in transmission mode and therefore can only be read in this
    /// mode.
    ///
    /// This flag is cleared by writing into the data register or by disabling the I2s
    /// peripheral.
    pub fn txe(&self) -> (flag: bool)
        ensures
            flag == spec_has_bits(self.bits(), SR_TXE),
    {
        self.value & SR_TXE != 0
    }
}

impl<STD> Status<Slave, Transmit, STD> {
    /// Get the UDR flag. If `true` an underrun error occurred.
    ///
    /// This flag is set when the first clock for data transmission appears while the software
    /// has not yet loaded any value into the data register. This flag can only be set in Slave
    /// Transmit mode and therefore can only be read in this mode.
    ///
    /// This flag is cleared by reading the status register.
    pub fn udr(&self) -> (flag: bool)
        ensures
            flag == spec_has_bits(self.bits(), SR_UDR),
    {
        self.value & SR_UDR != 0
    }
}

/// I2S driver configuration
///
/// This can be used as an i2s driver builder.
///
///  - `MS`: `Master` or `Slave`
///  - `DIR`: communication direction, `Transmit` or `Receive`
///  - `STD`: I2S standard, eg `Philips`
///
/// **Note:** because of its typestate, methods of this type don't modify a config object. They
/// return a new object instead.
///
/// The role, the direction and the standard that a configuration holds are always those of
/// its markers, and the divider of a prescaler that it holds is at least 2. A slave
/// configuration holds none of the settings of a master: its master clock is disabled and
/// its prescaler is the one of a reset.
#[derive(Debug)]
pub struct I2sDriverConfig<MS: Role, DIR: Direction, STD: crate::marker::I2sStandard> {
    slave_or_master: SlaveOrMaster,
    transmit_or_receive: TransmitOrReceive,
    standard: I2sStandard,
    clock_polarity: ClockPolarity,
    data_format: DataFormat,
    master_clock: bool,
    frequency: Frequency,
    _ms: PhantomData<MS>,
    _tr: PhantomData<DIR>,
    _std: PhantomData<STD>,
}

impl<MS: Role, DIR: Direction, STD: crate::marker::I2sStandard> Clone for I2sDriverConfig<MS, DIR, STD> {
    fn clone(&self) -> (config: Self)
        ensures
            config == *self,
    {
        *self
    }
}

impl<MS: Role, DIR: Direction, STD: crate::marker::I2sStandard> Copy for I2sDriverConfig<MS, DIR, STD> {

}

impl<MS: Role, DIR: Direction, STD: crate::marker::I2sStandard> View for I2sDriverConfig<MS, DIR, STD> {
    type V = ConfigView;

    closed spec fn view(&self) -> ConfigView {
        ConfigView {
            role: self.slave_or_master,
            direction: self.transmit_or_receive,
            standard: self.standard,
            clock_polarity: self.clock_polarity,
            data_format: self.data_format,
            master_clock: self.master_clock,
            frequency: self.frequency,
        }
    }
}

impl I2sDriverConfig<Slave, Transmit, Philips> {
    /// Create a new default slave configuration.
    pub fn new_slave() -> (config: Self)
        ensures
            config@ == (ConfigView {
                role: SlaveOrMaster::Slave,
                direction: TransmitOrReceive::Transmit,
                standard: I2sStandard::Philips,
                clock_polarity: ClockPolarity::IdleLow,
                data_format: DataFormat::Data16Channel16,
                master_clock: false,
                frequency: Frequency::Prescaler(false, 2),
            }),
    {
        proof {
            lemma_direction_values();
            lemma_standard_values();
        }
        Self {
            slave_or_master: SlaveOrMaster::Slave,
            transmit_or_receive: TransmitOrReceive::Transmit,
            standard: I2sStandard::Philips,
            clock_polarity: ClockPolarity::IdleLow,
            data_format: DataFormat::Data16Channel16,
            master_clock: false,
            frequency: Frequency::Prescaler(false, 0b10),
            _ms: PhantomData,
            _tr: PhantomData,
            _std: PhantomData,
        }
    }
}

impl I2sDriverConfig<Master, Transmit, Philips> {
    /// Create a new default master configuration.
    pub fn new_master() -> (config: Self)
        ensures
            config@ == (ConfigView {
                role: SlaveOrMaster::Master,
                direction: TransmitOrReceive::Transmit,
                standard: I2sStandard::Philips,
                clock_polarity: ClockPolarity::IdleLow,
                data_format: DataFormat::Data16Channel16,
                master_clock: false,
                frequency: Frequency::Prescaler(false, 2),
            }),
    {
        proof {
            lemma_direction_values();
            lemma_standard_values();
        }
        Self {
            slave_or_master: SlaveOrMaster::Master,
            transmit_or_receive: TransmitOrReceive::Transmit,
            standard: I2sStandard::Philips,
            clock_polarity: ClockPolarity::IdleLow,
            data_format: DataFormat::Data16Channel16,
            master_clock: false,
            frequency: Frequency::Prescaler(false, 0b10),
            _ms: PhantomData,
            _tr: PhantomData,
            _std: PhantomData,
        }
    }
}

impl Default for I2sDriverConfig<Slave, Transmit, Philips> {
    /// Create a default configuration.
    ///
    /// This is a default slave configuration.
    fn default() -> (config: Self)
        ensures
            config@ == (ConfigView {
                role: SlaveOrMaster::Slave,
                direction: TransmitOrReceive::Transmit,
                standard: I2sStandard::Philips,
                clock_polarity: ClockPolarity::IdleLow,
                data_format: DataFormat::Data16Channel16,
                master_clock: false,
                frequency: Frequency::Prescaler(false, 2),
            }),
    {
        Self::new_slave()
    }
}

/// The accesses that set the block of a single driver up for a configuration.
pub open spec fn spec_configure(config: ConfigView, prescaler: (bool, u8)) -> Seq<Access> {
    spec_setup(
        config.role,
        config.direction,
        config.standard,
        config.data_format,
        config.master_clock,
        prescaler,
    )
}

impl<MS: Role, DIR: Direction, STD: crate::marker::I2sStandard> I2sDriverConfig<MS, DIR, STD> {
    #[verifier::type_invariant]
    spec fn well_formed(self) -> bool {
        &&& self.slave_or_master == MS::VALUE
        &&& self.transmit_or_receive == DIR::VALUE
        &&& self.standard == STD::VALUE
        &&& self.frequency matches Frequency::Prescaler(_, div) ==> div >= 2
        &&& self.slave_or_master == SlaveOrMaster::Slave ==> !self.master_clock
            && self.frequency == Frequency::Prescaler(false, 2)
    }

    /// Sets a peripheral up for the configuration and makes a driver of it.
    pub(crate) fn configure<I: I2sPeripheral>(self, i2s_peripheral: Recorded<I>) -> (result: Result<
        I2sDriver<I, MS, DIR, STD>,
        ConfigError,
    >)
        ensures
            match result {
                Ok(driver) => exists|i2s_clock: u32|
                    {
                        &&& #[trigger] spec_prescaler(
                            self@.frequency,
                            i2s_clock,
                            self@.master_clock,
                            self@.standard,
                            self@.data_format,
                        ) matches Some(prescaler)
                        &&& prescaler.1 >= 2
                        &&& call_ensures(I::i2s_freq, (&i2s_peripheral.inner(),), i2s_clock)
                        &&& self@.slave_has_defaults()
                        &&& self@.role == MS::VALUE
                        &&& self@.direction == DIR::VALUE
                        &&& self@.standard == STD::VALUE
                        &&& driver.accesses() == i2s_peripheral.accesses() + spec_configure(
                            self@,
                            prescaler,
                        )
                    },
                Err(e) => {
                    &&& e == ConfigError::FrequencyUnreachable
                    &&& self@.frequency is Require
                    &&& self@.slave_has_defaults()
                    &&& exists|i2s_clock: u32|
                        {
                            &&& call_ensures(I::i2s_freq, (&i2s_peripheral.inner(),), i2s_clock)
                            &&& #[trigger] spec_prescaler(
                                self@.frequency,
                                i2s_clock,
                                self@.master_clock,
                                self@.standard,
                                self@.data_format,
                            ) is None
                        }
                },
            },
    {
        proof {
            use_type_invariant(&self);
            lemma_direction_values();
            lemma_standard_values();
        }
        let mut driver = I2sDriver::<I, MS, DIR, STD> {
            i2s_peripheral,
            _ms: PhantomData,
            _tr: PhantomData,
            _std: PhantomData,
        };
        let i2s_clock: u32 = driver.i2s_peripheral.i2s_freq();
        let prescaler = match prescaler_fields(
            self.frequency,
            i2s_clock,
            self.master_clock,
            self.standard,
            self.data_format,
        ) {
            Ok(prescaler) => prescaler,
            Err(e) => {
                assert(spec_prescaler(
                    self@.frequency,
                    i2s_clock,
                    self@.master_clock,
                    self@.standard,
                    self@.data_format,
                ) is None);
                return Err(e);
            },
        };
        proof {
            lemma_prescaler_is_valid(
                self.frequency,
                i2s_clock,
                self.master_clock,
                self.standard,
                self.data_format,
            );
        }
        setup(
            &mut driver.i2s_peripheral,
            self.slave_or_master,
            self.transmit_or_receive,
            self.standard,
            self.data_format,
            self.master_clock,
            prescaler,
        );
        assert(spec_prescaler(
            self@.frequency,
            i2s_clock,
            self@.master_clock,
            self@.standard,
            self@.data_format,
        ) == Some(prescaler));
        assert(driver.accesses() == i2s_peripheral.accesses() + spec_configure(self@, prescaler));
        Ok(driver)
    }

    /// Instantiate the driver by wrapping the given [`I2sPeripheral`].
    ///
    /// The prescaler is computed first, from the frequency of the clock source of the device.
    /// This fails if an exact frequency is required and that frequency cannot be set; the
    /// registers are not touched then. Otherwise the peripheral is disabled, its interrupt and
    /// DMA requests are disabled, and the configuration and the prescaler are written: these
    /// four writes are the first accesses of the driver. The peripheral is left disabled.
    pub fn i2s_driver<I: I2sPeripheral>(self, i2s_peripheral: I) -> (result: Result<
        I2sDriver<I, MS, DIR, STD>,
        ConfigError,
    >)
        ensures
            match result {
                Ok(driver) => exists|i2s_clock: u32|
                    {
                        &&& #[trigger] spec_prescaler(
                            self@.frequency,
                            i2s_clock,
                            self@.master_clock,
                            self@.standard,
                            self@.data_format,
                        ) matches Some(prescaler)
                        &&& prescaler.1 >= 2
                        &&& call_ensures(I::i2s_freq, (&i2s_peripheral,), i2s_clock)
                        &&& self@.slave_has_defaults()
                        &&& self@.role == MS::VALUE
                        &&& self@.direction == DIR::VALUE
                        &&& self@.standard == STD::VALUE
                        &&& driver.accesses() == spec_configure(self@, prescaler)
                    },
                Err(e) => {
                    &&& e == ConfigError::FrequencyUnreachable
                    &&& self@.frequency is Require
                    &&& self@.slave_has_defaults()
                    &&& exists|i2s_clock: u32|
                        {
                            &&& call_ensures(I::i2s_freq, (&i2s_peripheral,), i2s_clock)
                            &&& #[trigger] spec_prescaler(
                                self@.frequency,
                                i2s_clock,
                                self@.master_clock,
                                self@.standard,
                                self@.data_format,
                            ) is None
                        }
                },
            },
    {
        let recorded = Recorded::new(i2s_peripheral);
        let result = self.configure(recorded);
        proof {
            if result is Ok {
                let driver = result->Ok_0;
                let i2s_clock = choose|i2s_clock: u32|
                    {
                        &&& #[trigger] spec_prescaler(
                            self@.frequency,
                            i2s_clock,
                            self@.master_clock,
                            self@.standard,
                            self@.data_format,
                        ) matches Some(prescaler)
                        &&& prescaler.1 >= 2
                        &&& call_ensures(I::i2s_freq, (&recorded.inner(),), i2s_clock)
                        &&& self@.slave_has_defaults()
                        &&& self@.role == MS::VALUE
                        &&& self@.direction == DIR::VALUE
                        &&& self@.standard == STD::VALUE
                        &&& driver.accesses() == recorded.accesses() + spec_configure(
                            self@,
                            prescaler,
                        )
                    };
                let prescaler = spec_prescaler(
                    self@.frequency,
                    i2s_clock,
                    self@.master_clock,
                    self@.standard,
                    self@.data_format,
                )->0;
                assert(driver.accesses() =~= spec_configure(self@, prescaler));
            }
        }
        result
    }

    /// Configure driver in transmit mode
    pub fn transmit(self) -> (config: I2sDriverConfig<MS, Transmit, STD>)
        ensures
            config@ == (ConfigView { direction: TransmitOrReceive::Transmit, ..self@ }),
    {
        proof {
            use_type_invariant(&self);
            lemma_direction_values();
            lemma_standard_values();
        }
        I2sDriverConfig::<MS, Transmit, STD> {
            slave_or_master: self.slave_or_master,
            transmit_or_receive: TransmitOrReceive::Transmit,
            standard: self.standard,
            clock_polarity: self.clock_polarity,
            data_format: self.data_format,
            master_clock: self.master_clock,
            frequency: self.frequency,
            _ms: PhantomData,
            _tr: PhantomData,
            _std: PhantomData,
        }
    }

    /// Configure driver in receive mode
    pub fn receive(self) -> (config: I2sDriverConfig<MS, Receive, STD>)
        ensures
            config@ == (ConfigView { direction: TransmitOrReceive::Receive, ..self@ }),
    {
        proof {
            use_type_invariant(&self);
            lemma_direction_values();
            lemma_standard_values();
        }
        I2sDriverConfig::<MS, Receive, STD> {
            slave_or_master: self.slave_or_master,
            transmit_or_receive: TransmitOrReceive::Receive,
            standard: self.standard,
            clock_polarity: self.clock_polarity,
            data_format: self.data_format,
            master_clock: self.master_clock,
            frequency: self.frequency,
            _ms: PhantomData,
            _tr: PhantomData,
            _std: PhantomData,
        }
    }

    /// Configure driver in transmit or receive mode
    #[allow(non_camel_case_types)]
    pub fn direction<NEW_DIR>(self, _dir: NEW_DIR) -> (config: I2sDriverConfig<MS, NEW_DIR, STD>) where
        NEW_DIR: Direction,

        ensures
            config@ == (ConfigView { direction: NEW_DIR::VALUE, ..self@ }),
    {
        proof {
            use_type_invariant(&self);
            lemma_direction_values();
            lemma_standard_values();
        }
        I2sDriverConfig::<MS, NEW_DIR, STD> {
            slave_or_master: self.slave_or_master,
            transmit_or_receive: NEW_DIR::VALUE,
            standard: self.standard,
            clock_polarity: self.clock_polarity,
            data_format: self.data_format,
            master_clock: self.master_clock,
            frequency: self.frequency,
            _ms: PhantomData,
            _tr: PhantomData,
            _std: PhantomData,
        }
    }

    /// Select the I2s standard to use.
    ///
    /// This may change the effective sampling frequency.
    #[allow(non_camel_case_types)]
    pub fn standard<NEW_STD>(self, _standard: NEW_STD) -> (config: I2sDriverConfig<
        MS,
        DIR,
        NEW_STD,
    >) where NEW_STD: crate::marker::I2sStandard
        ensures
            config@ == (ConfigView { standard: NEW_STD::VALUE, ..self@ }),
    {
        proof {
            use_type_invariant(&self);
            lemma_direction_values();
            lemma_standard_values();
        }
        I2sDriverConfig::<MS, DIR, NEW_STD> {
            slave_or_master: self.slave_or_master,
            transmit_or_receive: self.transmit_or_receive,
            standard: NEW_STD::VALUE,
            clock_polarity: self.clock_polarity,
            data_format: self.data_format,
            master_clock: self.master_clock,
            frequency: self.frequency,
            _ms: PhantomData,
            _tr: PhantomData,
            _std: PhantomData,
        }
    }

    /// Select steady state clock polarity. The polarity is kept with the configuration;
    /// setting a peripheral up does not write it, and the CKPOL bit stays clear.
    pub fn clock_polarity(self, polarity: ClockPolarity) -> (config: Self)
        ensures
            config@ == (ConfigView { clock_polarity: polarity, ..self@ }),
    {
        proof {
            use_type_invariant(&self);
            lemma_direction_values();
            lemma_standard_values();
        }
        Self { clock_polarity: polarity, ..self }
    }

    /// Select data format
    pub fn data_format(self, format: DataFormat) -> (config: Self)
        ensures
            config@ == (ConfigView { data_format: format, ..self@ }),
    {
        proof {
            use_type_invariant(&self);
            lemma_direction_values();
            lemma_standard_values();
        }
        Self { data_format: format, ..self }
    }

    /// Convert to a slave configuration.
    ///
    /// This deletes Master Only Settings: the master clock is disabled and the prescaler goes
    /// back to its default.
    pub fn to_slave(self) -> (config: I2sDriverConfig<Slave, DIR, STD>)
        ensures
            config@ == (ConfigView {
                role: SlaveOrMaster::Slave,
                master_clock: false,
                frequency: Frequency::Prescaler(false, 2),
                ..self@
            }),
    {
        proof {
            use_type_invariant(&self);
            lemma_direction_values();
            lemma_standard_values();
        }
        I2sDriverConfig::<Slave, DIR, STD> {
            slave_or_master: SlaveOrMaster::Slave,
            transmit_or_receive: self.transmit_or_receive,
            standard: self.standard,
            clock_polarity: self.clock_polarity,
            data_format: self.data_format,
            master_clock: false,
            frequency: Frequency::Prescaler(false, 0b10),
            _ms: PhantomData,
            _tr: PhantomData,
            _std: PhantomData,
        }
    }

    /// Convert to a master configuration.
    pub fn to_master(self) -> (config: I2sDriverConfig<Master, DIR, STD>)
        ensures
            config@ == (ConfigView { role: SlaveOrMaster::Master, ..self@ }),
    {
        proof {
            use_type_invariant(&self);
            lemma_direction_values();
            lemma_standard_values();
        }
        I2sDriverConfig::<Master, DIR, STD> {
            slave_or_master: SlaveOrMaster::Master,
            transmit_or_receive: self.transmit_or_receive,
            standard: self.standard,
            clock_polarity: self.clock_polarity,
            data_format: self.data_format,
            master_clock: self.master_clock,
            frequency: self.frequency,
            _ms: PhantomData,
            _tr: PhantomData,
            _std: PhantomData,
        }
    }
}

impl<DIR: Direction, STD: crate::marker::I2sStandard> I2sDriverConfig<Master, DIR, STD> {
    /// Enable/Disable Master Clock.
    ///
    /// This changes the effective sampling rate.
    ///
    /// This can be only set and only has meaning for Master mode.
    pub fn master_clock(self, enable: bool) -> (config: Self)
        ensures
            config@ == (ConfigView { master_clock: enable, ..self@ }),
    {
        proof {
            use_type_invariant(&self);
            lemma_direction_values();
            lemma_standard_values();
        }
        Self { master_clock: enable, ..self }
    }

    /// Configure audio frequency by setting the prescaler with an odd factor and a divider.
    ///
    /// The effective sampling frequency is:
    /// Fs = `i2s_clock / [128 * nb_chan * ((2 * div) + odd)]` when master clock is enabled
    /// Fs = `i2s_clock / [(channel_length * nb_chan) * ((2 * div) + odd)]` when master clock
    /// is disabled, where `nb_chan` is 2 with the Philips, MSB and LSB standards and 1 with
    /// the PCM standards.
    ///
    /// This setting only has meaning and can be only set for master.
    ///
    /// `div` must be at least 2, otherwise the configuration is refused.
    pub fn prescaler(self, odd: bool, div: u8) -> (result: Result<Self, ConfigError>)
        ensures
            match result {
                Ok(config) => div >= 2 && config@ == (ConfigView {
                    frequency: Frequency::Prescaler(odd, div),
                    ..self@
                }),
                Err(e) => div < 2 && e == ConfigError::InvalidDivider,
            },
    {
        proof {
            use_type_invariant(&self);
            lemma_direction_values();
        }
        if div < 2 {
            return Err(ConfigError::InvalidDivider);
        }
        Ok(Self { frequency: Frequency::Prescaler(odd, div), ..self })
    }

    /// Request an audio sampling frequency.
    ///
    /// The actual audio sampling frequency may be different.
    pub fn request_frequency(self, freq: u32) -> (config: Self)
        ensures
            config@ == (ConfigView { frequency: Frequency::Request(freq), ..self@ }),
    {
        proof {
            use_type_invariant(&self);
            lemma_direction_values();
        }
        Self { frequency: Frequency::Request(freq), ..self }
    }

    /// Require exactly this audio sampling frequency.
    ///
    /// If the required frequency can not bet set, instantiating the driver will fail.
    pub fn require_frequency(self, freq: u32) -> (config: Self)
        ensures
            config@ == (ConfigView { frequency: Frequency::Require(freq), ..self@ }),
    {
        proof {
            use_type_invariant(&self);
            lemma_direction_values();
        }
        Self { frequency: Frequency::Require(freq), ..self }
    }
}


/// The accesses of `take_error` on a receiving driver: the status register is read, and on
/// an overrun the data register and the status register are read again, which clears the
/// flag.
pub open spec fn spec_take_receive_error(status: u32, data: u32, cleared: u32) -> Seq<Access> {
    if spec_has_bits(status, SR_OVR) {
        seq![
            Access::Read(Register::Sr, status),
            Access::Read(Register::Dr, data),
            Access::Read(Register::Sr, cleared),
        ]
    } else {
        seq![Access::Read(Register::Sr, status)]
    }
}

/// The error that a receiving driver finds in the status register, with the word that was in
/// the data register.
pub open spec fn spec_receive_error(status: u32, data: u32) -> Option<ReceiveError> {
    if spec_has_bits(status, SR_OVR) {
        if spec_has_bits(status, SR_FRE) {
            Some(ReceiveError::FrameAndOverrun(data as u16))
        } else {
            Some(ReceiveError::Overrun(data as u16))
        }
    } else if spec_has_bits(status, SR_FRE) {
        Some(ReceiveError::Frame)
    } else {
        None
    }
}

/// The error that a transmitting driver finds in the status register.
pub open spec fn spec_transmit_error(status: u32) -> Option<TransmitError> {
    if spec_has_bits(status, SR_UDR) {
        Some(TransmitError::Underrun)
    } else {
        None
    }
}

/// The accesses that release a peripheral: it is disabled, then goes through a bus reset.
pub open spec fn spec_release(i2scfgr: u32) -> Seq<Access> {
    spec_modify_bits(Register::I2scfgr, i2scfgr, I2SCFGR_I2SE, false).push(Access::Reset)
}

/// The accesses that read the sampling frequency back.
pub open spec fn spec_read_sample_rate(i2scfgr: u32, i2spr: u32) -> Seq<Access> {
    seq![Access::Read(Register::I2scfgr, i2scfgr), Access::Read(Register::I2spr, i2spr)]
}

/// Driver of a SPI peripheral in I2S mode.
///
/// This is meant for advanced usage, for example using interrupt or DMA.
pub struct I2sDriver<I, MS, DIR, STD> {
    i2s_peripheral: Recorded<I>,
    _ms: PhantomData<MS>,
    _tr: PhantomData<DIR>,
    _std: PhantomData<STD>,
}

/// Constructors and Destructors
impl<I, MS, DIR, STD> I2sDriver<I, MS, DIR, STD> where I: I2sPeripheral {
    /// The peripheral, as the accesses made so far left it.
    pub closed spec fn peripheral(&self) -> I {
        self.i2s_peripheral.inner()
    }

    /// Everything that the driver, and the drivers that it was reconfigured from, asked of
    /// the register block of the peripheral so far.
    pub closed spec fn accesses(&self) -> Seq<Access> {
        self.i2s_peripheral.accesses()
    }

    /// Instantiate an i2s driver from an [`I2sPeripheral`] object and a configuration.
    ///
    /// This fails if an exact frequency is required by the configuration and that frequency
    /// cannot be set.
    pub fn new(i2s_peripheral: I, config: I2sDriverConfig<MS, DIR, STD>) -> (result: Result<
        Self,
        ConfigError,
    >) where MS: Role, DIR: Direction, STD: crate::marker::I2sStandard
        ensures
            match result {
                Ok(driver) => exists|i2s_clock: u32|
                    {
                        &&& #[trigger] spec_prescaler(
                            config@.frequency,
                            i2s_clock,
                            config@.master_clock,
                            config@.standard,
                            config@.data_format,
                        ) matches Some(prescaler)
                        &&& prescaler.1 >= 2
                        &&& call_ensures(I::i2s_freq, (&i2s_peripheral,), i2s_clock)
                        &&& config@.slave_has_defaults()
                        &&& config@.role == MS::VALUE
                        &&& config@.direction == DIR::VALUE
                        &&& config@.standard == STD::VALUE
                        &&& driver.accesses() == spec_configure(config@, prescaler)
                    },
                Err(e) => {
                    &&& e == ConfigError::FrequencyUnreachable
                    &&& config@.frequency is Require
                    &&& config@.slave_has_defaults()
                    &&& exists|i2s_clock: u32|
                        {
                            &&& call_ensures(I::i2s_freq, (&i2s_peripheral,), i2s_clock)
                            &&& #[trigger] spec_prescaler(
                                config@.frequency,
                                i2s_clock,
                                config@.master_clock,
                                config@.standard,
                                config@.data_format,
                            ) is None
                        }
                },
            },
    {
        config.i2s_driver(i2s_peripheral)
    }

    /// Destroy the driver: disable, reset and release the owned i2s device. The device comes
    /// back with the record of its accesses; [`Recorded::into_inner`] gives the device alone.
    pub fn release(self) -> (i2s_peripheral: Recorded<I>)
        ensures
            exists|i2scfgr: u32|
                i2s_peripheral.accesses() == self.accesses() + #[trigger] spec_release(i2scfgr),
    {
        let mut driver = self;
        let _ = driver.shut_down();
        driver.i2s_peripheral
    }

    /// Consume the driver and create a new one with the given configuration.
    ///
    /// This fails, and the peripheral is lost with the driver, if an exact frequency is
    /// required by the configuration and that frequency cannot be set.
    #[allow(non_camel_case_types)]
    pub fn reconfigure<NEW_MS, NEW_DIR, NEW_STD>(
        self,
        config: I2sDriverConfig<NEW_MS, NEW_DIR, NEW_STD>,
    ) -> (result: Result<I2sDriver<I, NEW_MS, NEW_DIR, NEW_STD>, ConfigError>) where
        NEW_MS: Role,
        NEW_DIR: Direction,
        NEW_STD: crate::marker::I2sStandard,

        ensures
            match result {
                Ok(driver) => exists|i2s_clock: u32|
                    {
                        &&& #[trigger] spec_prescaler(
                            config@.frequency,
                            i2s_clock,
                            config@.master_clock,
                            config@.standard,
                            config@.data_format,
                        ) matches Some(prescaler)
                        &&& prescaler.1 >= 2
                        &&& call_ensures(I::i2s_freq, (&self.peripheral(),), i2s_clock)
                        &&& config@.slave_has_defaults()
                        &&& config@.role == NEW_MS::VALUE
                        &&& config@.direction == NEW_DIR::VALUE
                        &&& config@.standard == NEW_STD::VALUE
                        &&& driver.accesses() == self.accesses() + spec_configure(
                            config@,
                            prescaler,
                        )
                    },
                Err(e) => {
                    &&& e == ConfigError::FrequencyUnreachable
                    &&& config@.frequency is Require
                    &&& config@.slave_has_defaults()
                    &&& exists|i2s_clock: u32|
                        {
                            &&& call_ensures(I::i2s_freq, (&self.peripheral(),), i2s_clock)
                            &&& #[trigger] spec_prescaler(
                                config@.frequency,
                                i2s_clock,
                                config@.master_clock,
                                config@.standard,
                                config@.data_format,
                            ) is None
                        }
                },
            },
    {
        let i2s_peripheral = self.i2s_peripheral;
        config.configure(i2s_peripheral)
    }
}

/// What the transfer layer builds on: the same accesses as the methods below, with the
/// values that were read handed back.
impl<I, MS, DIR, STD> I2sDriver<I, MS, DIR, STD> where I: I2sPeripheral {
    /// Sets or clears the enable bit. Returns what was read.
    pub(crate) fn set_enabled(&mut self, on: bool) -> (i2scfgr: u32)
        ensures
            final(self).accesses() == old(self).accesses() + spec_modify_bits(
                Register::I2scfgr,
                i2scfgr,
                I2SCFGR_I2SE,
                on,
            ),
    {
        modify_bits(&mut self.i2s_peripheral, Register::I2scfgr, I2SCFGR_I2SE, on)
    }

    /// Disables the peripheral, then resets it. Returns what was read of the configuration
    /// register.
    pub(crate) fn shut_down(&mut self) -> (i2scfgr: u32)
        ensures
            final(self).accesses() == old(self).accesses() + spec_release(i2scfgr),
    {
        let ghost before = self.i2s_peripheral.accesses();
        let i2scfgr: u32 = modify_bits(
            &mut self.i2s_peripheral,
            Register::I2scfgr,
            I2SCFGR_I2SE,
            false,
        );
        self.i2s_peripheral.rcc_reset();
        assert(self.i2s_peripheral.accesses() =~= before + spec_release(i2scfgr));
        i2scfgr
    }

    /// Looks at the WS pin, to see whether it is at the level that starts a frame, and
    /// records the answer.
    pub(crate) fn look_at_ws(&mut self, start_level: bool) -> (started: bool)
        ensures
            final(self).accesses() == old(self).accesses() + spec_ws_look(start_level, started),
            final(self).peripheral() == old(self).peripheral(),
            exists|pin: I::WsPin| #[trigger]
                crate::spec_ws_is_start(old(self).peripheral(), pin, start_level, started),
    {
        let ghost before = self.i2s_peripheral.accesses();
        let started: bool = if start_level {
            self.i2s_peripheral.ws_is_high()
        } else {
            self.i2s_peripheral.ws_is_low()
        };
        proof {
            assert(self.i2s_peripheral.accesses() =~= before + spec_ws_look(start_level, started));
            if start_level {
                let pin = choose|pin: I::WsPin| #[trigger]
                    crate::spec_ws_is_high(old(self).peripheral(), pin, started);
                assert(crate::spec_ws_is_start(old(self).peripheral(), pin, start_level, started));
            } else {
                let pin = choose|pin: I::WsPin| #[trigger]
                    crate::spec_ws_is_low(old(self).peripheral(), pin, started);
                assert(crate::spec_ws_is_start(old(self).peripheral(), pin, start_level, started));
            }
        }
        started
    }

    /// Reads the status register.
    pub(crate) fn read_status(&mut self) -> (status: u32)
        ensures
            final(self).accesses() == old(self).accesses() + spec_read(Register::Sr, status),
    {
        let ghost before = self.i2s_peripheral.accesses();
        let status: u32 = self.i2s_peripheral.read_register(Register::Sr);
        assert(self.i2s_peripheral.accesses() =~= before + spec_read(Register::Sr, status));
        status
    }

    /// Reads the data register.
    pub(crate) fn read_data(&mut self) -> (data: u32)
        ensures
            final(self).accesses() == old(self).accesses() + spec_read(Register::Dr, data),
    {
        let ghost before = self.i2s_peripheral.accesses();
        let data: u32 = self.i2s_peripheral.read_register(Register::Dr);
        assert(self.i2s_peripheral.accesses() =~= before + spec_read(Register::Dr, data));
        data
    }

    /// Writes the data register.
    pub(crate) fn write_data(&mut self, value: u16)
        ensures
            final(self).accesses() == old(self).accesses() + spec_write(
                Register::Dr,
                value as u32,
            ),
    {
        let ghost before = self.i2s_peripheral.accesses();
        self.i2s_peripheral.write_register(Register::Dr, value as u32);
        assert(self.i2s_peripheral.accesses() =~= before + spec_write(Register::Dr, value as u32));
    }

    /// Resets the clocks. Returns what was read of CR2, I2SCFGR and I2SPR.
    pub(crate) fn restart_clocks(&mut self) -> (settings: (u32, u32, u32))
        ensures
            final(self).accesses() == old(self).accesses() + spec_reset_clocks(
                settings.0,
                settings.1,
                settings.2,
            ),
    {
        let ghost before = self.i2s_peripheral.accesses();
        let cr2: u32 = self.i2s_peripheral.read_register(Register::Cr2);
        let i2scfgr: u32 = self.i2s_peripheral.read_register(Register::I2scfgr);
        let i2spr: u32 = self.i2s_peripheral.read_register(Register::I2spr);
        self.i2s_peripheral.rcc_reset();
        self.i2s_peripheral.write_register(Register::Cr2, cr2);
        self.i2s_peripheral.write_register(Register::I2spr, i2spr);
        self.i2s_peripheral.write_register(Register::I2scfgr, i2scfgr);
        assert(self.i2s_peripheral.accesses() =~= before + spec_reset_clocks(cr2, i2scfgr, i2spr));
        (cr2, i2scfgr, i2spr)
    }

    /// Reads the sampling frequency back. Returns it with what was read of the clock
    /// frequency, of I2SCFGR and of I2SPR.
    pub(crate) fn measure_sample_rate(&mut self) -> (result: (u32, Ghost<(u32, u32, u32)>))
        ensures
            final(self).accesses() == old(self).accesses() + spec_read_sample_rate(
                result.1@.1,
                result.1@.2,
            ),
            result.0 == spec_sample_rate(result.1@.0, result.1@.1, result.1@.2),
            call_ensures(I::i2s_freq, (&final(self).peripheral(),), result.1@.0),
    {
        let ghost before = self.i2s_peripheral.accesses();
        let i2scfgr: u32 = self.i2s_peripheral.read_register(Register::I2scfgr);
        let i2spr: u32 = self.i2s_peripheral.read_register(Register::I2spr);
        let i2s_clock: u32 = self.i2s_peripheral.i2s_freq();
        assert(self.i2s_peripheral.accesses() =~= before + spec_read_sample_rate(i2scfgr, i2spr));
        (sample_rate(i2s_clock, i2scfgr, i2spr), Ghost((i2s_clock, i2scfgr, i2spr)))
    }
}

/// Methods available in any mode
impl<I, MS, DIR, STD> I2sDriver<I, MS, DIR, STD> where I: I2sPeripheral {
    /// Enable the I2S peripheral.
    pub fn enable(&mut self)
        ensures
            exists|i2scfgr: u32|
                final(self).accesses() == old(self).accesses() + #[trigger] spec_modify_bits(
                    Register::I2scfgr,
                    i2scfgr,
                    I2SCFGR_I2SE,
                    true,
                ),
    {
        let _ = modify_bits(&mut self.i2s_peripheral, Register::I2scfgr, I2SCFGR_I2SE, true);
    }

    /// Immediately Disable the I2S peripheral.
    ///
    /// Generated clocks aren't reset, so a call to `reset_clocks` may be required in master
    /// mode.
    ///
    /// It's up to the caller to not disable the peripheral in the middle of a frame.
    pub fn disable(&mut self)
        ensures
            exists|i2scfgr: u32|
                final(self).accesses() == old(self).accesses() + #[trigger] spec_modify_bits(
                    Register::I2scfgr,
                    i2scfgr,
                    I2SCFGR_I2SE,
                    false,
                ),
    {
        let _ = modify_bits(&mut self.i2s_peripheral, Register::I2scfgr, I2SCFGR_I2SE, false);
    }

    /// Return `true` if the level on the WS line is high: the answer of the WS pin of the
    /// peripheral.
    ///
    /// May be removed in future, use `ws_pin().is_high()` instead.
    pub fn ws_is_high(&self) -> (high: bool)
        ensures
            exists|pin: I::WsPin| #[trigger] crate::spec_ws_is_high(self.peripheral(), pin, high),
    {
        let pin = self.i2s_peripheral.ws_pin();
        let high: bool = pin.is_high();
        proof {
            let witness = *pin;
            assert(crate::spec_ws_is_high(self.peripheral(), witness, high));
        }
        high
    }

    /// Return `true` if the level on the WS line is low: the answer of the WS pin of the
    /// peripheral.
    ///
    /// May be removed in future, use `ws_pin().is_low()` instead.
    pub fn ws_is_low(&self) -> (low: bool)
        ensures
            exists|pin: I::WsPin| #[trigger] crate::spec_ws_is_low(self.peripheral(), pin, low),
    {
        let pin = self.i2s_peripheral.ws_pin();
        let low: bool = pin.is_low();
        proof {
            let witness = *pin;
            assert(crate::spec_ws_is_low(self.peripheral(), witness, low));
        }
        low
    }

    /// Get a reference to the WS pin: the one that the peripheral hands out.
    pub fn ws_pin(&self) -> (pin: &I::WsPin)
        ensures
            call_ensures(I::ws_pin, (&self.peripheral(),), pin),
    {
        self.i2s_peripheral.ws_pin()
    }

    /// Get a mutable reference to the WS pin: the one that the peripheral hands out when it
    /// is borrowed until the caller is done with the pin. Working on the pin makes no register
    /// access.
    pub fn ws_pin_mut(&mut self) -> (pin: &mut I::WsPin)
        ensures
            final(self).accesses() == old(self).accesses(),
            exists|device: &mut I|
                {
                    &&& *device == old(self).peripheral()
                    &&& *final(device) == final(self).peripheral()
                    &&& #[trigger] call_ensures(I::ws_pin_mut, (device,), pin)
                },
    {
        self.i2s_peripheral.ws_pin_mut()
    }

    /// Get the address of the data register for DMA setup: the address that the peripheral
    /// gives for its register block, moved by the offset of the data register as
    /// [`register_address`] does.
    pub fn data_register_address(&self) -> (address: u32)
        ensures
            exists|base: u32| #[trigger]
                spec_is_register_address(self.peripheral(), base, Register::Dr, address),
    {
        let base: u32 = self.i2s_peripheral.base_address();
        let address: u32 = register_address(base, Register::Dr);
        assert(spec_is_register_address(self.peripheral(), base, Register::Dr, address));
        address
    }

    /// Get the content of the status register. This operation may change the register value.
    ///
    /// When reading the status register, the hardware may reset some error flags. The way
    /// each flag can be modified is documented on each [Status] flag getter.
    pub fn status(&mut self) -> (status: Status<MS, DIR, STD>)
        ensures
            final(self).accesses() == old(self).accesses() + spec_read(
                Register::Sr,
                status.bits(),
            ),
    {
        let ghost before = self.i2s_peripheral.accesses();
        let value: u32 = self.i2s_peripheral.read_register(Register::Sr);
        assert(self.i2s_peripheral.accesses() =~= before + spec_read(Register::Sr, value));
        Status::from_bits(value)
    }
}

/// Master-only methods
impl<I, DIR, STD> I2sDriver<I, Master, DIR, STD> where I: I2sPeripheral {
    /// Reset clocks generated by the peripheral, and clear status and data registers.
    ///
    /// The registers that hold the settings are read, the peripheral goes through a bus
    /// reset, and the settings are written back as they were read.
    ///
    /// This allows immediately starting a new frame when an error occurs or before re-enabling
    /// the driver.
    pub fn reset_clocks(&mut self)
        ensures
            exists|cr2: u32, i2scfgr: u32, i2spr: u32|
                final(self).accesses() == old(self).accesses() + #[trigger] spec_reset_clocks(
                    cr2,
                    i2scfgr,
                    i2spr,
                ),
    {
        let _ = self.restart_clocks();
    }

    /// Get the actual sample rate imposed by the driver, computed from the content of the
    /// configuration and prescaler registers and from the frequency of the clock source.
    ///
    /// This allows client code to check deviation from the requested frequency.
    pub fn sample_rate(&mut self) -> (rate: u32)
        ensures
            exists|i2s_clock: u32, i2scfgr: u32, i2spr: u32|
                {
                    &&& final(self).accesses() == old(self).accesses()
                        + #[trigger] spec_read_sample_rate(i2scfgr, i2spr)
                    &&& call_ensures(I::i2s_freq, (&final(self).peripheral(),), i2s_clock)
                    &&& rate == #[trigger] spec_sample_rate(i2s_clock, i2scfgr, i2spr)
                },
    {
        let (rate, _) = self.measure_sample_rate();
        rate
    }
}

/// Transmit-only methods
impl<I, MS, STD> I2sDriver<I, MS, Transmit, STD> where I: I2sPeripheral {
    /// Write a raw half word to the Tx buffer and delete the TXE flag in status register.
    ///
    /// It's up to the caller to write the content when the data register is empty.
    pub fn write_data_register(&mut self, value: u16)
        ensures
            final(self).accesses() == old(self).accesses() + spec_write(
                Register::Dr,
                value as u32,
            ),
    {
        let ghost before = self.i2s_peripheral.accesses();
        self.i2s_peripheral.write_register(Register::Dr, value as u32);
        assert(self.i2s_peripheral.accesses() =~= before + spec_write(Register::Dr, value as u32));
    }

    /// When set to `true`, an interrupt is generated each time the Tx buffer is empty.
    pub fn set_tx_interrupt(&mut self, enabled: bool)
        ensures
            exists|cr2: u32|
                final(self).accesses() == old(self).accesses() + #[trigger] spec_modify_bits(
                    Register::Cr2,
                    cr2,
                    CR2_TXEIE,
                    enabled,
                ),
    {
        let _ = modify_bits(&mut self.i2s_peripheral, Register::Cr2, CR2_TXEIE, enabled);
    }

    /// When set to `true`, a DMA request is generated each time the Tx buffer is empty.
    pub fn set_tx_dma(&mut self, enabled: bool)
        ensures
            exists|cr2: u32|
                final(self).accesses() == old(self).accesses() + #[trigger] spec_modify_bits(
                    Register::Cr2,
                    cr2,
                    CR2_TXDMAEN,
                    enabled,
                ),
    {
        let _ = modify_bits(&mut self.i2s_peripheral, Register::Cr2, CR2_TXDMAEN, enabled);
    }
}

/// Error report, Slave Transmit mode.
impl<I, STD> I2sDriver<I, Slave, Transmit, STD> where I: I2sPeripheral {
    /// Read the status register and report an underrun, if it shows one. Reading the
    /// register clears the flag.
    pub fn take_error(&mut self) -> (result: Result<(), TransmitError>)
        ensures
            exists|status: u32|
                {
                    &&& final(self).accesses() == old(self).accesses() + #[trigger] spec_read(
                        Register::Sr,
                        status,
                    )
                    &&& result == match spec_transmit_error(status) {
                        Some(e) => Err::<(), TransmitError>(e),
                        None => Ok(()),
                    }
                },
    {
        let status = self.status();
        if status.udr() {
            Err(TransmitError::Underrun)
        } else {
            Ok(())
        }
    }
}

/// Receive-only methods
impl<I, MS, STD> I2sDriver<I, MS, Receive, STD> where I: I2sPeripheral {
    /// Read a raw value from the Rx buffer and delete the RXNE flag in status register. The
    /// value is the low 16 bits of what the hardware answers.
    pub fn read_data_register(&mut self) -> (value: u16)
        ensures
            exists|raw: u32|
                {
                    &&& final(self).accesses() == old(self).accesses() + #[trigger] spec_read(
                        Register::Dr,
                        raw,
                    )
                    &&& value == raw as u16
                },
    {
        let ghost before = self.i2s_peripheral.accesses();
        let raw: u32 = self.i2s_peripheral.read_register(Register::Dr);
        assert(self.i2s_peripheral.accesses() =~= before + spec_read(Register::Dr, raw));
        #[verifier::truncate]
        (raw as u16)
    }

    /// When set to `true`, an interrupt is generated each time the Rx buffer contains a new
    /// data.
    pub fn set_rx_interrupt(&mut self, enabled: bool)
        ensures
            exists|cr2: u32|
                final(self).accesses() == old(self).accesses() + #[trigger] spec_modify_bits(
                    Register::Cr2,
                    cr2,
                    CR2_RXNEIE,
                    enabled,
                ),
    {
        let _ = modify_bits(&mut self.i2s_peripheral, Register::Cr2, CR2_RXNEIE, enabled);
    }

    /// When set to `true`, a DMA request is generated each time the Rx buffer contains a new
    /// data.
    pub fn set_rx_dma(&mut self, enabled: bool)
        ensures
            exists|cr2: u32|
                final(self).accesses() == old(self).accesses() + #[trigger] spec_modify_bits(
                    Register::Cr2,
                    cr2,
                    CR2_RXDMAEN,
                    enabled,
                ),
    {
        let _ = modify_bits(&mut self.i2s_peripheral, Register::Cr2, CR2_RXDMAEN, enabled);
    }

    /// Read the status register and report an overrun or a frame error, if it shows one. On
    /// an overrun the data register and the status register are read after it, which clears
    /// the flag; the error carries the word that was read.
    pub fn take_error(&mut self) -> (result: Result<(), ReceiveError>)
        ensures
            exists|status: u32, data: u32, cleared: u32|
                {
                    &&& final(self).accesses() == old(self).accesses()
                        + #[trigger] spec_take_receive_error(status, data, cleared)
                    &&& result == match spec_receive_error(status, data) {
                        Some(e) => Err::<(), ReceiveError>(e),
                        None => Ok(()),
                    }
                },
    {
        let ghost before = self.i2s_peripheral.accesses();
        let status: u32 = self.i2s_peripheral.read_register(Register::Sr);
        let frame_error: bool = status & SR_FRE != 0;
        if status & SR_OVR != 0 {
            let data: u32 = self.i2s_peripheral.read_register(Register::Dr);
            let cleared: u32 = self.i2s_peripheral.read_register(Register::Sr);
            assert(self.i2s_peripheral.accesses() =~= before + spec_take_receive_error(
                status,
                data,
                cleared,
            ));
            let word: u16 = #[verifier::truncate] (data as u16);
            if frame_error {
                Err(ReceiveError::FrameAndOverrun(word))
            } else {
                Err(ReceiveError::Overrun(word))
            }
        } else {
            assert(self.i2s_peripheral.accesses() =~= before + spec_take_receive_error(
                status,
                0,
                0,
            ));
            assert(spec_receive_error(status, 0) == if frame_error {
                Some(ReceiveError::Frame)
            } else {
                None
            });
            if frame_error {
                Err(ReceiveError::Frame)
            } else {
                Ok(())
            }
        }
    }
}

/// Error interrupt, Master Receive Mode.
impl<I, STD> I2sDriver<I, Master, Receive, STD> where I: I2sPeripheral {
    /// When set to `true`, an interrupt is generated each time an error occurs.
    ///
    /// This is not available for Master Transmit because no error can occur in this mode.
    pub fn set_error_interrupt(&mut self, enabled: bool)
        ensures
            exists|cr2: u32|
                final(self).accesses() == old(self).accesses() + #[trigger] spec_modify_bits(
                    Register::Cr2,
                    cr2,
                    CR2_ERRIE,
                    enabled,
                ),
    {
        let _ = modify_bits(&mut self.i2s_peripheral, Register::Cr2, CR2_ERRIE, enabled);
    }
}

/// Error interrupt, Slave Mode.
impl<I, DIR, STD> I2sDriver<I, Slave, DIR, STD> where I: I2sPeripheral {
    /// When set to `true`, an interrupt is generated each time an error occurs.
    ///
    /// This is not available for Master Transmit because no error can occur in this mode.
    pub fn set_error_interrupt(&mut self, enabled: bool)
        ensures
            exists|cr2: u32|
                final(self).accesses() == old(self).accesses() + #[trigger] spec_modify_bits(
                    Register::Cr2,
                    cr2,
                    CR2_ERRIE,
                    enabled,
                ),
    {
        let _ = modify_bits(&mut self.i2s_peripheral, Register::Cr2, CR2_ERRIE, enabled);
    }
}

} // verus!
