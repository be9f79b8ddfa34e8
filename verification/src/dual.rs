//! Driver for full duplex I2S communication.
//!
//! A [`DualI2sDriver`] controls two peripherals: a "main" SPI peripheral and an "ext" I2SEXT
//! peripheral. Many operations are done on the main or on the ext part, through
//! [`DualI2sDriver::main`] and [`DualI2sDriver::ext`]. The extension is always a slave. The two
//! parts have a register block each and share one reset line.

use vstd::prelude::*;
use core::marker::PhantomData;
use crate::driver::{
    lemma_prescaler_is_valid, prescaler_fields, spec_prescaler, ClockPolarity, ConfigError,
    DataFormat, Frequency, I2sStandard, SlaveOrMaster, Status, TransmitOrReceive,
};
use crate::driver::{spec_read_sample_rate, spec_release};
use crate::marker::{lemma_direction_values, lemma_standard_values};
use crate::marker::{Direction, Ext, Main, Master, Philips, Receive, Role, Slave, Transmit};
use crate::prescaler::{sample_rate, spec_sample_rate};
use crate::registers::{modify_bits, rcc_reset_both, register_address, setup};
use crate::registers::{
    spec_is_register_address, spec_modify_bits, spec_read, spec_reset_clocks, spec_setup,
    spec_write, Access, Recorded, Register,
};
use crate::registers::{
    CR2_ERRIE, CR2_RXDMAEN, CR2_RXNEIE, CR2_TXDMAEN, CR2_TXEIE, I2SCFGR_I2SE,
};
use crate::{DualI2sPeripheral, RegisterBlock};

verus! {

/// What a dual driver configuration holds.
pub struct DualConfigView {
    pub role: SlaveOrMaster,
    pub main_direction: TransmitOrReceive,
    pub ext_direction: TransmitOrReceive,
    pub standard: I2sStandard,
    pub clock_polarity: ClockPolarity,
    pub data_format: DataFormat,
    pub master_clock: bool,
    pub frequency: Frequency,
}

impl DualConfigView {
    /// Whether a configuration holds none of the settings of a master unless it is one: a
    /// slave has the master clock disabled and the prescaler of a reset, odd factor 0 and
    /// divider 2.
    pub open spec fn slave_has_defaults(self) -> bool {
        self.role == SlaveOrMaster::Slave ==> !self.master_clock && self.frequency
            == Frequency::Prescaler(false, 2)
    }
}

/// The accesses that set the main block up for a configuration.
pub open spec fn spec_configure_main(config: DualConfigView, prescaler: (bool, u8)) -> Seq<Access> {
    spec_setup(
        config.role,
        config.main_direction,
        config.standard,
        config.data_format,
        config.master_clock,
        prescaler,
    )
}

/// The accesses that set the extension block up for a configuration. The extension is a
/// slave whatever the role of the main part.
pub open spec fn spec_configure_ext(config: DualConfigView, prescaler: (bool, u8)) -> Seq<Access> {
    spec_setup(
        SlaveOrMaster::Slave,
        config.ext_direction,
        config.standard,
        config.data_format,
        config.master_clock,
        prescaler,
    )
}

/// Dual I2S driver configuration. This can be used as a dual I2S driver builder.
///
///  - `MS`: `Master` or `Slave`. It applies to the "main" part only since the extension is
///    always slave
///  - `MAIN_DIR` and `EXT_DIR` : Communication direction of the main and extension parts; can
///    be `Transmit` or `Receive`.
///  - `STD`: I2S standard, eg `Philips`
///
/// **Note:** because of its typestate, methods of this type don't modify a config object. They
/// return a new object instead.
///
/// The role, the directions and the standard that a configuration holds are always those of
/// its markers, and the divider of a prescaler that it holds is at least 2. A slave
/// configuration holds none of the settings of a master: its master clock is disabled and
/// its prescaler is the one of a reset.
#[derive(Debug)]
#[allow(non_camel_case_types)]
pub struct DualI2sDriverConfig<MS: Role, MAIN_DIR: Direction, EXT_DIR: Direction, STD: crate::marker::I2sStandard> {
    slave_or_master: SlaveOrMaster,
    main_dir: TransmitOrReceive,
    ext_dir: TransmitOrReceive,
    standard: I2sStandard,
    clock_polarity: ClockPolarity,
    data_format: DataFormat,
    master_clock: bool,
    frequency: Frequency,
    _ms: PhantomData<MS>,
    _main_dir: PhantomData<MAIN_DIR>,
    _ext_dir: PhantomData<EXT_DIR>,
    _std: PhantomData<STD>,
}

#[allow(non_camel_case_types)]
impl<MS: Role, MAIN_DIR: Direction, EXT_DIR: Direction, STD: crate::marker::I2sStandard> Clone for DualI2sDriverConfig<MS, MAIN_DIR, EXT_DIR, STD> {
    fn clone(&self) -> (config: Self)
        ensures
            config == *self,
    {
        *self
    }
}

#[allow(non_camel_case_types)]
impl<MS: Role, MAIN_DIR: Direction, EXT_DIR: Direction, STD: crate::marker::I2sStandard> Copy for DualI2sDriverConfig<MS, MAIN_DIR, EXT_DIR, STD> {

}

#[allow(non_camel_case_types)]
impl<MS: Role, MAIN_DIR: Direction, EXT_DIR: Direction, STD: crate::marker::I2sStandard> View for DualI2sDriverConfig<MS, MAIN_DIR, EXT_DIR, STD> {
    type V = DualConfigView;

    closed spec fn view(&self) -> DualConfigView {
        DualConfigView {
            role: self.slave_or_master,
            main_direction: self.main_dir,
            ext_direction: self.ext_dir,
            standard: self.standard,
            clock_polarity: self.clock_polarity,
            data_format: self.data_format,
            master_clock: self.master_clock,
            frequency: self.frequency,
        }
    }
}

impl DualI2sDriverConfig<Slave, Transmit, Transmit, Philips> {
    /// Create a new default slave configuration.
    pub fn new_slave() -> (config: Self)
        ensures
            config@ == (DualConfigView {
                role: SlaveOrMaster::Slave,
                main_direction: TransmitOrReceive::Transmit,
                ext_direction: TransmitOrReceive::Transmit,
                standard: I2sStandard::Philips,
                clock_polarity: ClockPolarity::IdleLow,
                data_format: DataFormat::Data16Channel16,
                master_clock: false,
                frequency: Frequency::Prescaler(false, 2),
            }),
    {
        proof {
            lemma_direction_values();
            lemma_standard_values();
        }
        Self {
            slave_or_master: SlaveOrMaster::Slave,
            main_dir: TransmitOrReceive::Transmit,
            ext_dir: TransmitOrReceive::Transmit,
            standard: I2sStandard::Philips,
            clock_polarity: ClockPolarity::IdleLow,
            data_format: DataFormat::Data16Channel16,
            master_clock: false,
            frequency: Frequency::Prescaler(false, 0b10),
            _ms: PhantomData,
            _main_dir: PhantomData,
            _ext_dir: PhantomData,
            _std: PhantomData,
        }
    }
}

impl DualI2sDriverConfig<Master, Transmit, Transmit, Philips> {
    /// Create a new default master configuration.
    pub fn new_master() -> (config: Self)
        ensures
            config@ == (DualConfigView {
                role: SlaveOrMaster::Master,
                main_direction: TransmitOrReceive::Transmit,
                ext_direction: TransmitOrReceive::Transmit,
                standard: I2sStandard::Philips,
                clock_polarity: ClockPolarity::IdleLow,
                data_format: DataFormat::Data16Channel16,
                master_clock: false,
                frequency: Frequency::Prescaler(false, 2),
            }),
    {
        proof {
            lemma_direction_values();
            lemma_standard_values();
        }
        Self {
            slave_or_master: SlaveOrMaster::Master,
            main_dir: TransmitOrReceive::Transmit,
            ext_dir: TransmitOrReceive::Transmit,
            standard: I2sStandard::Philips,
            clock_polarity: ClockPolarity::IdleLow,
            data_format: DataFormat::Data16Channel16,
            master_clock: false,
            frequency: Frequency::Prescaler(false, 0b10),
            _ms: PhantomData,
            _main_dir: PhantomData,
            _ext_dir: PhantomData,
            _std: PhantomData,
        }
    }
}

impl Default for DualI2sDriverConfig<Slave, Transmit, Transmit, Philips> {
    /// Create a default configuration. This corresponds to a default slave configuration.
    fn default() -> (config: Self)
        ensures
            config@ == (DualConfigView {
                role: SlaveOrMaster::Slave,
                main_direction: TransmitOrReceive::Transmit,
                ext_direction: TransmitOrReceive::Transmit,
                standard: I2sStandard::Philips,
                clock_polarity: ClockPolarity::IdleLow,
                data_format: DataFormat::Data16Channel16,
                master_clock: false,
                frequency: Frequency::Prescaler(false, 2),
            }),
    {
        Self::new_slave()
    }
}

#[allow(non_camel_case_types)]
impl<MS: Role, MAIN_DIR: Direction, EXT_DIR: Direction, STD: crate::marker::I2sStandard> DualI2sDriverConfig<MS, MAIN_DIR, EXT_DIR, STD> {
    #[verifier::type_invariant]
    spec fn well_formed(self) -> bool {
        &&& self.slave_or_master == MS::VALUE
        &&& self.main_dir == MAIN_DIR::VALUE
        &&& self.ext_dir == EXT_DIR::VALUE
        &&& self.standard == STD::VALUE
        &&& self.frequency matches Frequency::Prescaler(_, div) ==> div >= 2
        &&& self.slave_or_master == SlaveOrMaster::Slave ==> !self.master_clock
            && self.frequency == Frequency::Prescaler(false, 2)
    }

    /// Instantiate the driver by wrapping the given [`DualI2sPeripheral`].
    ///
    /// The prescaler is computed first, from the frequency of the clock source of the device.
    /// This fails if an exact frequency is required and that frequency cannot be set; no
    /// register is touched then. Otherwise the main part, then the extension, is disabled,
    /// its interrupt and DMA requests are disabled, and its configuration and prescaler are
    /// written. Both parts are left disabled.
    pub fn dual_i2s_driver<I: DualI2sPeripheral>(self, dual_i2s_peripheral: I) -> (result: Result<
        DualI2sDriver<I, MS, MAIN_DIR, EXT_DIR, STD>,
        ConfigError,
    >)
        ensures
            match result {
                Ok(driver) => exists|i2s_clock: u32|
                    {
                        &&& #[trigger] spec_prescaler(
                            self@.frequency,
                            i2s_clock,
                            self@.master_clock,
                            self@.standard,
                            self@.data_format,
                        ) matches Some(prescaler)
                        &&& prescaler.1 >= 2
                        &&& call_ensures(I::i2s_freq, (&dual_i2s_peripheral,), i2s_clock)
                        &&& self@.slave_has_defaults()
                        &&& self@.role == MS::VALUE
                        &&& self@.main_direction == MAIN_DIR::VALUE
                        &&& self@.ext_direction == EXT_DIR::VALUE
                        &&& self@.standard == STD::VALUE
                        &&& driver.main_core().accesses() == spec_configure_main(self@, prescaler)
                        &&& driver.ext_core().accesses() == spec_configure_ext(self@, prescaler)
                    },
                Err(e) => {
                    &&& e == ConfigError::FrequencyUnreachable
                    &&& self@.frequency is Require
                    &&& self@.slave_has_defaults()
                    &&& exists|i2s_clock: u32|
                        {
                            &&& call_ensures(I::i2s_freq, (&dual_i2s_peripheral,), i2s_clock)
                            &&& #[trigger] spec_prescaler(
                                self@.frequency,
                                i2s_clock,
                                self@.master_clock,
                                self@.standard,
                                self@.data_format,
                            ) is None
                        }
                },
            },
    {
        proof {
            use_type_invariant(&self);
            lemma_direction_values();
            lemma_standard_values();
        }
        let mut dual_i2s_peripheral = dual_i2s_peripheral;
        let i2s_clock: u32 = dual_i2s_peripheral.i2s_freq();
        let prescaler = match prescaler_fields(
            self.frequency,
            i2s_clock,
            self.master_clock,
            self.standard,
            self.data_format,
        ) {
            Ok(prescaler) => prescaler,
            Err(e) => {
                assert(spec_prescaler(
                    self@.frequency,
                    i2s_clock,
                    self@.master_clock,
                    self@.standard,
                    self@.data_format,
                ) is None);
                return Err(e);
            },
        };
        proof {
            lemma_prescaler_is_valid(
                self.frequency,
                i2s_clock,
                self.master_clock,
                self.standard,
                self.data_format,
            );
        }
        let mut main_registers = Recorded::new(dual_i2s_peripheral.main_registers());
        let mut ext_registers = Recorded::new(dual_i2s_peripheral.ext_registers());
        // main peripheral setup
        setup(
            &mut main_registers,
            self.slave_or_master,
            self.main_dir,
            self.standard,
            self.data_format,
            self.master_clock,
            prescaler,
        );
        // ext peripheral setup
        setup(
            &mut ext_registers,
            SlaveOrMaster::Slave,
            self.ext_dir,
            self.standard,
            self.data_format,
            self.master_clock,
            prescaler,
        );
        let driver = DualI2sDriver::<I, MS, MAIN_DIR, EXT_DIR, STD> {
            dual_i2s_peripheral,
            main: I2sCore::new(main_registers),
            ext: I2sCore::new(ext_registers),
        };
        assert(spec_prescaler(
            self@.frequency,
            i2s_clock,
            self@.master_clock,
            self@.standard,
            self@.data_format,
        ) == Some(prescaler));
        assert(driver.main_core().accesses() =~= spec_configure_main(self@, prescaler));
        assert(driver.ext_core().accesses() =~= spec_configure_ext(self@, prescaler));
        Ok(driver)
    }

    /// Configure direction (`Transmit` or `Receive`) of main and extension part
    #[allow(non_camel_case_types)]
    pub fn direction<NEW_MAIN_DIR, NEW_EXT_DIR>(self, _main: NEW_MAIN_DIR, _ext: NEW_EXT_DIR) -> (config:
        DualI2sDriverConfig<MS, NEW_MAIN_DIR, NEW_EXT_DIR, STD>) where
        NEW_MAIN_DIR: Direction,
        NEW_EXT_DIR: Direction,

        ensures
            config@ == (DualConfigView {
                main_direction: NEW_MAIN_DIR::VALUE,
                ext_direction: NEW_EXT_DIR::VALUE,
                ..self@
            }),
    {
        proof {
            use_type_invariant(&self);
            lemma_direction_values();
            lemma_standard_values();
        }
        DualI2sDriverConfig::<MS, NEW_MAIN_DIR, NEW_EXT_DIR, STD> {
            slave_or_master: self.slave_or_master,
            main_dir: NEW_MAIN_DIR::VALUE,
            ext_dir: NEW_EXT_DIR::VALUE,
            standard: self.standard,
            clock_polarity: self.clock_polarity,
            data_format: self.data_format,
            master_clock: self.master_clock,
            frequency: self.frequency,
            _ms: PhantomData,
            _main_dir: PhantomData,
            _ext_dir: PhantomData,
            _std: PhantomData,
        }
    }

    /// Select the I2s standard to use
    #[allow(non_camel_case_types)]
    pub fn standard<NEW_STD>(self, _standard: NEW_STD) -> (config: DualI2sDriverConfig<
        MS,
        MAIN_DIR,
        EXT_DIR,
        NEW_STD,
    >) where NEW_STD: crate::marker::I2sStandard
        ensures
            config@ == (DualConfigView { standard: NEW_STD::VALUE, ..self@ }),
    {
        proof {
            use_type_invariant(&self);
            lemma_direction_values();
            lemma_standard_values();
        }
        DualI2sDriverConfig::<MS, MAIN_DIR, EXT_DIR, NEW_STD> {
            slave_or_master: self.slave_or_master,
            main_dir: self.main_dir,
            ext_dir: self.ext_dir,
            standard: NEW_STD::VALUE,
            clock_polarity: self.clock_polarity,
            data_format: self.data_format,
            master_clock: self.master_clock,
            frequency: self.frequency,
            _ms: PhantomData,
            _main_dir: PhantomData,
            _ext_dir: PhantomData,
            _std: PhantomData,
        }
    }

    /// Select steady state clock polarity. The polarity is kept with the configuration;
    /// setting a peripheral up does not write it, and the CKPOL bit stays clear.
    pub fn clock_polarity(self, polarity: ClockPolarity) -> (config: Self)
        ensures
            config@ == (DualConfigView { clock_polarity: polarity, ..self@ }),
    {
        proof {
            use_type_invariant(&self);
            lemma_direction_values();
            lemma_standard_values();
        }
        Self { clock_polarity: polarity, ..self }
    }

    /// Select data format
    pub fn data_format(self, format: DataFormat) -> (config: Self)
        ensures
            config@ == (DualConfigView { data_format: format, ..self@ }),
    {
        proof {
            use_type_invariant(&self);
            lemma_direction_values();
            lemma_standard_values();
        }
        Self { data_format: format, ..self }
    }

    /// Convert to a slave configuration. This deletes Master Only Settings: the master clock
    /// is disabled and the prescaler goes back to its default.
    pub fn to_slave(self) -> (config: DualI2sDriverConfig<Slave, MAIN_DIR, EXT_DIR, STD>)
        ensures
            config@ == (DualConfigView {
                role: SlaveOrMaster::Slave,
                master_clock: false,
                frequency: Frequency::Prescaler(false, 2),
                ..self@
            }),
    {
        proof {
            use_type_invariant(&self);
            lemma_direction_values();
            lemma_standard_values();
        }
        DualI2sDriverConfig::<Slave, MAIN_DIR, EXT_DIR, STD> {
            slave_or_master: SlaveOrMaster::Slave,
            main_dir: self.main_dir,
            ext_dir: self.ext_dir,
            standard: self.standard,
            clock_polarity: self.clock_polarity,
            data_format: self.data_format,
            master_clock: false,
            frequency: Frequency::Prescaler(false, 0b10),
            _ms: PhantomData,
            _main_dir: PhantomData,
            _ext_dir: PhantomData,
            _std: PhantomData,
        }
    }

    /// Convert to a master configuration.
    pub fn to_master(self) -> (config: DualI2sDriverConfig<Master, MAIN_DIR, EXT_DIR, STD>)
        ensures
            config@ == (DualConfigView { role: SlaveOrMaster::Master, ..self@ }),
    {
        proof {
            use_type_invariant(&self);
            lemma_direction_values();
            lemma_standard_values();
        }
        DualI2sDriverConfig::<Master, MAIN_DIR, EXT_DIR, STD> {
            slave_or_master: SlaveOrMaster::Master,
            main_dir: self.main_dir,
            ext_dir: self.ext_dir,
            standard: self.standard,
            clock_polarity: self.clock_polarity,
            data_format: self.data_format,
            master_clock: self.master_clock,
            frequency: self.frequency,
            _ms: PhantomData,
            _main_dir: PhantomData,
            _ext_dir: PhantomData,
            _std: PhantomData,
        }
    }
}

#[allow(non_camel_case_types)]
impl<MAIN_DIR: Direction, EXT_DIR: Direction, STD: crate::marker::I2sStandard> DualI2sDriverConfig<Master, MAIN_DIR, EXT_DIR, STD> {
    /// Enable/Disable Master Clock generation.
    ///
    /// This changes the effective sampling rate.
    ///
    /// This can be only set and only has meaning for Master mode.
    pub fn master_clock(self, enable: bool) -> (config: Self)
        ensures
            config@ == (DualConfigView { master_clock: enable, ..self@ }),
    {
        proof {
            use_type_invariant(&self);
            lemma_direction_values();
            lemma_standard_values();
        }
        Self { master_clock: enable, ..self }
    }

    /// Configure the audio frequency by setting the prescaler with an odd factor and a
    /// divider.
    ///
    /// This setting only has meaning and can be only set for master.
    ///
    /// `div` must be at least 2, otherwise the configuration is refused.
    pub fn prescaler(self, odd: bool, div: u8) -> (result: Result<Self, ConfigError>)
        ensures
            match result {
                Ok(config) => div >= 2 && config@ == (DualConfigView {
                    frequency: Frequency::Prescaler(odd, div),
                    ..self@
                }),
                Err(e) => div < 2 && e == ConfigError::InvalidDivider,
            },
    {
        proof {
            use_type_invariant(&self);
            lemma_direction_values();
        }
        if div < 2 {
            return Err(ConfigError::InvalidDivider);
        }
        Ok(Self { frequency: Frequency::Prescaler(odd, div), ..self })
    }

    /// Request an audio sampling frequency.
    ///
    /// The effective audio sampling frequency may be different.
    pub fn request_frequency(self, freq: u32) -> (config: Self)
        ensures
            config@ == (DualConfigView { frequency: Frequency::Request(freq), ..self@ }),
    {
        proof {
            use_type_invariant(&self);
            lemma_direction_values();
        }
        Self { frequency: Frequency::Request(freq), ..self }
    }

    /// Require exactly this audio sampling frequency.
    ///
    /// If the required frequency can not bet set, instantiating the driver will fail.
    pub fn require_frequency(self, freq: u32) -> (config: Self)
        ensures
            config@ == (DualConfigView { frequency: Frequency::Require(freq), ..self@ }),
    {
        proof {
            use_type_invariant(&self);
            lemma_direction_values();
        }
        Self { frequency: Frequency::Require(freq), ..self }
    }
}

/// Main or extension part of a `DualI2sDriver`. It owns the access to the register block of
/// its part.
///
///  - `I`: The [DualI2sPeripheral] controlled by the I2sCore.
///  - `PART`: `Main` or `Ext`. The part of [DualI2sPeripheral] controlled by I2sCore.
///  - `MS`: `Master` or `Slave`. The role of the I2sCore. Only a `Main` I2sCore can be Master.
///  - `DIR` : `Transmit` or `Receive`. Communication direction.
///  - `STD`: I2S standard, eg `Philips`
pub struct I2sCore<I: DualI2sPeripheral, PART, MS, DIR, STD> {
    registers: Recorded<I::Registers>,
    _part: PhantomData<PART>,
    _ms: PhantomData<MS>,
    _dir: PhantomData<DIR>,
    _std: PhantomData<STD>,
}

impl<I: DualI2sPeripheral, PART, MS, DIR, STD> I2sCore<I, PART, MS, DIR, STD> {
    /// The register block of this part, as the accesses made so far left it.
    pub closed spec fn block(&self) -> I::Registers {
        self.registers.inner()
    }

    /// Everything that the driver asked of the register block of this part so far.
    pub closed spec fn accesses(&self) -> Seq<Access> {
        self.registers.accesses()
    }

    fn new(registers: Recorded<I::Registers>) -> (core: Self)
        ensures
            core.accesses() == registers.accesses(),
    {
        Self {
            registers,
            _part: PhantomData,
            _ms: PhantomData,
            _dir: PhantomData,
            _std: PhantomData,
        }
    }
}

/// Methods available for any mode
impl<I: DualI2sPeripheral, PART, MS, DIR, STD> I2sCore<I, PART, MS, DIR, STD> {
    /// Enable the I2S peripheral.
    pub fn enable(&mut self)
        ensures
            exists|i2scfgr: u32|
                final(self).accesses() == old(self).accesses() + #[trigger] spec_modify_bits(
                    Register::I2scfgr,
                    i2scfgr,
                    I2SCFGR_I2SE,
                    true,
                ),
    {
        let _ = modify_bits(&mut self.registers, Register::I2scfgr, I2SCFGR_I2SE, true);
    }

    /// Immediately Disable the I2S peripheral.
    ///
    /// Generated clocks aren't reset, so a call to `reset_clocks` may required in master mode.
    ///
    /// It's up to the caller to not disable the peripheral in the middle of a frame.
    pub fn disable(&mut self)
        ensures
            exists|i2scfgr: u32|
                final(self).accesses() == old(self).accesses() + #[trigger] spec_modify_bits(
                    Register::I2scfgr,
                    i2scfgr,
                    I2SCFGR_I2SE,
                    false,
                ),
    {
        let _ = modify_bits(&mut self.registers, Register::I2scfgr, I2SCFGR_I2SE, false);
    }

    /// Get address of the data register for DMA setup: the address that the peripheral gives
    /// for the register block of this part, moved by the offset of the data register as
    /// [`register_address`] does.
    pub fn data_register_address(&self) -> (address: u32)
        ensures
            exists|base: u32| #[trigger]
                spec_is_register_address(self.block(), base, Register::Dr, address),
    {
        let base: u32 = self.registers.base_address();
        let address: u32 = register_address(base, Register::Dr);
        assert(spec_is_register_address(self.block(), base, Register::Dr, address));
        address
    }

    /// Get the content of the status register. This operation may change the register content.
    ///
    /// When reading the status register, the hardware may reset some error flags. The way
    /// each flag can be modified is documented on each [Status] flag getter.
    pub fn status(&mut self) -> (status: Status<MS, DIR, STD>)
        ensures
            final(self).accesses() == old(self).accesses() + spec_read(
                Register::Sr,
                status.bits(),
            ),
    {
        let ghost before = self.registers.accesses();
        let value: u32 = self.registers.read_register(Register::Sr);
        assert(self.registers.accesses() =~= before + spec_read(Register::Sr, value));
        Status::from_bits(value)
    }
}

/// Transmit-only methods
impl<I, PART, MS, STD> I2sCore<I, PART, MS, Transmit, STD> where I: DualI2sPeripheral {
    /// Write a raw half word to the Tx buffer and delete the TXE flag in status register.
    ///
    /// It's up to the caller to write the content when the buffer is empty.
    pub fn write_data_register(&mut self, value: u16)
        ensures
            final(self).accesses() == old(self).accesses() + spec_write(
                Register::Dr,
                value as u32,
            ),
    {
        let ghost before = self.registers.accesses();
        self.registers.write_register(Register::Dr, value as u32);
        assert(self.registers.accesses() =~= before + spec_write(Register::Dr, value as u32));
    }

    /// When set to `true`, an interrupt is generated each time the Tx buffer is empty.
    pub fn set_tx_interrupt(&mut self, enabled: bool)
        ensures
            exists|cr2: u32|
                final(self).accesses() == old(self).accesses() + #[trigger] spec_modify_bits(
                    Register::Cr2,
                    cr2,
                    CR2_TXEIE,
                    enabled,
                ),
    {
        let _ = modify_bits(&mut self.registers, Register::Cr2, CR2_TXEIE, enabled);
    }

    /// When set to `true`, a DMA request is generated each time the Tx buffer is empty.
    pub fn set_tx_dma(&mut self, enabled: bool)
        ensures
            exists|cr2: u32|
                final(self).accesses() == old(self).accesses() + #[trigger] spec_modify_bits(
                    Register::Cr2,
                    cr2,
                    CR2_TXDMAEN,
                    enabled,
                ),
    {
        let _ = modify_bits(&mut self.registers, Register::Cr2, CR2_TXDMAEN, enabled);
    }
}

/// Receive-only methods
impl<I, PART, MS, STD> I2sCore<I, PART, MS, Receive, STD> where I: DualI2sPeripheral {
    /// Read a raw value from the Rx buffer and clear the RXNE flag in status register. The
    /// value is the low 16 bits of what the hardware answers.
    pub fn read_data_register(&mut self) -> (value: u16)
        ensures
            exists|raw: u32|
                {
                    &&& final(self).accesses() == old(self).accesses() + #[trigger] spec_read(
                        Register::Dr,
                        raw,
                    )
                    &&& value == raw as u16
                },
    {
        let ghost before = self.registers.accesses();
        let raw: u32 = self.registers.read_register(Register::Dr);
        assert(self.registers.accesses() =~= before + spec_read(Register::Dr, raw));
        #[verifier::truncate]
        (raw as u16)
    }

    /// When set to `true`, an interrupt is generated each time the Rx buffer contains a new
    /// data.
    pub fn set_rx_interrupt(&mut self, enabled: bool)
        ensures
            exists|cr2: u32|
                final(self).accesses() == old(self).accesses() + #[trigger] spec_modify_bits(
                    Register::Cr2,
                    cr2,
                    CR2_RXNEIE,
                    enabled,
                ),
    {
        let _ = modify_bits(&mut self.registers, Register::Cr2, CR2_RXNEIE, enabled);
    }

    /// When set to `true`, a DMA request is generated each time the Rx buffer contains a new
    /// data.
    pub fn set_rx_dma(&mut self, enabled: bool)
        ensures
            exists|cr2: u32|
                final(self).accesses() == old(self).accesses() + #[trigger] spec_modify_bits(
                    Register::Cr2,
                    cr2,
                    CR2_RXDMAEN,
                    enabled,
                ),
    {
        let _ = modify_bits(&mut self.registers, Register::Cr2, CR2_RXDMAEN, enabled);
    }
}

/// Error interrupt, Master Receive Mode.
impl<I, STD> I2sCore<I, Main, Master, Receive, STD> where I: DualI2sPeripheral {
    /// When set to `true`, an interrupt is generated each time an error occurs.
    ///
    /// This is not available for Master Transmit because no error can occur in this mode.
    pub fn set_error_interrupt(&mut self, enabled: bool)
        ensures
            exists|cr2: u32|
                final(self).accesses() == old(self).accesses() + #[trigger] spec_modify_bits(
                    Register::Cr2,
                    cr2,
                    CR2_ERRIE,
                    enabled,
                ),
    {
        let _ = modify_bits(&mut self.registers, Register::Cr2, CR2_ERRIE, enabled);
    }
}

/// Error interrupt, Slave Mode.
impl<I, PART, DIR, STD> I2sCore<I, PART, Slave, DIR, STD> where I: DualI2sPeripheral {
    /// When set to `true`, an interrupt is generated each time an error occurs.
    ///
    /// This is not available for Master Transmit because no error can occur in this mode.
    pub fn set_error_interrupt(&mut self, enabled: bool)
        ensures
            exists|cr2: u32|
                final(self).accesses() == old(self).accesses() + #[trigger] spec_modify_bits(
                    Register::Cr2,
                    cr2,
                    CR2_ERRIE,
                    enabled,
                ),
    {
        let _ = modify_bits(&mut self.registers, Register::Cr2, CR2_ERRIE, enabled);
    }
}

/// Driver of a full duplex I2S device.
///
///  - `I`: the [DualI2sPeripheral] controlled by the driver.
///  - `MS`: `Master` or `Slave`. Role of the driver, which mainly applies to the "main" part.
///  - `MAIN_DIR` and `EXT_DIR` : Communication direction of the main and extension part, can
///    be `Transmit` or `Receive`.
///  - `STD`: I2S standard, eg `Philips`
#[allow(non_camel_case_types)]
pub struct DualI2sDriver<I: DualI2sPeripheral, MS, MAIN_DIR, EXT_DIR, STD> {
    dual_i2s_peripheral: I,
    main: I2sCore<I, Main, MS, MAIN_DIR, STD>,
    ext: I2sCore<I, Ext, Slave, EXT_DIR, STD>,
}

/// Constructors and Destructors
#[allow(non_camel_case_types)]
impl<I, MS, MAIN_DIR, EXT_DIR, STD> DualI2sDriver<I, MS, MAIN_DIR, EXT_DIR, STD> where
    I: DualI2sPeripheral,
 {
    /// The device, without its register blocks.
    pub closed spec fn peripheral(&self) -> I {
        self.dual_i2s_peripheral
    }

    /// The main part.
    pub closed spec fn main_core(&self) -> I2sCore<I, Main, MS, MAIN_DIR, STD> {
        self.main
    }

    /// The extension part.
    pub closed spec fn ext_core(&self) -> I2sCore<I, Ext, Slave, EXT_DIR, STD> {
        self.ext
    }

    /// Instantiate an i2s driver from a [`DualI2sPeripheral`] object and a configuration.
    ///
    /// This fails if an exact frequency is required by the configuration and that frequency
    /// can not be set.
    pub fn new(
        dual_i2s_peripheral: I,
        config: DualI2sDriverConfig<MS, MAIN_DIR, EXT_DIR, STD>,
    ) -> (result: Result<Self, ConfigError>) where
        MS: Role,
        MAIN_DIR: Direction,
        EXT_DIR: Direction,
        STD: crate::marker::I2sStandard,

        ensures
            match result {
                Ok(driver) => exists|i2s_clock: u32|
                    {
                        &&& #[trigger] spec_prescaler(
                            config@.frequency,
                            i2s_clock,
                            config@.master_clock,
                            config@.standard,
                            config@.data_format,
                        ) matches Some(prescaler)
                        &&& prescaler.1 >= 2
                        &&& call_ensures(I::i2s_freq, (&dual_i2s_peripheral,), i2s_clock)
                        &&& config@.slave_has_defaults()
                        &&& config@.role == MS::VALUE
                        &&& config@.main_direction == MAIN_DIR::VALUE
                        &&& config@.ext_direction == EXT_DIR::VALUE
                        &&& config@.standard == STD::VALUE
                        &&& driver.main_core().accesses() == spec_configure_main(
                            config@,
                            prescaler,
                        )
                        &&& driver.ext_core().accesses() == spec_configure_ext(config@, prescaler)
                    },
                Err(e) => {
                    &&& e == ConfigError::FrequencyUnreachable
                    &&& config@.frequency is Require
                    &&& config@.slave_has_defaults()
                    &&& exists|i2s_clock: u32|
                        {
                            &&& call_ensures(I::i2s_freq, (&dual_i2s_peripheral,), i2s_clock)
                            &&& #[trigger] spec_prescaler(
                                config@.frequency,
                                i2s_clock,
                                config@.master_clock,
                                config@.standard,
                                config@.data_format,
                            ) is None
                        }
                },
            },
    {
        config.dual_i2s_driver(dual_i2s_peripheral)
    }

    /// Destroy the driver: disable both parts, reset and release the owned i2s device. The
    /// device comes back first, then the register blocks of the main part and of the
    /// extension, each with the record of its accesses.
    pub fn release(self) -> (parts: (I, Recorded<I::Registers>, Recorded<I::Registers>))
        ensures
            exists|main_i2scfgr: u32, ext_i2scfgr: u32|
                {
                    &&& parts.1.accesses() == self.main_core().accesses()
                        + #[trigger] spec_release(main_i2scfgr)
                    &&& parts.2.accesses() == self.ext_core().accesses()
                        + #[trigger] spec_release(ext_i2scfgr)
                },
    {
        let mut driver = self;
        let ghost main_before = driver.main.registers.accesses();
        let ghost ext_before = driver.ext.registers.accesses();
        let main_i2scfgr: u32 = modify_bits(
            &mut driver.main.registers,
            Register::I2scfgr,
            I2SCFGR_I2SE,
            false,
        );
        let ext_i2scfgr: u32 = modify_bits(
            &mut driver.ext.registers,
            Register::I2scfgr,
            I2SCFGR_I2SE,
            false,
        );
        rcc_reset_both(
            &mut driver.dual_i2s_peripheral,
            &mut driver.main.registers,
            &mut driver.ext.registers,
        );
        assert(driver.main.registers.accesses() =~= main_before + spec_release(main_i2scfgr));
        assert(driver.ext.registers.accesses() =~= ext_before + spec_release(ext_i2scfgr));
        (driver.dual_i2s_peripheral, driver.main.registers, driver.ext.registers)
    }

    /// Consume the driver and create a new one with the given configuration.
    ///
    /// This fails, and the peripheral is lost with the driver, if an exact frequency is
    /// required by the configuration and that frequency cannot be set.
    #[allow(non_camel_case_types)]
    pub fn reconfigure<NEW_MS, NEW_MAIN_DIR, NEW_EXT_DIR, NEW_STD>(
        self,
        config: DualI2sDriverConfig<NEW_MS, NEW_MAIN_DIR, NEW_EXT_DIR, NEW_STD>,
    ) -> (result: Result<DualI2sDriver<I, NEW_MS, NEW_MAIN_DIR, NEW_EXT_DIR, NEW_STD>, ConfigError>) where
        NEW_MS: Role,
        NEW_MAIN_DIR: Direction,
        NEW_EXT_DIR: Direction,
        NEW_STD: crate::marker::I2sStandard,

        ensures
            match result {
                Ok(driver) => exists|i2s_clock: u32|
                    {
                        &&& #[trigger] spec_prescaler(
                            config@.frequency,
                            i2s_clock,
                            config@.master_clock,
                            config@.standard,
                            config@.data_format,
                        ) matches Some(prescaler)
                        &&& prescaler.1 >= 2
                        &&& call_ensures(I::i2s_freq, (&self.peripheral(),), i2s_clock)
                        &&& config@.slave_has_defaults()
                        &&& config@.role == NEW_MS::VALUE
                        &&& config@.main_direction == NEW_MAIN_DIR::VALUE
                        &&& config@.ext_direction == NEW_EXT_DIR::VALUE
                        &&& config@.standard == NEW_STD::VALUE
                        &&& driver.main_core().accesses() == spec_configure_main(
                            config@,
                            prescaler,
                        )
                        &&& driver.ext_core().accesses() == spec_configure_ext(config@, prescaler)
                    },
                Err(e) => {
                    &&& e == ConfigError::FrequencyUnreachable
                    &&& config@.frequency is Require
                    &&& config@.slave_has_defaults()
                    &&& exists|i2s_clock: u32|
                        {
                            &&& call_ensures(I::i2s_freq, (&self.peripheral(),), i2s_clock)
                            &&& #[trigger] spec_prescaler(
                                config@.frequency,
                                i2s_clock,
                                config@.master_clock,
                                config@.standard,
                                config@.data_format,
                            ) is None
                        }
                },
            },
    {
        let i2s_peripheral = self.dual_i2s_peripheral;
        config.dual_i2s_driver(i2s_peripheral)
    }
}

#[allow(non_camel_case_types)]
impl<I, MS, MAIN_DIR, EXT_DIR, STD> DualI2sDriver<I, MS, MAIN_DIR, EXT_DIR, STD> where
    I: DualI2sPeripheral,
 {
    /// Get a mutable handle to the main part
    pub fn main(&mut self) -> (core: &mut I2sCore<I, Main, MS, MAIN_DIR, STD>)
        ensures
            *core == old(self).main_core(),
            final(self).main_core() == *final(core),
            final(self).ext_core() == old(self).ext_core(),
    {
        &mut self.main
    }

    /// Get a handle to the extension part
    pub fn ext(&mut self) -> (core: &mut I2sCore<I, Ext, Slave, EXT_DIR, STD>)
        ensures
            *core == old(self).ext_core(),
            final(self).ext_core() == *final(core),
            final(self).main_core() == old(self).main_core(),
    {
        &mut self.ext
    }

    /// Get a reference to the WS pin: the one that the device hands out.
    pub fn ws_pin(&self) -> (pin: &I::WsPin)
        ensures
            call_ensures(I::ws_pin, (&self.peripheral(),), pin),
    {
        self.dual_i2s_peripheral.ws_pin()
    }

    /// Get a mutable reference to the WS pin: the one that the device hands out when it is
    /// borrowed until the caller is done with the pin. Working on the pin makes no register
    /// access.
    pub fn ws_pin_mut(&mut self) -> (pin: &mut I::WsPin)
        ensures
            final(self).main_core() == old(self).main_core(),
            final(self).ext_core() == old(self).ext_core(),
            exists|device: &mut I|
                {
                    &&& *device == old(self).peripheral()
                    &&& *final(device) == final(self).peripheral()
                    &&& #[trigger] call_ensures(I::ws_pin_mut, (device,), pin)
                },
    {
        self.dual_i2s_peripheral.ws_pin_mut()
    }
}

/// Master-only methods
#[allow(non_camel_case_types)]
impl<I, MAIN_DIR, EXT_DIR, STD> DualI2sDriver<I, Master, MAIN_DIR, EXT_DIR, STD> where
    I: DualI2sPeripheral,
 {
    /// Reset clocks generated by the peripheral.
    ///
    /// This also clears the status and data registers.
    ///
    /// The registers that hold the settings of both parts are read, the two peripherals go
    /// through one bus reset, and the settings of both are written back as they were read:
    /// neither part is left with the settings of a reset.
    ///
    /// This allows immediately starting a new frame when an error occurs or before re-enabling
    /// the driver.
    pub fn reset_clocks(&mut self)
        ensures
            exists|main_cr2: u32, main_i2scfgr: u32, main_i2spr: u32|
                final(self).main_core().accesses() == old(self).main_core().accesses()
                    + #[trigger] spec_reset_clocks(main_cr2, main_i2scfgr, main_i2spr),
            exists|ext_cr2: u32, ext_i2scfgr: u32, ext_i2spr: u32|
                final(self).ext_core().accesses() == old(self).ext_core().accesses()
                    + #[trigger] spec_reset_clocks(ext_cr2, ext_i2scfgr, ext_i2spr),
    {
        let ghost main_before = self.main.registers.accesses();
        let ghost ext_before = self.ext.registers.accesses();
        let main_cr2: u32 = self.main.registers.read_register(Register::Cr2);
        let main_i2scfgr: u32 = self.main.registers.read_register(Register::I2scfgr);
        let main_i2spr: u32 = self.main.registers.read_register(Register::I2spr);
        let ext_cr2: u32 = self.ext.registers.read_register(Register::Cr2);
        let ext_i2scfgr: u32 = self.ext.registers.read_register(Register::I2scfgr);
        let ext_i2spr: u32 = self.ext.registers.read_register(Register::I2spr);
        rcc_reset_both(
            &mut self.dual_i2s_peripheral,
            &mut self.main.registers,
            &mut self.ext.registers,
        );
        self.ext.registers.write_register(Register::Cr2, ext_cr2);
        self.ext.registers.write_register(Register::I2spr, ext_i2spr);
        self.ext.registers.write_register(Register::I2scfgr, ext_i2scfgr);
        self.main.registers.write_register(Register::Cr2, main_cr2);
        self.main.registers.write_register(Register::I2spr, main_i2spr);
        self.main.registers.write_register(Register::I2scfgr, main_i2scfgr);
        assert(self.main.registers.accesses() =~= main_before + spec_reset_clocks(
            main_cr2,
            main_i2scfgr,
            main_i2spr,
        ));
        assert(self.ext.registers.accesses() =~= ext_before + spec_reset_clocks(
            ext_cr2,
            ext_i2scfgr,
            ext_i2spr,
        ));
    }

    /// Get the actual sample rate imposed by the driver, computed from the content of the
    /// configuration and prescaler registers of the main part and from the frequency of the
    /// clock source.
    ///
    /// This allows client code to check deviation from the requested frequency.
    pub fn sample_rate(&mut self) -> (rate: u32)
        ensures
            final(self).ext_core() == old(self).ext_core(),
            final(self).peripheral() == old(self).peripheral(),
            exists|i2s_clock: u32, i2scfgr: u32, i2spr: u32|
                {
                    &&& final(self).main_core().accesses() == old(self).main_core().accesses()
                        + #[trigger] spec_read_sample_rate(i2scfgr, i2spr)
                    &&& call_ensures(I::i2s_freq, (&old(self).peripheral(),), i2s_clock)
                    &&& rate == #[trigger] spec_sample_rate(i2s_clock, i2scfgr, i2spr)
                },
    {
        let ghost before = self.main.registers.accesses();
        let i2scfgr: u32 = self.main.registers.read_register(Register::I2scfgr);
        let i2spr: u32 = self.main.registers.read_register(Register::I2spr);
        let i2s_clock: u32 = self.dual_i2s_peripheral.i2s_freq();
        assert(self.main.registers.accesses() =~= before + spec_read_sample_rate(i2scfgr, i2spr));
        sample_rate(i2s_clock, i2scfgr, i2spr)
    }
}

} // verus!
