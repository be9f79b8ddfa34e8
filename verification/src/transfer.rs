//! Abstraction to transfer I2S data.
//!
//! The API of this module allows transferring I2S audio data while hiding the hardware
//! details. The job is mainly done by [`I2sTransfer`], a type that wraps an
//! [`I2sPeripheral`] to control it.
//!
//! A transfer moves frames. A frame is a pair of samples, left then right, with the Philips,
//! MSB and LSB standards, and one sample with the PCM standards. The data register only takes
//! 16 bits at a time, so a frame crosses it as one, two or four words; the transfer keeps the
//! frame in progress and a cursor on the next word.
//!
//! The non-blocking entry points, `write`, `write_step` and `read`, do at most one poll of the
//! status register and one access to the data register, and say "would block" when there is
//! nothing to do yet. The blocking ones, `write_iter` and `read_while`, take the same steps
//! one after the other, up to a number of polls that the caller gives: no call waits for the
//! hardware for ever. The same transfer can be driven from a busy loop or from an interrupt
//! handler.
//!
//! # Slave synchronisation
//!
//! A slave starts out of synchronisation, with the peripheral disabled. It may only be
//! enabled while the WS line is *not* at the level that starts a frame, so that the next edge
//! starts one. The transfer looks at the line, enables the peripheral, and looks again: if the
//! line moved meanwhile, the peripheral is disabled at once and the next poll tries again. A
//! frame error, an underrun or an overrun sends a synchronised slave back to the start, with
//! the frame in progress dropped: some audio is lost, and the transfer goes on.
//!
//! A master that receives cannot recover from an overrun by itself: the error is returned,
//! and the transfer is left disabled with its clocks reset.

use vstd::prelude::*;
use core::convert::Infallible;
use core::marker::PhantomData;
use crate::driver::I2sDriver as Driver;
use crate::driver::I2sDriverConfig as DriverConfig;
use crate::driver::{spec_configure, spec_prescaler, spec_read_sample_rate, ClockPolarity};
use crate::driver::{
    ConfigError, ConfigView, Frequency, ReceiveError, SlaveOrMaster, TransmitOrReceive,
};
use crate::format::{
    build_sample_24, build_sample_32, frame_len, split_sample_24, split_sample_32, RawFrame,
};
use crate::format::{
    spec_build_sample_24, spec_build_sample_32, spec_frame_len, spec_split_sample_24,
    spec_split_sample_32,
};
use crate::marker::lemma_data_format_values;
use crate::marker::{
    ChannelFlag, Data16Channel16, Data16Channel32, Data24Channel32, Data32Channel32,
    DataFormat, Direction, I2sStandard, Master, NoChannelFlag, Philips, Receive, Role, Slave,
    Transmit,
};
use crate::prescaler::spec_sample_rate;
use crate::protocol::{
    spec_master_read_run, spec_master_read_stops, spec_master_read_while_step,
    spec_master_receive_step, spec_slave_read_run, spec_slave_read_stops,
    spec_slave_write_run, spec_slave_write_stops, spec_take_overrun,
};
use crate::protocol::{spec_master_write_run, spec_master_write_stops, spec_next_frame};
use crate::protocol::{
    spec_advance, spec_after, spec_emit, spec_master_read_step, spec_master_write_step,
    spec_receive, spec_restart, spec_silence, spec_slave_read_step, spec_slave_write_step,
    spec_stop, spec_stop_master, spec_valid,
};
use crate::protocol::{
    MasterReceiveInputs, ReadStep, SlaveReceiveInputs, SlaveTransmitInputs, TransferView,
    WriteStep,
};
use crate::registers::{
    spec_has_bits, spec_modify_bits, spec_read, spec_reset_clocks, spec_write, spec_ws_look,
    Access, Recorded, Register,
};
use crate::registers::{I2SCFGR_I2SE, SR_FRE, SR_OVR, SR_RXNE, SR_TXE, SR_UDR};
use crate::sealed::Sealed;
use crate::{I2sPeripheral, WsPin};

verus! {

/// Why a non-blocking operation gave no result.
#[derive(Debug, PartialEq, Eq)]
pub enum Error<E> {
    /// The operation failed.
    Other(E),
    /// The operation cannot be completed yet: it has to be tried again.
    WouldBlock,
}

impl<E: Copy> Clone for Error<E> {
    fn clone(&self) -> (error: Self)
        ensures
            error == *self,
    {
        *self
    }
}

impl<E: Copy> Copy for Error<E> {

}

/// Trait to get the length of the frames of an `I2sTransfer` from markers.
pub trait FrameFormat: Sealed {
    /// Number of 16-bit words of a frame.
    spec fn spec_len() -> nat;

    /// Number of 16-bit words of a frame.
    fn len() -> (len: u8)
        ensures
            len == Self::spec_len(),
            len == 1 || len == 2 || len == 4,
    ;
}

impl<STD: I2sStandard, FMT: DataFormat> FrameFormat for (STD, FMT) {
    open spec fn spec_len() -> nat {
        spec_frame_len(STD::VALUE, FMT::VALUE)
    }

    fn len() -> (len: u8) {
        frame_len(STD::VALUE, FMT::VALUE)
    }
}

/// Types written to `I2sTransfer`.
pub trait ToRawFrame<STD, FMT> where (STD, FMT): FrameFormat {
    /// The words of the frame, in the order in which they are sent.
    spec fn spec_to_raw(&self) -> Seq<u16>;

    /// The words of the frame, in the order in which they are sent.
    fn to_raw(&self) -> (raw: RawFrame)
        ensures
            raw@ == self.spec_to_raw(),
            raw@.len() == <(STD, FMT) as FrameFormat>::spec_len(),
    ;
}

/// Types read from `I2sTransfer`.
pub trait FromRawFrame<STD, FMT>: Sized where (STD, FMT): FrameFormat {
    /// The frame that the words carry.
    spec fn spec_from_raw(raw: Seq<u16>) -> Self;

    /// The frame that the words carry.
    fn from_raw(raw: RawFrame) -> (frame: Self)
        requires
            raw@.len() == <(STD, FMT) as FrameFormat>::spec_len(),
        ensures
            frame == Self::spec_from_raw(raw@),
    ;
}

/// The two words of a pair of 16-bit samples.
pub open spec fn spec_stereo_16_to_raw(frame: (i16, i16)) -> Seq<u16> {
    seq![frame.0 as u16, frame.1 as u16]
}

/// The pair of 16-bit samples that two words carry.
pub open spec fn spec_stereo_16_from_raw(raw: Seq<u16>) -> (i16, i16) {
    (raw[0] as i16, raw[1] as i16)
}

fn stereo_16_to_raw(frame: &(i16, i16)) -> (raw: RawFrame)
    ensures
        raw@ == spec_stereo_16_to_raw(*frame),
{
    let left: u16 = #[verifier::truncate] (frame.0 as u16);
    let right: u16 = #[verifier::truncate] (frame.1 as u16);
    let words: [u16; 2] = [left, right];
    assert(words@ =~= spec_stereo_16_to_raw(*frame));
    RawFrame::from2(words)
}

fn stereo_16_from_raw(raw: RawFrame) -> (frame: (i16, i16))
    requires
        raw@.len() == 2,
    ensures
        frame == spec_stereo_16_from_raw(raw@),
{
    let left: i16 = #[verifier::truncate] (raw.word(0) as i16);
    let right: i16 = #[verifier::truncate] (raw.word(1) as i16);
    (left, right)
}

fn mono_16_to_raw(frame: i16) -> (raw: RawFrame)
    ensures
        raw@ == seq![frame as u16],
{
    let word: u16 = #[verifier::truncate] (frame as u16);
    let words: [u16; 1] = [word];
    assert(words@ =~= seq![frame as u16]);
    RawFrame::from1(words)
}

fn mono_16_from_raw(raw: RawFrame) -> (frame: i16)
    requires
        raw@.len() == 1,
    ensures
        frame == raw@[0] as i16,
{
    #[verifier::truncate]
    (raw.word(0) as i16)
}

fn stereo_to_raw(left: [u16; 2], right: [u16; 2]) -> (raw: RawFrame)
    ensures
        raw@ == left@ + right@,
{
    let words: [u16; 4] = [left[0], left[1], right[0], right[1]];
    assert(words@ =~= left@ + right@);
    RawFrame::from4(words)
}

fn stereo_from_raw(raw: RawFrame) -> (halves: ([u16; 2], [u16; 2]))
    requires
        raw@.len() == 4,
    ensures
        halves.0@ == raw@.subrange(0, 2),
        halves.1@ == raw@.subrange(2, 4),
{
    let left: [u16; 2] = [raw.word(0), raw.word(1)];
    let right: [u16; 2] = [raw.word(2), raw.word(3)];
    assert(left@ =~= raw@.subrange(0, 2));
    assert(right@ =~= raw@.subrange(2, 4));
    (left, right)
}

fn mono_from_raw(raw: RawFrame) -> (words: [u16; 2])
    requires
        raw@.len() == 2,
    ensures
        words@ == raw@,
{
    let words: [u16; 2] = [raw.word(0), raw.word(1)];
    assert(words@ =~= raw@);
    words
}

impl<STD: ChannelFlag> ToRawFrame<STD, Data16Channel16> for (i16, i16) {
    open spec fn spec_to_raw(&self) -> Seq<u16> {
        spec_stereo_16_to_raw(*self)
    }

    fn to_raw(&self) -> (raw: RawFrame) {
        proof {
            STD::lemma_is_stereo();
            lemma_data_format_values();
        }
        stereo_16_to_raw(self)
    }
}

impl<STD: ChannelFlag> ToRawFrame<STD, Data16Channel32> for (i16, i16) {
    open spec fn spec_to_raw(&self) -> Seq<u16> {
        spec_stereo_16_to_raw(*self)
    }

    fn to_raw(&self) -> (raw: RawFrame) {
        proof {
            STD::lemma_is_stereo();
            lemma_data_format_values();
        }
        stereo_16_to_raw(self)
    }
}

impl<STD: ChannelFlag> ToRawFrame<STD, Data24Channel32> for (i32, i32) {
    open spec fn spec_to_raw(&self) -> Seq<u16> {
        spec_split_sample_24(STD::VALUE, self.0) + spec_split_sample_24(STD::VALUE, self.1)
    }

    fn to_raw(&self) -> (raw: RawFrame) {
        proof {
            STD::lemma_is_stereo();
            lemma_data_format_values();
        }
        stereo_to_raw(split_sample_24(STD::VALUE, self.0), split_sample_24(STD::VALUE, self.1))
    }
}

impl<STD: ChannelFlag> ToRawFrame<STD, Data32Channel32> for (i32, i32) {
    open spec fn spec_to_raw(&self) -> Seq<u16> {
        spec_split_sample_32(self.0) + spec_split_sample_32(self.1)
    }

    fn to_raw(&self) -> (raw: RawFrame) {
        proof {
            STD::lemma_is_stereo();
            lemma_data_format_values();
        }
        stereo_to_raw(split_sample_32(self.0), split_sample_32(self.1))
    }
}

impl<STD: NoChannelFlag> ToRawFrame<STD, Data16Channel16> for i16 {
    open spec fn spec_to_raw(&self) -> Seq<u16> {
        seq![*self as u16]
    }

    fn to_raw(&self) -> (raw: RawFrame) {
        proof {
            STD::lemma_is_mono();
            lemma_data_format_values();
        }
        mono_16_to_raw(*self)
    }
}

impl<STD: NoChannelFlag> ToRawFrame<STD, Data16Channel32> for i16 {
    open spec fn spec_to_raw(&self) -> Seq<u16> {
        seq![*self as u16]
    }

    fn to_raw(&self) -> (raw: RawFrame) {
        proof {
            STD::lemma_is_mono();
            lemma_data_format_values();
        }
        mono_16_to_raw(*self)
    }
}

impl<STD: NoChannelFlag> ToRawFrame<STD, Data24Channel32> for i32 {
    open spec fn spec_to_raw(&self) -> Seq<u16> {
        spec_split_sample_24(STD::VALUE, *self)
    }

    fn to_raw(&self) -> (raw: RawFrame) {
        proof {
            STD::lemma_is_mono();
            lemma_data_format_values();
        }
        RawFrame::from2(split_sample_24(STD::VALUE, *self))
    }
}

impl<STD: NoChannelFlag> ToRawFrame<STD, Data32Channel32> for i32 {
    open spec fn spec_to_raw(&self) -> Seq<u16> {
        spec_split_sample_32(*self)
    }

    fn to_raw(&self) -> (raw: RawFrame) {
        proof {
            STD::lemma_is_mono();
            lemma_data_format_values();
        }
        RawFrame::from2(split_sample_32(*self))
    }
}

impl<STD: ChannelFlag> FromRawFrame<STD, Data16Channel16> for (i16, i16) {
    open spec fn spec_from_raw(raw: Seq<u16>) -> Self {
        spec_stereo_16_from_raw(raw)
    }

    fn from_raw(raw: RawFrame) -> (frame: Self) {
        proof {
            STD::lemma_is_stereo();
            lemma_data_format_values();
        }
        stereo_16_from_raw(raw)
    }
}

impl<STD: ChannelFlag> FromRawFrame<STD, Data16Channel32> for (i16, i16) {
    open spec fn spec_from_raw(raw: Seq<u16>) -> Self {
        spec_stereo_16_from_raw(raw)
    }

    fn from_raw(raw: RawFrame) -> (frame: Self) {
        proof {
            STD::lemma_is_stereo();
            lemma_data_format_values();
        }
        stereo_16_from_raw(raw)
    }
}

impl<STD: ChannelFlag> FromRawFrame<STD, Data24Channel32> for (i32, i32) {
    open spec fn spec_from_raw(raw: Seq<u16>) -> Self {
        (
            spec_build_sample_24(STD::VALUE, raw.subrange(0, 2)),
            spec_build_sample_24(STD::VALUE, raw.subrange(2, 4)),
        )
    }

    fn from_raw(raw: RawFrame) -> (frame: Self) {
        proof {
            STD::lemma_is_stereo();
            lemma_data_format_values();
        }
        let (left, right) = stereo_from_raw(raw);
        (build_sample_24(STD::VALUE, left), build_sample_24(STD::VALUE, right))
    }
}

impl<STD: ChannelFlag> FromRawFrame<STD, Data32Channel32> for (i32, i32) {
    open spec fn spec_from_raw(raw: Seq<u16>) -> Self {
        (spec_build_sample_32(raw.subrange(0, 2)), spec_build_sample_32(raw.subrange(2, 4)))
    }

    fn from_raw(raw: RawFrame) -> (frame: Self) {
        proof {
            STD::lemma_is_stereo();
            lemma_data_format_values();
        }
        let (left, right) = stereo_from_raw(raw);
        (build_sample_32(left), build_sample_32(right))
    }
}

impl<STD: NoChannelFlag> FromRawFrame<STD, Data16Channel16> for i16 {
    open spec fn spec_from_raw(raw: Seq<u16>) -> Self {
        raw[0] as i16
    }

    fn from_raw(raw: RawFrame) -> (frame: Self) {
        proof {
            STD::lemma_is_mono();
            lemma_data_format_values();
        }
        mono_16_from_raw(raw)
    }
}

impl<STD: NoChannelFlag> FromRawFrame<STD, Data16Channel32> for i16 {
    open spec fn spec_from_raw(raw: Seq<u16>) -> Self {
        raw[0] as i16
    }

    fn from_raw(raw: RawFrame) -> (frame: Self) {
        proof {
            STD::lemma_is_mono();
            lemma_data_format_values();
        }
        mono_16_from_raw(raw)
    }
}

impl<STD: NoChannelFlag> FromRawFrame<STD, Data24Channel32> for i32 {
    open spec fn spec_from_raw(raw: Seq<u16>) -> Self {
        spec_build_sample_24(STD::VALUE, raw)
    }

    fn from_raw(raw: RawFrame) -> (frame: Self) {
        proof {
            STD::lemma_is_mono();
            lemma_data_format_values();
        }
        build_sample_24(STD::VALUE, mono_from_raw(raw))
    }
}

impl<STD: NoChannelFlag> FromRawFrame<STD, Data32Channel32> for i32 {
    open spec fn spec_from_raw(raw: Seq<u16>) -> Self {
        spec_build_sample_32(raw)
    }

    fn from_raw(raw: RawFrame) -> (frame: Self) {
        proof {
            STD::lemma_is_mono();
            lemma_data_format_values();
        }
        build_sample_32(mono_from_raw(raw))
    }
}


/// Errors that may require a special handling: what can go wrong while a transfer
/// receives. A transfer only ever answers with `Overrun`, and only as a master; the error
/// carries the word that the data register held when the overrun was found.
pub type I2sTransferError = ReceiveError;

/// The words of the frame offered, if one is.
pub open spec fn spec_offer<STD, FMT, T: ToRawFrame<STD, FMT>>(next: Option<T>) -> Option<
    Seq<u16>,
> where (STD, FMT): FrameFormat {
    match next {
        Some(frame) => Some(frame.spec_to_raw()),
        None => None,
    }
}

/// What `write` answers after a step: the frame was taken, or the call would block.
pub open spec fn spec_write_result(step: WriteStep) -> Result<(), Error<Infallible>> {
    if step == WriteStep::Accepted {
        Ok(())
    } else {
        Err(Error::WouldBlock)
    }
}


/// [`I2sTransfer`] configuration.
///
///  - `MS`: `Master` or `Slave`
///  - `DIR`: `Transmit` or `Receive`
///  - `STD`: I2S standard, eg `Philips`
///  - `FMT`: Frame Format marker, eg `Data16Channel16`
///
/// **Note:** because of its typestate, methods of this type don't modify a config object. They
/// return a new object instead.
///
/// The role, the direction, the standard and the data format that a configuration holds are
/// always those of its markers.
#[derive(Debug)]
pub struct I2sTransferConfig<MS: Role, DIR: Direction, STD: I2sStandard, FMT: DataFormat> {
    driver_config: DriverConfig<MS, DIR, STD>,
    _fmt: PhantomData<FMT>,
}

impl<MS: Role, DIR: Direction, STD: I2sStandard, FMT: DataFormat> Clone for I2sTransferConfig<MS, DIR, STD, FMT> {
    fn clone(&self) -> (config: Self)
        ensures
            config == *self,
    {
        *self
    }
}

impl<MS: Role, DIR: Direction, STD: I2sStandard, FMT: DataFormat> Copy for I2sTransferConfig<MS, DIR, STD, FMT> {

}

impl<MS: Role, DIR: Direction, STD: I2sStandard, FMT: DataFormat> View for I2sTransferConfig<MS, DIR, STD, FMT> {
    type V = ConfigView;

    closed spec fn view(&self) -> ConfigView {
        self.driver_config@
    }
}

impl I2sTransferConfig<Slave, Transmit, Philips, Data16Channel16> {
    /// Create a new default slave configuration.
    pub fn new_slave() -> (config: Self)
        ensures
            config@ == (ConfigView {
                role: SlaveOrMaster::Slave,
                direction: TransmitOrReceive::Transmit,
                standard: crate::driver::I2sStandard::Philips,
                clock_polarity: ClockPolarity::IdleLow,
                data_format: crate::driver::DataFormat::Data16Channel16,
                master_clock: false,
                frequency: Frequency::Prescaler(false, 2),
            }),
    {
        proof {
            lemma_data_format_values();
        }
        Self { driver_config: DriverConfig::new_slave(), _fmt: PhantomData }
    }
}

impl I2sTransferConfig<Master, Transmit, Philips, Data16Channel16> {
    /// Create a new default master configuration.
    pub fn new_master() -> (config: Self)
        ensures
            config@ == (ConfigView {
                role: SlaveOrMaster::Master,
                direction: TransmitOrReceive::Transmit,
                standard: crate::driver::I2sStandard::Philips,
                clock_polarity: ClockPolarity::IdleLow,
                data_format: crate::driver::DataFormat::Data16Channel16,
                master_clock: false,
                frequency: Frequency::Prescaler(false, 2),
            }),
    {
        proof {
            lemma_data_format_values();
        }
        Self { driver_config: DriverConfig::new_master(), _fmt: PhantomData }
    }
}

impl Default for I2sTransferConfig<Slave, Transmit, Philips, Data16Channel16> {
    /// Create a default configuration. This corresponds to a default slave configuration.
    fn default() -> (config: Self)
        ensures
            config@ == (ConfigView {
                role: SlaveOrMaster::Slave,
                direction: TransmitOrReceive::Transmit,
                standard: crate::driver::I2sStandard::Philips,
                clock_polarity: ClockPolarity::IdleLow,
                data_format: crate::driver::DataFormat::Data16Channel16,
                master_clock: false,
                frequency: Frequency::Prescaler(false, 2),
            }),
    {
        Self::new_slave()
    }
}

impl<MS: Role, DIR: Direction, STD: I2sStandard, FMT: DataFormat> I2sTransferConfig<MS, DIR, STD, FMT> {
    #[verifier::type_invariant]
    spec fn well_formed(self) -> bool {
        self.driver_config@.data_format == FMT::VALUE
    }

    /// Create a `I2sTransfer` object around an [`I2sPeripheral`] object.
    ///
    /// This fails if an exact frequency is required and that frequency can not be set. The
    /// transfer starts with no frame in progress, out of synchronisation, and with the
    /// peripheral disabled.
    pub fn i2s_transfer<I: I2sPeripheral>(self, i2s_peripheral: I) -> (result: Result<
        I2sTransfer<I, MS, DIR, STD, FMT>,
        ConfigError,
    >)
        ensures
            match result {
                Ok(transfer) => exists|i2s_clock: u32|
                    {
                        &&& #[trigger] spec_prescaler(
                            self@.frequency,
                            i2s_clock,
                            self@.master_clock,
                            self@.standard,
                            self@.data_format,
                        ) matches Some(prescaler)
                        &&& prescaler.1 >= 2
                        &&& call_ensures(I::i2s_freq, (&i2s_peripheral,), i2s_clock)
                        &&& self@.slave_has_defaults()
                        &&& self@.role == MS::VALUE
                        &&& self@.direction == DIR::VALUE
                        &&& self@.standard == STD::VALUE
                        &&& self@.data_format == FMT::VALUE
                        &&& transfer@ == (TransferView {
                            frame: spec_silence(<(STD, FMT) as FrameFormat>::spec_len()),
                            cursor: 0,
                            sync: false,
                            accesses: spec_configure(self@, prescaler),
                        })
                    },
                Err(e) => {
                    &&& e == ConfigError::FrequencyUnreachable
                    &&& self@.frequency is Require
                    &&& self@.slave_has_defaults()
                    &&& exists|i2s_clock: u32|
                        {
                            &&& call_ensures(I::i2s_freq, (&i2s_peripheral,), i2s_clock)
                            &&& #[trigger] spec_prescaler(
                                self@.frequency,
                                i2s_clock,
                                self@.master_clock,
                                self@.standard,
                                self@.data_format,
                            ) is None
                        }
                },
            },
    {
        proof {
            use_type_invariant(&self);
        }
        let driver = match self.driver_config.i2s_driver(i2s_peripheral) {
            Ok(driver) => driver,
            Err(e) => {
                return Err(e);
            },
        };
        Ok(
            I2sTransfer::<I, MS, DIR, STD, FMT> { driver, progress: Progress::new(), sync: false },
        )
    }
}

impl<MS: Role, DIR: Direction, STD: I2sStandard, FMT: DataFormat> I2sTransferConfig<MS, DIR, STD, FMT> {
    /// Configure for transmitting data.
    pub fn transmit(self) -> (config: I2sTransferConfig<MS, Transmit, STD, FMT>)
        ensures
            config@ == (ConfigView { direction: TransmitOrReceive::Transmit, ..self@ }),
    {
        proof {
            use_type_invariant(&self);
            lemma_data_format_values();
        }
        I2sTransferConfig::<MS, Transmit, STD, FMT> {
            driver_config: self.driver_config.transmit(),
            _fmt: PhantomData,
        }
    }

    /// Configure for receiving data.
    pub fn receive(self) -> (config: I2sTransferConfig<MS, Receive, STD, FMT>)
        ensures
            config@ == (ConfigView { direction: TransmitOrReceive::Receive, ..self@ }),
    {
        proof {
            use_type_invariant(&self);
            lemma_data_format_values();
        }
        I2sTransferConfig::<MS, Receive, STD, FMT> {
            driver_config: self.driver_config.receive(),
            _fmt: PhantomData,
        }
    }

    /// Select the I2s standard to use. The parameter is just a marker implementing
    /// [`I2sStandard`].
    #[allow(non_camel_case_types)]
    pub fn standard<NEW_STD>(self, _standard: NEW_STD) -> (config: I2sTransferConfig<
        MS,
        DIR,
        NEW_STD,
        FMT,
    >) where NEW_STD: I2sStandard
        ensures
            config@ == (ConfigView { standard: NEW_STD::VALUE, ..self@ }),
    {
        proof {
            use_type_invariant(&self);
            lemma_data_format_values();
        }
        I2sTransferConfig::<MS, DIR, NEW_STD, FMT> {
            driver_config: self.driver_config.standard(_standard),
            _fmt: PhantomData,
        }
    }

    /// Select steady state clock polarity. The polarity is kept with the configuration;
    /// setting a peripheral up does not write it, and the CKPOL bit stays clear.
    pub fn clock_polarity(self, polarity: ClockPolarity) -> (config: Self)
        ensures
            config@ == (ConfigView { clock_polarity: polarity, ..self@ }),
    {
        proof {
            use_type_invariant(&self);
            lemma_data_format_values();
        }
        I2sTransferConfig::<MS, DIR, STD, FMT> {
            driver_config: self.driver_config.clock_polarity(polarity),
            _fmt: PhantomData,
        }
    }

    /// Select data format. The parameter is just a marker implementing [`DataFormat`].
    #[allow(non_camel_case_types)]
    pub fn data_format<NEW_FMT>(self, _format: NEW_FMT) -> (config: I2sTransferConfig<
        MS,
        DIR,
        STD,
        NEW_FMT,
    >) where NEW_FMT: DataFormat
        ensures
            config@ == (ConfigView { data_format: NEW_FMT::VALUE, ..self@ }),
    {
        proof {
            use_type_invariant(&self);
            lemma_data_format_values();
        }
        I2sTransferConfig::<MS, DIR, STD, NEW_FMT> {
            driver_config: self.driver_config.data_format(NEW_FMT::VALUE),
            _fmt: PhantomData,
        }
    }

    /// Convert to a slave configuration.
    ///
    /// This deletes Master Only Settings.
    pub fn to_slave(self) -> (config: I2sTransferConfig<Slave, DIR, STD, FMT>)
        ensures
            config@ == (ConfigView {
                role: SlaveOrMaster::Slave,
                master_clock: false,
                frequency: Frequency::Prescaler(false, 2),
                ..self@
            }),
    {
        proof {
            use_type_invariant(&self);
            lemma_data_format_values();
        }
        I2sTransferConfig::<Slave, DIR, STD, FMT> {
            driver_config: self.driver_config.to_slave(),
            _fmt: PhantomData,
        }
    }

    /// Convert to a master configuration.
    pub fn to_master(self) -> (config: I2sTransferConfig<Master, DIR, STD, FMT>)
        ensures
            config@ == (ConfigView { role: SlaveOrMaster::Master, ..self@ }),
    {
        proof {
            use_type_invariant(&self);
            lemma_data_format_values();
        }
        I2sTransferConfig::<Master, DIR, STD, FMT> {
            driver_config: self.driver_config.to_master(),
            _fmt: PhantomData,
        }
    }
}

impl<DIR: Direction, STD: I2sStandard, FMT: DataFormat> I2sTransferConfig<Master, DIR, STD, FMT> {
    /// Enable/Disable Master Clock.
    ///
    /// This changes the effective sampling rate.
    ///
    /// This applies to Master mode only.
    pub fn master_clock(self, enable: bool) -> (config: Self)
        ensures
            config@ == (ConfigView { master_clock: enable, ..self@ }),
    {
        proof {
            use_type_invariant(&self);
            lemma_data_format_values();
        }
        I2sTransferConfig::<Master, DIR, STD, FMT> {
            driver_config: self.driver_config.master_clock(enable),
            _fmt: PhantomData,
        }
    }

    /// Configure audio sample rate of the transfer by setting the prescaler with an odd
    /// factor and a divider.
    ///
    /// This setting applies to Master mode only.
    ///
    /// `div` must be at least 2, otherwise the configuration is refused.
    pub fn prescaler(self, odd: bool, div: u8) -> (result: Result<Self, ConfigError>)
        ensures
            match result {
                Ok(config) => div >= 2 && config@ == (ConfigView {
                    frequency: Frequency::Prescaler(odd, div),
                    ..self@
                }),
                Err(e) => div < 2 && e == ConfigError::InvalidDivider,
            },
    {
        proof {
            use_type_invariant(&self);
        }
        match self.driver_config.prescaler(odd, div) {
            Ok(driver_config) => Ok(
                I2sTransferConfig::<Master, DIR, STD, FMT> { driver_config, _fmt: PhantomData },
            ),
            Err(e) => Err(e),
        }
    }

    /// Request an audio sampling frequency. The effective audio sampling frequency may be
    /// different.
    pub fn request_frequency(self, freq: u32) -> (config: Self)
        ensures
            config@ == (ConfigView { frequency: Frequency::Request(freq), ..self@ }),
    {
        proof {
            use_type_invariant(&self);
            lemma_data_format_values();
        }
        I2sTransferConfig::<Master, DIR, STD, FMT> {
            driver_config: self.driver_config.request_frequency(freq),
            _fmt: PhantomData,
        }
    }

    /// Require exactly this audio sampling frequency.
    ///
    /// If the required frequency can not bet set, instantiating a transfer will fail.
    pub fn require_frequency(self, freq: u32) -> (config: Self)
        ensures
            config@ == (ConfigView { frequency: Frequency::Require(freq), ..self@ }),
    {
        proof {
            use_type_invariant(&self);
            lemma_data_format_values();
        }
        I2sTransferConfig::<Master, DIR, STD, FMT> {
            driver_config: self.driver_config.require_frequency(freq),
            _fmt: PhantomData,
        }
    }
}

/// Abstraction allowing sending and receiving of I2S data while erasing hardware details.
///
/// ## Implementation notes
///
/// `I2sTransfer` in slave mode never fails when an error is detected. Instead, it tries to
/// recover although some data may corrupted. This choice has been made because:
///  - corrupted data can't produce invalid audio values and therefore can't cause undefined
///    behavior,
///  - audio quality is equally degraded by missing or corrupted data,
///  - it's easier to use.
///
/// `I2sTransfer` in master receive mode fails when an overrun occurs. This is because
/// `I2sTransfer` resets clocks to recover and some parts of the peripheral need to be reset
/// during this process.
///
/// `I2sTransfer` in master transmit never fails because the hardware can't detect errors in
/// this mode.
pub struct I2sTransfer<I, MS, DIR, STD, FMT> where I: I2sPeripheral, (STD, FMT): FrameFormat {
    driver: Driver<I, MS, DIR, STD>,
    progress: Progress<STD, FMT>,
    sync: bool,
}

/// The frame in progress and the cursor on its next word. The frame has the length that its
/// standard and its data format give, and the cursor is inside it.
struct Progress<STD, FMT> where (STD, FMT): FrameFormat {
    frame: RawFrame,
    //track part of the frame we transmitting
    transfer_count: u8,
    _std: PhantomData<STD>,
    _fmt: PhantomData<FMT>,
}

impl<STD, FMT> Progress<STD, FMT> where (STD, FMT): FrameFormat {
    #[verifier::type_invariant]
    spec fn well_formed(self) -> bool {
        &&& self.frame@.len() == <(STD, FMT) as FrameFormat>::spec_len()
        &&& self.transfer_count < self.frame@.len()
    }

    /// No frame in progress.
    fn new() -> (progress: Self)
        ensures
            progress.frame@ == spec_silence(<(STD, FMT) as FrameFormat>::spec_len()),
            progress.transfer_count == 0,
    {
        Progress {
            frame: RawFrame::zeroed(<(STD, FMT) as FrameFormat>::len()),
            transfer_count: 0,
            _std: PhantomData,
            _fmt: PhantomData,
        }
    }

    /// The cursor and the length of the frame.
    fn position(&self) -> (position: (u8, u8))
        ensures
            position.0 == self.transfer_count,
            position.1 == self.frame@.len(),
            position.0 < position.1,
            position.1 == <(STD, FMT) as FrameFormat>::spec_len(),
    {
        proof {
            use_type_invariant(self);
        }
        (self.transfer_count, self.frame.len())
    }

    /// The word under the cursor.
    fn word(&self) -> (word: u16)
        ensures
            self.transfer_count < self.frame@.len(),
            word == self.frame@[self.transfer_count as int],
    {
        proof {
            use_type_invariant(self);
        }
        self.frame.word(self.transfer_count)
    }

    /// Takes a new frame, with the cursor on its first word.
    fn load(&mut self, frame: RawFrame)
        requires
            frame@.len() == <(STD, FMT) as FrameFormat>::spec_len(),
        ensures
            final(self).frame@ == frame@,
            final(self).transfer_count == 0,
    {
        proof {
            use_type_invariant(&*self);
        }
        self.transfer_count = 0;
        self.frame = frame;
    }

    /// Puts a word under the cursor. Returns the frame as it is then.
    fn store(&mut self, word: u16) -> (frame: RawFrame)
        ensures
            old(self).transfer_count < old(self).frame@.len(),
            final(self).frame@ == old(self).frame@.update(old(self).transfer_count as int, word),
            final(self).transfer_count == old(self).transfer_count,
            frame@ == final(self).frame@,
            frame@.len() == <(STD, FMT) as FrameFormat>::spec_len(),
    {
        proof {
            use_type_invariant(&*self);
        }
        let mut frame = self.frame;
        frame.set(self.transfer_count, word);
        self.frame = frame;
        frame
    }

    /// Moves the cursor to the next word, and back to the first after the last. Returns
    /// whether it was on the last.
    fn advance(&mut self) -> (was_last: bool)
        ensures
            final(self).frame@ == old(self).frame@,
            final(self).transfer_count == spec_advance(
                old(self).transfer_count as nat,
                old(self).frame@.len(),
            ),
            was_last == (old(self).transfer_count + 1 >= old(self).frame@.len()),
    {
        proof {
            use_type_invariant(&*self);
        }
        let len: u8 = self.frame.len();
        let was_last: bool = self.transfer_count + 1 >= len;
        self.transfer_count = if was_last { 0 } else { self.transfer_count + 1 };
        was_last
    }

    /// Drops the frame in progress.
    fn clear(&mut self)
        ensures
            final(self).frame@ == spec_silence(old(self).frame@.len()),
            final(self).transfer_count == 0,
    {
        proof {
            use_type_invariant(&*self);
        }
        self.transfer_count = 0;
        self.frame = RawFrame::zeroed(self.frame.len());
    }

    /// Puts the cursor back on the first word.
    fn rewind(&mut self)
        ensures
            final(self).frame@ == old(self).frame@,
            final(self).transfer_count == 0,
    {
        proof {
            use_type_invariant(&*self);
        }
        self.transfer_count = 0;
    }
}

impl<I, MS, DIR, STD, FMT> View for I2sTransfer<I, MS, DIR, STD, FMT> where
    I: I2sPeripheral,
    (STD, FMT): FrameFormat,
 {
    type V = TransferView;

    closed spec fn view(&self) -> TransferView {
        TransferView {
            frame: self.progress.frame@,
            cursor: self.progress.transfer_count as nat,
            sync: self.sync,
            accesses: self.driver.accesses(),
        }
    }
}

impl<I, MS, DIR, STD, FMT> I2sTransfer<I, MS, DIR, STD, FMT> where
    I: I2sPeripheral,
    (STD, FMT): FrameFormat,
 {
    /// The peripheral, as the accesses made so far left it.
    pub closed spec fn peripheral(&self) -> I {
        self.driver.peripheral()
    }

    /// One step of emission.
    fn emit(&mut self, next: Option<RawFrame>, txe: bool) -> (step: WriteStep)
        requires
            next matches Some(frame) ==> frame@.len() == <(STD, FMT) as FrameFormat>::spec_len(),
        ensures
            (final(self)@, step) == spec_emit(
                old(self)@,
                match next {
                    Some(frame) => Some(frame@),
                    None => None,
                },
                txe,
            ),
            spec_valid(final(self)@, <(STD, FMT) as FrameFormat>::spec_len()),
    {
        let (cursor, len) = self.progress.position();
        if !txe {
            return WriteStep::Idle;
        }
        if cursor == 0 {
            match next {
                None => WriteStep::Finished,
                Some(frame) => {
                    self.driver.write_data(frame.word(0));
                    self.progress.load(frame);
                    let _ = self.progress.advance();
                    WriteStep::Accepted
                },
            }
        } else {
            self.driver.write_data(self.progress.word());
            let _ = self.progress.advance();
            WriteStep::Continued
        }
    }

    /// One step of reception. Returns the frame, if it is complete, and what was read of the
    /// data register.
    fn receive(&mut self, rxne: bool) -> (result: (Option<RawFrame>, Ghost<u32>))
        ensures
            (final(self)@, match result.0 {
                Some(frame) => Some(frame@),
                None => None,
            }) == spec_receive(old(self)@, rxne, result.1@),
            result.0 matches Some(frame) ==> frame@.len() == <(STD, FMT) as FrameFormat>::spec_len(),
    {
        if !rxne {
            return (None, Ghost(0));
        }
        let data: u32 = self.driver.read_data();
        let word: u16 = #[verifier::truncate] (data as u16);
        let frame = self.progress.store(word);
        let was_last = self.progress.advance();
        if was_last {
            (Some(frame), Ghost(data))
        } else {
            (None, Ghost(data))
        }
    }

    /// Drops the frame in progress and the synchronisation.
    fn restart(&mut self)
        ensures
            final(self)@ == spec_restart(old(self)@),
    {
        self.progress.clear();
        self.sync = false;
    }

    /// Disables the peripheral and drops the frame in progress. Returns what was read of the
    /// configuration register.
    fn stop(&mut self) -> (i2scfgr: Ghost<u32>)
        ensures
            final(self)@ == spec_stop(old(self)@, i2scfgr@),
    {
        let read: u32 = self.driver.set_enabled(false);
        self.restart();
        Ghost(read)
    }
}

impl<I, MS, DIR, STD, FMT> I2sTransfer<I, MS, DIR, STD, FMT> where
    I: I2sPeripheral,
    STD: I2sStandard,
    (STD, FMT): FrameFormat,
 {
    /// When `true`, the level on WS line is correct for the peripheral to start operating.
    ///
    /// The peripheral must be enabled before this level is set.
    ///
    /// The level asked of the WS pin is the one that starts a frame with the standard: the
    /// result is whether the pin is low with the Philips standard, and whether it is high with
    /// the others. The answer is recorded with the accesses.
    #[inline]
    fn _ws_is_start(&mut self) -> (started: bool)
        ensures
            final(self)@ == spec_after(
                old(self)@,
                spec_ws_look(STD::WS_START_LEVEL, started),
            ),
            final(self).peripheral() == old(self).peripheral(),
            exists|pin: I::WsPin| #[trigger]
                crate::spec_ws_is_start(
                    old(self).peripheral(),
                    pin,
                    STD::WS_START_LEVEL,
                    started,
                ),
    {
        let started: bool = self.driver.look_at_ws(STD::WS_START_LEVEL);
        proof {
            let pin = choose|pin: I::WsPin| #[trigger]
                crate::spec_ws_is_start(
                    old(self).driver.peripheral(),
                    pin,
                    STD::WS_START_LEVEL,
                    started,
                );
            assert(crate::spec_ws_is_start(
                old(self).peripheral(),
                pin,
                STD::WS_START_LEVEL,
                started,
            ));
        }
        started
    }
}

/// Constructors and Destructors
impl<I, MS, DIR, STD, FMT> I2sTransfer<I, MS, DIR, STD, FMT> where
    I: I2sPeripheral,
    STD: I2sStandard,
    FMT: DataFormat,
    (STD, FMT): FrameFormat,
 {
    /// Instantiate and configure an i2s driver around an [`I2sPeripheral`].
    ///
    /// This fails if an exact frequency is required by the config and that frequency cannot
    /// be set.
    pub fn new(i2s_peripheral: I, config: I2sTransferConfig<MS, DIR, STD, FMT>) -> (result:
        Result<Self, ConfigError>) where MS: Role, DIR: Direction
        ensures
            match result {
                Ok(transfer) => exists|i2s_clock: u32|
                    {
                        &&& #[trigger] spec_prescaler(
                            config@.frequency,
                            i2s_clock,
                            config@.master_clock,
                            config@.standard,
                            config@.data_format,
                        ) matches Some(prescaler)
                        &&& prescaler.1 >= 2
                        &&& call_ensures(I::i2s_freq, (&i2s_peripheral,), i2s_clock)
                        &&& config@.slave_has_defaults()
                        &&& config@.role == MS::VALUE
                        &&& config@.direction == DIR::VALUE
                        &&& config@.standard == STD::VALUE
                        &&& config@.data_format == FMT::VALUE
                        &&& transfer@ == (TransferView {
                            frame: spec_silence(<(STD, FMT) as FrameFormat>::spec_len()),
                            cursor: 0,
                            sync: false,
                            accesses: spec_configure(config@, prescaler),
                        })
                    },
                Err(e) => {
                    &&& e == ConfigError::FrequencyUnreachable
                    &&& config@.frequency is Require
                    &&& config@.slave_has_defaults()
                    &&& exists|i2s_clock: u32|
                        {
                            &&& call_ensures(I::i2s_freq, (&i2s_peripheral,), i2s_clock)
                            &&& #[trigger] spec_prescaler(
                                config@.frequency,
                                i2s_clock,
                                config@.master_clock,
                                config@.standard,
                                config@.data_format,
                            ) is None
                        }
                },
            },
    {
        config.i2s_transfer(i2s_peripheral)
    }

    /// Destroy the transfer: disable, reset and release the owned i2s device. The device
    /// comes back with the record of its accesses; [`Recorded::into_inner`] gives the device
    /// alone.
    pub fn release(self) -> (i2s_peripheral: Recorded<I>)
        ensures
            exists|i2scfgr: u32|
                i2s_peripheral.accesses() == self@.accesses + #[trigger] crate::driver::spec_release(
                    i2scfgr,
                ),
    {
        self.driver.release()
    }
}

impl<I, MS, DIR, STD, FMT> I2sTransfer<I, MS, DIR, STD, FMT> where
    I: I2sPeripheral,
    (STD, FMT): FrameFormat,
 {
    /// Activate the I2s interface.
    pub fn begin(&mut self)
        ensures
            exists|i2scfgr: u32|
                final(self)@ == spec_after(
                    old(self)@,
                    #[trigger] spec_modify_bits(Register::I2scfgr, i2scfgr, I2SCFGR_I2SE, true),
                ),
    {
        let _ = self.driver.set_enabled(true);
    }
}

impl<I, DIR, STD, FMT> I2sTransfer<I, Slave, DIR, STD, FMT> where
    I: I2sPeripheral,
    (STD, FMT): FrameFormat,
 {
    /// Deactivate the I2s interface and reset internal state
    pub fn end(&mut self)
        ensures
            exists|i2scfgr: u32| final(self)@ == #[trigger] spec_stop(old(self)@, i2scfgr),
    {
        let _ = self.stop();
    }
}

impl<I, DIR, STD, FMT> I2sTransfer<I, Master, DIR, STD, FMT> where
    I: I2sPeripheral,
    (STD, FMT): FrameFormat,
 {
    /// Disables the peripheral, resets its clocks and drops the frame in progress. Returns
    /// what was read of the registers.
    fn stop_master(&mut self) -> (read: Ghost<(u32, (u32, u32, u32))>)
        ensures
            final(self)@ == spec_stop_master(old(self)@, read@.0, read@.1),
    {
        let i2scfgr: u32 = self.driver.set_enabled(false);
        let settings = self.driver.restart_clocks();
        self.restart();
        Ghost((i2scfgr, settings))
    }

    /// Deactivate the I2s interface, reset its clocks and reset internal state
    pub fn end(&mut self)
        ensures
            exists|i2scfgr: u32, settings: (u32, u32, u32)|
                final(self)@ == #[trigger] spec_stop_master(old(self)@, i2scfgr, settings),
    {
        let _ = self.stop_master();
    }

    /// Get the actual sample rate imposed by the driver, computed from the content of the
    /// configuration and prescaler registers and from the frequency of the clock source.
    pub fn sample_rate(&mut self) -> (rate: u32)
        ensures
            exists|i2s_clock: u32, i2scfgr: u32, i2spr: u32|
                {
                    &&& final(self)@ == spec_after(
                        old(self)@,
                        #[trigger] spec_read_sample_rate(i2scfgr, i2spr),
                    )
                    &&& call_ensures(I::i2s_freq, (&final(self).peripheral(),), i2s_clock)
                    &&& rate == #[trigger] spec_sample_rate(i2s_clock, i2scfgr, i2spr)
                },
    {
        let (rate, _) = self.driver.measure_sample_rate();
        rate
    }
}

/// Master Transmit
impl<I, STD, FMT> I2sTransfer<I, Master, Transmit, STD, FMT> where
    I: I2sPeripheral,
    (STD, FMT): FrameFormat,
 {
    /// One step of the transmission of a sequence of frames, of which `next` is the first
    /// that was not taken yet; `None` when the sequence is exhausted. The step that answers
    /// `Accepted` took `next`. The step that answers `Finished` found nothing left to do: the
    /// last frame was written in full.
    ///
    /// The peripheral has to be enabled, see [`I2sTransfer::begin`].
    pub fn write_step<T: ToRawFrame<STD, FMT>>(&mut self, next: Option<T>) -> (step: WriteStep)
        ensures
            exists|status: u32|
                (final(self)@, step) == #[trigger] spec_master_write_step(
                    old(self)@,
                    spec_offer::<STD, FMT, T>(next),
                    status,
                ),
    {
        let status: u32 = self.driver.read_status();
        let raw: Option<RawFrame> = match next {
            Some(frame) => Some(frame.to_raw()),
            None => None,
        };
        let step = self.emit(raw, status & SR_TXE != 0);
        assert((self@, step) == spec_master_write_step(
            old(self)@,
            spec_offer::<STD, FMT, T>(next),
            status,
        ));
        step
    }

    /// Write one audio frame and activate the I2s interface if disabled.
    ///
    /// To fully transmit the frame, this function need to be continuously called until the
    /// next frame can be written.
    pub fn write<T: ToRawFrame<STD, FMT>>(&mut self, frame: T) -> (result: Result<
        (),
        Error<Infallible>,
    >)
        ensures
            exists|i2scfgr: u32, status: u32|
                (final(self)@, result) == {
                    let (state, step) = #[trigger] spec_master_write_step(
                        spec_after(
                            old(self)@,
                            spec_modify_bits(Register::I2scfgr, i2scfgr, I2SCFGR_I2SE, true),
                        ),
                        Some(frame.spec_to_raw()),
                        status,
                    );
                    (state, spec_write_result(step))
                },
    {
        let i2scfgr: u32 = self.driver.set_enabled(true);
        let ghost enabled = self@;
        let status: u32 = self.driver.read_status();
        let step = self.emit(Some(frame.to_raw()), status & SR_TXE != 0);
        assert((self@, step) == spec_master_write_step(
            enabled,
            Some(frame.spec_to_raw()),
            status,
        ));
        assert(enabled == spec_after(
            old(self)@,
            spec_modify_bits(Register::I2scfgr, i2scfgr, I2SCFGR_I2SE, true),
        ));
        match step {
            WriteStep::Accepted => Ok(()),
            _ => Err(Error::WouldBlock),
        }
    }
}


/// The words of each of the frames of a slice.
pub open spec fn spec_frames<STD, FMT, T: ToRawFrame<STD, FMT>>(frames: Seq<T>) -> Seq<Seq<u16>> where
    (STD, FMT): FrameFormat,
 {
    Seq::new(frames.len(), |i: int| frames[i].spec_to_raw())
}

/// Master Transmit, blocking
impl<I, STD, FMT> I2sTransfer<I, Master, Transmit, STD, FMT> where
    I: I2sPeripheral,
    (STD, FMT): FrameFormat,
 {
    /// Transmit (blocking) the frames of a slice: activate the I2s interface, then take one
    /// step after the other until the last frame is written in full, for `max_polls` steps at
    /// most. Returns the number of frames taken, and whether the last frame was written in
    /// full.
    pub fn write_iter<T: ToRawFrame<STD, FMT>>(&mut self, frames: &[T], max_polls: u32) -> (result: (
        usize,
        bool,
    ))
        ensures
            exists|i2scfgr: u32, statuses: Seq<u32>| #[trigger]
                spec_master_write_stops(
                    spec_after(
                        old(self)@,
                        spec_modify_bits(Register::I2scfgr, i2scfgr, I2SCFGR_I2SE, true),
                    ),
                    spec_frames::<STD, FMT, T>(frames@),
                    statuses,
                    max_polls,
                    final(self)@,
                    result,
                ),
    {
        let i2scfgr: u32 = self.driver.set_enabled(true);
        let ghost start = self@;
        assert(start == spec_after(
            old(self)@,
            spec_modify_bits(Register::I2scfgr, i2scfgr, I2SCFGR_I2SE, true),
        ));
        let ghost all = spec_frames::<STD, FMT, T>(frames@);
        let ghost mut statuses = Seq::<u32>::empty();
        let mut taken: usize = 0;
        let mut polls: u32 = 0;
        assert(statuses.take(0) =~= statuses);
        while polls < max_polls
            invariant
                polls <= max_polls,
                statuses.len() == polls,
                taken <= frames@.len(),
                all == spec_frames::<STD, FMT, T>(frames@),
                start == spec_after(
                    old(self)@,
                    spec_modify_bits(Register::I2scfgr, i2scfgr, I2SCFGR_I2SE, true),
                ),
                (self@, taken as nat) == (
                    spec_master_write_run(start, all, statuses).0,
                    spec_master_write_run(start, all, statuses).1,
                ),
                forall|steps: int|
                    0 <= steps <= statuses.len() ==> (#[trigger] spec_master_write_run(
                        start,
                        all,
                        statuses.take(steps),
                    )).2 != WriteStep::Finished,
            decreases max_polls - polls,
        {
            let ghost before = self@;
            let status: u32 = self.driver.read_status();
            let raw: Option<RawFrame> = if taken < frames.len() {
                Some(frames[taken].to_raw())
            } else {
                None
            };
            let step = self.emit(raw, status & SR_TXE != 0);
            proof {
                let longer = statuses.push(status);
                assert(longer.drop_last() =~= statuses);
                assert(spec_next_frame(all, taken as nat) == match raw {
                    Some(frame) => Some(frame@),
                    None => None,
                });
                assert((self@, step) == spec_master_write_step(
                    before,
                    spec_next_frame(all, taken as nat),
                    status,
                ));
                assert(longer.take(longer.len() as int) =~= longer);
                assert(statuses.take(statuses.len() as int) =~= statuses);
                assert forall|steps: int| 0 <= steps < longer.len() implies longer.take(steps)
                    == statuses.take(steps) by {
                    assert(longer.take(steps) =~= statuses.take(steps));
                }
                statuses = longer;
            }
            polls = polls + 1;
            match step {
                WriteStep::Accepted => {
                    taken = taken + 1;
                },
                WriteStep::Finished => {
                    assert(spec_master_write_stops(
                        start,
                        all,
                        statuses,
                        max_polls,
                        self@,
                        (taken, true),
                    ));
                    return (taken, true);
                },
                _ => {},
            }
        }
        proof {
            assert(statuses.take(statuses.len() as int) =~= statuses);
            assert(spec_master_write_stops(start, all, statuses, max_polls, self@, (taken, false)));
        }
        (taken, false)
    }
}

/// Slave Transmit
impl<I, STD, FMT> I2sTransfer<I, Slave, Transmit, STD, FMT> where
    I: I2sPeripheral,
    STD: I2sStandard,
    (STD, FMT): FrameFormat,
 {
    /// One step of a slave transmission, on frames already laid out in words. Returns what
    /// the hardware answered with the step.
    fn slave_write_step(&mut self, next: Option<RawFrame>) -> (result: (
        WriteStep,
        Ghost<SlaveTransmitInputs>,
    ))
        requires
            next matches Some(frame) ==> frame@.len() == <(STD, FMT) as FrameFormat>::spec_len(),
        ensures
            (final(self)@, result.0) == spec_slave_write_step(
                old(self)@,
                match next {
                    Some(frame) => Some(frame@),
                    None => None,
                },
                result.1@,
                STD::WS_START_LEVEL,
            ),
    {
        let ghost mut hw = SlaveTransmitInputs {
            started_before: false,
            started_after: false,
            status: 0,
            i2scfgr_on: 0,
            i2scfgr_off: 0,
        };
        let _ = self.progress.position();
        if self.sync {
            let status: u32 = self.driver.read_status();
            let step = self.emit(next, status & SR_TXE != 0);
            proof {
                hw.status = status;
            }
            if status & SR_FRE != 0 || status & SR_UDR != 0 {
                let i2scfgr = self.stop();
                proof {
                    hw.i2scfgr_off = i2scfgr@;
                }
            }
            (step, Ghost(hw))
        } else {
            let started_before: bool = self._ws_is_start();
            proof {
                hw.started_before = started_before;
            }
            if started_before {
                return (WriteStep::Idle, Ghost(hw));
            }
            match next {
                None => (WriteStep::Finished, Ghost(hw)),
                Some(frame) => {
                    let ghost before = self@;
                    // data register may (or not) already contain data, causing uncertainty
                    // about next time txe flag is set. Writing it remove the uncertainty.
                    self.driver.write_data(frame.word(0));
                    self.progress.load(frame);
                    let _ = self.progress.advance();
                    let i2scfgr_on: u32 = self.driver.set_enabled(true);
                    // ensure the ws line didn't change during sync process
                    let started_after: bool = self._ws_is_start();
                    proof {
                        hw.i2scfgr_on = i2scfgr_on;
                        hw.started_after = started_after;
                        assert(self@.accesses =~= before.accesses + spec_write(
                            Register::Dr,
                            frame@[0] as u32,
                        ) + spec_modify_bits(Register::I2scfgr, i2scfgr_on, I2SCFGR_I2SE, true)
                            + spec_ws_look(STD::WS_START_LEVEL, started_after));
                    }
                    if !started_after {
                        self.sync = true;
                    } else {
                        let i2scfgr_off: u32 = self.driver.set_enabled(false);
                        proof {
                            hw.i2scfgr_off = i2scfgr_off;
                        }
                    }
                    (WriteStep::Accepted, Ghost(hw))
                },
            }
        }
    }

    /// One step of the transmission of a sequence of frames, of which `next` is the first
    /// that was not taken yet; `None` when the sequence is exhausted. The step that answers
    /// `Accepted` took `next`. The step that answers `Finished` found nothing left to do.
    ///
    /// The transfer enables the peripheral itself, when it synchronises.
    pub fn write_step<T: ToRawFrame<STD, FMT>>(&mut self, next: Option<T>) -> (step: WriteStep)
        ensures
            exists|hw: SlaveTransmitInputs|
                (final(self)@, step) == #[trigger] spec_slave_write_step(
                    old(self)@,
                    spec_offer::<STD, FMT, T>(next),
                    hw,
                    STD::WS_START_LEVEL,
                ),
    {
        let raw: Option<RawFrame> = match next {
            Some(frame) => Some(frame.to_raw()),
            None => None,
        };
        let (step, Ghost(hw)) = self.slave_write_step(raw);
        assert((self@, step) == spec_slave_write_step(
            old(self)@,
            spec_offer::<STD, FMT, T>(next),
            hw,
            STD::WS_START_LEVEL,
        ));
        step
    }

    /// Write one audio frame and activate the I2s interface if disabled.
    ///
    /// To fully transmit the frame, this function need to be continuously called until the
    /// next frame can be written.
    pub fn write<T: ToRawFrame<STD, FMT>>(&mut self, frame: T) -> (result: Result<
        (),
        Error<Infallible>,
    >)
        ensures
            exists|hw: SlaveTransmitInputs|
                (final(self)@, result) == {
                    let (state, step) = #[trigger] spec_slave_write_step(
                        old(self)@,
                        Some(frame.spec_to_raw()),
                        hw,
                        STD::WS_START_LEVEL,
                    );
                    (state, spec_write_result(step))
                },
    {
        let (step, Ghost(hw)) = self.slave_write_step(Some(frame.to_raw()));
        assert((self@, step) == spec_slave_write_step(
            old(self)@,
            Some(frame.spec_to_raw()),
            hw,
            STD::WS_START_LEVEL,
        ));
        match step {
            WriteStep::Accepted => Ok(()),
            _ => Err(Error::WouldBlock),
        }
    }
}

/// Slave Transmit, blocking
impl<I, STD, FMT> I2sTransfer<I, Slave, Transmit, STD, FMT> where
    I: I2sPeripheral,
    STD: I2sStandard,
    (STD, FMT): FrameFormat,
 {
    /// Transmit (blocking) the frames of a slice: take one step after the other until the
    /// last frame is written in full, for `max_polls` steps at most. Returns the number of
    /// frames taken, and whether the last frame was written in full.
    ///
    /// A frame that is taken while the transfer synchronises, or just before an error, is
    /// lost when the synchronisation fails.
    pub fn write_iter<T: ToRawFrame<STD, FMT>>(&mut self, frames: &[T], max_polls: u32) -> (result: (
        usize,
        bool,
    ))
        ensures
            exists|inputs: Seq<SlaveTransmitInputs>| #[trigger]
                spec_slave_write_stops(
                    old(self)@,
                    spec_frames::<STD, FMT, T>(frames@),
                    inputs,
                    STD::WS_START_LEVEL,
                    max_polls,
                    final(self)@,
                    result,
                ),
    {
        let ghost start = self@;
        let ghost all = spec_frames::<STD, FMT, T>(frames@);
        let ghost mut inputs = Seq::<SlaveTransmitInputs>::empty();
        let mut taken: usize = 0;
        let mut polls: u32 = 0;
        assert(inputs.take(0) =~= inputs);
        while polls < max_polls
            invariant
                polls <= max_polls,
                inputs.len() == polls,
                taken <= frames@.len(),
                all == spec_frames::<STD, FMT, T>(frames@),
                start == old(self)@,
                (self@, taken as nat) == (
                    spec_slave_write_run(start, all, inputs, STD::WS_START_LEVEL).0,
                    spec_slave_write_run(start, all, inputs, STD::WS_START_LEVEL).1,
                ),
                forall|steps: int|
                    0 <= steps <= inputs.len() ==> (#[trigger] spec_slave_write_run(
                        start,
                        all,
                        inputs.take(steps),
                        STD::WS_START_LEVEL,
                    )).2 != WriteStep::Finished,
            decreases max_polls - polls,
        {
            let ghost before = self@;
            let raw: Option<RawFrame> = if taken < frames.len() {
                Some(frames[taken].to_raw())
            } else {
                None
            };
            let (step, Ghost(hw)) = self.slave_write_step(raw);
            proof {
                let longer = inputs.push(hw);
                assert(longer.drop_last() =~= inputs);
                assert(longer.take(longer.len() as int) =~= longer);
                assert(inputs.take(inputs.len() as int) =~= inputs);
                assert(spec_next_frame(all, taken as nat) == match raw {
                    Some(frame) => Some(frame@),
                    None => None,
                });
                assert forall|steps: int| 0 <= steps < longer.len() implies longer.take(steps)
                    == inputs.take(steps) by {
                    assert(longer.take(steps) =~= inputs.take(steps));
                }
                inputs = longer;
            }
            polls = polls + 1;
            match step {
                WriteStep::Accepted => {
                    taken = taken + 1;
                },
                WriteStep::Finished => {
                    assert(spec_slave_write_stops(
                        start,
                        all,
                        inputs,
                        STD::WS_START_LEVEL,
                        max_polls,
                        self@,
                        (taken, true),
                    ));
                    return (taken, true);
                },
                _ => {},
            }
        }
        proof {
            assert(inputs.take(inputs.len() as int) =~= inputs);
            assert(spec_slave_write_stops(
                start,
                all,
                inputs,
                STD::WS_START_LEVEL,
                max_polls,
                self@,
                (taken, false),
            ));
        }
        (taken, false)
    }
}

/// What `read` of a master answers after a step.
pub open spec fn spec_master_read_result<STD, FMT, T: FromRawFrame<STD, FMT>>(step: ReadStep) -> Result<
    T,
    Error<ReceiveError>,
> where (STD, FMT): FrameFormat {
    match step {
        ReadStep::Ready(words) => Ok(T::spec_from_raw(words)),
        ReadStep::Overrun(word) => Err(Error::Other(ReceiveError::Overrun(word))),
        ReadStep::Pending => Err(Error::WouldBlock),
    }
}

/// What `read` of a slave answers after a step.
pub open spec fn spec_slave_read_result<STD, FMT, T: FromRawFrame<STD, FMT>>(
    frame: Option<Seq<u16>>,
) -> Result<T, Error<Infallible>> where (STD, FMT): FrameFormat {
    match frame {
        Some(words) => Ok(T::spec_from_raw(words)),
        None => Err(Error::WouldBlock),
    }
}

/// What one step of a reception gave.
enum Received {
    Pending,
    Ready(RawFrame),
    Overrun(u16),
}

impl Received {
    spec fn step(self) -> ReadStep {
        match self {
            Received::Pending => ReadStep::Pending,
            Received::Ready(frame) => ReadStep::Ready(frame@),
            Received::Overrun(word) => ReadStep::Overrun(word),
        }
    }
}

/// Whether `answers` holds, for each step of a master reception that gave a frame, an
/// answer of the predicate to that frame.
pub open spec fn spec_master_answers<STD, FMT, T: FromRawFrame<STD, FMT>, F: FnMut(T) -> bool>(
    predicate: F,
    start: TransferView,
    inputs: Seq<MasterReceiveInputs>,
    answers: Seq<bool>,
) -> bool where (STD, FMT): FrameFormat {
    forall|steps: int|
        0 < steps <= inputs.len() ==> ((#[trigger] spec_master_read_run(
            start,
            inputs.take(steps),
            answers.take(steps),
        )).1 matches ReadStep::Ready(words) ==> call_ensures(
            predicate,
            (T::spec_from_raw(words),),
            answers[steps - 1],
        ))
}

/// Whether `answers` holds, for each step of a slave reception that gave a frame, an answer
/// of the predicate to that frame.
pub open spec fn spec_slave_answers<STD, FMT, T: FromRawFrame<STD, FMT>, F: FnMut(T) -> bool>(
    predicate: F,
    start: TransferView,
    inputs: Seq<SlaveReceiveInputs>,
    answers: Seq<bool>,
    start_level: bool,
) -> bool where (STD, FMT): FrameFormat {
    forall|steps: int|
        0 < steps <= inputs.len() ==> ((#[trigger] spec_slave_read_run(
            start,
            inputs.take(steps),
            start_level,
        )).1 matches Some(words) ==> call_ensures(
            predicate,
            (T::spec_from_raw(words),),
            answers[steps - 1],
        ))
}

/// Master Receive
impl<I, STD, FMT> I2sTransfer<I, Master, Receive, STD, FMT> where
    I: I2sPeripheral,
    (STD, FMT): FrameFormat,
 {
    /// Takes an overrun: reads the data register for the word that the error carries, then
    /// disables the peripheral, resets its clocks and drops the frame in progress. Returns
    /// the word, and what was read of the registers with it.
    fn take_overrun(&mut self, hw: Ghost<MasterReceiveInputs>) -> (result: (
        u16,
        Ghost<MasterReceiveInputs>,
    ))
        ensures
            final(self)@ == spec_take_overrun(old(self)@, result.1@),
            result.0 == result.1@.overrun_data as u16,
            result.1@.i2scfgr_on == hw@.i2scfgr_on,
            result.1@.status == hw@.status,
            result.1@.data == hw@.data,
    {
        let overrun_data: u32 = self.driver.read_data();
        let read = self.stop_master();
        let word: u16 = #[verifier::truncate] (overrun_data as u16);
        (
            word,
            Ghost(
                MasterReceiveInputs {
                    overrun_data,
                    i2scfgr_off: read@.0,
                    settings: read@.1,
                    ..hw@
                },
            ),
        )
    }

    /// One step of a master reception, with the peripheral enabled, up to the point where
    /// an overrun is taken. Returns the frame, if the step completes one, and what the
    /// hardware answered.
    fn master_poll(&mut self) -> (result: (Option<RawFrame>, u32, Ghost<MasterReceiveInputs>))
        ensures
            result.1 == result.2@.status,
            (final(self)@, match result.0 {
                Some(frame) => Some(frame@),
                None => None,
            }) == spec_receive(
                spec_after(old(self)@, spec_read(Register::Sr, result.2@.status)),
                spec_has_bits(result.2@.status, SR_RXNE),
                result.2@.data,
            ),
            result.0 matches Some(frame) ==> frame@.len() == <(STD, FMT) as FrameFormat>::spec_len(),
    {
        let status: u32 = self.driver.read_status();
        let (frame, Ghost(data)) = self.receive(status & SR_RXNE != 0);
        (
            frame,
            status,
            Ghost(
                MasterReceiveInputs {
                    i2scfgr_on: 0,
                    status,
                    data,
                    overrun_data: 0,
                    i2scfgr_off: 0,
                    settings: (0, 0, 0),
                },
            ),
        )
    }

    /// One step of a master reception, with the peripheral enabled. Returns what the
    /// hardware answered with the step.
    fn master_receive(&mut self) -> (result: (Received, Ghost<MasterReceiveInputs>))
        ensures
            (final(self)@, result.0.step()) == spec_master_receive_step(old(self)@, result.1@),
            result.0 matches Received::Ready(frame) ==> frame@.len() == <(
                STD,
                FMT,
            ) as FrameFormat>::spec_len(),
    {
        let (frame, status, Ghost(polled)) = self.master_poll();
        match frame {
            Some(raw) => (Received::Ready(raw), Ghost(polled)),
            None => {
                if status & SR_OVR != 0 {
                    let (word, Ghost(hw)) = self.take_overrun(Ghost(polled));
                    (Received::Overrun(word), Ghost(hw))
                } else {
                    (Received::Pending, Ghost(polled))
                }
            },
        }
    }

    /// Read one audio frame and activate the I2s interface if disabled.
    ///
    /// To get the audio frame, this function needs to be continuously called until the frame
    /// is returned. On an overrun the data register is read for the word that the error
    /// carries, the transfer is disabled and its clocks are reset, and the frame in progress
    /// is dropped. An overrun that shows with the last word of a frame is not lost: the
    /// frame is given first, and the hardware shows the overrun again at the next call.
    pub fn read<T: FromRawFrame<STD, FMT>>(&mut self) -> (result: Result<T, Error<ReceiveError>>)
        ensures
            exists|hw: MasterReceiveInputs|
                (final(self)@, result) == {
                    let (state, step) = #[trigger] spec_master_read_step(old(self)@, hw);
                    (state, spec_master_read_result::<STD, FMT, T>(step))
                },
    {
        let i2scfgr_on: u32 = self.driver.set_enabled(true);
        let ghost enabled = self@;
        let (received, Ghost(answered)) = self.master_receive();
        proof {
            let hw = MasterReceiveInputs { i2scfgr_on, ..answered };
            assert(enabled == spec_after(
                old(self)@,
                spec_modify_bits(Register::I2scfgr, i2scfgr_on, I2SCFGR_I2SE, true),
            ));
            assert(spec_master_receive_step(enabled, hw) == spec_master_receive_step(
                enabled,
                answered,
            ));
            assert(spec_master_read_step(old(self)@, hw) == (self@, received.step()));
        }
        match received {
            Received::Ready(raw) => Ok(T::from_raw(raw)),
            Received::Overrun(word) => Err(Error::Other(ReceiveError::Overrun(word))),
            Received::Pending => Err(Error::WouldBlock),
        }
    }

    /// Read frames (blocking) while the predicate returns `true`: activate the I2s interface,
    /// then take one step after the other and hand each frame to the predicate, for
    /// `max_polls` steps at most. Returns whether the predicate ended the reception; `false`
    /// means that the polls were used up.
    ///
    /// An overrun ends the reception in the step that finds it, also when it shows with the
    /// last word of a frame: the frame goes to the predicate first, and unless the predicate
    /// stops the reception there, the overrun is returned. The data register is read for the
    /// word that the error carries, the transfer is disabled and its clocks are reset.
    ///
    /// The given closure must not block, otherwise communication problems may occur.
    pub fn read_while<F, T>(&mut self, predicate: F, max_polls: u32) -> (result: Result<
        bool,
        ReceiveError,
    >) where T: FromRawFrame<STD, FMT>, F: FnMut(T) -> bool
        requires
            forall|frame: T| #[trigger] call_requires(predicate, (frame,)),
        ensures
            exists|i2scfgr: u32, inputs: Seq<MasterReceiveInputs>, answers: Seq<bool>|
                {
                    &&& #[trigger] spec_master_read_stops(
                        spec_after(
                            old(self)@,
                            spec_modify_bits(Register::I2scfgr, i2scfgr, I2SCFGR_I2SE, true),
                        ),
                        inputs,
                        answers,
                        max_polls,
                        final(self)@,
                        result,
                    )
                    &&& spec_master_answers::<STD, FMT, T, F>(
                        predicate,
                        spec_after(
                            old(self)@,
                            spec_modify_bits(Register::I2scfgr, i2scfgr, I2SCFGR_I2SE, true),
                        ),
                        inputs,
                        answers,
                    )
                },
    {
        let i2scfgr: u32 = self.driver.set_enabled(true);
        let ghost start = self@;
        assert(start == spec_after(
            old(self)@,
            spec_modify_bits(Register::I2scfgr, i2scfgr, I2SCFGR_I2SE, true),
        ));
        let mut wanted = predicate;
        let ghost mut inputs = Seq::<MasterReceiveInputs>::empty();
        let ghost mut answers = Seq::<bool>::empty();
        let mut polls: u32 = 0;
        assert(inputs.take(0) =~= inputs);
        assert(answers.take(0) =~= answers);
        while polls < max_polls
            invariant
                polls <= max_polls,
                inputs.len() == polls,
                answers.len() == polls,
                start == spec_after(
                    old(self)@,
                    spec_modify_bits(Register::I2scfgr, i2scfgr, I2SCFGR_I2SE, true),
                ),
                wanted == predicate,
                self@ == spec_master_read_run(start, inputs, answers).0,
                forall|frame: T| #[trigger] call_requires(predicate, (frame,)),
                forall|steps: int|
                    0 <= steps <= inputs.len() ==> (#[trigger] spec_master_read_run(
                        start,
                        inputs.take(steps),
                        answers.take(steps),
                    )).2 is None,
                spec_master_answers::<STD, FMT, T, F>(predicate, start, inputs, answers),
            decreases max_polls - polls,
        {
            let ghost before = self@;
            let ghost earlier_inputs = inputs;
            let ghost earlier_answers = answers;
            proof {
                assert(inputs.take(inputs.len() as int) =~= inputs);
                assert(answers.take(answers.len() as int) =~= answers);
            }
            let (frame, status, Ghost(polled)) = self.master_poll();
            polls = polls + 1;
            let mut ended: Option<Result<bool, ReceiveError>> = None;
            match frame {
                Some(raw) => {
                    let more: bool = wanted(T::from_raw(raw));
                    if !more {
                        proof {
                            inputs = earlier_inputs.push(polled);
                            answers = earlier_answers.push(false);
                        }
                        ended = Some(Ok(true));
                    } else if status & SR_OVR != 0 {
                        let (word, Ghost(hw)) = self.take_overrun(Ghost(polled));
                        proof {
                            inputs = earlier_inputs.push(hw);
                            answers = earlier_answers.push(true);
                        }
                        ended = Some(Err(ReceiveError::Overrun(word)));
                    } else {
                        proof {
                            inputs = earlier_inputs.push(polled);
                            answers = earlier_answers.push(true);
                        }
                    }
                },
                None => {
                    if status & SR_OVR != 0 {
                        let (word, Ghost(hw)) = self.take_overrun(Ghost(polled));
                        proof {
                            inputs = earlier_inputs.push(hw);
                            answers = earlier_answers.push(true);
                        }
                        ended = Some(Err(ReceiveError::Overrun(word)));
                    } else {
                        proof {
                            inputs = earlier_inputs.push(polled);
                            answers = earlier_answers.push(true);
                        }
                    }
                },
            }
            proof {
                assert(inputs.drop_last() =~= earlier_inputs);
                assert(answers.drop_last() =~= earlier_answers);
                assert(inputs.take(inputs.len() as int) =~= inputs);
                assert(answers.take(answers.len() as int) =~= answers);
                assert(spec_master_read_run(start, inputs, answers)
                    == spec_master_read_while_step(before, inputs.last(), answers.last()));
                assert forall|steps: int| 0 <= steps < inputs.len() implies inputs.take(steps)
                    == earlier_inputs.take(steps) && answers.take(steps) == earlier_answers.take(
                    steps,
                ) by {
                    assert(inputs.take(steps) =~= earlier_inputs.take(steps));
                    assert(answers.take(steps) =~= earlier_answers.take(steps));
                }
                assert forall|steps: int| 0 < steps <= inputs.len() implies ((
                #[trigger] spec_master_read_run(
                    start,
                    inputs.take(steps),
                    answers.take(steps),
                )).1 matches ReadStep::Ready(words) ==> call_ensures(
                    predicate,
                    (T::spec_from_raw(words),),
                    answers[steps - 1],
                )) by {
                    if steps < inputs.len() {
                        assert(answers[steps - 1] == earlier_answers[steps - 1]);
                    }
                }
            }
            match ended {
                Some(result) => {
                    proof {
                        assert(spec_master_read_stops(
                            start,
                            inputs,
                            answers,
                            max_polls,
                            self@,
                            result,
                        ));
                        assert(spec_master_answers::<STD, FMT, T, F>(
                            predicate,
                            start,
                            inputs,
                            answers,
                        ));
                    }
                    return result;
                },
                None => {},
            }
        }
        proof {
            assert(inputs.take(inputs.len() as int) =~= inputs);
            assert(answers.take(answers.len() as int) =~= answers);
            assert(spec_master_read_stops(
                start,
                inputs,
                answers,
                max_polls,
                self@,
                Ok::<bool, ReceiveError>(false),
            ));
            assert(spec_master_answers::<STD, FMT, T, F>(predicate, start, inputs, answers));
        }
        Ok(false)
    }
}

/// Slave Receive
impl<I, STD, FMT> I2sTransfer<I, Slave, Receive, STD, FMT> where
    I: I2sPeripheral,
    STD: I2sStandard,
    (STD, FMT): FrameFormat,
 {
    /// One step of a slave reception. Returns what the hardware answered with the step.
    fn slave_receive(&mut self) -> (result: (Option<RawFrame>, Ghost<SlaveReceiveInputs>))
        ensures
            (final(self)@, match result.0 {
                Some(frame) => Some(frame@),
                None => None,
            }) == spec_slave_read_step(old(self)@, result.1@, STD::WS_START_LEVEL),
            result.0 matches Some(frame) ==> frame@.len() == <(STD, FMT) as FrameFormat>::spec_len(),
    {
        let ghost mut hw = SlaveReceiveInputs {
            started_before: false,
            started_after: false,
            status: 0,
            data: 0,
            i2scfgr_idle: 0,
            i2scfgr_on: 0,
            flushed: (0, 0),
            i2scfgr_off: 0,
        };
        if self.sync {
            let status: u32 = self.driver.read_status();
            let (frame, Ghost(data)) = self.receive(status & SR_RXNE != 0);
            proof {
                hw.status = status;
                hw.data = data;
            }
            if status & SR_FRE != 0 || status & SR_OVR != 0 {
                let i2scfgr = self.stop();
                proof {
                    hw.i2scfgr_off = i2scfgr@;
                }
            }
            (frame, Ghost(hw))
        } else {
            let i2scfgr_idle: u32 = self.driver.set_enabled(false);
            self.progress.rewind();
            let started_before: bool = self._ws_is_start();
            let ghost idle = self@;
            proof {
                hw.i2scfgr_idle = i2scfgr_idle;
                hw.started_before = started_before;
                assert(idle.accesses =~= old(self)@.accesses + spec_modify_bits(
                    Register::I2scfgr,
                    i2scfgr_idle,
                    I2SCFGR_I2SE,
                    false,
                ) + spec_ws_look(STD::WS_START_LEVEL, started_before));
            }
            if !started_before {
                let i2scfgr_on: u32 = self.driver.set_enabled(true);
                let flushed_data: u32 = self.driver.read_data();
                let flushed_status: u32 = self.driver.read_status();
                // ensure the ws line didn't change during sync process
                let started_after: bool = self._ws_is_start();
                proof {
                    hw.i2scfgr_on = i2scfgr_on;
                    hw.flushed = (flushed_data, flushed_status);
                    hw.started_after = started_after;
                    assert(self@.accesses =~= idle.accesses + (spec_modify_bits(
                        Register::I2scfgr,
                        i2scfgr_on,
                        I2SCFGR_I2SE,
                        true,
                    ) + spec_read(Register::Dr, flushed_data) + spec_read(
                        Register::Sr,
                        flushed_status,
                    ) + spec_ws_look(STD::WS_START_LEVEL, started_after)));
                }
                if !started_after {
                    self.sync = true;
                } else {
                    let i2scfgr_off: u32 = self.driver.set_enabled(false);
                    proof {
                        hw.i2scfgr_off = i2scfgr_off;
                    }
                }
            }
            (None, Ghost(hw))
        }
    }

    /// Read one audio frame and activate the I2s interface if disabled.
    ///
    /// To get the audio frame, this function need to be continuously called until the frame
    /// is returned
    pub fn read<T: FromRawFrame<STD, FMT>>(&mut self) -> (result: Result<T, Error<Infallible>>)
        ensures
            exists|hw: SlaveReceiveInputs|
                (final(self)@, result) == {
                    let (state, frame) = #[trigger] spec_slave_read_step(
                        old(self)@,
                        hw,
                        STD::WS_START_LEVEL,
                    );
                    (state, spec_slave_read_result::<STD, FMT, T>(frame))
                },
    {
        let (frame, Ghost(hw)) = self.slave_receive();
        match frame {
            Some(raw) => {
                assert(spec_slave_read_step(old(self)@, hw, STD::WS_START_LEVEL) == (
                    self@,
                    Some(raw@),
                ));
                Ok(T::from_raw(raw))
            },
            None => {
                assert(spec_slave_read_step(old(self)@, hw, STD::WS_START_LEVEL) == (
                    self@,
                    None::<Seq<u16>>,
                ));
                Err(Error::WouldBlock)
            },
        }
    }

    /// Read frames (blocking) while the predicate returns `true`: take one step after the
    /// other and hand each frame to the predicate, for `max_polls` steps at most. Returns
    /// whether the predicate ended the reception; `false` means that the polls were used up.
    ///
    /// The given closure must not block, otherwise communication problems may occur.
    pub fn read_while<F, T>(&mut self, predicate: F, max_polls: u32) -> (stopped: bool) where
        T: FromRawFrame<STD, FMT>,
        F: FnMut(T) -> bool,

        requires
            forall|frame: T| #[trigger] call_requires(predicate, (frame,)),
        ensures
            exists|inputs: Seq<SlaveReceiveInputs>, answers: Seq<bool>|
                {
                    &&& #[trigger] spec_slave_read_stops(
                        old(self)@,
                        inputs,
                        answers,
                        STD::WS_START_LEVEL,
                        max_polls,
                        final(self)@,
                        stopped,
                    )
                    &&& spec_slave_answers::<STD, FMT, T, F>(
                        predicate,
                        old(self)@,
                        inputs,
                        answers,
                        STD::WS_START_LEVEL,
                    )
                },
    {
        let ghost start = self@;
        let mut wanted = predicate;
        let ghost mut inputs = Seq::<SlaveReceiveInputs>::empty();
        let ghost mut answers = Seq::<bool>::empty();
        let mut polls: u32 = 0;
        assert(inputs.take(0) =~= inputs);
        while polls < max_polls
            invariant
                polls <= max_polls,
                inputs.len() == polls,
                answers.len() == polls,
                start == old(self)@,
                wanted == predicate,
                self@ == spec_slave_read_run(start, inputs, STD::WS_START_LEVEL).0,
                forall|frame: T| #[trigger] call_requires(predicate, (frame,)),
                forall|steps: int|
                    0 <= steps <= inputs.len() ==> ((#[trigger] spec_slave_read_run(
                        start,
                        inputs.take(steps),
                        STD::WS_START_LEVEL,
                    )).1 is Some ==> answers[steps - 1]),
                spec_slave_answers::<STD, FMT, T, F>(
                    predicate,
                    start,
                    inputs,
                    answers,
                    STD::WS_START_LEVEL,
                ),
            decreases max_polls - polls,
        {
            let (frame, Ghost(hw)) = self.slave_receive();
            let ghost longer = inputs.push(hw);
            proof {
                assert(longer.drop_last() =~= inputs);
                assert(longer.take(longer.len() as int) =~= longer);
                assert(spec_slave_read_run(start, longer, STD::WS_START_LEVEL) == (self@, match frame {
                    Some(raw) => Some(raw@),
                    None => None,
                }));
                assert forall|steps: int| 0 <= steps < longer.len() implies longer.take(steps)
                    == inputs.take(steps) by {
                    assert(longer.take(steps) =~= inputs.take(steps));
                }
            }
            polls = polls + 1;
            match frame {
                None => {
                    proof {
                        inputs = longer;
                        answers = answers.push(true);
                    }
                },
                Some(raw) => {
                    let more: bool = wanted(T::from_raw(raw));
                    proof {
                        inputs = longer;
                        answers = answers.push(more);
                    }
                    if !more {
                        proof {
                            assert(spec_slave_read_stops(
                                start,
                                inputs,
                                answers,
                                STD::WS_START_LEVEL,
                                max_polls,
                                self@,
                                true,
                            ));
                            assert(spec_slave_answers::<STD, FMT, T, F>(
                                predicate,
                                start,
                                inputs,
                                answers,
                                STD::WS_START_LEVEL,
                            ));
                        }
                        return true;
                    }
                },
            }
        }
        proof {
            assert(inputs.take(inputs.len() as int) =~= inputs);
            assert(spec_slave_read_stops(
                start,
                inputs,
                answers,
                STD::WS_START_LEVEL,
                max_polls,
                self@,
                false,
            ));
            assert(spec_slave_answers::<STD, FMT, T, F>(
                    predicate,
                    start,
                    inputs,
                    answers,
                    STD::WS_START_LEVEL,
                ));
        }
        false
    }
}

/// A pair of 16-bit samples comes back unchanged from its two words.
pub proof fn lemma_stereo_16_round_trip(frame: (i16, i16))
    ensures
        spec_stereo_16_from_raw(spec_stereo_16_to_raw(frame)) == frame,
{
    let left: i16 = frame.0;
    let right: i16 = frame.1;
    assert((left as u16) as i16 == left) by (bit_vector);
    assert((right as u16) as i16 == right) by (bit_vector);
}

/// A pair of 32-bit samples comes back unchanged from its four words, with every standard
/// that has two channels.
pub proof fn lemma_stereo_32_round_trip<STD: ChannelFlag>(frame: (i32, i32))
    ensures
        <(i32, i32) as FromRawFrame<STD, Data32Channel32>>::spec_from_raw(
            <(i32, i32) as ToRawFrame<STD, Data32Channel32>>::spec_to_raw(&frame),
        ) == frame,
{
    let raw = spec_split_sample_32(frame.0) + spec_split_sample_32(frame.1);
    assert(raw.subrange(0, 2) =~= spec_split_sample_32(frame.0));
    assert(raw.subrange(2, 4) =~= spec_split_sample_32(frame.1));
    crate::format::lemma_sample_32_round_trip(frame.0);
    crate::format::lemma_sample_32_round_trip(frame.1);
}

/// A pair of 24-bit samples comes back from its four words as the low 24 bits of each
/// sample, sign-extended, with every standard that has two channels: whether the standard
/// aligns the samples to the left or to the right.
pub proof fn lemma_stereo_24_round_trip<STD: ChannelFlag>(frame: (i32, i32))
    ensures
        <(i32, i32) as FromRawFrame<STD, Data24Channel32>>::spec_from_raw(
            <(i32, i32) as ToRawFrame<STD, Data24Channel32>>::spec_to_raw(&frame),
        ) == (
            crate::format::spec_sign_extend_24(frame.0),
            crate::format::spec_sign_extend_24(frame.1),
        ),
{
    let raw = spec_split_sample_24(STD::VALUE, frame.0) + spec_split_sample_24(
        STD::VALUE,
        frame.1,
    );
    assert(raw.subrange(0, 2) =~= spec_split_sample_24(STD::VALUE, frame.0));
    assert(raw.subrange(2, 4) =~= spec_split_sample_24(STD::VALUE, frame.1));
    crate::format::lemma_sample_24_round_trip(STD::VALUE, frame.0);
    crate::format::lemma_sample_24_round_trip(STD::VALUE, frame.1);
}

/// With the monophonic standards a sample comes back from its words unchanged when it has 16
/// or 32 bits, and as its low 24 bits, sign-extended, when it has 24.
pub proof fn lemma_mono_round_trip<STD: NoChannelFlag>(narrow: i16, wide: i32)
    ensures
        <i16 as FromRawFrame<STD, Data16Channel16>>::spec_from_raw(
            <i16 as ToRawFrame<STD, Data16Channel16>>::spec_to_raw(&narrow),
        ) == narrow,
        <i16 as FromRawFrame<STD, Data16Channel32>>::spec_from_raw(
            <i16 as ToRawFrame<STD, Data16Channel32>>::spec_to_raw(&narrow),
        ) == narrow,
        <i32 as FromRawFrame<STD, Data32Channel32>>::spec_from_raw(
            <i32 as ToRawFrame<STD, Data32Channel32>>::spec_to_raw(&wide),
        ) == wide,
        <i32 as FromRawFrame<STD, Data24Channel32>>::spec_from_raw(
            <i32 as ToRawFrame<STD, Data24Channel32>>::spec_to_raw(&wide),
        ) == crate::format::spec_sign_extend_24(wide),
{
    assert((narrow as u16) as i16 == narrow) by (bit_vector);
    crate::format::lemma_sample_32_round_trip(wide);
    crate::format::lemma_sample_24_round_trip(STD::VALUE, wide);
}

} // verus!
