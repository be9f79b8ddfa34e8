//! Markers for [`I2sDriver`](crate::driver::I2sDriver),
//! [`I2sTransfer`](crate::transfer::I2sTransfer) and their respective configuration.
//!
//! A marker is a type without a value. It stands in the type of a driver for a mode that is
//! fixed for the lifetime of the driver: changing the mode takes a new driver.

use vstd::prelude::*;
use crate::sealed::Sealed;

verus! {

/// Marker, indicated master mode.
#[derive(Debug, Clone, Copy)]
pub struct Master;

/// Marker, indicate slave mode.
#[derive(Debug, Clone, Copy)]
pub struct Slave;

/// Marker, indicated transmit mode.
#[derive(Debug, Clone, Copy)]
pub struct Transmit;

/// Marker, indicate receive mode.
#[derive(Debug, Clone, Copy)]
pub struct Receive;

/// Marker, indicate 16 bits data length on 16 bits wide channel.
#[derive(Debug, Clone, Copy)]
pub struct Data16Channel16;

/// Marker, indicate 16 bits data length on 32 bits wide channel.
#[derive(Debug, Clone, Copy)]
pub struct Data16Channel32;

/// Marker, indicate 24 bits data length on 32 bits wide channel.
#[derive(Debug, Clone, Copy)]
pub struct Data24Channel32;

/// Marker, indicate 32 bits data length on 32 bits wide channel.
#[derive(Debug, Clone, Copy)]
pub struct Data32Channel32;

/// Marker, indicate Philips I2S standard.
#[derive(Debug, Clone, Copy)]
pub struct Philips;

/// Marker, indicate MSB Justified standard.
#[derive(Debug, Clone, Copy)]
pub struct Msb;

/// Marker, indicate LSB Justified standard.
#[derive(Debug, Clone, Copy)]
pub struct Lsb;

/// Marker, indicate PCM standard with short frame synchronisation.
#[derive(Debug, Clone, Copy)]
pub struct PcmShortSync;

/// Marker, indicate PCM standard with long frame synchronisation.
#[derive(Debug, Clone, Copy)]
pub struct PcmLongSync;

/// Marker, indicate main part of a dual i2s device.
#[derive(Debug, Clone, Copy)]
pub struct Main;

/// Marker, indicate extension part of a dual i2s device.
#[derive(Debug, Clone, Copy)]
pub struct Ext;

impl Sealed for Master {

}

impl Sealed for Slave {

}

impl Sealed for Transmit {

}

impl Sealed for Receive {

}

impl Sealed for Data16Channel16 {

}

impl Sealed for Data16Channel32 {

}

impl Sealed for Data24Channel32 {

}

impl Sealed for Data32Channel32 {

}

impl Sealed for Philips {

}

impl Sealed for Msb {

}

impl Sealed for Lsb {

}

impl Sealed for PcmShortSync {

}

impl Sealed for PcmLongSync {

}

impl Sealed for Main {

}

impl Sealed for Ext {

}

/// Trait for `Master` and `Slave` markers.
pub trait Role: Sealed {
    /// The role that the marker stands for.
    const VALUE: crate::driver::SlaveOrMaster;
}

impl Role for Master {
    const VALUE: crate::driver::SlaveOrMaster = crate::driver::SlaveOrMaster::Master;
}

impl Role for Slave {
    const VALUE: crate::driver::SlaveOrMaster = crate::driver::SlaveOrMaster::Slave;
}

/// Trait for `Transmit` and `Receive` markers.
pub trait Direction: Sealed {
    /// The direction that the marker stands for.
    const VALUE: crate::driver::TransmitOrReceive;
}

impl Direction for Transmit {
    const VALUE: crate::driver::TransmitOrReceive = crate::driver::TransmitOrReceive::Transmit;
}

impl Direction for Receive {
    const VALUE: crate::driver::TransmitOrReceive = crate::driver::TransmitOrReceive::Receive;
}

/// Trait for marker indicating 16 bits data length, that is `Data16Channel16` and
/// `Data16Channel32`
pub trait Data16: Sealed {

}

impl Data16 for Data16Channel16 {

}

impl Data16 for Data16Channel32 {

}

/// Trait for marker indicating a DataFormat
pub trait DataFormat: Sealed {
    /// The data format that the marker stands for.
    const VALUE: crate::driver::DataFormat;

    /// Audio frame representation from API point of view;
    type AudioFrame: Default;
}

impl DataFormat for Data16Channel16 {
    const VALUE: crate::driver::DataFormat = crate::driver::DataFormat::Data16Channel16;

    type AudioFrame = (i16, i16);
}

impl DataFormat for Data16Channel32 {
    const VALUE: crate::driver::DataFormat = crate::driver::DataFormat::Data16Channel32;

    type AudioFrame = (i16, i16);
}

impl DataFormat for Data24Channel32 {
    const VALUE: crate::driver::DataFormat = crate::driver::DataFormat::Data24Channel32;

    type AudioFrame = (i32, i32);
}

impl DataFormat for Data32Channel32 {
    const VALUE: crate::driver::DataFormat = crate::driver::DataFormat::Data32Channel32;

    type AudioFrame = (i32, i32);
}

/// Trait for marker indicating a i2s standard.
pub trait I2sStandard: Sealed {
    /// The standard that the marker stands for.
    const VALUE: crate::driver::I2sStandard;

    /// WS line level that make start the i2s device. `true` mean high level.
    ///
    /// Slave need to be enabled when WS line is **not** at this level.
    const WS_START_LEVEL: bool;
}

impl I2sStandard for Philips {
    const VALUE: crate::driver::I2sStandard = crate::driver::I2sStandard::Philips;

    const WS_START_LEVEL: bool = false;
}

impl I2sStandard for Msb {
    const VALUE: crate::driver::I2sStandard = crate::driver::I2sStandard::Msb;

    const WS_START_LEVEL: bool = true;
}

impl I2sStandard for Lsb {
    const VALUE: crate::driver::I2sStandard = crate::driver::I2sStandard::Lsb;

    const WS_START_LEVEL: bool = true;
}

impl I2sStandard for PcmShortSync {
    const VALUE: crate::driver::I2sStandard = crate::driver::I2sStandard::PcmShortSync;

    const WS_START_LEVEL: bool = true;
}

impl I2sStandard for PcmLongSync {
    const VALUE: crate::driver::I2sStandard = crate::driver::I2sStandard::PcmLongSync;

    const WS_START_LEVEL: bool = true;
}

/// Marker trait for i2s standard where the CHSIDE status flag is a relevant channel indication
/// about data been received or to be transmitted.
pub trait ChannelFlag: I2sStandard + Sealed {
    /// The standard has two channels.
    proof fn lemma_is_stereo()
        ensures
            crate::prescaler::spec_nb_channels(Self::VALUE) == 2,
    ;
}

impl ChannelFlag for Philips {
    proof fn lemma_is_stereo() {
    }
}

impl ChannelFlag for Msb {
    proof fn lemma_is_stereo() {
    }
}

impl ChannelFlag for Lsb {
    proof fn lemma_is_stereo() {
    }
}

/// Marker trait for i2s standard where the CHSIDE status flag is meaningless.
pub trait NoChannelFlag: I2sStandard + Sealed {
    /// The standard has one channel.
    proof fn lemma_is_mono()
        ensures
            crate::prescaler::spec_nb_channels(Self::VALUE) == 1,
    ;
}

impl NoChannelFlag for PcmShortSync {
    proof fn lemma_is_mono() {
    }
}

impl NoChannelFlag for PcmLongSync {
    proof fn lemma_is_mono() {
    }
}

/// The value that each marker of a data format stands for.
pub proof fn lemma_data_format_values()
    ensures
        <Data16Channel16 as DataFormat>::VALUE == crate::driver::DataFormat::Data16Channel16,
        <Data16Channel32 as DataFormat>::VALUE == crate::driver::DataFormat::Data16Channel32,
        <Data24Channel32 as DataFormat>::VALUE == crate::driver::DataFormat::Data24Channel32,
        <Data32Channel32 as DataFormat>::VALUE == crate::driver::DataFormat::Data32Channel32,
{
}

/// The value that each marker of a standard stands for, and the level of the WS line that
/// starts a frame with it: low with the Philips standard, high with the others.
pub proof fn lemma_standard_values()
    ensures
        <Philips as I2sStandard>::VALUE == crate::driver::I2sStandard::Philips,
        <Msb as I2sStandard>::VALUE == crate::driver::I2sStandard::Msb,
        <Lsb as I2sStandard>::VALUE == crate::driver::I2sStandard::Lsb,
        <PcmShortSync as I2sStandard>::VALUE == crate::driver::I2sStandard::PcmShortSync,
        <PcmLongSync as I2sStandard>::VALUE == crate::driver::I2sStandard::PcmLongSync,
        !<Philips as I2sStandard>::WS_START_LEVEL,
        <Msb as I2sStandard>::WS_START_LEVEL,
        <Lsb as I2sStandard>::WS_START_LEVEL,
        <PcmShortSync as I2sStandard>::WS_START_LEVEL,
        <PcmLongSync as I2sStandard>::WS_START_LEVEL,
{
}

/// The value that each marker of a role and of a direction stands for.
pub proof fn lemma_direction_values()
    ensures
        <Master as Role>::VALUE == crate::driver::SlaveOrMaster::Master,
        <Slave as Role>::VALUE == crate::driver::SlaveOrMaster::Slave,
        <Transmit as Direction>::VALUE == crate::driver::TransmitOrReceive::Transmit,
        <Receive as Direction>::VALUE == crate::driver::TransmitOrReceive::Receive,
{
}

} // verus!
