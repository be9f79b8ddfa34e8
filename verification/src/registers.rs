//! SPI/I2S registers: their place in the block and the layout of their fields.
//!
//! The layout is the one of the STM32F4 family. It is the same on all STM32F1, STM32F2,
//! STM32F4, STM32L0 and STM32L1 devices.

use vstd::prelude::*;
use crate::driver::{DataFormat, I2sStandard, SlaveOrMaster, TransmitOrReceive};
use crate::{DualI2sPeripheral, I2sPeripheral, RegisterBlock, WsPin};

verus! {

/// The registers of the block that I2S operation uses.
#[derive(Debug, Clone, Copy, PartialEq, Eq, Structural)]
pub enum Register {
    /// Control register 1. Not used in I2S mode, kept at its reset value.
    Cr1,
    /// Control register 2: interrupt and DMA request enable bits.
    Cr2,
    /// Status register.
    Sr,
    /// Data register, 16 bits wide.
    Dr,
    /// I2S configuration register.
    I2scfgr,
    /// I2S prescaler register.
    I2spr,
}

impl Register {
    /// Offset in bytes of the register from the start of the block.
    pub open spec fn spec_offset(self) -> u32 {
        match self {
            Register::Cr1 => 0x00,
            Register::Cr2 => 0x04,
            Register::Sr => 0x08,
            Register::Dr => 0x0c,
            Register::I2scfgr => 0x1c,
            Register::I2spr => 0x20,
        }
    }

    /// Offset in bytes of the register from the start of the block.
    pub fn offset(self) -> (offset: u32)
        ensures
            offset == self.spec_offset(),
    {
        match self {
            Register::Cr1 => 0x00,
            Register::Cr2 => 0x04,
            Register::Sr => 0x08,
            Register::Dr => 0x0c,
            Register::I2scfgr => 0x1c,
            Register::I2spr => 0x20,
        }
    }
}

/// One thing asked of a register block.
#[derive(Debug, Clone, Copy, PartialEq, Eq, Structural)]
pub enum Access {
    /// A register was read, and the hardware answered this value.
    Read(Register, u32),
    /// This value was written to a register.
    Write(Register, u32),
    /// The block went through a bus reset.
    Reset,
    /// The WS pin was asked whether it is high, and answered this.
    WsHigh(bool),
    /// The WS pin was asked whether it is low, and answered this.
    WsLow(bool),
}

/// A register block together with the record of everything that was asked of it.
///
/// The block is out of reach, and each of the operations below adds to the record exactly
/// the access that it makes: what the record holds is what the hardware saw, in order. The
/// record also holds what the WS pin answered to `ws_is_high` and `ws_is_low`.
pub struct Recorded<R> {
    block: R,
    history: Ghost<Seq<Access>>,
}

impl<R: RegisterBlock> Recorded<R> {
    /// The accesses made so far, oldest first.
    pub closed spec fn accesses(&self) -> Seq<Access> {
        self.history@
    }

    /// The register block, as the accesses made so far left it.
    pub closed spec fn inner(&self) -> R {
        self.block
    }

    /// Takes a register block in, with an empty record.
    pub fn new(block: R) -> (recorded: Self)
        ensures
            recorded.accesses() == Seq::<Access>::empty(),
            recorded.inner() == block,
    {
        Recorded { block, history: Ghost(Seq::empty()) }
    }

    /// Gives the register block back, and ends the record.
    pub fn into_inner(self) -> (block: R)
        ensures
            block == self.inner(),
    {
        self.block
    }

    /// Address of the first register of the block: what the block answers when asked.
    pub fn base_address(&self) -> (address: u32)
        ensures
            call_ensures(R::base_address, (&self.inner(),), address),
    {
        self.block.base_address()
    }

    /// Volatile read of a register.
    pub fn read_register(&mut self, reg: Register) -> (value: u32)
        ensures
            final(self).accesses() == old(self).accesses().push(Access::Read(reg, value)),
    {
        let value: u32 = self.block.read_register(reg);
        self.history = Ghost(self.history@.push(Access::Read(reg, value)));
        value
    }

    /// Volatile write of a register.
    pub fn write_register(&mut self, reg: Register, value: u32)
        ensures
            final(self).accesses() == old(self).accesses().push(Access::Write(reg, value)),
    {
        self.block.write_register(reg, value);
        self.history = Ghost(self.history@.push(Access::Write(reg, value)));
    }
}

impl<I: I2sPeripheral> Recorded<I> {
    /// Get the frequency of the I2S clock source of the device: what the device answers
    /// when asked.
    pub fn i2s_freq(&self) -> (frequency: u32)
        ensures
            call_ensures(I::i2s_freq, (&self.inner(),), frequency),
    {
        self.block.i2s_freq()
    }

    /// Get a reference to the WS pin: the one that the device hands out.
    pub fn ws_pin(&self) -> (pin: &I::WsPin)
        ensures
            call_ensures(I::ws_pin, (&self.inner(),), pin),
    {
        self.block.ws_pin()
    }

    /// Get a mutable reference to the WS pin: the one that the device hands out when it is
    /// borrowed until the caller is done with the pin. Working on the pin makes no register
    /// access.
    pub fn ws_pin_mut(&mut self) -> (pin: &mut I::WsPin)
        ensures
            final(self).accesses() == old(self).accesses(),
            exists|device: &mut I|
                {
                    &&& *device == old(self).inner()
                    &&& *final(device) == final(self).inner()
                    &&& #[trigger] call_ensures(I::ws_pin_mut, (device,), pin)
                },
    {
        self.block.ws_pin_mut()
    }

    /// Ask the WS pin of the device whether it is high, and record the answer.
    pub fn ws_is_high(&mut self) -> (high: bool)
        ensures
            final(self).accesses() == old(self).accesses().push(Access::WsHigh(high)),
            final(self).inner() == old(self).inner(),
            exists|pin: I::WsPin| #[trigger] crate::spec_ws_is_high(old(self).inner(), pin, high),
    {
        let pin = self.block.ws_pin();
        let high: bool = pin.is_high();
        proof {
            let witness = *pin;
            assert(crate::spec_ws_is_high(self.inner(), witness, high));
        }
        self.history = Ghost(self.history@.push(Access::WsHigh(high)));
        high
    }

    /// Ask the WS pin of the device whether it is low, and record the answer.
    pub fn ws_is_low(&mut self) -> (low: bool)
        ensures
            final(self).accesses() == old(self).accesses().push(Access::WsLow(low)),
            final(self).inner() == old(self).inner(),
            exists|pin: I::WsPin| #[trigger] crate::spec_ws_is_low(old(self).inner(), pin, low),
    {
        let pin = self.block.ws_pin();
        let low: bool = pin.is_low();
        proof {
            let witness = *pin;
            assert(crate::spec_ws_is_low(self.inner(), witness, low));
        }
        self.history = Ghost(self.history@.push(Access::WsLow(low)));
        low
    }

    /// Reset the peripheral through the RCC register.
    pub fn rcc_reset(&mut self)
        ensures
            final(self).accesses() == old(self).accesses().push(Access::Reset),
    {
        self.block.rcc_reset();
        self.history = Ghost(self.history@.push(Access::Reset));
    }
}

/// Reset both peripherals of a dual device through the RCC register. The one reset is
/// recorded for both blocks.
pub fn rcc_reset_both<I: DualI2sPeripheral>(
    peripheral: &mut I,
    main: &mut Recorded<I::Registers>,
    ext: &mut Recorded<I::Registers>,
)
    ensures
        final(main).accesses() == old(main).accesses().push(Access::Reset),
        final(ext).accesses() == old(ext).accesses().push(Access::Reset),
{
    peripheral.rcc_reset(&mut main.block, &mut ext.block);
    main.history = Ghost(main.history@.push(Access::Reset));
    ext.history = Ghost(ext.history@.push(Access::Reset));
}

/// CR2: Rx buffer DMA enable.
pub const CR2_RXDMAEN: u32 = 0x0001;

/// CR2: Tx buffer DMA enable.
pub const CR2_TXDMAEN: u32 = 0x0002;

/// CR2: error interrupt enable.
pub const CR2_ERRIE: u32 = 0x0020;

/// CR2: Rx buffer not empty interrupt enable.
pub const CR2_RXNEIE: u32 = 0x0040;

/// CR2: Tx buffer empty interrupt enable.
pub const CR2_TXEIE: u32 = 0x0080;

/// SR: receive buffer not empty.
pub const SR_RXNE: u32 = 0x0001;

/// SR: transmit buffer empty.
pub const SR_TXE: u32 = 0x0002;

/// SR: channel side.
pub const SR_CHSIDE: u32 = 0x0004;

/// SR: underrun.
pub const SR_UDR: u32 = 0x0008;

/// SR: overrun.
pub const SR_OVR: u32 = 0x0040;

/// SR: busy.
pub const SR_BSY: u32 = 0x0080;

/// SR: frame format error.
pub const SR_FRE: u32 = 0x0100;

/// I2SCFGR: channel length, set for 32 bits.
pub const I2SCFGR_CHLEN: u32 = 0x0001;

/// I2SCFGR: the two bits of the standard selection.
pub const I2SCFGR_I2SSTD: u32 = 0x0030;

/// I2SCFGR: I2S enable.
pub const I2SCFGR_I2SE: u32 = 0x0400;

/// I2SCFGR: I2S mode selection.
pub const I2SCFGR_I2SMOD: u32 = 0x0800;

/// I2SPR: the eight bits of the linear prescaler.
pub const I2SPR_I2SDIV: u32 = 0x00ff;

/// I2SPR: odd factor of the prescaler.
pub const I2SPR_ODD: u32 = 0x0100;

/// I2SPR: master clock output enable.
pub const I2SPR_MCKOE: u32 = 0x0200;

/// Value of CR1 and of CR2 after a reset.
pub const CR_RESET: u32 = 0x0000;

/// Value of the I2SCFG field, in place: bit 9 selects master, bit 8 selects receive.
pub open spec fn spec_i2scfg_field(role: SlaveOrMaster, dir: TransmitOrReceive) -> u32 {
    match (role, dir) {
        (SlaveOrMaster::Slave, TransmitOrReceive::Transmit) => 0x0000,
        (SlaveOrMaster::Slave, TransmitOrReceive::Receive) => 0x0100,
        (SlaveOrMaster::Master, TransmitOrReceive::Transmit) => 0x0200,
        (SlaveOrMaster::Master, TransmitOrReceive::Receive) => 0x0300,
    }
}

/// Value of the I2SSTD and PCMSYNC fields, in place.
pub open spec fn spec_i2sstd_field(standard: I2sStandard) -> u32 {
    match standard {
        I2sStandard::Philips => 0x0000,
        I2sStandard::Msb => 0x0010,
        I2sStandard::Lsb => 0x0020,
        I2sStandard::PcmShortSync => 0x0030,
        I2sStandard::PcmLongSync => 0x00b0,
    }
}

/// Value of the DATLEN and CHLEN fields, in place.
pub open spec fn spec_format_field(format: DataFormat) -> u32 {
    match format {
        DataFormat::Data16Channel16 => 0x0000,
        DataFormat::Data16Channel32 => 0x0001,
        DataFormat::Data24Channel32 => 0x0003,
        DataFormat::Data32Channel32 => 0x0005,
    }
}

/// The configuration word: I2S mode selected, peripheral disabled, and the role, direction,
/// standard and data format in their fields. The fields do not overlap, so the word is their
/// sum.
pub open spec fn spec_i2scfgr_word(
    role: SlaveOrMaster,
    dir: TransmitOrReceive,
    standard: I2sStandard,
    format: DataFormat,
) -> u32 {
    (I2SCFGR_I2SMOD + spec_i2scfg_field(role, dir) + spec_i2sstd_field(standard)
        + spec_format_field(format)) as u32
}

/// The configuration word written when a driver is created.
pub fn i2scfgr_word(
    role: SlaveOrMaster,
    dir: TransmitOrReceive,
    standard: I2sStandard,
    format: DataFormat,
) -> (word: u32)
    ensures
        word == spec_i2scfgr_word(role, dir, standard, format),
{
    let cfg: u32 = match (role, dir) {
        (SlaveOrMaster::Slave, TransmitOrReceive::Transmit) => 0x0000,
        (SlaveOrMaster::Slave, TransmitOrReceive::Receive) => 0x0100,
        (SlaveOrMaster::Master, TransmitOrReceive::Transmit) => 0x0200,
        (SlaveOrMaster::Master, TransmitOrReceive::Receive) => 0x0300,
    };
    let std: u32 = match standard {
        I2sStandard::Philips => 0x0000,
        I2sStandard::Msb => 0x0010,
        I2sStandard::Lsb => 0x0020,
        I2sStandard::PcmShortSync => 0x0030,
        I2sStandard::PcmLongSync => 0x00b0,
    };
    let fmt: u32 = match format {
        DataFormat::Data16Channel16 => 0x0000,
        DataFormat::Data16Channel32 => 0x0001,
        DataFormat::Data24Channel32 => 0x0003,
        DataFormat::Data32Channel32 => 0x0005,
    };
    I2SCFGR_I2SMOD + cfg + std + fmt
}

/// The prescaler word: the divider in bits 0 to 7, the odd factor in bit 8 and the master
/// clock output enable in bit 9.
pub open spec fn spec_i2spr_word(master_clock: bool, odd: bool, div: u8) -> u32 {
    ((if master_clock { I2SPR_MCKOE } else { 0 }) + (if odd { I2SPR_ODD } else { 0 }) + div) as u32
}

/// The prescaler word written when a driver is created.
pub fn i2spr_word(master_clock: bool, odd: bool, div: u8) -> (word: u32)
    ensures
        word == spec_i2spr_word(master_clock, odd, div),
{
    let mckoe: u32 = if master_clock { I2SPR_MCKOE } else { 0 };
    let odd_bit: u32 = if odd { I2SPR_ODD } else { 0 };
    mckoe + odd_bit + div as u32
}

/// `word` with the bits of `mask` set or cleared.
pub open spec fn spec_with_bits(word: u32, mask: u32, on: bool) -> u32 {
    if on {
        word | mask
    } else {
        word & !mask
    }
}

/// `word` with the bits of `mask` set or cleared.
pub fn with_bits(word: u32, mask: u32, on: bool) -> (result: u32)
    ensures
        result == spec_with_bits(word, mask, on),
{
    if on {
        word | mask
    } else {
        word & !mask
    }
}

/// Whether some bit of `mask` is set in `word`.
pub open spec fn spec_has_bits(word: u32, mask: u32) -> bool {
    word & mask != 0
}

/// Whether some bit of `mask` is set in `word`.
pub fn has_bits(word: u32, mask: u32) -> (result: bool)
    ensures
        result == spec_has_bits(word, mask),
{
    word & mask != 0
}

/// One read of `reg`, answered with `value`.
pub open spec fn spec_read(reg: Register, value: u32) -> Seq<Access> {
    seq![Access::Read(reg, value)]
}

/// One look at the WS pin, to see whether it is at the level that starts a frame: the pin
/// is asked whether it is high where that level is high, and whether it is low where it is
/// low. `started` is its answer.
pub open spec fn spec_ws_look(start_level: bool, started: bool) -> Seq<Access> {
    if start_level {
        seq![Access::WsHigh(started)]
    } else {
        seq![Access::WsLow(started)]
    }
}

/// One write of `value` to `reg`.
pub open spec fn spec_write(reg: Register, value: u32) -> Seq<Access> {
    seq![Access::Write(reg, value)]
}

/// A read-modify-write: `reg` is read, the hardware answers `read`, and `read` is written
/// back with the bits of `mask` set or cleared.
pub open spec fn spec_modify_bits(reg: Register, read: u32, mask: u32, on: bool) -> Seq<Access> {
    seq![Access::Read(reg, read), Access::Write(reg, spec_with_bits(read, mask, on))]
}

/// The accesses that set a block up: both control registers go to their reset value, which
/// disables the SPI and every interrupt and DMA request, then the configuration word and the
/// prescaler word are written.
pub open spec fn spec_setup(
    role: SlaveOrMaster,
    dir: TransmitOrReceive,
    standard: I2sStandard,
    format: DataFormat,
    master_clock: bool,
    prescaler: (bool, u8),
) -> Seq<Access> {
    seq![
        Access::Write(Register::Cr1, CR_RESET),
        Access::Write(Register::Cr2, CR_RESET),
        Access::Write(Register::I2scfgr, spec_i2scfgr_word(role, dir, standard, format)),
        Access::Write(Register::I2spr, spec_i2spr_word(master_clock, prescaler.0, prescaler.1)),
    ]
}

/// The accesses that reset the clocks of a block: the registers that hold the settings are
/// read, the block goes through a bus reset, and the settings are written back, the
/// configuration word last.
pub open spec fn spec_reset_clocks(cr2: u32, i2scfgr: u32, i2spr: u32) -> Seq<Access> {
    seq![
        Access::Read(Register::Cr2, cr2),
        Access::Read(Register::I2scfgr, i2scfgr),
        Access::Read(Register::I2spr, i2spr),
        Access::Reset,
        Access::Write(Register::Cr2, cr2),
        Access::Write(Register::I2spr, i2spr),
        Access::Write(Register::I2scfgr, i2scfgr),
    ]
}

/// Address of a register of the block that starts at `base`. Addresses are 32 bits wide and
/// wrap around.
pub open spec fn spec_register_address(base: u32, reg: Register) -> u32 {
    ((base + reg.spec_offset()) % 0x1_0000_0000) as u32
}

/// Whether `address` is the address of `reg` in a register block: the address that the
/// block answers for its first register, `base`, moved by the offset of `reg`.
pub open spec fn spec_is_register_address<R: RegisterBlock>(
    block: R,
    base: u32,
    reg: Register,
    address: u32,
) -> bool {
    &&& call_ensures(R::base_address, (&block,), base)
    &&& address == spec_register_address(base, reg)
}

/// Address of a register of the block that starts at `base`.
pub fn register_address(base: u32, reg: Register) -> (address: u32)
    ensures
        address == spec_register_address(base, reg),
{
    let offset: u32 = reg.offset();
    if base <= 0xffff_ffff - offset {
        base + offset
    } else {
        offset - (0xffff_ffff - base) - 1
    }
}

/// Sets or clears the bits of `mask` in `reg`, leaving its other bits as they are read.
/// Returns what was read.
pub(crate) fn modify_bits<R: RegisterBlock>(registers: &mut Recorded<R>, reg: Register, mask: u32, on: bool) -> (read: u32)
    ensures
        final(registers).accesses() == old(registers).accesses() + spec_modify_bits(
            reg,
            read,
            mask,
            on,
        ),
{
    let ghost before = registers.accesses();
    let read: u32 = registers.read_register(reg);
    registers.write_register(reg, with_bits(read, mask, on));
    assert(registers.accesses() =~= before + spec_modify_bits(reg, read, mask, on));
    read
}

/// Sets a block up for a configuration.
pub(crate) fn setup<R: RegisterBlock>(
    registers: &mut Recorded<R>,
    role: SlaveOrMaster,
    dir: TransmitOrReceive,
    standard: I2sStandard,
    format: DataFormat,
    master_clock: bool,
    prescaler: (bool, u8),
)
    ensures
        final(registers).accesses() == old(registers).accesses() + spec_setup(
            role,
            dir,
            standard,
            format,
            master_clock,
            prescaler,
        ),
{
    let ghost before = registers.accesses();
    // ensure SPI is disabled
    registers.write_register(Register::Cr1, CR_RESET);
    // disable interrupt and DMA request
    registers.write_register(Register::Cr2, CR_RESET);
    registers.write_register(Register::I2scfgr, i2scfgr_word(role, dir, standard, format));
    registers.write_register(Register::I2spr, i2spr_word(master_clock, prescaler.0, prescaler.1));
    assert(registers.accesses() =~= before + spec_setup(
        role,
        dir,
        standard,
        format,
        master_clock,
        prescaler,
    ));
}

/// The configuration word of a block that was just set up leaves the peripheral disabled, in
/// I2S mode.
pub proof fn lemma_setup_leaves_disabled(
    role: SlaveOrMaster,
    dir: TransmitOrReceive,
    standard: I2sStandard,
    format: DataFormat,
)
    ensures
        !spec_has_bits(spec_i2scfgr_word(role, dir, standard, format), I2SCFGR_I2SE),
        spec_has_bits(spec_i2scfgr_word(role, dir, standard, format), I2SCFGR_I2SMOD),
{
    let cfg: u32 = spec_i2scfg_field(role, dir);
    let st: u32 = spec_i2sstd_field(standard);
    let fmt: u32 = spec_format_field(format);
    let word: u32 = spec_i2scfgr_word(role, dir, standard, format);
    assert(word & 0x0400 == 0 && word & 0x0800 != 0) by (bit_vector)
        requires
            word == 0x800 + cfg + st + fmt,
            cfg == 0 || cfg == 0x100 || cfg == 0x200 || cfg == 0x300,
            st == 0 || st == 0x10 || st == 0x20 || st == 0x30 || st == 0xb0,
            fmt == 0 || fmt == 1 || fmt == 3 || fmt == 5,
    ;
}

/// Reading back what `with_bits` set or cleared gives the value asked for, and no other bit
/// changes.
pub proof fn lemma_with_bits_reads_back(word: u32, mask: u32, on: bool)
    requires
        mask != 0,
    ensures
        spec_has_bits(spec_with_bits(word, mask, on), mask) == on,
        spec_with_bits(word, mask, on) & !mask == word & !mask,
{
    assert(mask != 0 ==> (word | mask) & mask != 0) by (bit_vector);
    assert((word & !mask) & mask == 0) by (bit_vector);
    assert((word | mask) & !mask == word & !mask) by (bit_vector);
    assert((word & !mask) & !mask == word & !mask) by (bit_vector);
}

} // verus!
