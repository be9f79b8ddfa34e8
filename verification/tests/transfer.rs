use std::cell::RefCell;
use std::collections::VecDeque;

use stm32_i2s_v12x::driver::{ConfigError, ReceiveError};
use stm32_i2s_v12x::marker::{
    Data16Channel16, Data16Channel32, Data24Channel32, Data32Channel32, Lsb, Master, Msb,
    PcmShortSync, Philips, Receive, Slave, Transmit,
};
use stm32_i2s_v12x::protocol::WriteStep;
use stm32_i2s_v12x::registers::{Access, Register};
use stm32_i2s_v12x::transfer::{Error, I2sTransfer, I2sTransferConfig, I2sTransferError};
use stm32_i2s_v12x::{I2sPeripheral, RegisterBlock, WsPin};

const TXE: u32 = 0x0002;
const RXNE: u32 = 0x0001;
const OVR: u32 = 0x0040;
const UDR: u32 = 0x0008;
const FRE: u32 = 0x0100;
const I2SE: u32 = 0x0400;

/// A WS pin that plays a list of levels, one per look, then stays at the last one.
struct ScriptedPin {
    levels: RefCell<VecDeque<bool>>,
    last: RefCell<bool>,
}

impl ScriptedPin {
    fn new(levels: &[bool], then: bool) -> Self {
        ScriptedPin {
            levels: RefCell::new(levels.iter().copied().collect()),
            last: RefCell::new(then),
        }
    }

    fn level(&self) -> bool {
        match self.levels.borrow_mut().pop_front() {
            Some(level) => level,
            None => *self.last.borrow(),
        }
    }
}

impl WsPin for ScriptedPin {
    fn is_low(&self) -> bool {
        !self.level()
    }

    fn is_high(&self) -> bool {
        self.level()
    }
}

/// A register block in memory. The settings registers keep what is written to them, a reset
/// brings them back to their reset values, and the status and data registers play a script.
struct Simulated {
    clock: u32,
    pin: ScriptedPin,
    cr1: u32,
    cr2: u32,
    i2scfgr: u32,
    i2spr: u32,
    status: VecDeque<u32>,
    idle_status: u32,
    data: VecDeque<u32>,
    log: Vec<Access>,
}

impl Simulated {
    fn new(clock: u32, idle_status: u32) -> Self {
        Simulated {
            clock,
            pin: ScriptedPin::new(&[], false),
            cr1: 0xffff,
            cr2: 0xffff,
            i2scfgr: 0xffff,
            i2spr: 0xffff,
            status: VecDeque::new(),
            idle_status,
            data: VecDeque::new(),
            log: Vec::new(),
        }
    }

    fn data_writes(&self) -> Vec<u32> {
        let mut words = Vec::new();
        for access in self.log.iter() {
            if let Access::Write(Register::Dr, value) = access {
                words.push(*value);
            }
        }
        words
    }
}

impl RegisterBlock for Simulated {
    fn base_address(&self) -> u32 {
        0x4001_3000
    }

    fn read_register(&mut self, reg: Register) -> u32 {
        let value = match reg {
            Register::Cr1 => self.cr1,
            Register::Cr2 => self.cr2,
            Register::Sr => self.status.pop_front().unwrap_or(self.idle_status),
            Register::Dr => self.data.pop_front().unwrap_or(0),
            Register::I2scfgr => self.i2scfgr,
            Register::I2spr => self.i2spr,
        };
        self.log.push(Access::Read(reg, value));
        value
    }

    fn write_register(&mut self, reg: Register, value: u32) {
        match reg {
            Register::Cr1 => self.cr1 = value,
            Register::Cr2 => self.cr2 = value,
            Register::I2scfgr => self.i2scfgr = value,
            Register::I2spr => self.i2spr = value,
            Register::Sr | Register::Dr => {}
        }
        self.log.push(Access::Write(reg, value));
    }
}

impl I2sPeripheral for Simulated {
    type WsPin = ScriptedPin;

    fn i2s_freq(&self) -> u32 {
        self.clock
    }

    fn ws_pin(&self) -> &ScriptedPin {
        &self.pin
    }

    fn ws_pin_mut(&mut self) -> &mut ScriptedPin {
        &mut self.pin
    }

    fn rcc_reset(&mut self) {
        self.cr1 = 0;
        self.cr2 = 0;
        self.i2scfgr = 0;
        self.i2spr = 0x0002;
        self.log.push(Access::Reset);
    }
}

fn would_block<T, E>(result: &Result<T, Error<E>>) -> bool {
    matches!(result, Err(Error::WouldBlock))
}

#[test]
fn master_transmit_end_to_end() {
    let config = I2sTransferConfig::new_master().request_frequency(48_000);
    let sim = Simulated::new(38_400_000, TXE);
    let mut transfer = I2sTransfer::new(sim, config).unwrap();
    // the first call takes the frame and writes the left word
    assert_eq!(transfer.write((0x1234_i16, -2_i16)), Ok(()));
    // the second call writes the right word and does not take its frame
    assert!(would_block(&transfer.write((0x7777_i16, 0x7777_i16))));
    let sim = transfer.release().into_inner();
    assert_eq!(
        &sim.log[..4],
        &[
            Access::Write(Register::Cr1, 0),
            Access::Write(Register::Cr2, 0),
            // I2S mode, master transmit, Philips, 16 bits in 16
            Access::Write(Register::I2scfgr, 0x0a00),
            // division 25: odd factor 1, divider 12
            Access::Write(Register::I2spr, 0x010c),
        ]
    );
    assert_eq!(sim.data_writes(), vec![0x1234, 0xfffe]);
    assert_eq!(sim.log.last(), Some(&Access::Reset));
    // disabled and reset
    assert_eq!(sim.i2scfgr, 0);
    assert_eq!(sim.i2spr, 0x0002);
    assert_eq!(sim.cr2, 0);
}

#[test]
fn master_transmit_accesses_of_one_write() {
    let config = I2sTransferConfig::new_master();
    let sim = Simulated::new(8_000_000, TXE);
    let mut transfer = I2sTransfer::new(sim, config).unwrap();
    assert_eq!(transfer.write((1_i16, 2_i16)), Ok(()));
    let sim = transfer.release().into_inner();
    assert_eq!(
        &sim.log[4..8],
        &[
            Access::Read(Register::I2scfgr, 0x0a00),
            Access::Write(Register::I2scfgr, 0x0a00 | I2SE),
            Access::Read(Register::Sr, TXE),
            Access::Write(Register::Dr, 1),
        ]
    );
}

#[test]
fn master_transmit_waits_for_an_empty_buffer() {
    let config = I2sTransferConfig::new_master();
    let mut sim = Simulated::new(8_000_000, TXE);
    sim.status.extend([0, 0, TXE, 0, TXE]);
    let mut transfer = I2sTransfer::new(sim, config).unwrap();
    assert!(would_block(&transfer.write((5_i16, 6_i16))));
    assert!(would_block(&transfer.write((5_i16, 6_i16))));
    assert_eq!(transfer.write((5_i16, 6_i16)), Ok(()));
    assert!(would_block(&transfer.write((7_i16, 8_i16))));
    assert!(would_block(&transfer.write((7_i16, 8_i16))));
    assert_eq!(transfer.write((7_i16, 8_i16)), Ok(()));
    let sim = transfer.release().into_inner();
    assert_eq!(sim.data_writes(), vec![5, 6, 7]);
}

#[test]
fn a_frame_takes_as_many_steps_as_it_has_words() {
    // four words: a pair of 32-bit samples
    let config = I2sTransferConfig::new_master().data_format(Data32Channel32);
    let sim = Simulated::new(8_000_000, TXE);
    let mut transfer = I2sTransfer::new(sim, config).unwrap();
    transfer.begin();
    let first = (0x1122_3344_i32, 0x5566_7788_i32);
    let second = (-1_i32, 0_i32);
    assert_eq!(transfer.write_step(Some(first)), WriteStep::Accepted);
    assert_eq!(transfer.write_step(Some(second)), WriteStep::Continued);
    assert_eq!(transfer.write_step(Some(second)), WriteStep::Continued);
    assert_eq!(transfer.write_step(Some(second)), WriteStep::Continued);
    // back at the start: the next frame is taken, and nothing of the first one is left
    assert_eq!(transfer.write_step(Some(second)), WriteStep::Accepted);
    assert_eq!(transfer.write_step(None::<(i32, i32)>), WriteStep::Continued);
    assert_eq!(transfer.write_step(None::<(i32, i32)>), WriteStep::Continued);
    assert_eq!(transfer.write_step(None::<(i32, i32)>), WriteStep::Continued);
    assert_eq!(transfer.write_step(None::<(i32, i32)>), WriteStep::Finished);
    let sim = transfer.release().into_inner();
    assert_eq!(
        sim.data_writes(),
        vec![0x1122, 0x3344, 0x5566, 0x7788, 0xffff, 0xffff, 0, 0]
    );
}

#[test]
fn a_mono_frame_of_one_word_is_taken_at_every_step() {
    let config = I2sTransferConfig::new_master().standard(PcmShortSync);
    let sim = Simulated::new(8_000_000, TXE);
    let mut transfer = I2sTransfer::new(sim, config).unwrap();
    assert_eq!(transfer.write(10_i16), Ok(()));
    assert_eq!(transfer.write(11_i16), Ok(()));
    assert_eq!(transfer.write_step(None::<i16>), WriteStep::Finished);
    let sim = transfer.release().into_inner();
    assert_eq!(sim.data_writes(), vec![10, 11]);
    // PCM with short synchronisation
    assert_eq!(sim.log[2], Access::Write(Register::I2scfgr, 0x0a30));
}

#[test]
fn frames_of_24_bits_follow_the_alignment_of_the_standard() {
    let sample = 0xff8e_aa33_u32 as i32;
    let config = I2sTransferConfig::new_master()
        .standard(Msb)
        .data_format(Data24Channel32);
    let sim = Simulated::new(8_000_000, TXE);
    let mut transfer = I2sTransfer::new(sim, config).unwrap();
    assert_eq!(transfer.write((sample, 0x0034_78ae_i32)), Ok(()));
    for _ in 0..3 {
        assert!(would_block(&transfer.write((0_i32, 0_i32))));
    }
    let sim = transfer.release().into_inner();
    assert_eq!(sim.data_writes(), vec![0x8eaa, 0x3300, 0x3478, 0xae00]);

    let config = I2sTransferConfig::new_master()
        .standard(Lsb)
        .data_format(Data24Channel32);
    let sim = Simulated::new(8_000_000, TXE);
    let mut transfer = I2sTransfer::new(sim, config).unwrap();
    assert_eq!(transfer.write((sample, 0x0034_78ae_i32)), Ok(()));
    for _ in 0..3 {
        assert!(would_block(&transfer.write((0_i32, 0_i32))));
    }
    let sim = transfer.release().into_inner();
    assert_eq!(sim.data_writes(), vec![0x008e, 0xaa33, 0x0034, 0x78ae]);
}

#[test]
fn master_receive_gives_a_frame_after_its_last_word() {
    let config = I2sTransferConfig::new_master()
        .receive()
        .data_format(Data16Channel32);
    let mut sim = Simulated::new(8_000_000, RXNE);
    sim.status.extend([0, RXNE, 0, RXNE]);
    sim.data.extend([0xfffe, 0x1234_0003, 7, 8]);
    let mut transfer = I2sTransfer::new(sim, config).unwrap();
    assert!(would_block(&transfer.read::<(i16, i16)>()));
    assert!(would_block(&transfer.read::<(i16, i16)>()));
    assert!(would_block(&transfer.read::<(i16, i16)>()));
    // only the low 16 bits of the data register count
    assert_eq!(transfer.read::<(i16, i16)>(), Ok((-2, 3)));
    assert!(would_block(&transfer.read::<(i16, i16)>()));
    assert_eq!(transfer.read::<(i16, i16)>(), Ok((7, 8)));
    let sim = transfer.release().into_inner();
    assert_eq!(sim.log[2], Access::Write(Register::I2scfgr, 0x0b01));
}

#[test]
fn master_receive_of_32_bits_and_24_bits() {
    let config = I2sTransferConfig::new_master()
        .receive()
        .data_format(Data32Channel32);
    let mut sim = Simulated::new(8_000_000, RXNE);
    sim.data.extend([0x8000, 0x0001, 0x0000, 0xffff]);
    let mut transfer = I2sTransfer::new(sim, config).unwrap();
    for _ in 0..3 {
        assert!(would_block(&transfer.read::<(i32, i32)>()));
    }
    assert_eq!(
        transfer.read::<(i32, i32)>(),
        Ok((0x8000_0001_u32 as i32, 0xffff))
    );

    let config = I2sTransferConfig::new_master()
        .receive()
        .standard(PcmShortSync)
        .data_format(Data24Channel32);
    let mut sim = Simulated::new(8_000_000, RXNE);
    sim.data.extend([0x8eaa, 0x33ff]);
    let mut transfer = I2sTransfer::new(sim, config).unwrap();
    assert!(would_block(&transfer.read::<i32>()));
    assert_eq!(transfer.read::<i32>(), Ok(0xff8e_aa33_u32 as i32));
}

#[test]
fn master_receive_overrun_is_returned_and_stops_the_transfer() {
    let config = I2sTransferConfig::new_master().receive();
    let mut sim = Simulated::new(8_000_000, RXNE);
    sim.status.extend([RXNE, OVR]);
    sim.data.extend([0x0bad, 0xffff_0ee0, 1, 2]);
    let mut transfer = I2sTransfer::new(sim, config).unwrap();
    assert!(would_block(&transfer.read::<(i16, i16)>()));
    let result = transfer.read::<(i16, i16)>();
    // the error carries the word that the data register held
    assert_eq!(result, Err(Error::Other(ReceiveError::Overrun(0x0ee0))));
    assert_eq!(I2sTransferError::Overrun(0x0ee0), ReceiveError::Overrun(0x0ee0));
    // the cursor is back at the start: the next frame is made of the next two words only
    assert!(would_block(&transfer.read::<(i16, i16)>()));
    assert_eq!(transfer.read::<(i16, i16)>(), Ok((1, 2)));
    let sim = transfer.release().into_inner();
    let enabled = 0x0b00 | I2SE;
    assert_eq!(
        &sim.log[4..20],
        &[
            Access::Read(Register::I2scfgr, 0x0b00),
            Access::Write(Register::I2scfgr, enabled),
            Access::Read(Register::Sr, RXNE),
            Access::Read(Register::Dr, 0x0bad),
            Access::Read(Register::I2scfgr, enabled),
            Access::Write(Register::I2scfgr, enabled),
            Access::Read(Register::Sr, OVR),
            // the word for the error
            Access::Read(Register::Dr, 0xffff_0ee0),
            // disabled
            Access::Read(Register::I2scfgr, enabled),
            Access::Write(Register::I2scfgr, 0x0b00),
            // clocks reset, settings kept
            Access::Read(Register::Cr2, 0),
            Access::Read(Register::I2scfgr, 0x0b00),
            Access::Read(Register::I2spr, 0x0002),
            Access::Reset,
            Access::Write(Register::Cr2, 0),
            Access::Write(Register::I2spr, 0x0002),
        ]
    );
    assert_eq!(sim.log[20], Access::Write(Register::I2scfgr, 0x0b00));
}

#[test]
fn master_receive_overrun_with_a_word_drops_the_frame_in_progress() {
    let config = I2sTransferConfig::new_master().receive();
    let mut sim = Simulated::new(8_000_000, RXNE);
    sim.status.extend([RXNE | OVR]);
    sim.data.extend([0x0bad, 0x0ee0, 1, 2]);
    let mut transfer = I2sTransfer::new(sim, config).unwrap();
    assert_eq!(
        transfer.read::<(i16, i16)>(),
        Err(Error::Other(ReceiveError::Overrun(0x0ee0)))
    );
    assert!(would_block(&transfer.read::<(i16, i16)>()));
    assert_eq!(transfer.read::<(i16, i16)>(), Ok((1, 2)));
}

#[test]
fn master_end_disables_and_resets_the_clocks() {
    let config = I2sTransferConfig::new_master().master_clock(true);
    let sim = Simulated::new(8_000_000, TXE);
    let mut transfer = I2sTransfer::new(sim, config).unwrap();
    assert_eq!(transfer.write((1_i16, 2_i16)), Ok(()));
    transfer.end();
    // no frame in progress any more: the next frame starts with its first word
    assert_eq!(transfer.write((3_i16, 4_i16)), Ok(()));
    let sim = transfer.release().into_inner();
    assert_eq!(sim.data_writes(), vec![1, 3]);
    assert!(sim.log.contains(&Access::Reset));
}

#[test]
fn master_sample_rate_reads_the_registers_back() {
    let config = I2sTransferConfig::new_master()
        .standard(Philips)
        .data_format(Data16Channel32)
        .master_clock(true)
        .request_frequency(48_000);
    let sim = Simulated::new(86_000_000, TXE);
    let mut transfer = I2sTransfer::new(sim, config).unwrap();
    // division 7: 86 MHz / (256 * 7)
    assert_eq!(transfer.sample_rate(), 47_991);
}

#[test]
fn slave_transmit_synchronises_when_ws_is_away_from_start_twice() {
    // Philips: a frame starts when WS is low, so the slave may only start while it is high
    let config = I2sTransferConfig::new_slave();
    let mut sim = Simulated::new(0, TXE);
    sim.pin = ScriptedPin::new(&[false, true, false, true, true], true);
    let mut transfer = I2sTransfer::new(sim, config).unwrap();
    // WS is low: nothing happens
    assert!(would_block(&transfer.write((1_i16, 2_i16))));
    // WS is high, then low after enabling: the frame is taken, and dropped
    assert_eq!(transfer.write((3_i16, 4_i16)), Ok(()));
    // WS is high before and after: synchronised
    assert_eq!(transfer.write((5_i16, 6_i16)), Ok(()));
    // synchronised: goes on with the frame in progress
    assert_eq!(transfer.write_step(Some((7_i16, 8_i16))), WriteStep::Continued);
    assert_eq!(transfer.write((7_i16, 8_i16)), Ok(()));
    let sim = transfer.release().into_inner();
    assert_eq!(sim.data_writes(), vec![3, 5, 6, 7]);
    let idle = 0x0800;
    assert_eq!(
        &sim.log[4..13],
        &[
            Access::Write(Register::Dr, 3),
            Access::Read(Register::I2scfgr, idle),
            Access::Write(Register::I2scfgr, idle | I2SE),
            Access::Read(Register::I2scfgr, idle | I2SE),
            Access::Write(Register::I2scfgr, idle),
            Access::Write(Register::Dr, 5),
            Access::Read(Register::I2scfgr, idle),
            Access::Write(Register::I2scfgr, idle | I2SE),
            Access::Read(Register::Sr, TXE),
        ]
    );
}

#[test]
fn slave_transmit_with_msb_starts_on_the_other_level() {
    let config = I2sTransferConfig::new_slave().standard(Msb);
    let mut sim = Simulated::new(0, TXE);
    sim.pin = ScriptedPin::new(&[true, false, false], false);
    let mut transfer = I2sTransfer::new(sim, config).unwrap();
    // MSB justified: a frame starts when WS is high
    assert!(would_block(&transfer.write((1_i16, 2_i16))));
    assert_eq!(transfer.write((3_i16, 4_i16)), Ok(()));
    let sim = transfer.release().into_inner();
    assert_eq!(sim.data_writes(), vec![3]);
}

#[test]
fn slave_transmit_recovers_from_underrun_and_frame_error() {
    for flag in [UDR, FRE] {
        let config = I2sTransferConfig::new_slave();
        let mut sim = Simulated::new(0, TXE);
        sim.pin = ScriptedPin::new(&[], true);
        sim.status.extend([TXE | flag]);
        let mut transfer = I2sTransfer::new(sim, config).unwrap();
        assert_eq!(transfer.write((1_i16, 2_i16)), Ok(()));
        // the second word is written, then the error sends the slave back to the start
        assert!(would_block(&transfer.write((3_i16, 4_i16))));
        // out of synchronisation: starts over with a new frame
        assert_eq!(transfer.write((5_i16, 6_i16)), Ok(()));
        let sim = transfer.release().into_inner();
        assert_eq!(sim.data_writes(), vec![1, 2, 5]);
    }
}

#[test]
fn slave_transmit_finishes_when_nothing_is_offered() {
    let config = I2sTransferConfig::new_slave();
    let mut sim = Simulated::new(0, TXE);
    sim.pin = ScriptedPin::new(&[false], true);
    let mut transfer = I2sTransfer::new(sim, config).unwrap();
    assert_eq!(transfer.write_step(None::<(i16, i16)>), WriteStep::Idle);
    assert_eq!(transfer.write_step(None::<(i16, i16)>), WriteStep::Finished);
    let sim = transfer.release().into_inner();
    assert_eq!(sim.data_writes(), Vec::<u32>::new());
}

#[test]
fn slave_end_disables_and_forgets_the_synchronisation() {
    let config = I2sTransferConfig::new_slave();
    let mut sim = Simulated::new(0, TXE);
    sim.pin = ScriptedPin::new(&[true, true, false], true);
    let mut transfer = I2sTransfer::new(sim, config).unwrap();
    assert_eq!(transfer.write((1_i16, 2_i16)), Ok(()));
    transfer.end();
    // out of synchronisation again, and WS is at the starting level
    assert!(would_block(&transfer.write((3_i16, 4_i16))));
    let sim = transfer.release().into_inner();
    assert_eq!(sim.data_writes(), vec![1]);
}

#[test]
fn slave_receive_takes_no_word_before_it_is_synchronised() {
    let config = I2sTransferConfig::new_slave().receive();
    let mut sim = Simulated::new(0, RXNE);
    sim.pin = ScriptedPin::new(&[false, true, false, true, true], true);
    sim.data.extend([0xdead, 0xbeef, 1, 2]);
    let mut transfer = I2sTransfer::new(sim, config).unwrap();
    // WS at the starting level
    assert!(would_block(&transfer.read::<(i16, i16)>()));
    // WS moved while enabling: 0xdead is read to clear the flags, and thrown away
    assert!(would_block(&transfer.read::<(i16, i16)>()));
    // synchronised: 0xbeef is thrown away too
    assert!(would_block(&transfer.read::<(i16, i16)>()));
    assert!(would_block(&transfer.read::<(i16, i16)>()));
    assert_eq!(transfer.read::<(i16, i16)>(), Ok((1, 2)));
    let sim = transfer.release().into_inner();
    let idle = 0x0900;
    assert_eq!(
        &sim.log[4..16],
        &[
            Access::Read(Register::I2scfgr, idle),
            Access::Write(Register::I2scfgr, idle),
            Access::Read(Register::I2scfgr, idle),
            Access::Write(Register::I2scfgr, idle),
            Access::Read(Register::I2scfgr, idle),
            Access::Write(Register::I2scfgr, idle | I2SE),
            Access::Read(Register::Dr, 0xdead),
            Access::Read(Register::Sr, RXNE),
            Access::Read(Register::I2scfgr, idle | I2SE),
            Access::Write(Register::I2scfgr, idle),
            Access::Read(Register::I2scfgr, idle),
            Access::Write(Register::I2scfgr, idle),
        ]
    );
}

#[test]
fn slave_receive_recovers_from_overrun_and_frame_error() {
    for flag in [OVR, FRE] {
        let config = I2sTransferConfig::new_slave().receive();
        let mut sim = Simulated::new(0, RXNE);
        sim.pin = ScriptedPin::new(&[], true);
        sim.status.extend([0, RXNE | flag]);
        sim.data.extend([0, 0x0bad, 0, 1, 2]);
        let mut transfer = I2sTransfer::new(sim, config).unwrap();
        // synchronises
        assert!(would_block(&transfer.read::<(i16, i16)>()));
        // takes a word, then the error sends the slave back to the start
        assert!(would_block(&transfer.read::<(i16, i16)>()));
        // synchronises again
        assert!(would_block(&transfer.read::<(i16, i16)>()));
        assert!(would_block(&transfer.read::<(i16, i16)>()));
        assert_eq!(transfer.read::<(i16, i16)>(), Ok((1, 2)));
    }
}

#[test]
fn a_required_frequency_that_cannot_be_reached_is_refused() {
    let config = I2sTransferConfig::new_master().require_frequency(48_000);
    let sim = Simulated::new(38_400_000 + 1, TXE);
    assert!(matches!(
        I2sTransfer::new(sim, config),
        Err(ConfigError::FrequencyUnreachable)
    ));
    let config = I2sTransferConfig::new_master().require_frequency(48_000);
    let sim = Simulated::new(38_400_000, TXE);
    let transfer = config.i2s_transfer(sim).unwrap();
    let sim = transfer.release().into_inner();
    assert_eq!(sim.log[3], Access::Write(Register::I2spr, 0x010c));
}

#[test]
fn transfer_configuration_carries_over_roles_and_directions() {
    let config = I2sTransferConfig::new_master()
        .master_clock(true)
        .request_frequency(1)
        .to_slave()
        .receive()
        .transmit()
        .receive();
    let transfer: I2sTransfer<Simulated, Slave, Receive, Philips, Data16Channel16> =
        I2sTransfer::new(Simulated::new(1, 0), config).unwrap();
    let sim = transfer.release().into_inner();
    // slave receive, and the settings of a master are gone
    assert_eq!(sim.log[2], Access::Write(Register::I2scfgr, 0x0900));
    assert_eq!(sim.log[3], Access::Write(Register::I2spr, 0x0002));

    let config = I2sTransferConfig::default().to_master().prescaler(true, 3);
    let transfer: I2sTransfer<Simulated, Master, Transmit, Philips, Data16Channel16> =
        I2sTransfer::new(Simulated::new(1, 0), config.unwrap()).unwrap();
    let sim = transfer.release().into_inner();
    assert_eq!(sim.log[3], Access::Write(Register::I2spr, 0x0103));
    assert!(matches!(
        I2sTransferConfig::new_master().prescaler(false, 1),
        Err(ConfigError::InvalidDivider)
    ));
}

#[test]
fn blocking_write_of_a_master_goes_through_all_the_frames() {
    let config = I2sTransferConfig::new_master();
    let mut sim = Simulated::new(8_000_000, TXE);
    sim.status.extend([0, TXE, 0]);
    let mut transfer = I2sTransfer::new(sim, config).unwrap();
    let frames = [(1_i16, 2_i16), (3, 4), (5, 6)];
    assert_eq!(transfer.write_iter(&frames, 100), (3, true));
    let sim = transfer.release().into_inner();
    assert_eq!(sim.data_writes(), vec![1, 2, 3, 4, 5, 6]);
    // enabled once, then nine polls: two without room, six words, one that finds nothing left
    assert_eq!(sim.log.len(), 4 + 2 + 9 + 6 + 3);
}

#[test]
fn blocking_write_of_a_master_stops_when_out_of_polls() {
    let config = I2sTransferConfig::new_master();
    let sim = Simulated::new(8_000_000, TXE);
    let mut transfer = I2sTransfer::new(sim, config).unwrap();
    let frames = [(1_i16, 2_i16), (3, 4), (5, 6)];
    // the second frame is taken with the third poll, and its second word is still to write
    assert_eq!(transfer.write_iter(&frames, 3), (2, false));
    // goes on where it stopped
    assert_eq!(transfer.write_iter(&frames[2..], 2), (1, false));
    assert_eq!(transfer.write_iter(&frames[3..], 0), (0, false));
    assert_eq!(transfer.write_iter(&frames[3..], 3), (0, true));
    assert_eq!(transfer.write_iter(&frames[3..], 1), (0, true));
    let sim = transfer.release().into_inner();
    assert_eq!(sim.data_writes(), vec![1, 2, 3, 4, 5, 6]);
}

#[test]
fn blocking_write_of_a_slave_synchronises_first() {
    let config = I2sTransferConfig::new_slave().data_format(Data16Channel32);
    let mut sim = Simulated::new(0, TXE);
    sim.pin = ScriptedPin::new(&[false, false, true, false, true, true], true);
    sim.status.extend([TXE, TXE | UDR]);
    let mut transfer = I2sTransfer::new(sim, config).unwrap();
    let frames = [(1_i16, 2_i16), (3, 4), (5, 6), (7, 8)];
    // two polls with WS at the starting level, one failed synchronisation that loses a
    // frame, one that succeeds, a word, a frame with an underrun that loses it, a new
    // synchronisation, a word, and a poll that finds nothing left
    assert_eq!(transfer.write_iter(&frames, 50), (4, true));
    let sim = transfer.release().into_inner();
    assert_eq!(sim.data_writes(), vec![1, 3, 4, 5, 7, 8]);
    let mut transfer = I2sTransfer::new(Simulated::new(0, TXE), I2sTransferConfig::new_slave())
        .unwrap();
    // WS stays at the starting level
    assert_eq!(transfer.write_iter(&frames, 7), (0, false));
    assert_eq!(transfer.release().into_inner().log.len(), 4 + 3);
}

#[test]
fn blocking_read_of_a_master_hands_frames_to_the_predicate() {
    let config = I2sTransferConfig::new_master().receive();
    let mut sim = Simulated::new(8_000_000, RXNE);
    sim.status.extend([0, RXNE, 0]);
    sim.data.extend([1, 2, 3, 4, 5, 6]);
    let mut transfer = I2sTransfer::new(sim, config).unwrap();
    let mut frames: Vec<(i16, i16)> = Vec::new();
    let stopped = transfer.read_while(
        |frame: (i16, i16)| {
            frames.push(frame);
            frames.len() < 2
        },
        100,
    );
    assert_eq!(stopped, Ok(true));
    assert_eq!(frames, vec![(1, 2), (3, 4)]);
    // out of polls after one more word
    let stopped = transfer.read_while(
        |frame: (i16, i16)| {
            frames.push(frame);
            true
        },
        1,
    );
    assert_eq!(stopped, Ok(false));
    let stopped = transfer.read_while(
        |frame: (i16, i16)| {
            frames.push(frame);
            true
        },
        1,
    );
    assert_eq!(stopped, Ok(false));
    assert_eq!(frames, vec![(1, 2), (3, 4), (5, 6)]);
    assert_eq!(transfer.read_while(|_: (i16, i16)| false, 0), Ok(false));
}

#[test]
fn blocking_read_of_a_master_fails_on_overrun() {
    let config = I2sTransferConfig::new_master().receive();
    let mut sim = Simulated::new(8_000_000, RXNE);
    sim.status.extend([RXNE, RXNE, RXNE, OVR]);
    sim.data.extend([1, 2, 3, 0x0ee0]);
    let mut transfer = I2sTransfer::new(sim, config).unwrap();
    let mut frames: Vec<(i16, i16)> = Vec::new();
    let result = transfer.read_while(
        |frame: (i16, i16)| {
            frames.push(frame);
            true
        },
        100,
    );
    assert_eq!(result, Err(ReceiveError::Overrun(0x0ee0)));
    assert_eq!(frames, vec![(1, 2)]);
    let sim = transfer.release().into_inner();
    // disabled, and the clocks reset: the enable bit is clear in what was written back
    assert_eq!(sim.i2scfgr, 0);
    let resets = sim.log.iter().filter(|access| **access == Access::Reset).count();
    assert_eq!(resets, 2);
}

#[test]
fn blocking_read_of_a_slave_synchronises_first() {
    let config = I2sTransferConfig::new_slave().receive().standard(PcmShortSync);
    let mut sim = Simulated::new(0, RXNE);
    sim.pin = ScriptedPin::new(&[true, true], false);
    sim.status.extend([0, RXNE, RXNE | FRE]);
    sim.data.extend([0xdead, 7, 8, 0xbeef, 9]);
    let mut transfer = I2sTransfer::new(sim, config).unwrap();
    let mut frames: Vec<i16> = Vec::new();
    // two polls with WS at the starting level, a synchronisation, 7, 8 with a frame error,
    // a new synchronisation, 9
    let stopped = transfer.read_while(
        |frame: i16| {
            frames.push(frame);
            frames.len() < 3
        },
        50,
    );
    assert!(stopped);
    assert_eq!(frames, vec![7, 8, 9]);
    assert!(!transfer.read_while(|_: i16| false, 0));
    let mut transfer = I2sTransfer::new(
        Simulated::new(0, RXNE),
        I2sTransferConfig::new_slave().receive().standard(Msb),
    )
    .unwrap();
    // WS is low: not the starting level of this standard, so the slave synchronises
    let mut count = 0;
    let stopped = transfer.read_while(
        |_: (i16, i16)| {
            count += 1;
            true
        },
        5,
    );
    assert!(!stopped);
    assert_eq!(count, 2);
}

#[test]
fn blocking_read_of_a_master_returns_an_overrun_seen_with_the_last_word() {
    let config = I2sTransferConfig::new_master().receive();
    let mut sim = Simulated::new(8_000_000, RXNE);
    // the overrun shows in the status that brings the second word of the frame
    sim.status.extend([RXNE, RXNE | OVR]);
    sim.data.extend([1, 2, 0x0ee0, 3, 4]);
    let mut transfer = I2sTransfer::new(sim, config).unwrap();
    let mut frames: Vec<(i16, i16)> = Vec::new();
    let result = transfer.read_while(
        |frame: (i16, i16)| {
            frames.push(frame);
            true
        },
        100,
    );
    // the frame went to the predicate, and the overrun was returned from the same poll
    assert_eq!(result, Err(ReceiveError::Overrun(0x0ee0)));
    assert_eq!(frames, vec![(1, 2)]);
    let sim = transfer.release().into_inner();
    let enabled = 0x0b00 | I2SE;
    assert_eq!(
        &sim.log[4..21],
        &[
            Access::Read(Register::I2scfgr, 0x0b00),
            Access::Write(Register::I2scfgr, enabled),
            Access::Read(Register::Sr, RXNE),
            Access::Read(Register::Dr, 1),
            Access::Read(Register::Sr, RXNE | OVR),
            Access::Read(Register::Dr, 2),
            // the word for the error
            Access::Read(Register::Dr, 0x0ee0),
            // disabled
            Access::Read(Register::I2scfgr, enabled),
            Access::Write(Register::I2scfgr, 0x0b00),
            // clocks reset once, settings kept
            Access::Read(Register::Cr2, 0),
            Access::Read(Register::I2scfgr, 0x0b00),
            Access::Read(Register::I2spr, 0x0002),
            Access::Reset,
            Access::Write(Register::Cr2, 0),
            Access::Write(Register::I2spr, 0x0002),
            Access::Write(Register::I2scfgr, 0x0b00),
            // release
            Access::Read(Register::I2scfgr, 0x0b00),
        ]
    );
}

#[test]
fn blocking_read_of_a_master_lets_the_predicate_stop_before_the_overrun() {
    let config = I2sTransferConfig::new_master().receive();
    let mut sim = Simulated::new(8_000_000, RXNE);
    sim.status.extend([RXNE, RXNE | OVR]);
    sim.data.extend([1, 2, 0x0ee0]);
    let mut transfer = I2sTransfer::new(sim, config).unwrap();
    assert_eq!(transfer.read_while(|_: (i16, i16)| false, 100), Ok(true));
    let sim = transfer.release().into_inner();
    // nothing was done about the overrun: two words read, no reset but that of the release
    let resets = sim.log.iter().filter(|access| **access == Access::Reset).count();
    assert_eq!(resets, 1);
}

#[test]
fn read_of_a_master_gives_the_frame_before_an_overrun_seen_with_its_last_word() {
    let config = I2sTransferConfig::new_master().receive();
    let mut sim = Simulated::new(8_000_000, RXNE);
    // the hardware keeps the flag until it is taken
    sim.status.extend([RXNE, RXNE | OVR, OVR]);
    sim.data.extend([1, 2, 0x0ee0]);
    let mut transfer = I2sTransfer::new(sim, config).unwrap();
    assert!(would_block(&transfer.read::<(i16, i16)>()));
    assert_eq!(transfer.read::<(i16, i16)>(), Ok((1, 2)));
    assert_eq!(
        transfer.read::<(i16, i16)>(),
        Err(Error::Other(ReceiveError::Overrun(0x0ee0)))
    );
}
