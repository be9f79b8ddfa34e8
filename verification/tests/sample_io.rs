use std::collections::VecDeque;

use stm32_i2s_v12x::driver::{DataFormat, I2sStandard};
use stm32_i2s_v12x::format::{
    read_one_step, read_sample, read_two_steps, write_one_step, write_sample, write_two_steps,
};
use stm32_i2s_v12x::registers::{Access, Recorded, Register};
use stm32_i2s_v12x::RegisterBlock;

/// A block whose status register plays a script, then stays at 0.
struct Scripted {
    status: VecDeque<u32>,
    data: VecDeque<u32>,
    log: Vec<Access>,
}

impl Scripted {
    fn new(status: &[u32], data: &[u32]) -> Recorded<Scripted> {
        Recorded::new(Scripted {
            status: status.iter().copied().collect(),
            data: data.iter().copied().collect(),
            log: Vec::new(),
        })
    }
}

impl RegisterBlock for Scripted {
    fn base_address(&self) -> u32 {
        0
    }

    fn read_register(&mut self, reg: Register) -> u32 {
        let value = match reg {
            Register::Sr => self.status.pop_front().unwrap_or(0),
            Register::Dr => self.data.pop_front().unwrap_or(0),
            _ => 0,
        };
        self.log.push(Access::Read(reg, value));
        value
    }

    fn write_register(&mut self, reg: Register, value: u32) {
        self.log.push(Access::Write(reg, value));
    }
}

#[test]
fn one_word_samples() {
    let mut block = Scripted::new(&[], &[0x0001_fffe]);
    write_one_step(&mut block, 0xabcd);
    assert_eq!(read_one_step(&mut block), 0xfffe);
    assert_eq!(
        block.into_inner().log,
        vec![
            Access::Write(Register::Dr, 0xabcd),
            Access::Read(Register::Dr, 0x0001_fffe),
        ]
    );
}

#[test]
fn two_word_write_waits_for_the_buffer_to_empty() {
    let mut block = Scripted::new(&[0, 0x0001, 0x0002], &[]);
    assert!(write_two_steps(&mut block, [0x1111, 0x2222], 10));
    assert_eq!(
        block.into_inner().log,
        vec![
            Access::Write(Register::Dr, 0x1111),
            Access::Read(Register::Sr, 0),
            Access::Read(Register::Sr, 0x0001),
            Access::Read(Register::Sr, 0x0002),
            Access::Write(Register::Dr, 0x2222),
        ]
    );
}

#[test]
fn two_word_write_gives_up_after_its_polls() {
    let mut block = Scripted::new(&[0, 0, 0, 0x0002], &[]);
    assert!(!write_two_steps(&mut block, [0x1111, 0x2222], 3));
    assert_eq!(
        block.into_inner().log,
        vec![
            Access::Write(Register::Dr, 0x1111),
            Access::Read(Register::Sr, 0),
            Access::Read(Register::Sr, 0),
            Access::Read(Register::Sr, 0),
        ]
    );
    let mut block = Scripted::new(&[0x0002], &[]);
    assert!(!write_two_steps(&mut block, [0x1111, 0x2222], 0));
    assert_eq!(block.into_inner().log, vec![Access::Write(Register::Dr, 0x1111)]);
    let mut block = Scripted::new(&[0x0002], &[]);
    assert!(write_two_steps(&mut block, [0x1111, 0x2222], 1));
    assert_eq!(block.into_inner().log.len(), 3);
}

#[test]
fn two_word_read_waits_for_the_second_word() {
    let mut block = Scripted::new(&[0x0002, 0x0001], &[0xffff_8eaa, 0x3300]);
    assert_eq!(read_two_steps(&mut block, 5), Some([0x8eaa, 0x3300]));
    assert_eq!(
        block.into_inner().log,
        vec![
            Access::Read(Register::Dr, 0xffff_8eaa),
            Access::Read(Register::Sr, 0x0002),
            Access::Read(Register::Sr, 0x0001),
            Access::Read(Register::Dr, 0x3300),
        ]
    );
}

#[test]
fn two_word_read_gives_up_after_its_polls() {
    let mut block = Scripted::new(&[0, 0, 0x0001], &[1, 2]);
    assert_eq!(read_two_steps(&mut block, 2), None);
    assert_eq!(
        block.into_inner().log,
        vec![
            Access::Read(Register::Dr, 1),
            Access::Read(Register::Sr, 0),
            Access::Read(Register::Sr, 0),
        ]
    );
    let mut block = Scripted::new(&[0x0001], &[1, 2]);
    assert_eq!(read_two_steps(&mut block, 0), None);
}

#[test]
fn whole_samples_are_written_in_the_layout_of_their_format() {
    let sample = 0xff8e_aa33_u32 as i32;
    let mut block = Scripted::new(&[0x0002, 0x0002, 0x0002], &[]);
    assert!(write_sample(&mut block, I2sStandard::Philips, DataFormat::Data16Channel16, sample, 0));
    assert!(write_sample(&mut block, I2sStandard::Philips, DataFormat::Data16Channel32, -2, 0));
    assert!(write_sample(&mut block, I2sStandard::Philips, DataFormat::Data24Channel32, sample, 1));
    assert!(write_sample(&mut block, I2sStandard::Lsb, DataFormat::Data24Channel32, sample, 1));
    assert!(write_sample(&mut block, I2sStandard::Msb, DataFormat::Data32Channel32, sample, 1));
    // out of polls: the second word stays unwritten
    assert!(!write_sample(&mut block, I2sStandard::Msb, DataFormat::Data32Channel32, sample, 2));
    assert_eq!(
        block.into_inner().log,
        vec![
            Access::Write(Register::Dr, 0xaa33),
            Access::Write(Register::Dr, 0xfffe),
            Access::Write(Register::Dr, 0x8eaa),
            Access::Read(Register::Sr, 0x0002),
            Access::Write(Register::Dr, 0x3300),
            Access::Write(Register::Dr, 0x008e),
            Access::Read(Register::Sr, 0x0002),
            Access::Write(Register::Dr, 0xaa33),
            Access::Write(Register::Dr, 0xff8e),
            Access::Read(Register::Sr, 0x0002),
            Access::Write(Register::Dr, 0xaa33),
            Access::Write(Register::Dr, 0xff8e),
            Access::Read(Register::Sr, 0),
            Access::Read(Register::Sr, 0),
        ]
    );
}

#[test]
fn whole_samples_are_read_and_sign_extended() {
    let mut block = Scripted::new(
        &[0x0001, 0x0001, 0x0001],
        &[0xfffe, 0x7fff, 0x8eaa, 0x33ff, 0xff8e, 0xaa33, 0x8000, 0x0001, 9],
    );
    assert_eq!(
        read_sample(&mut block, I2sStandard::Philips, DataFormat::Data16Channel16, 0),
        Some(-2)
    );
    assert_eq!(
        read_sample(&mut block, I2sStandard::Philips, DataFormat::Data16Channel32, 0),
        Some(0x7fff)
    );
    assert_eq!(
        read_sample(&mut block, I2sStandard::PcmLongSync, DataFormat::Data24Channel32, 1),
        Some(0xff8e_aa33_u32 as i32)
    );
    assert_eq!(
        read_sample(&mut block, I2sStandard::Lsb, DataFormat::Data24Channel32, 1),
        Some(0xff8e_aa33_u32 as i32)
    );
    assert_eq!(
        read_sample(&mut block, I2sStandard::Philips, DataFormat::Data32Channel32, 1),
        Some(0x8000_0001_u32 as i32)
    );
    // no second word in three polls
    assert_eq!(
        read_sample(&mut block, I2sStandard::Philips, DataFormat::Data32Channel32, 3),
        None
    );
    assert_eq!(block.into_inner().log.len(), 2 + 3 + 3 + 3 + 4);
}
