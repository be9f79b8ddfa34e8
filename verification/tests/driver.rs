use stm32_i2s_v12x::driver::{
    Channel, ClockPolarity, ConfigError, DataFormat, I2sDriver, I2sDriverConfig, ReceiveError,
    TransmitError,
};
use stm32_i2s_v12x::marker::{
    Lsb, Master, Msb, PcmLongSync, PcmShortSync, Philips, Receive, Slave, Transmit,
};
use stm32_i2s_v12x::registers::{
    has_bits, register_address, with_bits, Access, Recorded, Register,
};
use stm32_i2s_v12x::{I2sPeripheral, RegisterBlock, WsPin};

struct Pin {
    high: bool,
}

impl WsPin for Pin {
    fn is_low(&self) -> bool {
        !self.high
    }

    fn is_high(&self) -> bool {
        self.high
    }
}

/// Registers in memory. The status and data registers answer fixed values.
struct Block {
    clock: u32,
    pin: Pin,
    cr1: u32,
    cr2: u32,
    i2scfgr: u32,
    i2spr: u32,
    sr: u32,
    dr: u32,
    log: Vec<Access>,
}

impl Block {
    fn new(clock: u32) -> Self {
        Block {
            clock,
            pin: Pin { high: false },
            cr1: 0x0040,
            cr2: 0x00e3,
            i2scfgr: 0x0f00,
            i2spr: 0x0004,
            sr: 0x0002,
            dr: 0,
            log: Vec::new(),
        }
    }
}

impl RegisterBlock for Block {
    fn base_address(&self) -> u32 {
        0x4000_3800
    }

    fn read_register(&mut self, reg: Register) -> u32 {
        let value = match reg {
            Register::Cr1 => self.cr1,
            Register::Cr2 => self.cr2,
            Register::Sr => self.sr,
            Register::Dr => self.dr,
            Register::I2scfgr => self.i2scfgr,
            Register::I2spr => self.i2spr,
        };
        self.log.push(Access::Read(reg, value));
        value
    }

    fn write_register(&mut self, reg: Register, value: u32) {
        match reg {
            Register::Cr1 => self.cr1 = value,
            Register::Cr2 => self.cr2 = value,
            Register::I2scfgr => self.i2scfgr = value,
            Register::I2spr => self.i2spr = value,
            Register::Sr | Register::Dr => {}
        }
        self.log.push(Access::Write(reg, value));
    }
}

impl I2sPeripheral for Block {
    type WsPin = Pin;

    fn i2s_freq(&self) -> u32 {
        self.clock
    }

    fn ws_pin(&self) -> &Pin {
        &self.pin
    }

    fn ws_pin_mut(&mut self) -> &mut Pin {
        &mut self.pin
    }

    fn rcc_reset(&mut self) {
        self.cr1 = 0;
        self.cr2 = 0;
        self.i2scfgr = 0;
        self.i2spr = 0x0002;
        self.log.push(Access::Reset);
    }
}

#[test]
fn creating_a_driver_leaves_the_peripheral_configured_and_disabled() {
    let config = I2sDriverConfig::new_master()
        .direction(Receive)
        .standard(Philips)
        .data_format(DataFormat::Data16Channel32)
        .master_clock(true)
        .request_frequency(48_000);
    let driver = config.i2s_driver(Block::new(86_000_000)).unwrap();
    let block = driver.release().into_inner();
    assert_eq!(
        &block.log[..4],
        &[
            Access::Write(Register::Cr1, 0),
            Access::Write(Register::Cr2, 0),
            Access::Write(Register::I2scfgr, 0x0b01),
            // master clock, division 7
            Access::Write(Register::I2spr, 0x0303),
        ]
    );
    // release disables, then resets
    assert_eq!(
        &block.log[4..],
        &[
            Access::Read(Register::I2scfgr, 0x0b01),
            Access::Write(Register::I2scfgr, 0x0b01),
            Access::Reset,
        ]
    );
}

#[test]
fn default_configurations() {
    let block = I2sDriverConfig::new_slave().i2s_driver(Block::new(1)).unwrap().release().into_inner();
    assert_eq!(block.log[2], Access::Write(Register::I2scfgr, 0x0800));
    assert_eq!(block.log[3], Access::Write(Register::I2spr, 0x0002));
    let block = I2sDriverConfig::default().i2s_driver(Block::new(1)).unwrap().release().into_inner();
    assert_eq!(block.log[2], Access::Write(Register::I2scfgr, 0x0800));
    let block = I2sDriverConfig::new_master().i2s_driver(Block::new(1)).unwrap().release().into_inner();
    assert_eq!(block.log[2], Access::Write(Register::I2scfgr, 0x0a00));
    assert_eq!(block.log[3], Access::Write(Register::I2spr, 0x0002));
    let driver = I2sDriver::new(Block::new(1), I2sDriverConfig::new_master().receive()).unwrap();
    assert_eq!(driver.release().into_inner().log[2], Access::Write(Register::I2scfgr, 0x0b00));
}

#[test]
fn every_standard_and_direction_in_the_configuration_word() {
    let config = I2sDriverConfig::new_slave().receive();
    let word = |block: Block| block.log[2];
    assert_eq!(
        word(config.standard(Msb).i2s_driver(Block::new(1)).unwrap().release().into_inner()),
        Access::Write(Register::I2scfgr, 0x0910)
    );
    assert_eq!(
        word(config.standard(Lsb).i2s_driver(Block::new(1)).unwrap().release().into_inner()),
        Access::Write(Register::I2scfgr, 0x0920)
    );
    assert_eq!(
        word(config.standard(PcmShortSync).i2s_driver(Block::new(1)).unwrap().release().into_inner()),
        Access::Write(Register::I2scfgr, 0x0930)
    );
    assert_eq!(
        word(config.standard(PcmLongSync).transmit().i2s_driver(Block::new(1)).unwrap().release().into_inner()),
        Access::Write(Register::I2scfgr, 0x08b0)
    );
    assert_eq!(
        word(
            config
                .direction(Transmit)
                .data_format(DataFormat::Data24Channel32)
                .clock_polarity(ClockPolarity::IdleHigh)
                .i2s_driver(Block::new(1))
                .unwrap()
                .release().into_inner()
        ),
        Access::Write(Register::I2scfgr, 0x0803)
    );
    assert_eq!(
        word(
            config
                .to_master()
                .data_format(DataFormat::Data32Channel32)
                .i2s_driver(Block::new(1))
                .unwrap()
                .release().into_inner()
        ),
        Access::Write(Register::I2scfgr, 0x0b05)
    );
}

#[test]
fn a_divider_below_2_is_refused() {
    assert!(matches!(
        I2sDriverConfig::new_master().prescaler(false, 0),
        Err(ConfigError::InvalidDivider)
    ));
    assert!(matches!(
        I2sDriverConfig::new_master().prescaler(true, 1),
        Err(ConfigError::InvalidDivider)
    ));
    let config = I2sDriverConfig::new_master().prescaler(true, 2).unwrap();
    let block = config.i2s_driver(Block::new(1)).unwrap().release().into_inner();
    assert_eq!(block.log[3], Access::Write(Register::I2spr, 0x0102));
    let config = I2sDriverConfig::new_master().prescaler(false, 255).unwrap();
    let block = config.master_clock(true).i2s_driver(Block::new(1)).unwrap().release().into_inner();
    assert_eq!(block.log[3], Access::Write(Register::I2spr, 0x02ff));
}

#[test]
fn a_required_frequency_must_be_exact() {
    let config = I2sDriverConfig::new_master().require_frequency(48_000);
    assert!(matches!(
        config.i2s_driver(Block::new(38_400_000 - 1)),
        Err(ConfigError::FrequencyUnreachable)
    ));
    assert!(matches!(
        I2sDriver::new(Block::new(32 * 48_000 * 3), config),
        Err(ConfigError::FrequencyUnreachable)
    ));
    let block = config.i2s_driver(Block::new(38_400_000)).unwrap().release().into_inner();
    assert_eq!(block.log[3], Access::Write(Register::I2spr, 0x010c));
}

#[test]
fn to_slave_drops_the_settings_of_a_master() {
    let config = I2sDriverConfig::new_master()
        .master_clock(true)
        .require_frequency(12_345)
        .to_slave();
    // would fail if the required frequency were still there
    let block = config.i2s_driver(Block::new(1)).unwrap().release().into_inner();
    assert_eq!(block.log[2], Access::Write(Register::I2scfgr, 0x0800));
    assert_eq!(block.log[3], Access::Write(Register::I2spr, 0x0002));
    let block = config.to_master().i2s_driver(Block::new(1)).unwrap().release().into_inner();
    assert_eq!(block.log[2], Access::Write(Register::I2scfgr, 0x0a00));
    assert_eq!(block.log[3], Access::Write(Register::I2spr, 0x0002));
}

#[test]
fn enable_and_disable_only_touch_the_enable_bit() {
    let mut driver = I2sDriverConfig::new_slave()
        .standard(Msb)
        .i2s_driver(Block::new(1))
        .unwrap();
    driver.enable();
    driver.enable();
    driver.disable();
    let block = driver.release().into_inner();
    assert_eq!(
        &block.log[4..10],
        &[
            Access::Read(Register::I2scfgr, 0x0810),
            Access::Write(Register::I2scfgr, 0x0c10),
            Access::Read(Register::I2scfgr, 0x0c10),
            Access::Write(Register::I2scfgr, 0x0c10),
            Access::Read(Register::I2scfgr, 0x0c10),
            Access::Write(Register::I2scfgr, 0x0810),
        ]
    );
}

#[test]
fn interrupt_and_dma_bits() {
    let mut driver = I2sDriverConfig::new_slave().i2s_driver(Block::new(1)).unwrap();
    driver.set_tx_interrupt(true);
    driver.set_tx_dma(true);
    driver.set_error_interrupt(true);
    driver.set_tx_interrupt(false);
    let block = driver.release().into_inner();
    let writes: Vec<Access> = block.log[4..12]
        .iter()
        .copied()
        .filter(|access| matches!(access, Access::Write(_, _)))
        .collect();
    assert_eq!(
        writes,
        vec![
            Access::Write(Register::Cr2, 0x0080),
            Access::Write(Register::Cr2, 0x0082),
            Access::Write(Register::Cr2, 0x00a2),
            Access::Write(Register::Cr2, 0x0022),
        ]
    );

    let mut driver = I2sDriverConfig::new_master()
        .receive()
        .i2s_driver(Block::new(1))
        .unwrap();
    driver.set_rx_interrupt(true);
    driver.set_rx_dma(true);
    driver.set_error_interrupt(true);
    driver.set_rx_dma(false);
    driver.set_error_interrupt(false);
    let block = driver.release().into_inner();
    assert_eq!(block.log[5], Access::Write(Register::Cr2, 0x0040));
    assert_eq!(block.log[7], Access::Write(Register::Cr2, 0x0041));
    assert_eq!(block.log[9], Access::Write(Register::Cr2, 0x0061));
    assert_eq!(block.log[11], Access::Write(Register::Cr2, 0x0060));
    assert_eq!(block.log[13], Access::Write(Register::Cr2, 0x0040));
}

#[test]
fn status_flags() {
    let mut block = Block::new(1);
    block.sr = 0x0002 | 0x0008 | 0x0080 | 0x0100 | 0x0004;
    let mut driver = I2sDriverConfig::new_slave().i2s_driver(block).unwrap();
    let status = driver.status();
    assert!(status.txe());
    assert!(status.udr());
    assert!(status.bsy());
    assert!(status.fre());
    assert_eq!(status.chside(), Channel::Right);
    let block = driver.release().into_inner();
    assert_eq!(block.log[4], Access::Read(Register::Sr, 0x018e));

    let mut block = Block::new(1);
    block.sr = 0x0001 | 0x0040;
    let mut driver = I2sDriverConfig::new_slave().receive().i2s_driver(block).unwrap();
    let status = driver.status();
    assert!(status.rxne());
    assert!(status.ovr());
    assert!(!status.bsy());
    assert!(!status.fre());
    assert_eq!(status.chside(), Channel::Left);

    let mut block = Block::new(1);
    block.sr = 0;
    let mut driver = I2sDriverConfig::new_slave().i2s_driver(block).unwrap();
    let status = driver.status();
    assert!(!status.txe());
    assert!(!status.udr());
    let mut driver = driver
        .reconfigure(I2sDriverConfig::new_master().receive())
        .unwrap();
    let status = driver.status();
    assert!(!status.rxne());
    assert!(!status.ovr());
}

#[test]
fn data_register() {
    let mut block = Block::new(1);
    block.dr = 0xabcd_8001;
    let mut driver = I2sDriverConfig::new_master().receive().i2s_driver(block).unwrap();
    assert_eq!(driver.read_data_register(), 0x8001);
    let mut driver = driver.reconfigure(I2sDriverConfig::new_master()).unwrap();
    driver.write_data_register(0xbeef);
    assert_eq!(driver.data_register_address(), 0x4000_380c);
    let block = driver.release().into_inner();
    assert_eq!(block.log[4], Access::Read(Register::Dr, 0xabcd_8001));
    assert_eq!(block.log[9], Access::Write(Register::Dr, 0xbeef));
}

#[test]
fn reconfiguring_sets_the_peripheral_up_again() {
    let driver: I2sDriver<Block, Slave, Transmit, Philips> =
        I2sDriverConfig::new_slave().i2s_driver(Block::new(38_400_000)).unwrap();
    let config = I2sDriverConfig::new_master().receive().standard(Lsb).request_frequency(48_000);
    let driver: I2sDriver<Block, Master, Receive, Lsb> = driver.reconfigure(config).unwrap();
    let block = driver.release().into_inner();
    assert_eq!(
        &block.log[4..8],
        &[
            Access::Write(Register::Cr1, 0),
            Access::Write(Register::Cr2, 0),
            Access::Write(Register::I2scfgr, 0x0b20),
            Access::Write(Register::I2spr, 0x010c),
        ]
    );
    let driver = I2sDriverConfig::new_slave().i2s_driver(Block::new(1)).unwrap();
    assert!(matches!(
        driver.reconfigure(I2sDriverConfig::new_master().require_frequency(7)),
        Err(ConfigError::FrequencyUnreachable)
    ));
}

#[test]
fn resetting_the_clocks_keeps_the_settings() {
    let config = I2sDriverConfig::new_master().request_frequency(48_000);
    let mut driver = config.i2s_driver(Block::new(38_400_000)).unwrap();
    driver.set_tx_dma(true);
    driver.enable();
    driver.reset_clocks();
    assert_eq!(driver.sample_rate(), 48_000);
    let block = driver.release().into_inner();
    assert_eq!(
        &block.log[8..15],
        &[
            Access::Read(Register::Cr2, 0x0002),
            Access::Read(Register::I2scfgr, 0x0e00),
            Access::Read(Register::I2spr, 0x010c),
            Access::Reset,
            Access::Write(Register::Cr2, 0x0002),
            Access::Write(Register::I2spr, 0x010c),
            Access::Write(Register::I2scfgr, 0x0e00),
        ]
    );
    assert_eq!(
        &block.log[15..17],
        &[
            Access::Read(Register::I2scfgr, 0x0e00),
            Access::Read(Register::I2spr, 0x010c),
        ]
    );
}

#[test]
fn sample_rate_deviates_from_a_request() {
    let config = I2sDriverConfig::new_master()
        .standard(PcmShortSync)
        .request_frequency(44_100);
    let mut driver = config.i2s_driver(Block::new(8_000_000)).unwrap();
    // 8 MHz / (16 * 44 100) = 11.3: division 11
    assert_eq!(driver.sample_rate(), 45_454);
}

#[test]
fn ws_pin_levels() {
    let mut driver = I2sDriverConfig::new_slave().i2s_driver(Block::new(1)).unwrap();
    assert!(driver.ws_is_low());
    assert!(!driver.ws_is_high());
    assert!(driver.ws_pin().is_low());
    driver.ws_pin_mut().high = true;
    assert!(driver.ws_is_high());
    assert!(!driver.ws_is_low());
    assert!(driver.ws_pin().is_high());
    // looking at the pin makes no register access
    assert_eq!(driver.release().into_inner().log.len(), 4 + 3);
}

#[test]
fn errors_of_a_transmitting_slave() {
    let mut block = Block::new(1);
    block.sr = 0x0008;
    let mut driver = I2sDriverConfig::new_slave().i2s_driver(block).unwrap();
    assert_eq!(driver.take_error(), Err(TransmitError::Underrun));
    let mut block = driver.release().into_inner();
    block.sr = 0x0002 | 0x0100;
    block.log.clear();
    let mut driver = I2sDriverConfig::new_slave().i2s_driver(block).unwrap();
    assert_eq!(driver.take_error(), Ok(()));
    assert_eq!(&driver.release().into_inner().log[4..5], &[Access::Read(Register::Sr, 0x0102)]);
}

#[test]
fn errors_of_a_receiver() {
    let receive = I2sDriverConfig::new_master().receive();
    let mut block = Block::new(1);
    block.sr = 0x0040;
    block.dr = 0xffff_1234;
    let mut driver = receive.i2s_driver(block).unwrap();
    assert_eq!(driver.take_error(), Err(ReceiveError::Overrun(0x1234)));
    let block = driver.release().into_inner();
    assert_eq!(
        &block.log[4..7],
        &[
            Access::Read(Register::Sr, 0x0040),
            Access::Read(Register::Dr, 0xffff_1234),
            Access::Read(Register::Sr, 0x0040),
        ]
    );

    let mut block = Block::new(1);
    block.sr = 0x0140;
    block.dr = 0x8000;
    let mut driver = receive.to_slave().i2s_driver(block).unwrap();
    assert_eq!(driver.take_error(), Err(ReceiveError::FrameAndOverrun(0x8000)));

    let mut block = Block::new(1);
    block.sr = 0x0101;
    let mut driver = receive.i2s_driver(block).unwrap();
    assert_eq!(driver.take_error(), Err(ReceiveError::Frame));
    assert_eq!(driver.release().into_inner().log.len(), 4 + 1 + 3);

    let mut block = Block::new(1);
    block.sr = 0x0001;
    let mut driver = receive.i2s_driver(block).unwrap();
    assert_eq!(driver.take_error(), Ok(()));
}

#[test]
fn bits_of_a_word() {
    assert_eq!(with_bits(0x0f0f, 0x00f0, true), 0x0fff);
    assert_eq!(with_bits(0x0f0f, 0x0303, false), 0x0c0c);
    assert_eq!(with_bits(0, 0x0400, true), 0x0400);
    assert_eq!(with_bits(0x0400, 0x0400, false), 0);
    assert!(has_bits(0x0400, 0x0400));
    assert!(!has_bits(0x0b00, 0x0400));
    assert!(has_bits(0x0001, 0x0003));
}

#[test]
fn addresses_of_the_registers() {
    assert_eq!(Register::Cr1.offset(), 0x00);
    assert_eq!(Register::Cr2.offset(), 0x04);
    assert_eq!(Register::Sr.offset(), 0x08);
    assert_eq!(Register::Dr.offset(), 0x0c);
    assert_eq!(Register::I2scfgr.offset(), 0x1c);
    assert_eq!(Register::I2spr.offset(), 0x20);
    assert_eq!(register_address(0x4001_3000, Register::Dr), 0x4001_300c);
    assert_eq!(register_address(0x4001_3000, Register::I2spr), 0x4001_3020);
    assert_eq!(register_address(0xffff_fff8, Register::Sr), 0);
    assert_eq!(register_address(0xffff_fff8, Register::Dr), 4);
    assert_eq!(register_address(0xffff_fff3, Register::Dr), 0xffff_ffff);
}

#[test]
fn recorded_block_gives_the_block_back() {
    let mut recorded = Recorded::new(Block::new(5));
    assert_eq!(recorded.read_register(Register::Sr), 0x0002);
    recorded.write_register(Register::Cr2, 0x0040);
    assert_eq!(recorded.base_address(), 0x4000_3800);
    assert_eq!(recorded.i2s_freq(), 5);
    assert!(recorded.ws_pin().is_low());
    recorded.ws_pin_mut().high = true;
    recorded.rcc_reset();
    let block = recorded.into_inner();
    assert!(block.pin.high);
    assert_eq!(
        block.log,
        vec![
            Access::Read(Register::Sr, 0x0002),
            Access::Write(Register::Cr2, 0x0040),
            Access::Reset,
        ]
    );
}
