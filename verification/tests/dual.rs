use std::cell::RefCell;
use std::rc::Rc;

use stm32_i2s_v12x::driver::{ConfigError, DataFormat};
use stm32_i2s_v12x::dual::{DualI2sDriver, DualI2sDriverConfig};
use stm32_i2s_v12x::marker::{Master, Msb, PcmShortSync, Receive, Slave, Transmit};
use stm32_i2s_v12x::registers::{Access, Register};
use stm32_i2s_v12x::{DualI2sPeripheral, RegisterBlock, WsPin};

struct Line {
    high: bool,
}

impl WsPin for Line {
    fn is_low(&self) -> bool {
        !self.high
    }

    fn is_high(&self) -> bool {
        self.high
    }
}

/// The registers of one part, in memory.
struct Part {
    base: u32,
    cr1: u32,
    cr2: u32,
    i2scfgr: u32,
    i2spr: u32,
    sr: u32,
    dr: u32,
    log: Vec<Access>,
}

impl Part {
    fn new(base: u32) -> Self {
        Part {
            base,
            cr1: 0xffff,
            cr2: 0xffff,
            i2scfgr: 0xffff,
            i2spr: 0xffff,
            sr: 0x0003,
            dr: 0x5a5a,
            log: Vec::new(),
        }
    }

    fn reset(&mut self) {
        self.cr1 = 0;
        self.cr2 = 0;
        self.i2scfgr = 0;
        self.i2spr = 0x0002;
        self.log.push(Access::Reset);
    }
}

struct Handle(Rc<RefCell<Part>>);

impl RegisterBlock for Handle {
    fn base_address(&self) -> u32 {
        self.0.borrow().base
    }

    fn read_register(&mut self, reg: Register) -> u32 {
        let mut part = self.0.borrow_mut();
        let value = match reg {
            Register::Cr1 => part.cr1,
            Register::Cr2 => part.cr2,
            Register::Sr => part.sr,
            Register::Dr => part.dr,
            Register::I2scfgr => part.i2scfgr,
            Register::I2spr => part.i2spr,
        };
        part.log.push(Access::Read(reg, value));
        value
    }

    fn write_register(&mut self, reg: Register, value: u32) {
        let mut part = self.0.borrow_mut();
        match reg {
            Register::Cr1 => part.cr1 = value,
            Register::Cr2 => part.cr2 = value,
            Register::I2scfgr => part.i2scfgr = value,
            Register::I2spr => part.i2spr = value,
            Register::Sr | Register::Dr => {}
        }
        part.log.push(Access::Write(reg, value));
    }
}

struct Device {
    clock: u32,
    line: Line,
    main: Rc<RefCell<Part>>,
    ext: Rc<RefCell<Part>>,
    resets: u32,
}

impl Device {
    fn new(clock: u32) -> Self {
        Device {
            clock,
            line: Line { high: false },
            main: Rc::new(RefCell::new(Part::new(0x4000_3800))),
            ext: Rc::new(RefCell::new(Part::new(0x4000_3400))),
            resets: 0,
        }
    }

    fn main_log(&self) -> Vec<Access> {
        self.main.borrow().log.clone()
    }

    fn ext_log(&self) -> Vec<Access> {
        self.ext.borrow().log.clone()
    }
}

impl DualI2sPeripheral for Device {
    type WsPin = Line;

    type Registers = Handle;

    fn main_registers(&mut self) -> Handle {
        Handle(self.main.clone())
    }

    fn ext_registers(&mut self) -> Handle {
        Handle(self.ext.clone())
    }

    fn i2s_freq(&self) -> u32 {
        self.clock
    }

    fn ws_pin(&self) -> &Line {
        &self.line
    }

    fn ws_pin_mut(&mut self) -> &mut Line {
        &mut self.line
    }

    fn rcc_reset(&mut self, main: &mut Handle, ext: &mut Handle) {
        main.0.borrow_mut().reset();
        ext.0.borrow_mut().reset();
        self.resets += 1;
    }
}

#[test]
fn dual_driver_configures_both_parts() {
    let config = DualI2sDriverConfig::new_master()
        .direction(Receive, Transmit)
        .standard(Msb)
        .data_format(DataFormat::Data16Channel32)
        .master_clock(true)
        .request_frequency(48_000);
    let driver = config.dual_i2s_driver(Device::new(86_000_000)).unwrap();
    let device = driver.release().0;
    assert_eq!(
        &device.main_log()[..4],
        &[
            Access::Write(Register::Cr1, 0),
            Access::Write(Register::Cr2, 0),
            // master receive
            Access::Write(Register::I2scfgr, 0x0b11),
            Access::Write(Register::I2spr, 0x0303),
        ]
    );
    assert_eq!(
        &device.ext_log()[..4],
        &[
            Access::Write(Register::Cr1, 0),
            Access::Write(Register::Cr2, 0),
            // the extension is a slave: slave transmit
            Access::Write(Register::I2scfgr, 0x0811),
            Access::Write(Register::I2spr, 0x0303),
        ]
    );
}

#[test]
fn dual_driver_default_configurations() {
    let device = DualI2sDriverConfig::new_slave()
        .dual_i2s_driver(Device::new(1))
        .unwrap()
        .release().0;
    assert_eq!(device.main_log()[2], Access::Write(Register::I2scfgr, 0x0800));
    assert_eq!(device.ext_log()[2], Access::Write(Register::I2scfgr, 0x0800));
    assert_eq!(device.main_log()[3], Access::Write(Register::I2spr, 0x0002));
    let device = DualI2sDriver::new(Device::new(1), DualI2sDriverConfig::default())
        .unwrap()
        .release().0;
    assert_eq!(device.main_log()[2], Access::Write(Register::I2scfgr, 0x0800));
    let device = DualI2sDriverConfig::new_master()
        .dual_i2s_driver(Device::new(1))
        .unwrap()
        .release().0;
    assert_eq!(device.main_log()[2], Access::Write(Register::I2scfgr, 0x0a00));
    assert_eq!(device.ext_log()[2], Access::Write(Register::I2scfgr, 0x0800));
}

#[test]
fn dual_driver_configuration_errors() {
    assert!(matches!(
        DualI2sDriverConfig::new_master().prescaler(false, 1),
        Err(ConfigError::InvalidDivider)
    ));
    let config = DualI2sDriverConfig::new_master().require_frequency(48_000);
    assert!(matches!(
        config.dual_i2s_driver(Device::new(38_400_001)),
        Err(ConfigError::FrequencyUnreachable)
    ));
    let device = config.dual_i2s_driver(Device::new(38_400_000)).unwrap().release().0;
    assert_eq!(device.main_log()[3], Access::Write(Register::I2spr, 0x010c));
    assert_eq!(device.ext_log()[3], Access::Write(Register::I2spr, 0x010c));
    // a slave has none of the settings of a master
    let device = config.to_slave().dual_i2s_driver(Device::new(1)).unwrap().release().0;
    assert_eq!(device.main_log()[3], Access::Write(Register::I2spr, 0x0002));
    let config = config.to_slave().to_master().prescaler(true, 9).unwrap();
    let device = config.dual_i2s_driver(Device::new(1)).unwrap().release().0;
    assert_eq!(device.main_log()[3], Access::Write(Register::I2spr, 0x0109));
}

#[test]
fn each_part_has_its_own_registers() {
    let config = DualI2sDriverConfig::new_master().direction(Receive, Transmit);
    let mut driver: DualI2sDriver<Device, Master, Receive, Transmit, _> =
        config.dual_i2s_driver(Device::new(1)).unwrap();
    driver.main().enable();
    driver.ext().write_data_register(0x1234);
    driver.ext().set_tx_dma(true);
    driver.ext().set_tx_interrupt(true);
    driver.ext().set_error_interrupt(true);
    driver.main().set_rx_interrupt(true);
    driver.main().set_rx_dma(true);
    driver.main().set_error_interrupt(true);
    assert_eq!(driver.main().read_data_register(), 0x5a5a);
    assert!(driver.main().status().rxne());
    assert!(driver.ext().status().txe());
    assert!(!driver.ext().status().fre());
    driver.ext().enable();
    driver.ext().disable();
    driver.main().disable();
    assert_eq!(driver.main().data_register_address(), 0x4000_380c);
    assert_eq!(driver.ext().data_register_address(), 0x4000_340c);
    assert!(driver.ws_pin().is_low());
    driver.ws_pin_mut().high = true;
    assert!(driver.ws_pin().is_high());
    let device = driver.release().0;
    assert_eq!(
        &device.main_log()[4..],
        &[
            Access::Read(Register::I2scfgr, 0x0b00),
            Access::Write(Register::I2scfgr, 0x0f00),
            Access::Read(Register::Cr2, 0),
            Access::Write(Register::Cr2, 0x0040),
            Access::Read(Register::Cr2, 0x0040),
            Access::Write(Register::Cr2, 0x0041),
            Access::Read(Register::Cr2, 0x0041),
            Access::Write(Register::Cr2, 0x0061),
            Access::Read(Register::Dr, 0x5a5a),
            Access::Read(Register::Sr, 0x0003),
            Access::Read(Register::I2scfgr, 0x0f00),
            Access::Write(Register::I2scfgr, 0x0b00),
            // release
            Access::Read(Register::I2scfgr, 0x0b00),
            Access::Write(Register::I2scfgr, 0x0b00),
            Access::Reset,
        ]
    );
    assert_eq!(
        &device.ext_log()[4..],
        &[
            Access::Write(Register::Dr, 0x1234),
            Access::Read(Register::Cr2, 0),
            Access::Write(Register::Cr2, 0x0002),
            Access::Read(Register::Cr2, 0x0002),
            Access::Write(Register::Cr2, 0x0082),
            Access::Read(Register::Cr2, 0x0082),
            Access::Write(Register::Cr2, 0x00a2),
            Access::Read(Register::Sr, 0x0003),
            Access::Read(Register::Sr, 0x0003),
            Access::Read(Register::I2scfgr, 0x0800),
            Access::Write(Register::I2scfgr, 0x0c00),
            Access::Read(Register::I2scfgr, 0x0c00),
            Access::Write(Register::I2scfgr, 0x0800),
            // release
            Access::Read(Register::I2scfgr, 0x0800),
            Access::Write(Register::I2scfgr, 0x0800),
            Access::Reset,
        ]
    );
    assert_eq!(device.resets, 1);
}

#[test]
fn resetting_the_clocks_restores_both_parts_around_one_reset() {
    let config = DualI2sDriverConfig::new_master()
        .direction(Transmit, Receive)
        .standard(PcmShortSync)
        .request_frequency(8_000);
    let mut driver = config.dual_i2s_driver(Device::new(2_048_000)).unwrap();
    driver.main().set_tx_dma(true);
    driver.ext().set_rx_interrupt(true);
    driver.main().enable();
    driver.reset_clocks();
    assert_eq!(driver.sample_rate(), 8_000);
    let device = driver.release().0;
    assert_eq!(device.resets, 2);
    let main = device.main_log();
    assert_eq!(
        &main[8..15],
        &[
            Access::Read(Register::Cr2, 0x0002),
            Access::Read(Register::I2scfgr, 0x0e30),
            Access::Read(Register::I2spr, 0x0008),
            Access::Reset,
            Access::Write(Register::Cr2, 0x0002),
            Access::Write(Register::I2spr, 0x0008),
            Access::Write(Register::I2scfgr, 0x0e30),
        ]
    );
    let ext = device.ext_log();
    assert_eq!(
        &ext[6..13],
        &[
            Access::Read(Register::Cr2, 0x0040),
            Access::Read(Register::I2scfgr, 0x0930),
            Access::Read(Register::I2spr, 0x0008),
            Access::Reset,
            Access::Write(Register::Cr2, 0x0040),
            Access::Write(Register::I2spr, 0x0008),
            Access::Write(Register::I2scfgr, 0x0930),
        ]
    );
}

#[test]
fn reconfiguring_a_dual_driver() {
    let driver = DualI2sDriverConfig::new_slave()
        .dual_i2s_driver(Device::new(38_400_000))
        .unwrap();
    let config = DualI2sDriverConfig::new_master()
        .direction(Receive, Receive)
        .clock_polarity(stm32_i2s_v12x::driver::ClockPolarity::IdleHigh)
        .request_frequency(48_000);
    let driver: DualI2sDriver<Device, Master, Receive, Receive, _> =
        driver.reconfigure(config).unwrap();
    let device = driver.release().0;
    assert_eq!(device.main_log()[6], Access::Write(Register::I2scfgr, 0x0b00));
    assert_eq!(device.ext_log()[6], Access::Write(Register::I2scfgr, 0x0900));
    assert_eq!(device.main_log()[7], Access::Write(Register::I2spr, 0x010c));
    let driver: DualI2sDriver<Device, Slave, Transmit, Transmit, _> =
        DualI2sDriverConfig::new_slave().dual_i2s_driver(Device::new(1)).unwrap();
    assert!(matches!(
        driver.reconfigure(DualI2sDriverConfig::new_master().require_frequency(3)),
        Err(ConfigError::FrequencyUnreachable)
    ));
}
