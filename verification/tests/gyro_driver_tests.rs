use auxiliary::gyro_driver::{Action, GyroDriver, Reply};
use auxiliary::registers::{
    CTRL_REG1, CTRL_REG2, CTRL_REG3, CTRL_REG4, CTRL_REG5, OUT_X_L, TEMP, WHO_AM_I,
};
use auxiliary::{DataRate, Range};

/// A simulated I3G4250D on the SPI bus: a register file that answers the
/// driver's frames, and a log of every frame it received.
struct MockSensor {
    regs: [u8; 64],
    sent: Vec<Vec<u8>>,
    fail_on: Option<usize>,
}

impl MockSensor {
    fn new() -> Self {
        let mut regs = [0u8; 64];
        regs[WHO_AM_I as usize] = 0xD3;
        Self { regs, sent: Vec::new(), fail_on: None }
    }

    /// One full-duplex transfer, as a device with auto-increment answers it.
    fn transfer<'w>(&mut self, words: &'w mut [u8]) -> Result<&'w [u8], ()> {
        self.sent.push(words.to_vec());
        if self.fail_on == Some(self.sent.len()) {
            return Err(());
        }
        let cmd = words[0];
        let addr = (cmd & 0x3F) as usize;
        let auto_inc = cmd & 0x40 != 0;
        if cmd & 0x80 != 0 {
            for i in 1..words.len() {
                let a = if auto_inc { addr + i - 1 } else { addr };
                words[i] = self.regs[a % 64];
            }
        } else {
            for i in 1..words.len() {
                let a = if auto_inc { addr + i - 1 } else { addr };
                self.regs[a % 64] = words[i];
            }
        }
        Ok(words)
    }
}

/// Runs an operation of the driver to its end against the simulated sensor.
fn run(drv: &mut GyroDriver, sensor: &mut MockSensor, first: Action) -> Result<Reply, &'static str> {
    let mut action = first;
    loop {
        match action {
            Action::Transfer(mut frame) => {
                assert!(drv.is_busy());
                assert_eq!(frame.len(), drv.transfer_len());
                let outcome = sensor.transfer(&mut frame);
                action = drv.on_transfer(outcome);
            }
            Action::Complete(r) => {
                assert!(!drv.is_busy());
                return r;
            }
        }
    }
}

#[test]
fn test_register_bits() {
    // Test DR (data rate) bits
    assert_eq!(DataRate::Hz100.ctrl_reg1_bits(), 0b00 << 6);
    assert_eq!(DataRate::Hz200.ctrl_reg1_bits(), 0b01 << 6);
    assert_eq!(DataRate::Hz400.ctrl_reg1_bits(), 0b10 << 6);
    assert_eq!(DataRate::Hz800.ctrl_reg1_bits(), 0b11 << 6);

    // Test FS (full scale) bits
    assert_eq!(Range::DPS245.ctrl_reg4_bits(), 0b00 << 4);
    assert_eq!(Range::DPS500.ctrl_reg4_bits(), 0b01 << 4);
    assert_eq!(Range::DPS2000_1.ctrl_reg4_bits(), 0b10 << 4);
    assert_eq!(Range::DPS2000_2.ctrl_reg4_bits(), 0b11 << 4);
}

#[test]
fn test_range_scale_factors() {
    assert_eq!(Range::DPS245.scale_factor_udps() as f32 / 1000.0, 8.75);
    assert_eq!(Range::DPS500.scale_factor_udps() as f32 / 1000.0, 17.5);
    assert_eq!(Range::DPS2000_1.scale_factor_udps() as f32 / 1000.0, 70.0);
    assert_eq!(Range::DPS2000_2.scale_factor_udps() as f32 / 1000.0, 70.0);
}

#[test]
fn new_driver_is_idle_with_default_range() {
    let drv = GyroDriver::new();
    assert!(!drv.is_busy());
    assert_eq!(drv.range(), Range::DPS245);
    assert_eq!(drv.transfer_len(), 0);
}

#[test]
fn who_am_i_reads_register_0x0f() {
    let mut drv = GyroDriver::new();
    let mut sensor = MockSensor::new();
    let first = drv.who_am_i();
    let r = run(&mut drv, &mut sensor, first);
    assert_eq!(r, Ok(Reply::WhoAmI(0xD3)));
    assert_eq!(sensor.sent, vec![vec![0x8F, 0x00]]);
}

#[test]
fn init_writes_the_five_control_registers_in_order() {
    let mut drv = GyroDriver::new();
    let mut sensor = MockSensor::new();
    sensor.regs[CTRL_REG2 as usize] = 0x55;
    sensor.regs[CTRL_REG4 as usize] = 0x40;
    let first = drv.init();
    let r = run(&mut drv, &mut sensor, first);
    assert_eq!(r, Ok(Reply::Configured));
    assert_eq!(
        sensor.sent,
        vec![
            vec![0x20, 0x0F],
            vec![0x21, 0x00],
            vec![0x22, 0x00],
            vec![0x23, 0x00],
            vec![0x24, 0x00],
        ]
    );
    assert_eq!(sensor.regs[CTRL_REG1 as usize], 0x0F);
    assert_eq!(sensor.regs[CTRL_REG2 as usize], 0x00);
    assert_eq!(sensor.regs[CTRL_REG3 as usize], 0x00);
    assert_eq!(sensor.regs[CTRL_REG4 as usize], 0x00);
    assert_eq!(sensor.regs[CTRL_REG5 as usize], 0x00);
}

#[test]
fn init_stops_at_the_first_failed_write() {
    let mut drv = GyroDriver::new();
    let mut sensor = MockSensor::new();
    sensor.fail_on = Some(3);
    let first = drv.init();
    let r = run(&mut drv, &mut sensor, first);
    assert_eq!(r, Err("SPI transfer failed"));
    assert_eq!(sensor.sent.len(), 3);
    assert_eq!(drv.range(), Range::DPS245);
}

#[test]
fn set_data_rate_keeps_bits_5_to_0() {
    let mut drv = GyroDriver::new();
    let mut sensor = MockSensor::new();
    sensor.regs[CTRL_REG1 as usize] = 0b0111_1111;
    let first = drv.set_data_rate(DataRate::Hz400);
    let r = run(&mut drv, &mut sensor, first);
    assert_eq!(r, Ok(Reply::Configured));
    assert_eq!(sensor.sent, vec![vec![0xA0, 0x00], vec![0x20, 0b1011_1111]]);
    assert_eq!(sensor.regs[CTRL_REG1 as usize], 0xBF);
    assert_eq!(drv.range(), Range::DPS245);
}

#[test]
fn set_range_keeps_other_bits_and_records_the_range() {
    let mut drv = GyroDriver::new();
    let mut sensor = MockSensor::new();
    sensor.regs[CTRL_REG4 as usize] = 0b1110_0101;
    let first = drv.set_range(Range::DPS500);
    let r = run(&mut drv, &mut sensor, first);
    assert_eq!(r, Ok(Reply::Configured));
    assert_eq!(sensor.sent, vec![vec![0xA3, 0x00], vec![0x23, 0b1101_0101]]);
    assert_eq!(drv.range(), Range::DPS500);
}

#[test]
fn set_range_keeps_the_old_range_when_the_write_fails() {
    let mut drv = GyroDriver::new();
    let mut sensor = MockSensor::new();
    sensor.fail_on = Some(2);
    let first = drv.set_range(Range::DPS2000_2);
    let r = run(&mut drv, &mut sensor, first);
    assert_eq!(r, Err("SPI transfer failed"));
    assert_eq!(drv.range(), Range::DPS245);
}

#[test]
fn configuration_sequence_of_the_program() {
    let mut drv = GyroDriver::new();
    let mut sensor = MockSensor::new();
    let a = drv.init();
    assert_eq!(run(&mut drv, &mut sensor, a), Ok(Reply::Configured));
    let a = drv.set_data_rate(DataRate::Hz400);
    assert_eq!(run(&mut drv, &mut sensor, a), Ok(Reply::Configured));
    let a = drv.set_range(Range::DPS500);
    assert_eq!(run(&mut drv, &mut sensor, a), Ok(Reply::Configured));
    assert_eq!(sensor.regs[CTRL_REG1 as usize], 0x8F);
    assert_eq!(sensor.regs[CTRL_REG4 as usize], 0x10);
    assert_eq!(drv.range(), Range::DPS500);
}

#[test]
fn read_raw_data_decodes_little_endian_axes() {
    let mut drv = GyroDriver::new();
    let mut sensor = MockSensor::new();
    let o = OUT_X_L as usize;
    sensor.regs[o..o + 6].copy_from_slice(&[0x45, 0xAF, 0x10, 0x02, 0xF0, 0xFF]);
    let first = drv.read_raw_data();
    assert_eq!(drv.transfer_len(), 7);
    let r = run(&mut drv, &mut sensor, first);
    assert_eq!(r, Ok(Reply::RawData(-20667, 528, -16)));
    assert_eq!(sensor.sent, vec![vec![0xE8, 0, 0, 0, 0, 0, 0]]);
}

#[test]
fn read_raw_data_extremes() {
    let mut drv = GyroDriver::new();
    let mut sensor = MockSensor::new();
    let o = OUT_X_L as usize;
    sensor.regs[o..o + 6].copy_from_slice(&[0xFF, 0x7F, 0x00, 0x80, 0x00, 0x00]);
    let first = drv.read_raw_data();
    let r = run(&mut drv, &mut sensor, first);
    assert_eq!(r, Ok(Reply::RawData(32767, -32768, 0)));
}

#[test]
fn read_temperature_is_signed() {
    let mut drv = GyroDriver::new();
    let mut sensor = MockSensor::new();
    sensor.regs[TEMP as usize] = 0xF0;
    let first = drv.read_temperature();
    let r = run(&mut drv, &mut sensor, first);
    assert_eq!(r, Ok(Reply::Temperature(-16)));
    assert_eq!(sensor.sent, vec![vec![0xA6, 0x00]]);
    sensor.regs[TEMP as usize] = 25;
    let first = drv.read_temperature();
    assert_eq!(run(&mut drv, &mut sensor, first), Ok(Reply::Temperature(25)));
}

#[test]
fn failed_read_reports_spi_error() {
    let mut drv = GyroDriver::new();
    let mut sensor = MockSensor::new();
    sensor.fail_on = Some(1);
    let first = drv.read_raw_data();
    assert_eq!(run(&mut drv, &mut sensor, first), Err("SPI transfer failed"));
}

#[test]
fn starting_an_operation_replaces_the_pending_one() {
    let mut drv = GyroDriver::new();
    let _ = drv.set_range(Range::DPS500);
    let mut sensor = MockSensor::new();
    let first = drv.who_am_i();
    assert_eq!(run(&mut drv, &mut sensor, first), Ok(Reply::WhoAmI(0xD3)));
    assert_eq!(drv.range(), Range::DPS245);
}
