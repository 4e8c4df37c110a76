use bq769x0::checksum::crc8_bitwise;
use bq769x0::{
    Amperes, CalculatedValues, Config, CoulombCounterMode, DegreesCentigrade, Error, MicroOhms,
    MilliAmperes, MilliVolts, OCDDelay, OCDSCDRange, OVDelay, RegisterBus, SCDDelay, SysStat,
    Temperature, TemperatureSource, TransportError, UVDelay, Wire, BQ769x0, BQ76920,
    BQ76930, BQ76940,
};

struct DummyI2C {
    pub regs: [u8; 255],
}

impl DummyI2C {
    pub fn new() -> Self {
        let mut regs = [0u8; 255];
        regs[0x50] = 0x15;
        regs[0x51] = 0x2b;
        regs[0x59] = 0xa3;
        DummyI2C { regs }
    }
}

impl RegisterBus for DummyI2C {
    fn write(&mut self, addr: u8, bytes: &[u8]) -> Result<(), TransportError> {
        println!("-----------");
        println!("write: {:#04x}", addr);
        let base_reg_addr = bytes[0] as usize;
        for (i, b) in bytes.iter().skip(1).enumerate() {
            let reg_addr = base_reg_addr + i;
            self.regs[reg_addr] = *b;
            println!("{}/{:#04x}\t<= {:#04x}={:#010b}", reg_addr, reg_addr, *b, *b);
        }
        Ok(())
    }

    fn write_read(
        &mut self,
        address: u8,
        bytes: &[u8],
        buffer: &mut [u8],
    ) -> Result<(), TransportError> {
        println!("----------------");
        println!("write_read: {:#04x}", address);
        let base_reg_addr = bytes[0] as usize;
        for (i, b) in buffer.iter_mut().enumerate() {
            let reg_addr = base_reg_addr + i;
            let reg_value = self.regs[reg_addr];
            *b = reg_value;
            println!("{}/{:#04x}\t== {:#04x}={:#010b}", reg_addr, reg_addr, reg_value, reg_value);
        }
        Ok(())
    }
}

#[derive(Debug, Clone, PartialEq, Eq)]
enum Op {
    Write(u8, Vec<u8>),
    Read(u8, Vec<u8>, usize),
}

/// A simulated device: a register file behind the wire protocol, with
/// switches for the faults that the tests need.
struct Sim {
    address: u8,
    crc: bool,
    regs: [u8; 256],
    log: Vec<Op>,
    /// The transaction, counted from zero, at which the transport fails.
    fail_at: Option<usize>,
    /// Writes are acknowledged and dropped.
    ignore_writes: bool,
    /// The read, counted from zero among all transactions, and the byte of
    /// its response that is flipped.
    corrupt: Option<(usize, usize)>,
}

impl Sim {
    fn new(address: u8, crc: bool) -> Self {
        let mut regs = [0u8; 256];
        regs[0x50] = 0x15;
        regs[0x51] = 0x2b;
        regs[0x59] = 0xa3;
        Sim {
            address,
            crc,
            regs,
            log: Vec::new(),
            fail_at: None,
            ignore_writes: false,
            corrupt: None,
        }
    }
}

impl RegisterBus for Sim {
    fn write(&mut self, address: u8, bytes: &[u8]) -> Result<(), TransportError> {
        let index = self.log.len();
        self.log.push(Op::Write(address, bytes.to_vec()));
        if self.fail_at == Some(index) || address != self.address || bytes.is_empty() {
            return Err(TransportError);
        }
        let reg = bytes[0];
        let mut payload = Vec::new();
        if self.crc {
            if bytes.len() % 2 != 1 {
                return Err(TransportError);
            }
            let mut k = 1;
            while k < bytes.len() {
                let expected = if k == 1 {
                    crc8_bitwise(&[address << 1, reg, bytes[k]])
                } else {
                    crc8_bitwise(&[bytes[k]])
                };
                if bytes[k + 1] != expected {
                    return Err(TransportError);
                }
                payload.push(bytes[k]);
                k += 2;
            }
        } else {
            payload.extend_from_slice(&bytes[1..]);
        }
        if !self.ignore_writes {
            for (i, b) in payload.iter().enumerate() {
                self.regs[(reg as usize + i) % 256] = *b;
            }
        }
        Ok(())
    }

    fn write_read(
        &mut self,
        address: u8,
        bytes: &[u8],
        buffer: &mut [u8],
    ) -> Result<(), TransportError> {
        let index = self.log.len();
        self.log.push(Op::Read(address, bytes.to_vec(), buffer.len()));
        if self.fail_at == Some(index) || address != self.address || bytes.len() != 1 {
            return Err(TransportError);
        }
        let reg = bytes[0] as usize;
        if self.crc {
            if buffer.len() % 2 != 0 {
                return Err(TransportError);
            }
            for k in 0..buffer.len() / 2 {
                let value = self.regs[(reg + k) % 256];
                buffer[2 * k] = value;
                buffer[2 * k + 1] = if k == 0 {
                    crc8_bitwise(&[(address << 1) | 1, value])
                } else {
                    crc8_bitwise(&[value])
                };
            }
        } else {
            for (k, b) in buffer.iter_mut().enumerate() {
                *b = self.regs[(reg + k) % 256];
            }
        }
        if let Some((at, byte)) = self.corrupt {
            if at == index {
                buffer[byte] ^= 0x10;
            }
        }
        Ok(())
    }
}

fn reference_config() -> Config {
    Config {
        shunt: MicroOhms(667),
        scd_delay: SCDDelay::_400uS,
        scd_threshold: Amperes(200),
        ocd_delay: OCDDelay::_1280ms,
        ocd_threshold: Amperes(100),
        uv_delay: UVDelay::_4s,
        uv_threshold: MilliVolts(2000),
        ov_delay: OVDelay::_4s,
        ov_threshold: MilliVolts(4175),
    }
}

fn reference_values() -> CalculatedValues {
    CalculatedValues {
        ocdscd_range_used: OCDSCDRange::Upper,
        scd_threshold: Amperes(199),
        ocd_threshold: Amperes(100),
        uv_threshold: MilliVolts(1996),
        ov_threshold: MilliVolts(4176),
    }
}

fn initialised(sim: &mut Wire<Sim>) -> BQ769x0<BQ76920> {
    let (address, crc) = (sim.inner().address, sim.inner().crc);
    let mut dev = BQ769x0::<BQ76920>::new(address, 5, crc).unwrap();
    assert_eq!(dev.init(sim, &reference_config()), Ok(reference_values()));
    sim.inner_mut().log.clear();
    dev
}

#[test]
fn it_works() {
    let mut i2c = Wire::new(DummyI2C::new());
    let mut bq769x0 = BQ769x0::<BQ76920>::new(0x08, 5, false).unwrap();
    let config = Config {
        shunt: MicroOhms(667),
        scd_delay: SCDDelay::_400uS,
        scd_threshold: Amperes(200),
        ocd_delay: OCDDelay::_1280ms,
        ocd_threshold: Amperes(100),
        uv_delay: UVDelay::_4s,
        uv_threshold: MilliVolts(2000),
        ov_delay: OVDelay::_4s,
        ov_threshold: MilliVolts(4175),
    };
    match bq769x0.init(&mut i2c, &config) {
        Ok(actual) => {
            println!("bq769x0 init ok");
            println!(
                "adc gain:{}uV/LSB offset:{}mV",
                bq769x0.adc_gain(),
                bq769x0.adc_offset()
            );
            println!(
                "SCD: {}, OCD: {}, range: {:?}",
                actual.scd_threshold.to_text(),
                actual.ocd_threshold.to_text(),
                actual.ocdscd_range_used
            );
            println!(
                "UV: {}, OV: {}",
                actual.uv_threshold.to_text(),
                actual.ov_threshold.to_text()
            );
        }
        Err(e) => {
            println!("bq769x0 init err: {:?}", e);
        }
    }
}

#[test]
fn init_of_the_reference_device() {
    let mut i2c = Wire::new(DummyI2C::new());
    i2c.inner_mut().regs[0x05] = 0x03;
    let mut dev = BQ769x0::<BQ76920>::new(0x08, 5, false).unwrap();
    assert!(!dev.is_initialized());
    let actual = dev.init(&mut i2c, &reference_config()).unwrap();
    assert_eq!(actual, reference_values());
    assert_eq!(dev.adc_gain(), 378);
    assert_eq!(dev.adc_offset(), 43);
    assert!(dev.is_initialized());
    assert_eq!(&i2c.inner().regs[0x06..0x0c], &[0x9c, 0x79, 0x50, 0xab, 0x43, 0x19]);
    assert_eq!(i2c.inner_mut().regs[0x05], 0x43);
    assert_eq!(actual.ocdscd_range_used, OCDSCDRange::Upper);
}

#[test]
fn init_makes_six_transactions_in_order() {
    let mut sim = Wire::new(Sim::new(0x08, false));
    sim.inner_mut().regs[0x05] = 0x01;
    let mut dev = BQ769x0::<BQ76920>::new(0x08, 3, false).unwrap();
    dev.init(&mut sim, &reference_config()).unwrap();
    assert_eq!(
        sim.inner().log,
        vec![
            Op::Read(0x08, vec![0x50], 2),
            Op::Read(0x08, vec![0x59], 1),
            Op::Write(0x08, vec![0x06, 0x9c, 0x79, 0x50, 0xab, 0x43, 0x19]),
            Op::Read(0x08, vec![0x05], 1),
            Op::Write(0x08, vec![0x05, 0x41]),
            Op::Read(0x08, vec![0x05], 1),
        ]
    );
}

#[test]
fn init_with_checksums() {
    let mut sim = Wire::new(Sim::new(0x18, true));
    let mut dev = BQ769x0::<BQ76930>::new(0x18, 8, true).unwrap();
    assert_eq!(dev.init(&mut sim, &reference_config()), Ok(reference_values()));
    assert_eq!(&sim.inner().regs[0x06..0x0c], &[0x9c, 0x79, 0x50, 0xab, 0x43, 0x19]);
    assert_eq!(sim.inner_mut().regs[0x05], 0x40);
    assert_eq!(sim.inner().log[0], Op::Read(0x18, vec![0x50], 4));
    assert_eq!(sim.inner().log[1], Op::Read(0x18, vec![0x59], 2));
    assert_eq!(
        sim.inner().log[2],
        Op::Write(
            0x18,
            vec![
                0x06,
                0x9c,
                crc8_bitwise(&[0x30, 0x06, 0x9c]),
                0x79,
                0x68,
                0x50,
                0xb7,
                0xab,
                0x58,
                0x43,
                0xce,
                0x19,
                0x4f
            ]
        )
    );
}

#[test]
fn conflicting_ranges_fail_init_before_any_write() {
    let mut sim = Wire::new(Sim::new(0x08, false));
    let mut dev = BQ769x0::<BQ76920>::new(0x08, 5, false).unwrap();
    let mut config = reference_config();
    config.ocd_threshold = Amperes(12);
    assert_eq!(dev.init(&mut sim, &config), Err(Error::OCDSCDRangeMismatch));
    assert!(!dev.is_initialized());
    assert_eq!(dev.adc_gain(), 378);
    assert!(sim.inner().log.iter().all(|op| matches!(op, Op::Read(_, _, _))));
    assert_eq!(&sim.inner().regs[0x06..0x0c], &[0, 0, 0, 0, 0, 0]);
}

#[test]
fn unobtainable_voltages_fail_init_with_the_window() {
    let mut sim = Wire::new(Sim::new(0x08, false));
    let mut dev = BQ769x0::<BQ76920>::new(0x08, 5, false).unwrap();
    let mut config = reference_config();
    config.ov_threshold = MilliVolts(4685);
    assert_eq!(
        dev.init(&mut sim, &config),
        Err(Error::OVThresholdUnobtainable(MilliVolts(3142), MilliVolts(4684)))
    );
    config.ov_threshold = MilliVolts(4175);
    config.uv_threshold = MilliVolts(1590);
    assert_eq!(
        dev.init(&mut sim, &config),
        Err(Error::UVThresholdUnobtainable(MilliVolts(1591), MilliVolts(3133)))
    );
    assert!(!dev.is_initialized());
    assert_eq!(dev.ov_voltage_range(), (MilliVolts(3142), MilliVolts(4684)));
    assert_eq!(dev.uv_voltage_range(), (MilliVolts(1591), MilliVolts(3133)));
    assert!(sim.inner().log.iter().all(|op| matches!(op, Op::Read(_, _, _))));
}

#[test]
fn rejected_init_keeps_an_earlier_one() {
    let mut sim = Wire::new(Sim::new(0x08, false));
    let mut dev = initialised(&mut sim);
    let mut config = reference_config();
    config.shunt = MicroOhms(1000);
    config.ocd_threshold = Amperes(8);
    assert_eq!(dev.init(&mut sim, &config), Err(Error::OCDSCDRangeMismatch));
    assert!(dev.is_initialized());
    assert_eq!(&sim.inner().regs[0x06..0x0c], &[0x9c, 0x79, 0x50, 0xab, 0x43, 0x19]);
    sim.inner_mut().regs[0x32] = 0x01;
    sim.inner_mut().regs[0x33] = 0x00;
    assert_eq!(dev.current(&mut sim), Ok(MilliAmperes(3239)));
}

#[test]
fn transport_failure_is_a_bus_error_at_every_step_of_init() {
    for step in 0..6 {
        let mut sim = Wire::new(Sim::new(0x08, false));
        sim.inner_mut().fail_at = Some(step);
        let mut dev = BQ769x0::<BQ76920>::new(0x08, 5, false).unwrap();
        assert_eq!(dev.init(&mut sim, &reference_config()), Err(Error::I2CError));
        assert_eq!(sim.inner().log.len(), step + 1);
        assert_eq!(dev.is_initialized(), step >= 3);
    }
}

#[test]
fn init_reports_a_control_write_that_does_not_stick() {
    let mut sim = Wire::new(Sim::new(0x08, false));
    sim.inner_mut().ignore_writes = true;
    let mut dev = BQ769x0::<BQ76920>::new(0x08, 5, false).unwrap();
    assert_eq!(dev.init(&mut sim, &reference_config()), Err(Error::VerifyError(0x05)));
}

#[test]
fn sessions_exist_for_supported_cell_counts_only() {
    for cc in 0..=255u8 {
        assert_eq!(BQ769x0::<BQ76920>::new(0x08, cc, false).is_some(), (3..=5).contains(&cc));
        assert_eq!(BQ769x0::<BQ76930>::new(0x08, cc, false).is_some(), (6..=10).contains(&cc));
        assert_eq!(BQ769x0::<BQ76940>::new(0x08, cc, true).is_some(), (9..=15).contains(&cc));
        assert!(BQ769x0::<7>::new(0x08, cc, false).is_none());
        assert!(BQ769x0::<0>::new(0x08, cc, false).is_none());
    }
}

#[test]
fn new_session_remembers_what_it_was_given() {
    let dev = BQ769x0::<BQ76940>::new(0x18, 12, true).unwrap();
    assert_eq!(dev.i2c_address(), 0x18);
    assert!(dev.is_crc_used());
    assert!(!dev.is_initialized());
    assert_eq!(dev.adc_gain(), 0);
    assert_eq!(dev.adc_offset(), 0);
    let plain = BQ769x0::<BQ76920>::new(0x08, 3, false).unwrap();
    assert_eq!(plain.i2c_address(), 0x08);
    assert!(!plain.is_crc_used());
}

#[test]
fn measurements_need_init() {
    let mut sim = Wire::new(Sim::new(0x08, false));
    let mut dev = BQ769x0::<BQ76920>::new(0x08, 5, false).unwrap();
    assert_eq!(dev.cell_voltages(&mut sim).err(), Some(Error::Uninitialized));
    assert_eq!(dev.current(&mut sim), Err(Error::Uninitialized));
    assert!(sim.inner().log.is_empty());
}

#[test]
fn status_and_control_work_before_init() {
    let mut sim = Wire::new(Sim::new(0x08, false));
    sim.inner_mut().regs[0x00] = 0x83;
    let mut dev = BQ769x0::<BQ76920>::new(0x08, 5, false).unwrap();
    let stat = dev.sys_stat(&mut sim).unwrap();
    assert!(stat.cc_ready_is_set() && stat.scd_is_set() && stat.ocd_is_set());
    assert_eq!(dev.discharge(&mut sim, true), Ok(()));
    assert_eq!(dev.charge(&mut sim, true), Ok(()));
    assert_eq!(sim.inner_mut().regs[0x05], 0x03);
    assert_eq!(dev.enable_balancing(&mut sim, 0b10101), Ok(()));
    assert_eq!(dev.balancing_state(&mut sim), Ok(0b10101));
    assert_eq!(dev.voltage(&mut sim), Ok(MilliVolts(0)));
}

#[test]
fn cell_voltages_of_a_three_cell_pack() {
    let mut sim = Wire::new(Sim::new(0x08, true));
    let mut dev = BQ769x0::<BQ76920>::new(0x08, 3, true).unwrap();
    dev.init(&mut sim, &reference_config()).unwrap();
    let raw: [u16; 5] = [6000, 6100, 6200, 6300, 6400];
    for (ch, r) in raw.iter().enumerate() {
        sim.inner_mut().regs[0x0c + 2 * ch] = (r >> 8) as u8;
        sim.inner_mut().regs[0x0d + 2 * ch] = *r as u8;
    }
    sim.inner_mut().log.clear();
    let cells = dev.cell_voltages(&mut sim).unwrap().to_vec();
    assert_eq!(cells, vec![MilliVolts(2311), MilliVolts(2348), MilliVolts(2462)]);
    assert_eq!(sim.inner().log, vec![Op::Read(0x08, vec![0x0c], 20)]);
}

#[test]
fn cell_voltages_of_a_full_fifteen_cell_pack() {
    let mut sim = Wire::new(Sim::new(0x08, false));
    let mut dev = BQ769x0::<BQ76940>::new(0x08, 15, false).unwrap();
    dev.init(&mut sim, &reference_config()).unwrap();
    for ch in 0..15usize {
        let r = 8000u16 + ch as u16;
        sim.inner_mut().regs[0x0c + 2 * ch] = (r >> 8) as u8;
        sim.inner_mut().regs[0x0d + 2 * ch] = r as u8;
    }
    let cells = dev.cell_voltages(&mut sim).unwrap().to_vec();
    assert_eq!(cells.len(), 15);
    for (ch, mv) in cells.iter().enumerate() {
        let uv = (8000 + ch as u32) * 378 + 43000;
        assert_eq!(*mv, MilliVolts(uv / 1000));
    }
}

#[test]
fn cell_voltages_are_as_many_as_the_cells() {
    for cc in 6..=10u8 {
        let mut sim = Wire::new(Sim::new(0x08, false));
        let mut dev = BQ769x0::<BQ76930>::new(0x08, cc, false).unwrap();
        dev.init(&mut sim, &reference_config()).unwrap();
        assert_eq!(dev.cell_voltages(&mut sim).unwrap().len(), cc as usize);
    }
}

#[test]
fn failed_cell_reading_is_reported() {
    let mut sim = Wire::new(Sim::new(0x08, true));
    let mut dev = initialised(&mut sim);
    sim.inner_mut().corrupt = Some((0, 7));
    assert_eq!(dev.cell_voltages(&mut sim).err(), Some(Error::CRCMismatch));
    sim.inner_mut().corrupt = None;
    sim.inner_mut().log.clear();
    sim.inner_mut().fail_at = Some(0);
    assert_eq!(dev.cell_voltages(&mut sim).err(), Some(Error::I2CError));
}

#[test]
fn current_from_the_coulomb_counter() {
    let mut sim = Wire::new(Sim::new(0x08, false));
    let mut dev = initialised(&mut sim);
    sim.inner_mut().regs[0x32] = 0xff;
    sim.inner_mut().regs[0x33] = 0x00;
    assert_eq!(dev.current(&mut sim), Ok(MilliAmperes(-3239)));
    assert_eq!(sim.inner().log, vec![Op::Read(0x08, vec![0x32], 2)]);
}

#[test]
fn pack_voltage_reading() {
    let mut sim = Wire::new(Sim::new(0x08, false));
    let mut dev = initialised(&mut sim);
    sim.inner_mut().regs[0x2a] = 0x20;
    sim.inner_mut().regs[0x2b] = 0x00;
    assert_eq!(dev.voltage(&mut sim), Ok(MilliVolts(12601)));
    assert_eq!(sim.inner().log, vec![Op::Read(0x08, vec![0x2a], 2)]);
}

#[test]
fn temperature_reading_follows_the_selected_source() {
    let mut sim = Wire::new(Sim::new(0x08, false));
    let mut dev = BQ769x0::<BQ76920>::new(0x08, 5, false).unwrap();
    sim.inner_mut().regs[0x2c] = 0x12;
    sim.inner_mut().regs[0x2d] = 0x34;
    assert_eq!(
        dev.temperature(&mut sim),
        Ok(Temperature::InternalDie(DegreesCentigrade(1780120)))
    );
    assert_eq!(dev.set_temperature_source(&mut sim, TemperatureSource::ExternalThermistor), Ok(()));
    assert_eq!(sim.inner_mut().regs[0x04], 0x08);
    assert_eq!(dev.temperature_source(&mut sim), Ok(TemperatureSource::ExternalThermistor));
    assert_eq!(
        dev.temperature(&mut sim),
        Ok(Temperature::ExternalThermistor(DegreesCentigrade(1780120)))
    );
    assert_eq!(dev.set_temperature_source(&mut sim, TemperatureSource::InternalDie), Ok(()));
    assert_eq!(sim.inner_mut().regs[0x04], 0x00);
    assert_eq!(dev.temperature_source(&mut sim), Ok(TemperatureSource::InternalDie));
}

#[test]
fn fet_switching_reads_writes_and_reads_back() {
    let mut sim = Wire::new(Sim::new(0x08, false));
    sim.inner_mut().regs[0x05] = 0x40;
    let mut dev = BQ769x0::<BQ76920>::new(0x08, 5, false).unwrap();
    assert_eq!(dev.discharge(&mut sim, true), Ok(()));
    assert_eq!(sim.inner_mut().regs[0x05], 0x42);
    assert_eq!(
        sim.inner().log,
        vec![
            Op::Read(0x08, vec![0x05], 1),
            Op::Write(0x08, vec![0x05, 0x42]),
            Op::Read(0x08, vec![0x05], 1),
        ]
    );
    sim.inner_mut().log.clear();
    assert_eq!(dev.discharge(&mut sim, true), Ok(()));
    assert_eq!(sim.inner().log, vec![Op::Read(0x08, vec![0x05], 1)]);
    assert_eq!(dev.charge(&mut sim, true), Ok(()));
    assert_eq!(sim.inner_mut().regs[0x05], 0x43);
    assert_eq!(dev.is_charge_enabled(&mut sim), Ok(true));
    assert_eq!(dev.discharge(&mut sim, false), Ok(()));
    assert_eq!(sim.inner_mut().regs[0x05], 0x41);
    assert_eq!(dev.charge(&mut sim, false), Ok(()));
    assert_eq!(sim.inner_mut().regs[0x05], 0x40);
    assert_eq!(dev.is_charge_enabled(&mut sim), Ok(false));
}

#[test]
fn control_write_that_does_not_stick_is_a_verify_error() {
    let mut sim = Wire::new(Sim::new(0x08, true));
    sim.inner_mut().ignore_writes = true;
    let mut dev = BQ769x0::<BQ76920>::new(0x08, 5, true).unwrap();
    assert_eq!(dev.discharge(&mut sim, true), Err(Error::VerifyError(0x05)));
    assert_eq!(dev.charge(&mut sim, true), Err(Error::VerifyError(0x05)));
    assert_eq!(dev.enable_adc(&mut sim, true), Err(Error::VerifyError(0x04)));
    assert_eq!(
        dev.set_temperature_source(&mut sim, TemperatureSource::ExternalThermistor),
        Err(Error::VerifyError(0x04))
    );
    assert_eq!(
        dev.coulomb_counter_mode(&mut sim, CoulombCounterMode::OneShot),
        Err(Error::VerifyError(0x05))
    );
    // Nothing to write, nothing to verify.
    assert_eq!(dev.discharge(&mut sim, false), Ok(()));
}

#[test]
fn adc_enable_keeps_the_other_bits() {
    let mut sim = Wire::new(Sim::new(0x08, false));
    sim.inner_mut().regs[0x04] = 0x88;
    let mut dev = BQ769x0::<BQ76920>::new(0x08, 5, false).unwrap();
    assert_eq!(dev.enable_adc(&mut sim, true), Ok(()));
    assert_eq!(sim.inner_mut().regs[0x04], 0x98);
    assert_eq!(dev.enable_adc(&mut sim, false), Ok(()));
    assert_eq!(sim.inner_mut().regs[0x04], 0x88);
}

#[test]
fn coulomb_counter_modes() {
    let mut sim = Wire::new(Sim::new(0x08, false));
    sim.inner_mut().regs[0x05] = 0x63;
    let mut dev = BQ769x0::<BQ76920>::new(0x08, 5, false).unwrap();
    assert_eq!(dev.coulomb_counter_mode(&mut sim, CoulombCounterMode::Disabled), Ok(()));
    assert_eq!(sim.inner_mut().regs[0x05], 0x03);
    assert_eq!(dev.coulomb_counter_mode(&mut sim, CoulombCounterMode::OneShot), Ok(()));
    assert_eq!(sim.inner_mut().regs[0x05], 0x23);
    assert_eq!(dev.coulomb_counter_mode(&mut sim, CoulombCounterMode::Continuous), Ok(()));
    assert_eq!(sim.inner_mut().regs[0x05], 0x43);
}

#[test]
fn status_bits_are_cleared_by_writing_them() {
    let mut sim = Wire::new(Sim::new(0x08, false));
    let mut dev = BQ769x0::<BQ76920>::new(0x08, 5, false).unwrap();
    assert_eq!(dev.sys_stat_reset(&mut sim, SysStat::all()), Ok(()));
    assert_eq!(sim.inner().log, vec![Op::Write(0x08, vec![0x00, 0xbf])]);
    sim.inner_mut().log.clear();
    assert_eq!(dev.sys_stat_reset(&mut sim, SysStat::from_bits_truncate(0x03)), Ok(()));
    assert_eq!(sim.inner().log, vec![Op::Write(0x08, vec![0x00, 0x03])]);
}

#[test]
fn ship_mode_takes_three_writes() {
    let mut sim = Wire::new(Sim::new(0x08, false));
    let mut dev = BQ769x0::<BQ76920>::new(0x08, 5, false).unwrap();
    assert_eq!(dev.ship_enter(&mut sim), Ok(()));
    assert_eq!(
        sim.inner().log,
        vec![
            Op::Write(0x08, vec![0x04, 0x00]),
            Op::Write(0x08, vec![0x04, 0x01]),
            Op::Write(0x08, vec![0x04, 0x02]),
        ]
    );
    sim.inner_mut().log.clear();
    sim.inner_mut().fail_at = Some(1);
    assert_eq!(dev.ship_enter(&mut sim), Err(Error::I2CError));
    assert_eq!(sim.inner().log.len(), 2);
}

#[test]
fn raw_write_limits() {
    for crc in [false, true] {
        let mut sim = Wire::new(Sim::new(0x08, crc));
        let mut dev = BQ769x0::<BQ76920>::new(0x08, 5, crc).unwrap();
        assert_eq!(dev.write_raw(&mut sim, 0x06, &[0u8; 9]), Err(Error::BufTooLarge));
        assert_eq!(dev.write_raw(&mut sim, 0x06, &[]), Ok(()));
        assert!(sim.inner().log.is_empty());
        assert_eq!(dev.write_raw(&mut sim, 0x06, &[1, 2, 3, 4, 5, 6, 7, 8]), Ok(()));
        assert_eq!(&sim.inner().regs[0x06..0x0e], &[1, 2, 3, 4, 5, 6, 7, 8]);
        assert_eq!(sim.inner().log.len(), 1);
    }
}

#[test]
fn raw_read_limits_with_checksums() {
    let mut sim = Wire::new(Sim::new(0x08, true));
    let mut dev = BQ769x0::<BQ76920>::new(0x08, 5, true).unwrap();
    let mut eleven = [7u8; 11];
    assert_eq!(dev.read_raw(&mut sim, 0x0c, &mut eleven), Err(Error::BufTooLarge));
    assert_eq!(eleven, [7u8; 11]);
    let mut none: [u8; 0] = [];
    assert_eq!(dev.read_raw(&mut sim, 0x0c, &mut none), Ok(()));
    assert!(sim.inner().log.is_empty());
    let mut ten = [7u8; 10];
    sim.inner_mut().regs[0x0c] = 0xaa;
    sim.inner_mut().regs[0x15] = 0x55;
    assert_eq!(dev.read_raw(&mut sim, 0x0c, &mut ten), Ok(()));
    assert_eq!(ten, [0xaa, 0, 0, 0, 0, 0, 0, 0, 0, 0x55]);
    let mut wide = BQ769x0::<BQ76940>::new(0x08, 15, true).unwrap();
    let mut thirty = [0u8; 30];
    assert_eq!(wide.read_raw(&mut sim, 0x0c, &mut thirty), Ok(()));
    let mut thirty_one = [0u8; 31];
    assert_eq!(wide.read_raw(&mut sim, 0x0c, &mut thirty_one), Err(Error::BufTooLarge));
}

#[test]
fn raw_read_without_checksums_has_no_limit() {
    let mut sim = Wire::new(Sim::new(0x08, false));
    let mut dev = BQ769x0::<BQ76920>::new(0x08, 5, false).unwrap();
    let mut many = [7u8; 40];
    assert_eq!(dev.read_raw(&mut sim, 0x50, &mut many), Ok(()));
    assert_eq!(many[0], 0x15);
    assert_eq!(many[1], 0x2b);
    assert_eq!(many[9], 0xa3);
    assert_eq!(sim.inner().log, vec![Op::Read(0x08, vec![0x50], 40)]);
}

#[test]
fn corrupted_read_returns_no_payload() {
    for byte in 0..4 {
        let mut sim = Wire::new(Sim::new(0x08, true));
        sim.inner_mut().corrupt = Some((0, byte));
        let mut dev = BQ769x0::<BQ76920>::new(0x08, 5, true).unwrap();
        let mut data = [0x77u8, 0x77];
        assert_eq!(dev.read_raw(&mut sim, 0x50, &mut data), Err(Error::CRCMismatch));
        assert_eq!(data, [0x77, 0x77]);
    }
}

#[test]
fn failed_transport_is_told_apart_from_a_bad_checksum() {
    let mut sim = Wire::new(Sim::new(0x08, true));
    sim.inner_mut().fail_at = Some(0);
    let mut dev = BQ769x0::<BQ76920>::new(0x08, 5, true).unwrap();
    let mut data = [0x77u8, 0x77];
    assert_eq!(dev.read_raw(&mut sim, 0x50, &mut data), Err(Error::I2CError));
    assert_eq!(data, [0x77, 0x77]);
    assert_eq!(dev.read_raw(&mut sim, 0x50, &mut data), Ok(()));
    assert_eq!(data, [0x15, 0x2b]);
    sim.inner_mut().fail_at = Some(2);
    assert_eq!(dev.write_raw(&mut sim, 0x01, &[1]), Err(Error::I2CError));
}

#[test]
fn written_bytes_read_back_through_the_checksummed_protocol() {
    let mut sim = Wire::new(Sim::new(0x18, true));
    let mut dev = BQ769x0::<BQ76930>::new(0x18, 10, true).unwrap();
    let written = [0x9c, 0x79, 0x50, 0xab, 0x43, 0x19, 0x00, 0xff];
    assert_eq!(dev.write_raw(&mut sim, 0x06, &written), Ok(()));
    let mut read = [0u8; 8];
    assert_eq!(dev.read_raw(&mut sim, 0x06, &mut read), Ok(()));
    assert_eq!(read, written);
}

#[test]
fn detection_tries_both_addresses_and_both_framings() {
    for (address, crc) in [(0x18u8, false), (0x18, true), (0x08, false), (0x08, true)] {
        let mut sim = Wire::new(Sim::new(address, crc));
        let dev = BQ769x0::<BQ76920>::new_detect(&mut sim, 4).unwrap();
        assert_eq!(dev.i2c_address(), address);
        assert_eq!(dev.is_crc_used(), crc);
        assert!(!dev.is_initialized());
        assert_eq!(sim.inner_mut().regs[0x0a], 0xaa);
    }
}

#[test]
fn detection_order() {
    let mut sim = Wire::new(Sim::new(0x08, true));
    assert!(BQ769x0::<BQ76920>::new_detect(&mut sim, 4).is_some());
    assert_eq!(
        sim.inner().log,
        vec![
            Op::Write(0x18, vec![0x0a, 0xaa]),
            Op::Write(0x18, vec![0x0a, 0xaa, 0x3c]),
            Op::Write(0x08, vec![0x0a, 0xaa]),
            Op::Write(0x08, vec![0x0a, 0xaa, 0x7f]),
            Op::Read(0x08, vec![0x0a], 2),
        ]
    );
}

#[test]
fn detection_finds_nothing_on_a_silent_bus() {
    let mut sim = Wire::new(Sim::new(0x42, false));
    assert!(BQ769x0::<BQ76920>::new_detect(&mut sim, 4).is_none());
    assert_eq!(sim.inner().log.len(), 4);
}

#[test]
fn detection_needs_the_pattern_to_read_back() {
    let mut sim = Wire::new(Sim::new(0x08, false));
    sim.inner_mut().ignore_writes = true;
    assert!(BQ769x0::<BQ76920>::new_detect(&mut sim, 4).is_none());
}

#[test]
fn detection_refuses_an_unsupported_cell_count() {
    let mut sim = Wire::new(Sim::new(0x08, false));
    assert!(BQ769x0::<BQ76920>::new_detect(&mut sim, 6).is_none());
    assert!(BQ769x0::<BQ76940>::new_detect(&mut sim, 9).is_some());
}

#[test]
fn wire_gives_the_bus_back() {
    let mut wire = Wire::new(Sim::new(0x08, false));
    let mut dev = BQ769x0::<BQ76920>::new(0x08, 5, false).unwrap();
    assert_eq!(dev.enable_balancing(&mut wire, 0x1f), Ok(()));
    assert_eq!(wire.inner().regs[0x01], 0x1f);
    let sim = wire.into_inner();
    assert_eq!(sim.log, vec![Op::Write(0x08, vec![0x01, 0x1f])]);
}

#[test]
fn wire_passes_transactions_through() {
    let mut wire = Wire::new(Sim::new(0x08, true));
    assert_eq!(wire.write(0x08, &[0x0a, 0xaa, 0x7f]), Ok(()));
    assert_eq!(wire.write(0x08, &[0x0a, 0xaa, 0x00]), Err(TransportError));
    let mut buffer = [0u8; 2];
    assert_eq!(wire.write_read(0x08, &[0x0a], &mut buffer), Ok(()));
    assert_eq!(buffer, [0xaa, 0x1d]);
    assert_eq!(wire.write_read(0x09, &[0x0a], &mut buffer), Err(TransportError));
    assert_eq!(wire.inner().log.len(), 4);
}

#[test]
fn control_update_stops_at_the_first_failure() {
    for step in 0..3 {
        let mut sim = Wire::new(Sim::new(0x08, true));
        sim.inner_mut().fail_at = Some(step);
        let mut dev = BQ769x0::<BQ76920>::new(0x08, 5, true).unwrap();
        assert_eq!(dev.enable_adc(&mut sim, true), Err(Error::I2CError));
        assert_eq!(sim.inner().log.len(), step + 1);
        assert_eq!(sim.inner().regs[0x04], if step == 2 { 0x10 } else { 0x00 });
    }
}

#[test]
fn control_update_reads_writes_and_reads_back_with_checksums() {
    let mut sim = Wire::new(Sim::new(0x18, true));
    sim.inner_mut().regs[0x04] = 0x08;
    let mut dev = BQ769x0::<BQ76930>::new(0x18, 6, true).unwrap();
    assert_eq!(dev.enable_adc(&mut sim, true), Ok(()));
    assert_eq!(
        sim.inner().log,
        vec![
            Op::Read(0x18, vec![0x04], 2),
            Op::Write(0x18, vec![0x04, 0x18, crc8_bitwise(&[0x30, 0x04, 0x18])]),
            Op::Read(0x18, vec![0x04], 2),
        ]
    );
}

#[test]
fn corrupted_readback_is_a_checksum_mismatch_not_a_verify_error() {
    let mut sim = Wire::new(Sim::new(0x08, true));
    sim.inner_mut().corrupt = Some((2, 0));
    let mut dev = BQ769x0::<BQ76920>::new(0x08, 5, true).unwrap();
    assert_eq!(dev.charge(&mut sim, true), Err(Error::CRCMismatch));
    assert_eq!(sim.inner().regs[0x05], 0x01);
}

#[test]
fn temperature_makes_two_reads() {
    let mut sim = Wire::new(Sim::new(0x08, false));
    let mut dev = BQ769x0::<BQ76920>::new(0x08, 5, false).unwrap();
    dev.temperature(&mut sim).unwrap();
    assert_eq!(
        sim.inner().log,
        vec![Op::Read(0x08, vec![0x2c], 2), Op::Read(0x08, vec![0x04], 1)]
    );
    sim.inner_mut().log.clear();
    sim.inner_mut().fail_at = Some(0);
    assert_eq!(dev.temperature(&mut sim), Err(Error::I2CError));
    assert_eq!(sim.inner().log.len(), 1);
}
