//! Register addresses, the fields of the control registers, and the
//! arithmetic that turns raw register bytes into readings.

use crate::adc::truncating_div;
use crate::error::Error;
use crate::units::{DegreesCentigrade, MicroOhms, MilliAmperes};
use vstd::prelude::*;

verus! {

/// The bus address that most devices of the family answer to.
pub const PRIMARY_ADDRESS: u8 = 0x08;

/// The bus address of the other devices of the family.
pub const ALTERNATE_ADDRESS: u8 = 0x18;

/// The byte that probing writes and expects to read back.
pub const PROBE_PATTERN: u8 = 0xaa;

/// System status.
pub const SYS_STAT: u8 = 0x00;

/// Cell balancing, cells 1 to 5.
pub const CELLBAL1: u8 = 0x01;

/// System control 1: ADC enable and temperature source.
pub const SYS_CTRL1: u8 = 0x04;

/// System control 2: FET drivers and coulomb counter.
pub const SYS_CTRL2: u8 = 0x05;

/// The first of the six protection registers.
pub const PROTECT1: u8 = 0x06;

/// The under-voltage trip register.
pub const UV_TRIP: u8 = 0x0a;

/// The first byte of the cell-voltage block.
pub const VC1_HI: u8 = 0x0c;

/// The pack voltage, high byte first.
pub const BAT_HI: u8 = 0x2a;

/// The temperature channel, high byte first.
pub const TS1_HI: u8 = 0x2c;

/// The coulomb counter, high byte first.
pub const CC_HI: u8 = 0x32;

/// The upper gain trim, followed by the offset trim.
pub const ADCGAIN1: u8 = 0x50;

/// The lower gain trim.
pub const ADCGAIN2: u8 = 0x59;

/// System control 2, bit 0: the charge FET is on.
pub const CHG_ON: u8 = 0b0000_0001;

/// System control 2, bit 1: the discharge FET is on.
pub const DSG_ON: u8 = 0b0000_0010;

/// System control 2, bit 5: one coulomb-counter reading is requested.
pub const CC_ONESHOT: u8 = 0b0010_0000;

/// System control 2, bit 6: the coulomb counter runs continuously.
pub const CC_EN: u8 = 0b0100_0000;

/// System control 1, bit 3: the temperature channel reads the thermistor.
pub const TEMP_SEL: u8 = 0b0000_1000;

/// System control 1, bit 4: the ADC is enabled.
pub const ADC_EN: u8 = 0b0001_0000;

/// What the coulomb-counter configuration register is set to.
pub const CC_CFG_VALUE: u8 = 0x19;

/// Nanovolts across the shunt per step of the coulomb counter.
pub const CC_NANOVOLTS_PER_STEP: i32 = 8440;

/// Microvolts per step of the temperature channel.
pub const TS_MICROVOLTS_PER_STEP: i32 = 382;

/// How the coulomb counter runs.
#[derive(Debug, PartialEq, Eq, Clone, Copy, Structural)]
pub enum CoulombCounterMode {
    Disabled,
    OneShot,
    Continuous,
}

/// What the temperature channel measures.
#[derive(Debug, PartialEq, Eq, Clone, Copy, Structural)]
pub enum TemperatureSource {
    InternalDie,
    ExternalThermistor,
}

/// A reading of the temperature channel, tagged with what was measured.
#[derive(Debug, PartialEq, Eq, Clone, Copy, Structural)]
pub enum Temperature {
    InternalDie(DegreesCentigrade),
    ExternalThermistor(DegreesCentigrade),
}

/// `byte` with the bits of `mask` set or cleared.
pub open spec fn spec_with_flag(byte: u8, mask: u8, on: bool) -> u8 {
    if on {
        byte | mask
    } else {
        byte & !mask
    }
}

/// The 16-bit value of two bytes, high byte first.
pub open spec fn spec_be16(hi: u8, lo: u8) -> int {
    hi * 256 + lo
}

/// The signed 16-bit value of two bytes, high byte first, in two's
/// complement.
pub open spec fn spec_signed_be16(hi: u8, lo: u8) -> int {
    if hi < 128 {
        spec_be16(hi, lo)
    } else {
        spec_be16(hi, lo) - 0x1_0000
    }
}

/// `byte` with the bits of `mask` set when `on`, cleared otherwise.
pub fn with_flag(byte: u8, mask: u8, on: bool) -> (r: u8)
    ensures
        r == spec_with_flag(byte, mask, on),
{
    if on {
        byte | mask
    } else {
        byte & !mask
    }
}

/// What to write to switch a FET driver: nothing when the bit of `mask`
/// already stands as `enable` asks, otherwise the register byte with that
/// bit changed.
pub open spec fn spec_fet_update(sys_ctrl2: u8, mask: u8, enable: bool) -> Option<u8> {
    if (sys_ctrl2 & mask != 0) == enable {
        None
    } else {
        Some(spec_with_flag(sys_ctrl2, mask, enable))
    }
}

/// Decides what to write to switch a FET driver, as [`spec_fet_update`]
/// says.
pub fn fet_update(sys_ctrl2: u8, mask: u8, enable: bool) -> (r: Option<u8>)
    ensures
        r == spec_fet_update(sys_ctrl2, mask, enable),
{
    let already_enabled = sys_ctrl2 & mask != 0;
    if enable == already_enabled {
        None
    } else {
        Some(with_flag(sys_ctrl2, mask, enable))
    }
}

impl CoulombCounterMode {
    /// The two mode bits of system control 2 for this mode.
    pub open spec fn spec_bits(self) -> u8 {
        match self {
            CoulombCounterMode::Disabled => 0,
            CoulombCounterMode::OneShot => CC_ONESHOT,
            CoulombCounterMode::Continuous => CC_EN,
        }
    }

    /// System control 2 with this mode selected and every other bit kept.
    pub open spec fn spec_apply(self, sys_ctrl2: u8) -> u8 {
        (sys_ctrl2 & !(CC_ONESHOT | CC_EN)) | self.spec_bits()
    }

    /// System control 2 with this mode selected and every other bit kept.
    pub fn apply(&self, sys_ctrl2: u8) -> (r: u8)
        ensures
            r == self.spec_apply(sys_ctrl2),
    {
        let cleared = sys_ctrl2 & !(CC_ONESHOT | CC_EN);
        match self {
            CoulombCounterMode::Disabled => {
                assert(cleared | 0 == cleared) by (bit_vector);
                cleared
            },
            CoulombCounterMode::OneShot => cleared | CC_ONESHOT,
            CoulombCounterMode::Continuous => cleared | CC_EN,
        }
    }
}

impl TemperatureSource {
    /// The source that system control 1 selects: the thermistor when
    /// [`TEMP_SEL`] is set, the die otherwise.
    pub open spec fn spec_from_sys_ctrl1(sys_ctrl1: u8) -> TemperatureSource {
        if sys_ctrl1 & TEMP_SEL != 0 {
            TemperatureSource::ExternalThermistor
        } else {
            TemperatureSource::InternalDie
        }
    }

    /// System control 1 with this source selected and every other bit
    /// kept.
    pub open spec fn spec_apply(self, sys_ctrl1: u8) -> u8 {
        spec_with_flag(sys_ctrl1, TEMP_SEL, self == TemperatureSource::ExternalThermistor)
    }

    /// The source that system control 1 selects, as
    /// [`Self::spec_from_sys_ctrl1`] says.
    pub fn from_sys_ctrl1(sys_ctrl1: u8) -> (source: TemperatureSource)
        ensures
            source == Self::spec_from_sys_ctrl1(sys_ctrl1),
    {
        if sys_ctrl1 & TEMP_SEL != 0 {
            TemperatureSource::ExternalThermistor
        } else {
            TemperatureSource::InternalDie
        }
    }

    /// System control 1 with this source selected and every other bit
    /// kept.
    pub fn apply(&self, sys_ctrl1: u8) -> (r: u8)
        ensures
            r == self.spec_apply(sys_ctrl1),
    {
        let is_external = *self == TemperatureSource::ExternalThermistor;
        with_flag(sys_ctrl1, TEMP_SEL, is_external)
    }
}

impl Temperature {
    /// A raw reading of the temperature channel, tagged with its source.
    /// The value carried is the reading in microvolts, at
    /// [`TS_MICROVOLTS_PER_STEP`] per step.
    pub open spec fn spec_from_reading(source: TemperatureSource, hi: u8, lo: u8) -> Temperature {
        let microvolts = DegreesCentigrade((spec_be16(hi, lo) * TS_MICROVOLTS_PER_STEP) as i32);
        match source {
            TemperatureSource::InternalDie => Temperature::InternalDie(microvolts),
            TemperatureSource::ExternalThermistor => Temperature::ExternalThermistor(microvolts),
        }
    }

    /// Tags a raw reading of the temperature channel with its source.
    ///
    /// The value carried is the reading in microvolts, at
    /// [`TS_MICROVOLTS_PER_STEP`] per step; it always fits.
    pub fn from_reading(source: TemperatureSource, hi: u8, lo: u8) -> (t: Temperature)
        ensures
            t == Self::spec_from_reading(source, hi, lo),
            0 <= spec_be16(hi, lo) * TS_MICROVOLTS_PER_STEP <= i32::MAX,
    {
        let ts = be16(hi, lo);
        let vtsx: i32 = (ts as i32) * TS_MICROVOLTS_PER_STEP;
        match source {
            TemperatureSource::InternalDie => Temperature::InternalDie(DegreesCentigrade(vtsx)),
            TemperatureSource::ExternalThermistor => Temperature::ExternalThermistor(
                DegreesCentigrade(vtsx),
            ),
        }
    }
}

/// The 16-bit value of two bytes, high byte first.
pub fn be16(hi: u8, lo: u8) -> (r: u16)
    ensures
        r == spec_be16(hi, lo),
{
    let h = hi as u16;
    let l = lo as u16;
    assert((h << 8) | l == h * 256 + l) by (bit_vector)
        requires
            h <= 0xff,
            l <= 0xff,
    ;
    (h << 8) | l
}

/// The signed 16-bit value of two bytes, high byte first.
pub fn signed_be16(hi: u8, lo: u8) -> (r: i16)
    ensures
        r == spec_signed_be16(hi, lo),
{
    let wide = be16(hi, lo) as i32;
    if hi < 128 {
        wide as i16
    } else {
        (wide - 0x1_0000) as i16
    }
}

/// A resistance as the signed 32-bit value that holds it: from 2^31
/// microohms on it wraps around to a negative number, as in two's
/// complement.
pub open spec fn spec_signed_resistance(shunt: MicroOhms) -> int {
    if shunt.0 < 0x8000_0000 {
        shunt.0 as int
    } else {
        shunt.0 - 0x1_0000_0000
    }
}

/// The current through the shunt for a reading of the coulomb counter.
pub open spec fn spec_shunt_current(hi: u8, lo: u8, shunt: MicroOhms) -> int {
    truncating_div(
        spec_signed_be16(hi, lo) * CC_NANOVOLTS_PER_STEP,
        spec_signed_resistance(shunt),
    )
}

/// Converts a reading of the coulomb counter to the current through the
/// shunt.
///
/// The counter is a signed 16-bit value of
/// [`CC_NANOVOLTS_PER_STEP`] nanovolts per step; nanovolts over microohms
/// are milliamperes, rounded toward zero. The division is one of signed
/// 32-bit values, so a resistance of 2^31 microohms or more divides as a
/// negative number. The resistance must not be zero.
pub fn shunt_current(hi: u8, lo: u8, shunt: MicroOhms) -> (current: MilliAmperes)
    requires
        shunt.0 > 0,
    ensures
        current.0 == spec_shunt_current(hi, lo, shunt),
{
    let cc = signed_be16(hi, lo);
    let step = CC_NANOVOLTS_PER_STEP as i64;
    assert(step == 8440);
    let vshunt: i64 = (cc as i64) * step;
    let current: i64 = if shunt.0 < 0x8000_0000 {
        vshunt / (shunt.0 as i64)
    } else {
        -(vshunt / (0x1_0000_0000 - shunt.0 as i64))
    };
    assert(-0x8000_0000 <= current <= 0x7fff_ffff) by (nonlinear_arith)
        requires
            -300_000_000 <= vshunt <= 300_000_000,
            spec_signed_resistance(shunt) != 0,
            current == truncating_div(vshunt as int, spec_signed_resistance(shunt)),
    ;
    MilliAmperes(current as i32)
}

/// What reading a control register back comes to: the byte read must be
/// the byte written.
pub open spec fn spec_verify_readback(reg_address: u8, written: u8, read_back: u8) -> Result<
    (),
    Error,
> {
    if written == read_back {
        Ok(())
    } else {
        Err(Error::VerifyError(reg_address))
    }
}

/// Compares what was written to a control register with what it reads
/// back as, as [`spec_verify_readback`] says.
pub fn verify_readback(reg_address: u8, written: u8, read_back: u8) -> (r: Result<(), Error>)
    ensures
        r == spec_verify_readback(reg_address, written, read_back),
{
    if written == read_back {
        Ok(())
    } else {
        Err(Error::VerifyError(reg_address))
    }
}

} // verus!
