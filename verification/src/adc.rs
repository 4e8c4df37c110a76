//! The calibrated transfer function of the ADC: from raw codes to
//! millivolts, and from voltage targets back to comparator trip codes.

use crate::error::Error;
use crate::units::MilliVolts;
use vstd::prelude::*;

verus! {

/// The gain, in microvolts per step, of a device whose gain trim is zero.
pub const GAIN_BASE: u16 = 365;

/// The greatest gain that the trim registers can express.
pub const GAIN_MAX: u16 = 396;

/// The lowest 14-bit ADC code that the over-voltage comparator can be set to.
pub const OV_CODE_MIN: u16 = 0b10_0000_0000_1000;

/// The highest 14-bit ADC code that the over-voltage comparator can be set to.
pub const OV_CODE_MAX: u16 = 0b10_1111_1111_1000;

/// The lowest 14-bit ADC code that the under-voltage comparator can be set to.
pub const UV_CODE_MIN: u16 = 0b01_0000_0000_0000;

/// The highest 14-bit ADC code that the under-voltage comparator can be set to.
pub const UV_CODE_MAX: u16 = 0b01_1111_1111_0000;

/// Division that rounds toward zero.
pub open spec fn truncating_div(a: int, b: int) -> int {
    if a >= 0 && b > 0 {
        a / b
    } else if a < 0 && b > 0 {
        -((-a) / b)
    } else if a >= 0 {
        -(a / (-b))
    } else {
        (-a) / (-b)
    }
}

/// A signed number of millivolts as the unsigned 32-bit value that holds
/// it: a negative number wraps around, as in two's complement.
pub open spec fn wrapped_millivolts(mv: int) -> int {
    if mv >= 0 {
        mv
    } else {
        mv + 0x1_0000_0000
    }
}

/// The whole millivolts in `uv` microvolts, rounded toward zero and held
/// in an unsigned 32-bit value.
pub open spec fn millivolts_of(uv: int) -> int {
    wrapped_millivolts(truncating_div(uv, 1000))
}

/// The whole millivolts in `uv` microvolts, rounded toward zero; a
/// negative result wraps around.
fn whole_millivolts(uv: i64) -> (mv: MilliVolts)
    requires
        -1_000_000_000 <= uv <= 4_000_000_000_000,
    ensures
        mv.0 == millivolts_of(uv as int),
{
    let whole: i64 = uv / 1000;
    if whole >= 0 {
        MilliVolts(whole as u32)
    } else {
        MilliVolts((whole + 0x1_0000_0000) as u32)
    }
}

/// The 14-bit ADC code that the over-voltage comparator compares with when
/// its register holds `code`.
pub open spec fn ov_adc_code(code: u8) -> int {
    OV_CODE_MIN + 16 * code
}

/// The 14-bit ADC code that the under-voltage comparator compares with
/// when its register holds `code`.
pub open spec fn uv_adc_code(code: u8) -> int {
    UV_CODE_MIN + 16 * code
}

/// A linear map from raw ADC codes to millivolts: `gain` in microvolts per
/// step and `offset` in millivolts.
#[derive(Debug, PartialEq, Eq, Clone, Copy, Structural)]
pub struct AdcTransferFunction {
    pub gain: u16,
    pub offset: i8,
}

impl AdcTransferFunction {
    /// The gain is one that the trim registers of a device can express.
    pub open spec fn is_calibrated(self) -> bool {
        GAIN_BASE <= self.gain <= GAIN_MAX
    }

    /// The microvolts that a raw code stands for.
    pub open spec fn microvolts(self, adc_reading: int) -> int {
        adc_reading * self.gain + self.offset * 1000
    }

    /// The calibrated voltage of a raw code, as [`Self::apply`] returns it.
    pub open spec fn spec_apply(self, adc_reading: int) -> int {
        millivolts_of(self.microvolts(adc_reading))
    }

    /// The ADC code, at full resolution, that corresponds to a voltage
    /// target: the inverse of the transfer function, rounded toward zero.
    pub open spec fn spec_full_code(self, target: MilliVolts) -> int {
        truncating_div((target.0 - self.offset) * 1000, self.gain as int)
    }

    /// The eight bits of the full-resolution code that a trip register
    /// holds: bits 4 to 11.
    pub open spec fn spec_trip_code(self, target: MilliVolts) -> int {
        (self.spec_full_code(target) / 16) % 256
    }

    /// The over-voltage targets that can be set: from the voltage of the
    /// lowest code of the comparator to that of the highest.
    pub open spec fn ov_in_window(self, target: MilliVolts) -> bool {
        self.spec_apply(OV_CODE_MIN as int) <= target.0 <= self.spec_apply(OV_CODE_MAX as int)
    }

    /// The under-voltage targets that can be set: from the voltage of the
    /// lowest code of the comparator to that of the highest.
    pub open spec fn uv_in_window(self, target: MilliVolts) -> bool {
        self.spec_apply(UV_CODE_MIN as int) <= target.0 <= self.spec_apply(UV_CODE_MAX as int)
    }

    /// One step of a trip register in whole millivolts, rounded up. A trip
    /// register holds bits 4 to 11 of an ADC code, so one step of it is
    /// sixteen steps of the ADC.
    pub open spec fn quantization_step(self) -> int {
        (16 * self.gain + 999) / 1000
    }

    /// The full-resolution code of an under-voltage target is not below
    /// [`UV_CODE_MIN`]. The lower bound of the window is rounded down to
    /// whole millivolts, so a target at the very bottom of the window can
    /// miss this by a few ADC steps.
    pub open spec fn uv_code_reachable(self, target: MilliVolts) -> bool {
        (target.0 - self.offset) * 1000 >= UV_CODE_MIN * self.gain
    }

    /// The transfer function that three trim bytes stand for.
    ///
    /// The gain trim has five bits: bits 2 and 3 of `gain1` are its upper
    /// two, bits 5 to 7 of `gain2` its lower three. The gain is the trim
    /// added to [`GAIN_BASE`]. `offset` is a signed byte.
    pub open spec fn spec_from_trim(gain1: u8, offset: u8, gain2: u8) -> AdcTransferFunction {
        AdcTransferFunction {
            gain: (GAIN_BASE + (((gain1 << 1) & 0b0001_1000) | (gain2 >> 5))) as u16,
            offset: (if offset < 128 {
                offset as int
            } else {
                offset - 256
            }) as i8,
        }
    }

    /// Builds the transfer function from the three trim bytes of a
    /// device, as [`Self::spec_from_trim`] says. The result is calibrated.
    pub fn from_trim(gain1: u8, offset: u8, gain2: u8) -> (tf: Self)
        ensures
            tf == Self::spec_from_trim(gain1, offset, gain2),
            tf.gain == GAIN_BASE + (((gain1 << 1) & 0b0001_1000) | (gain2 >> 5)),
            tf.offset == (if offset < 128 {
                offset as int
            } else {
                offset - 256
            }),
            tf.is_calibrated(),
    {
        let trim: u8 = ((gain1 << 1) & 0b0001_1000) | (gain2 >> 5);
        assert(((gain1 << 1) & 0b0001_1000) | (gain2 >> 5) <= 31) by (bit_vector);
        let signed: i8 = if offset < 128 {
            offset as i8
        } else {
            (offset as i16 - 256) as i8
        };
        AdcTransferFunction { gain: GAIN_BASE + trim as u16, offset: signed }
    }

    /// The voltage of the whole pack for a raw reading of the pack
    /// channel, as [`Self::pack_voltage`] returns it.
    pub open spec fn spec_pack_voltage(self, adc_reading: int) -> int {
        millivolts_of(4 * self.gain * adc_reading + 5 * self.offset * 1000)
    }

    /// Converts a raw ADC code to calibrated millivolts.
    ///
    /// The result is `adc_reading * gain + offset * 1000` microvolts in
    /// whole millivolts, rounded toward zero. A negative voltage wraps
    /// around in the unsigned result.
    pub fn apply(&self, adc_reading: u16) -> (mv: MilliVolts)
        ensures
            mv.0 == self.spec_apply(adc_reading as int),
    {
        let reading = adc_reading as i64;
        let gain = self.gain as i64;
        assert(0 <= reading * gain <= 0xffff * 0xffff) by (nonlinear_arith)
            requires
                0 <= reading <= 0xffff,
                0 <= gain <= 0xffff,
        ;
        whole_millivolts(reading * gain + (self.offset as i64) * 1000)
    }

    /// Converts a raw reading of the pack channel to millivolts.
    ///
    /// The pack channel has four times the step of a cell channel and
    /// carries the offset five times: the result is
    /// `4 * gain * adc_reading + 5 * offset * 1000` microvolts in whole
    /// millivolts, rounded toward zero. A negative voltage wraps around in
    /// the unsigned result.
    pub fn pack_voltage(&self, adc_reading: u16) -> (mv: MilliVolts)
        ensures
            mv.0 == self.spec_pack_voltage(adc_reading as int),
    {
        let reading = adc_reading as i64;
        let gain = self.gain as i64;
        assert(0 <= gain * reading <= 0xffff * 0xffff) by (nonlinear_arith)
            requires
                0 <= reading <= 0xffff,
                0 <= gain <= 0xffff,
        ;
        assert(4 * self.gain * adc_reading == 4 * (gain * reading)) by (nonlinear_arith)
            requires
                gain == self.gain,
                reading == adc_reading,
        ;
        whole_millivolts(4 * (gain * reading) + 5 * (self.offset as i64) * 1000)
    }

    /// Computes the register code of a comparator for a voltage target.
    ///
    /// The target is taken back through the transfer function to a
    /// full-resolution ADC code, `(target - offset) * 1000 / gain` rounded
    /// toward zero, and bits 4 to 11 of that code are the result.
    pub fn trip_code(&self, target: MilliVolts) -> (code: u8)
        requires
            self.gain > 0,
        ensures
            code == self.spec_trip_code(target),
    {
        let numerator: i64 = (target.0 as i64 - self.offset as i64) * 1000;
        let full: i64 = numerator / (self.gain as i64);
        let sixteenth: i64 = if full >= 0 {
            full / 16
        } else {
            -((15 - full) / 16)
        };
        let low: i64 = sixteenth % 256;
        if low >= 0 {
            low as u8
        } else {
            (low + 256) as u8
        }
    }

    /// The window of over-voltage targets that can be set: the voltages of
    /// [`OV_CODE_MIN`] and of [`OV_CODE_MAX`].
    pub fn ov_window(&self) -> (window: (MilliVolts, MilliVolts))
        ensures
            window.0.0 == self.spec_apply(OV_CODE_MIN as int),
            window.1.0 == self.spec_apply(OV_CODE_MAX as int),
    {
        (self.apply(OV_CODE_MIN), self.apply(OV_CODE_MAX))
    }

    /// The window of under-voltage targets that can be set: the voltages
    /// of [`UV_CODE_MIN`] and of [`UV_CODE_MAX`].
    pub fn uv_window(&self) -> (window: (MilliVolts, MilliVolts))
        ensures
            window.0.0 == self.spec_apply(UV_CODE_MIN as int),
            window.1.0 == self.spec_apply(UV_CODE_MAX as int),
    {
        (self.apply(UV_CODE_MIN), self.apply(UV_CODE_MAX))
    }

    /// The register code for an over-voltage target, if the target can be
    /// set.
    ///
    /// A target inside the window gives its trip code; any other target
    /// is refused with the bounds of the window.
    pub fn ov_trip(&self, target: MilliVolts) -> (r: Result<u8, Error>)
        requires
            self.gain > 0,
        ensures
            self.ov_in_window(target) ==> r is Ok && r->Ok_0 == self.spec_trip_code(target),
            !self.ov_in_window(target) ==> r == Err::<u8, Error>(
                Error::OVThresholdUnobtainable(
                    MilliVolts(self.spec_apply(OV_CODE_MIN as int) as u32),
                    MilliVolts(self.spec_apply(OV_CODE_MAX as int) as u32),
                ),
            ),
    {
        let limits = self.ov_window();
        if !(target.0 >= limits.0.0 && target.0 <= limits.1.0) {
            return Err(Error::OVThresholdUnobtainable(limits.0, limits.1));
        }
        Ok(self.trip_code(target))
    }

    /// The register code for an under-voltage target, if the target can
    /// be set.
    ///
    /// A target inside the window gives its trip code; any other target
    /// is refused with the bounds of the window.
    pub fn uv_trip(&self, target: MilliVolts) -> (r: Result<u8, Error>)
        requires
            self.gain > 0,
        ensures
            self.uv_in_window(target) ==> r is Ok && r->Ok_0 == self.spec_trip_code(target),
            !self.uv_in_window(target) ==> r == Err::<u8, Error>(
                Error::UVThresholdUnobtainable(
                    MilliVolts(self.spec_apply(UV_CODE_MIN as int) as u32),
                    MilliVolts(self.spec_apply(UV_CODE_MAX as int) as u32),
                ),
            ),
    {
        let limits = self.uv_window();
        if !(target.0 >= limits.0.0 && target.0 <= limits.1.0) {
            return Err(Error::UVThresholdUnobtainable(limits.0, limits.1));
        }
        Ok(self.trip_code(target))
    }

    /// The voltage at which the over-voltage comparator trips when its
    /// register holds `code`.
    pub fn ov_achieved(&self, code: u8) -> (mv: MilliVolts)
        ensures
            mv.0 == self.spec_apply(ov_adc_code(code)),
    {
        let wide = code as u16;
        assert(0b10_0000_0000_1000u16 | (wide << 4) == 0b10_0000_0000_1000u16 + 16 * wide)
            by (bit_vector)
            requires
                wide <= 0xff,
        ;
        self.apply(OV_CODE_MIN | (wide << 4))
    }

    /// The voltage at which the under-voltage comparator trips when its
    /// register holds `code`.
    pub fn uv_achieved(&self, code: u8) -> (mv: MilliVolts)
        ensures
            mv.0 == self.spec_apply(uv_adc_code(code)),
    {
        let wide = code as u16;
        assert(0b01_0000_0000_0000u16 | (wide << 4) == 0b01_0000_0000_0000u16 + 16 * wide)
            by (bit_vector)
            requires
                wide <= 0xff,
        ;
        self.apply(UV_CODE_MIN | (wide << 4))
    }
}

proof fn lemma_quotient_bounds(numerator: int, gain: int, low: int, high: int)
    by (nonlinear_arith)
    requires
        gain > 0,
        low * gain <= numerator <= high * gain,
    ensures
        low <= numerator / gain <= high,
        (numerator / gain) * gain <= numerator < (numerator / gain) * gain + gain,
{
}

proof fn lemma_shifted_product(raw: int, full: int, gain: int, low: int, high: int)
    by (nonlinear_arith)
    requires
        gain > 0,
        low <= raw - full <= high,
    ensures
        full * gain + low * gain <= raw * gain <= full * gain + high * gain,
{
}

/// Setting an over-voltage target and reading back the voltage that the
/// chosen register code stands for gives a value within one step of the
/// trip register of the target, for every target inside the window of a
/// calibrated transfer function. In microvolts the register lies within
/// half a step, eight ADC steps, of the target.
pub proof fn law_ov_round_trip(tf: AdcTransferFunction, target: MilliVolts)
    requires
        tf.is_calibrated(),
        tf.ov_in_window(target),
    ensures
        0 <= tf.spec_trip_code(target) < 256,
        -tf.quantization_step() <= tf.spec_apply(ov_adc_code(tf.spec_trip_code(target) as u8))
            - target.0 <= tf.quantization_step(),
        -8 * tf.gain <= target.0 * 1000 - tf.microvolts(
            ov_adc_code(tf.spec_trip_code(target) as u8),
        ) < 8 * tf.gain,
{
    let g = tf.gain as int;
    let o = tf.offset as int;
    let t = target.0 as int;
    let numerator = (t - o) * 1000;
    assert(tf.microvolts(OV_CODE_MIN as int) == 8200 * g + 1000 * o);
    assert(tf.microvolts(OV_CODE_MAX as int) == 12280 * g + 1000 * o);
    assert(8197 * g <= numerator <= 12280 * g);
    lemma_quotient_bounds(numerator, g, 8197, 12280);
    let full = numerator / g;
    assert(full == tf.spec_full_code(target));
    let code = tf.spec_trip_code(target);
    assert(code == full / 16 - 512);
    let raw = ov_adc_code(code as u8);
    assert(raw == 16 * (full / 16) + 8);
    lemma_shifted_product(raw, full, g, -7, 8);
    assert(tf.microvolts(raw) == raw * g + o * 1000);
}

/// Setting an under-voltage target and reading back the voltage that the
/// chosen register code stands for gives a value within one step of the
/// trip register of the target, and never above it, for every target
/// inside the window of a calibrated transfer function whose
/// full-resolution code is reachable. In microvolts the register lies
/// less than one step, sixteen ADC steps, below the target.
pub proof fn law_uv_round_trip(tf: AdcTransferFunction, target: MilliVolts)
    requires
        tf.is_calibrated(),
        tf.uv_in_window(target),
        tf.uv_code_reachable(target),
    ensures
        0 <= tf.spec_trip_code(target) < 256,
        -tf.quantization_step() <= tf.spec_apply(uv_adc_code(tf.spec_trip_code(target) as u8))
            - target.0 <= 0,
        0 <= target.0 * 1000 - tf.microvolts(uv_adc_code(tf.spec_trip_code(target) as u8)) < 16
            * tf.gain,
{
    let g = tf.gain as int;
    let o = tf.offset as int;
    let t = target.0 as int;
    let numerator = (t - o) * 1000;
    assert(tf.microvolts(UV_CODE_MIN as int) == 4096 * g + 1000 * o);
    assert(tf.microvolts(UV_CODE_MAX as int) == 8176 * g + 1000 * o);
    assert(4096 * g <= numerator <= 8176 * g);
    lemma_quotient_bounds(numerator, g, 4096, 8176);
    let full = numerator / g;
    assert(full == tf.spec_full_code(target));
    let code = tf.spec_trip_code(target);
    assert(code == full / 16 - 256);
    let raw = uv_adc_code(code as u8);
    assert(raw == 16 * (full / 16));
    lemma_shifted_product(raw, full, g, -15, 0);
    assert(tf.microvolts(raw) == raw * g + o * 1000);
}

} // verus!
