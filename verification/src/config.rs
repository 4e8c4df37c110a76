//! The protection configuration and what becomes of it: the register
//! bytes to write, and the thresholds that those bytes really stand for.

use crate::adc::{ov_adc_code, uv_adc_code, AdcTransferFunction};
use crate::control::CC_CFG_VALUE;
use crate::error::Error;
use crate::protection::{
    law_codes_fit_their_fields, sense_millivolts, OCDDelay, OCDSCDRange, OCDThreshold,
    OVDelay, SCDDelay, SCDThreshold, UVDelay,
};
use crate::units::{Amperes, MicroOhms, MilliVolts};
use vstd::prelude::*;

verus! {

/// What the caller asks of the protection comparators.
#[derive(Debug, Clone, Copy)]
pub struct Config {
    pub shunt: MicroOhms,
    pub scd_delay: SCDDelay,
    pub scd_threshold: Amperes,
    pub ocd_delay: OCDDelay,
    pub ocd_threshold: Amperes,
    pub uv_delay: UVDelay,
    pub uv_threshold: MilliVolts,
    pub ov_delay: OVDelay,
    pub ov_threshold: MilliVolts,
}

/// What the device was really set to. Every threshold has finitely many
/// settings, so what is achieved can differ from what was asked for.
#[derive(Debug, PartialEq, Eq, Clone, Copy, Structural)]
pub struct CalculatedValues {
    pub ocdscd_range_used: OCDSCDRange,
    pub scd_threshold: Amperes,
    pub ocd_threshold: Amperes,
    pub uv_threshold: MilliVolts,
    pub ov_threshold: MilliVolts,
}

/// The outcome of planning a configuration: the bytes of the six
/// protection registers, first register first, and the thresholds they
/// stand for.
#[derive(Debug, Clone, Copy)]
pub struct ProtectionPlan {
    pub registers: [u8; 6],
    pub values: CalculatedValues,
}

impl Config {
    /// The level that the short-circuit request resolves to.
    pub open spec fn scd_level(&self) -> SCDThreshold {
        SCDThreshold::spec_resolve(sense_millivolts(self.scd_threshold, self.shunt))
    }

    /// The level that the over-current request resolves to.
    pub open spec fn ocd_level(&self) -> OCDThreshold {
        OCDThreshold::spec_resolve(sense_millivolts(self.ocd_threshold, self.shunt))
    }

    /// The two current requests need different sense ranges.
    pub open spec fn ranges_conflict(&self) -> bool {
        OCDSCDRange::conflict(self.scd_level().spec_range(), self.ocd_level().spec_range())
    }

    /// The sense range that serves both current requests.
    pub open spec fn range(&self) -> OCDSCDRange {
        OCDSCDRange::resolved(self.scd_level().spec_range(), self.ocd_level().spec_range())
    }

    /// The configuration can be set on a device with transfer function
    /// `tf`: the current requests agree on a range and both voltage
    /// targets lie in their windows.
    pub open spec fn obtainable(&self, tf: AdcTransferFunction) -> bool {
        &&& !self.ranges_conflict()
        &&& tf.ov_in_window(self.ov_threshold)
        &&& tf.uv_in_window(self.uv_threshold)
    }

    /// Why the configuration cannot be set, for one that cannot. The
    /// ranges are looked at first, then the over-voltage target, then the
    /// under-voltage target.
    pub open spec fn refusal(&self, tf: AdcTransferFunction) -> Error {
        if self.ranges_conflict() {
            Error::OCDSCDRangeMismatch
        } else if !tf.ov_in_window(self.ov_threshold) {
            Error::OVThresholdUnobtainable(
                MilliVolts(tf.spec_apply(crate::adc::OV_CODE_MIN as int) as u32),
                MilliVolts(tf.spec_apply(crate::adc::OV_CODE_MAX as int) as u32),
            )
        } else {
            Error::UVThresholdUnobtainable(
                MilliVolts(tf.spec_apply(crate::adc::UV_CODE_MIN as int) as u32),
                MilliVolts(tf.spec_apply(crate::adc::UV_CODE_MAX as int) as u32),
            )
        }
    }

    /// The bytes of the six protection registers: range, delay and level
    /// of the short-circuit comparator; delay and level of the
    /// over-current comparator; the two voltage delays; the over-voltage
    /// code; the under-voltage code; the coulomb-counter configuration.
    pub open spec fn registers(&self, tf: AdcTransferFunction) -> Seq<u8> {
        seq![
            self.range().spec_bits() | self.scd_delay.spec_bits() | self.scd_level().spec_bits(
                self.range(),
            ),
            self.ocd_delay.spec_bits() | self.ocd_level().spec_bits(self.range()),
            self.uv_delay.spec_bits() | self.ov_delay.spec_bits(),
            tf.spec_trip_code(self.ov_threshold) as u8,
            tf.spec_trip_code(self.uv_threshold) as u8,
            CC_CFG_VALUE,
        ]
    }

    /// The thresholds that the register bytes stand for: the currents at
    /// which the two resolved levels trip with this shunt, and the
    /// voltages of the two trip codes.
    pub open spec fn achieved(&self, tf: AdcTransferFunction) -> CalculatedValues {
        CalculatedValues {
            ocdscd_range_used: self.range(),
            scd_threshold: Amperes(self.scd_level().spec_trip_current(self.shunt) as u32),
            ocd_threshold: Amperes(self.ocd_level().spec_trip_current(self.shunt) as u32),
            uv_threshold: MilliVolts(
                tf.spec_apply(uv_adc_code(tf.spec_trip_code(self.uv_threshold) as u8)) as u32,
            ),
            ov_threshold: MilliVolts(
                tf.spec_apply(ov_adc_code(tf.spec_trip_code(self.ov_threshold) as u8)) as u32,
            ),
        }
    }

    /// Works out what to write to the protection registers of a device
    /// with transfer function `tf`, without touching the device.
    ///
    /// Succeeds exactly for a configuration that is
    /// [obtainable](Self::obtainable), with the bytes of
    /// [`Self::registers`] and the thresholds of [`Self::achieved`]; any
    /// other configuration fails with its [`Self::refusal`]. The shunt
    /// resistance must not be zero, and neither may the gain.
    pub fn protection_plan(&self, tf: &AdcTransferFunction) -> (r: Result<ProtectionPlan, Error>)
        requires
            self.shunt.0 > 0,
            tf.gain > 0,
        ensures
            self.obtainable(*tf) ==> r is Ok && r->Ok_0.registers@ == self.registers(*tf)
                && r->Ok_0.values == self.achieved(*tf),
            !self.obtainable(*tf) ==> r is Err && r->Err_0 == self.refusal(*tf),
    {
        let scd_threshold = SCDThreshold::from_current(self.scd_threshold, self.shunt);
        let ocd_threshold = OCDThreshold::from_current(self.ocd_threshold, self.shunt);
        let range_to_use = match OCDSCDRange::reconcile(
            scd_threshold.range(),
            ocd_threshold.range(),
        ) {
            Ok(range) => range,
            Err(e) => {
                return Err(e);
            },
        };
        let scd_bits = scd_threshold.bits(range_to_use);
        let ocd_bits = ocd_threshold.bits(range_to_use);
        let ov_bits = match tf.ov_trip(self.ov_threshold) {
            Ok(code) => code,
            Err(e) => {
                return Err(e);
            },
        };
        let uv_bits = match tf.uv_trip(self.uv_threshold) {
            Ok(code) => code,
            Err(e) => {
                return Err(e);
            },
        };
        let registers: [u8; 6] = [
            range_to_use.bits() | self.scd_delay.bits() | scd_bits,
            self.ocd_delay.bits() | ocd_bits,
            self.uv_delay.bits() | self.ov_delay.bits(),
            ov_bits,
            uv_bits,
            CC_CFG_VALUE,
        ];
        let values = CalculatedValues {
            ocdscd_range_used: range_to_use,
            scd_threshold: scd_threshold.trip_current(self.shunt),
            ocd_threshold: ocd_threshold.trip_current(self.shunt),
            uv_threshold: tf.uv_achieved(uv_bits),
            ov_threshold: tf.ov_achieved(ov_bits),
        };
        assert(registers@ =~= self.registers(*tf));
        Ok(ProtectionPlan { registers, values })
    }
}

proof fn lemma_three_fields(a: u8, b: u8, c: u8)
    by (bit_vector)
    requires
        a & 0x7f == 0,
        b & 0xe7 == 0,
        c & 0xf8 == 0,
    ensures
        (a | b | c) & 0x80 == a,
        (a | b | c) & 0x18 == b,
        (a | b | c) & 0x07 == c,
{
}

proof fn lemma_delay_and_level(delay: u8, level: u8)
    by (bit_vector)
    requires
        delay & 0x8f == 0,
        level & 0xf0 == 0,
    ensures
        (delay | level) & 0x70 == delay,
        (delay | level) & 0x0f == level,
{
}

proof fn lemma_two_delays(uv: u8, ov: u8)
    by (bit_vector)
    requires
        uv & 0x3f == 0,
        ov & 0xcf == 0,
    ensures
        (uv | ov) & 0xc0 == uv,
        (uv | ov) & 0x30 == ov,
{
}

/// The fields of the first three protection registers do not overlap:
/// each setting can be read back out of its register byte. The range is
/// bit 7 of the first register, the short-circuit delay its bits 3 and 4
/// and the short-circuit level its bits 0 to 2; the over-current delay is
/// bits 4 to 6 of the second register and the over-current level its bits
/// 0 to 3; the under-voltage delay is bits 6 and 7 of the third register
/// and the over-voltage delay its bits 4 and 5.
pub proof fn law_register_fields_are_kept(config: Config, tf: AdcTransferFunction)
    ensures
        config.registers(tf)[0] & 0x80 == config.range().spec_bits(),
        config.registers(tf)[0] & 0x18 == config.scd_delay.spec_bits(),
        config.registers(tf)[0] & 0x07 == config.scd_level().spec_bits(config.range()),
        config.registers(tf)[1] & 0x70 == config.ocd_delay.spec_bits(),
        config.registers(tf)[1] & 0x0f == config.ocd_level().spec_bits(config.range()),
        config.registers(tf)[2] & 0xc0 == config.uv_delay.spec_bits(),
        config.registers(tf)[2] & 0x30 == config.ov_delay.spec_bits(),
{
    let range = config.range();
    let scd_code = config.scd_level().spec_bits(range);
    let ocd_code = config.ocd_level().spec_bits(range);
    law_codes_fit_their_fields(config.scd_level(), config.ocd_level(), range);
    assert(scd_code & 0xf8 == 0) by (bit_vector)
        requires
            scd_code < 8,
    ;
    assert(ocd_code & 0xf0 == 0) by (bit_vector)
        requires
            ocd_code < 16,
    ;
    let select = range.spec_bits();
    let scd_delay = config.scd_delay.spec_bits();
    let ocd_delay = config.ocd_delay.spec_bits();
    let uv_delay = config.uv_delay.spec_bits();
    let ov_delay = config.ov_delay.spec_bits();
    assert(select & 0x7f == 0) by (bit_vector)
        requires
            select == 0x00 || select == 0x80,
    ;
    assert(scd_delay & 0xe7 == 0) by (bit_vector)
        requires
            scd_delay == 0x00 || scd_delay == 0x08 || scd_delay == 0x10 || scd_delay == 0x18,
    ;
    assert(ocd_delay & 0x8f == 0) by (bit_vector)
        requires
            ocd_delay == 0x00 || ocd_delay == 0x10 || ocd_delay == 0x20 || ocd_delay == 0x30
                || ocd_delay == 0x40 || ocd_delay == 0x50 || ocd_delay == 0x60 || ocd_delay
                == 0x70,
    ;
    assert(uv_delay & 0x3f == 0) by (bit_vector)
        requires
            uv_delay == 0x00 || uv_delay == 0x40 || uv_delay == 0x80 || uv_delay == 0xc0,
    ;
    assert(ov_delay & 0xcf == 0) by (bit_vector)
        requires
            ov_delay == 0x00 || ov_delay == 0x10 || ov_delay == 0x20 || ov_delay == 0x30,
    ;
    lemma_three_fields(select, scd_delay, scd_code);
    lemma_delay_and_level(ocd_delay, ocd_code);
    lemma_two_delays(uv_delay, ov_delay);
}

} // verus!
