//! Protection settings: comparator delays, the two sense ranges, and the
//! trip levels of the short-circuit and over-current comparators.
//!
//! Both comparators measure the voltage across the sense resistor. The
//! device has two sense ranges and one bit that selects the range for both
//! comparators at once. Each range has its own table of trip levels; some
//! levels appear in both tables, under different register codes.

use crate::error::Error;
use crate::units::{Amperes, MicroOhms};
use vstd::prelude::*;

verus! {

/// Delay of the short-circuit comparator.
#[allow(non_camel_case_types)]
#[derive(Debug, PartialEq, Eq, Clone, Copy, Structural)]
pub enum SCDDelay {
    _70uS,
    _100uS,
    _200uS,
    _400uS,
}

impl SCDDelay {
    /// The delay as it stands in its register field, bits 3 and 4.
    pub open spec fn spec_bits(self) -> u8 {
        match self {
            SCDDelay::_70uS => 0x00,
            SCDDelay::_100uS => 0x08,
            SCDDelay::_200uS => 0x10,
            SCDDelay::_400uS => 0x18,
        }
    }

    /// The delay as it stands in its register field.
    pub fn bits(&self) -> (r: u8)
        ensures
            r == self.spec_bits(),
    {
        match self {
            SCDDelay::_70uS => 0x00,
            SCDDelay::_100uS => 0x08,
            SCDDelay::_200uS => 0x10,
            SCDDelay::_400uS => 0x18,
        }
    }
}

/// Delay of the over-current comparator.
#[allow(non_camel_case_types)]
#[derive(Debug, PartialEq, Eq, Clone, Copy, Structural)]
pub enum OCDDelay {
    _8ms,
    _20ms,
    _40ms,
    _80ms,
    _160ms,
    _320ms,
    _640ms,
    _1280ms,
}

impl OCDDelay {
    /// The delay as it stands in its register field, bits 4 to 6.
    pub open spec fn spec_bits(self) -> u8 {
        match self {
            OCDDelay::_8ms => 0x00,
            OCDDelay::_20ms => 0x10,
            OCDDelay::_40ms => 0x20,
            OCDDelay::_80ms => 0x30,
            OCDDelay::_160ms => 0x40,
            OCDDelay::_320ms => 0x50,
            OCDDelay::_640ms => 0x60,
            OCDDelay::_1280ms => 0x70,
        }
    }

    /// The delay as it stands in its register field.
    pub fn bits(&self) -> (r: u8)
        ensures
            r == self.spec_bits(),
    {
        match self {
            OCDDelay::_8ms => 0x00,
            OCDDelay::_20ms => 0x10,
            OCDDelay::_40ms => 0x20,
            OCDDelay::_80ms => 0x30,
            OCDDelay::_160ms => 0x40,
            OCDDelay::_320ms => 0x50,
            OCDDelay::_640ms => 0x60,
            OCDDelay::_1280ms => 0x70,
        }
    }
}

/// Delay of the under-voltage comparator.
#[allow(non_camel_case_types)]
#[derive(Debug, PartialEq, Eq, Clone, Copy, Structural)]
pub enum UVDelay {
    _1s,
    _4s,
    _8s,
    _16s,
}

impl UVDelay {
    /// The delay as it stands in its register field, bits 6 and 7.
    pub open spec fn spec_bits(self) -> u8 {
        match self {
            UVDelay::_1s => 0x00,
            UVDelay::_4s => 0x40,
            UVDelay::_8s => 0x80,
            UVDelay::_16s => 0xc0,
        }
    }

    /// The delay as it stands in its register field.
    pub fn bits(&self) -> (r: u8)
        ensures
            r == self.spec_bits(),
    {
        match self {
            UVDelay::_1s => 0x00,
            UVDelay::_4s => 0x40,
            UVDelay::_8s => 0x80,
            UVDelay::_16s => 0xc0,
        }
    }
}

/// Delay of the over-voltage comparator.
#[allow(non_camel_case_types)]
#[derive(Debug, PartialEq, Eq, Clone, Copy, Structural)]
pub enum OVDelay {
    _1s,
    _4s,
    _8s,
    _16s,
}

impl OVDelay {
    /// The delay as it stands in its register field, bits 4 and 5.
    pub open spec fn spec_bits(self) -> u8 {
        match self {
            OVDelay::_1s => 0x00,
            OVDelay::_4s => 0x10,
            OVDelay::_8s => 0x20,
            OVDelay::_16s => 0x30,
        }
    }

    /// The delay as it stands in its register field.
    pub fn bits(&self) -> (r: u8)
        ensures
            r == self.spec_bits(),
    {
        match self {
            OVDelay::_1s => 0x00,
            OVDelay::_4s => 0x10,
            OVDelay::_8s => 0x20,
            OVDelay::_16s => 0x30,
        }
    }
}

/// One of the two sense ranges of the current comparators, or `Unknown`
/// for a level that both ranges can represent and that has not been tied
/// to one of them yet. `Unknown` is never written to the device.
#[derive(Debug, PartialEq, Eq, Clone, Copy, Structural)]
pub enum OCDSCDRange {
    Lower,
    Upper,
    Unknown,
}

impl OCDSCDRange {
    /// The range-select bit, bit 7: set for `Upper` only.
    pub open spec fn spec_bits(self) -> u8 {
        match self {
            OCDSCDRange::Upper => 0x80,
            _ => 0x00,
        }
    }

    /// Two requested ranges that no setting of the one range-select bit
    /// can serve: one needs `Lower`, the other `Upper`.
    pub open spec fn conflict(scd: OCDSCDRange, ocd: OCDSCDRange) -> bool {
        ||| (scd == OCDSCDRange::Lower && ocd == OCDSCDRange::Upper)
        ||| (scd == OCDSCDRange::Upper && ocd == OCDSCDRange::Lower)
    }

    /// The range to select for two requests that do not conflict: the one
    /// that either of them insists on, and `Lower` when neither does.
    pub open spec fn resolved(scd: OCDSCDRange, ocd: OCDSCDRange) -> OCDSCDRange {
        if scd != OCDSCDRange::Unknown {
            scd
        } else if ocd != OCDSCDRange::Unknown {
            ocd
        } else {
            OCDSCDRange::Lower
        }
    }

    /// The range-select bit: set for `Upper`, clear for `Lower`. `Unknown`
    /// selects nothing and gives a clear bit as well; it is resolved to a
    /// concrete range before anything is written.
    pub fn bits(&self) -> (r: u8)
        ensures
            r == self.spec_bits(),
    {
        match self {
            OCDSCDRange::Lower => 0x00,
            OCDSCDRange::Upper => 0x80,
            OCDSCDRange::Unknown => 0x00,
        }
    }

    /// Decides the one range that serves both comparators.
    ///
    /// Fails exactly when the two requests conflict; otherwise the result
    /// is a concrete range, namely [`Self::resolved`].
    pub fn reconcile(scd: OCDSCDRange, ocd: OCDSCDRange) -> (r: Result<OCDSCDRange, Error>)
        ensures
            Self::conflict(scd, ocd) ==> r == Err::<OCDSCDRange, Error>(Error::OCDSCDRangeMismatch),
            !Self::conflict(scd, ocd) ==> r == Ok::<OCDSCDRange, Error>(Self::resolved(scd, ocd)),
            r is Ok ==> r->Ok_0 != OCDSCDRange::Unknown,
    {
        if (scd == OCDSCDRange::Lower && ocd == OCDSCDRange::Upper) || (scd == OCDSCDRange::Upper
            && ocd == OCDSCDRange::Lower) {
            return Err(Error::OCDSCDRangeMismatch);
        }
        let range_to_use = if scd == OCDSCDRange::Unknown {
            if ocd == OCDSCDRange::Unknown {
                OCDSCDRange::Lower
            } else {
                ocd
            }
        } else {
            scd
        };
        Ok(range_to_use)
    }
}

/// The voltage drop, in whole millivolts, that `threshold` produces across
/// `shunt`.
pub open spec fn sense_millivolts(threshold: Amperes, shunt: MicroOhms) -> int {
    threshold.0 * shunt.0 / 1000
}

/// The voltage drop, in whole millivolts, that `threshold` produces across
/// `shunt`.
pub fn sense_voltage(threshold: Amperes, shunt: MicroOhms) -> (mv: u64)
    ensures
        mv as int == sense_millivolts(threshold, shunt),
{
    let amps = threshold.0 as u64;
    let micro_ohms = shunt.0 as u64;
    assert(amps * micro_ohms <= 0xffff_ffff * 0xffff_ffff) by (nonlinear_arith)
        requires
            amps <= 0xffff_ffff,
            micro_ohms <= 0xffff_ffff,
    ;
    amps * micro_ohms / 1000
}

/// A trip level of the short-circuit comparator, named by the voltage across
/// the sense resistor at which it trips.
#[allow(non_camel_case_types)]
#[derive(Debug, PartialEq, Eq, Clone, Copy, Structural)]
pub enum SCDThreshold {
    _22mV,
    _33mV,
    _44mV,
    _56mV,
    _67mV,
    _78mV,
    _89mV,
    _100mV,
    _111mV,
    _133mV,
    _155mV,
    _178mV,
    _200mV,
}

impl SCDThreshold {
    /// The voltage in millivolts that the level stands for.
    pub open spec fn spec_millivolts(self) -> int {
        match self {
            SCDThreshold::_22mV => 22,
            SCDThreshold::_33mV => 33,
            SCDThreshold::_44mV => 44,
            SCDThreshold::_56mV => 56,
            SCDThreshold::_67mV => 67,
            SCDThreshold::_78mV => 78,
            SCDThreshold::_89mV => 89,
            SCDThreshold::_100mV => 100,
            SCDThreshold::_111mV => 111,
            SCDThreshold::_133mV => 133,
            SCDThreshold::_155mV => 155,
            SCDThreshold::_178mV => 178,
            SCDThreshold::_200mV => 200,
        }
    }

    /// The register table of a sense range: the voltages that the range
    /// can be set to, in the order of their register codes. The codes of
    /// one range mean nothing in the other.
    pub open spec fn table(range: OCDSCDRange) -> Seq<int> {
        match range {
            OCDSCDRange::Lower => seq![22, 33, 44, 56, 67, 78, 89, 100],
            OCDSCDRange::Upper => seq![44, 67, 89, 111, 133, 155, 178, 200],
            OCDSCDRange::Unknown => Seq::empty(),
        }
    }

    /// The level has a register code in `range`: its voltage stands in
    /// the table of the range.
    pub open spec fn representable(self, range: OCDSCDRange) -> bool {
        Self::table(range).contains(self.spec_millivolts())
    }

    /// The sense range that the level belongs to: `Unknown` for a level
    /// that stands in both tables, else the one range that has it.
    pub open spec fn spec_range(self) -> OCDSCDRange {
        if self.representable(OCDSCDRange::Lower) && self.representable(OCDSCDRange::Upper) {
            OCDSCDRange::Unknown
        } else if self.representable(OCDSCDRange::Upper) {
            OCDSCDRange::Upper
        } else {
            OCDSCDRange::Lower
        }
    }

    /// The register code of the level in `range`: its place in the table
    /// of the range, and 0 for a level that the range cannot represent.
    pub open spec fn spec_bits(self, range: OCDSCDRange) -> u8 {
        if self.representable(range) {
            Self::table(range).index_of(self.spec_millivolts()) as u8
        } else {
            0
        }
    }

    /// The current at which a comparator set to this level trips with the
    /// given sense resistor, in whole amperes.
    pub open spec fn spec_trip_current(self, shunt: MicroOhms) -> int {
        self.spec_millivolts() * 1000 / (shunt.0 as int)
    }

    /// `level` is what a request of `mv` millivolts resolves to: the lowest
    /// level that is not below the request, or the highest level there is
    /// when the request lies above them all.
    pub open spec fn resolves(mv: int, level: SCDThreshold) -> bool {
        &&& forall|t: SCDThreshold| #[trigger]
            t.spec_millivolts() >= mv ==> level.spec_millivolts() <= t.spec_millivolts()
        &&& (level.spec_millivolts() >= mv || level == SCDThreshold::_200mV)
    }

    /// The level that a request of `mv` millivolts resolves to: the one
    /// level for which [`Self::resolves`] holds.
    pub open spec fn spec_resolve(mv: int) -> SCDThreshold {
        choose|level: SCDThreshold| Self::resolves(mv, level)
    }

    /// The voltage in millivolts that the level stands for.
    pub fn millivolts(&self) -> (mv: u8)
        ensures
            mv as int == self.spec_millivolts(),
    {
        match self {
            SCDThreshold::_22mV => 22,
            SCDThreshold::_33mV => 33,
            SCDThreshold::_44mV => 44,
            SCDThreshold::_56mV => 56,
            SCDThreshold::_67mV => 67,
            SCDThreshold::_78mV => 78,
            SCDThreshold::_89mV => 89,
            SCDThreshold::_100mV => 100,
            SCDThreshold::_111mV => 111,
            SCDThreshold::_133mV => 133,
            SCDThreshold::_155mV => 155,
            SCDThreshold::_178mV => 178,
            SCDThreshold::_200mV => 200,
        }
    }

    /// Classifies the level: `Lower` or `Upper` when only that range can
    /// represent it, `Unknown` when both can.
    pub fn range(&self) -> (r: OCDSCDRange)
        ensures
            r == self.spec_range(),
    {
        proof {
            lemma_scd_codes(*self);
        }
        match self {
            SCDThreshold::_44mV | SCDThreshold::_67mV | SCDThreshold::_89mV => OCDSCDRange::Unknown,
            SCDThreshold::_111mV | SCDThreshold::_133mV | SCDThreshold::_155mV
            | SCDThreshold::_178mV | SCDThreshold::_200mV => OCDSCDRange::Upper,
            _ => OCDSCDRange::Lower,
        }
    }

    /// The register code of the level in `range`.
    ///
    /// For a level that `range` can represent this is its place in the
    /// table of the range; for any other level it is 0. `Unknown` has no
    /// table and represents no level.
    pub fn bits(&self, range: OCDSCDRange) -> (code: u8)
        ensures
            code == self.spec_bits(range),
            code < 8,
            self.representable(range) ==> Self::table(range)[code as int]
                == self.spec_millivolts(),
    {
        proof {
            lemma_scd_codes(*self);
        }
        match range {
            OCDSCDRange::Lower => match self {
                SCDThreshold::_22mV => 0x0,
                SCDThreshold::_33mV => 0x1,
                SCDThreshold::_44mV => 0x2,
                SCDThreshold::_56mV => 0x3,
                SCDThreshold::_67mV => 0x4,
                SCDThreshold::_78mV => 0x5,
                SCDThreshold::_89mV => 0x6,
                SCDThreshold::_100mV => 0x7,
                _ => 0x0,
            },
            OCDSCDRange::Upper => match self {
                SCDThreshold::_44mV => 0x0,
                SCDThreshold::_67mV => 0x1,
                SCDThreshold::_89mV => 0x2,
                SCDThreshold::_111mV => 0x3,
                SCDThreshold::_133mV => 0x4,
                SCDThreshold::_155mV => 0x5,
                SCDThreshold::_178mV => 0x6,
                SCDThreshold::_200mV => 0x7,
                _ => 0x0,
            },
            OCDSCDRange::Unknown => 0x0,
        }
    }

    /// Resolves a requested voltage drop to a level, rounding up: the
    /// result is the lowest level not below `mv_threshold`, and `_200mV`
    /// for a request above every level.
    pub fn from_mv(mv_threshold: u8) -> (level: Self)
        ensures
            Self::resolves(mv_threshold as int, level),
            level == Self::spec_resolve(mv_threshold as int),
            mv_threshold < 22 ==> level == SCDThreshold::_22mV,
            mv_threshold > 200 ==> level == SCDThreshold::_200mV,
            forall|t: SCDThreshold| #[trigger] t.spec_millivolts() == mv_threshold ==> level == t,
    {
        let level = if mv_threshold <= 22 {
            SCDThreshold::_22mV
        } else if mv_threshold <= 33 {
            SCDThreshold::_33mV
        } else if mv_threshold <= 44 {
            SCDThreshold::_44mV
        } else if mv_threshold <= 56 {
            SCDThreshold::_56mV
        } else if mv_threshold <= 67 {
            SCDThreshold::_67mV
        } else if mv_threshold <= 78 {
            SCDThreshold::_78mV
        } else if mv_threshold <= 89 {
            SCDThreshold::_89mV
        } else if mv_threshold <= 100 {
            SCDThreshold::_100mV
        } else if mv_threshold <= 111 {
            SCDThreshold::_111mV
        } else if mv_threshold <= 133 {
            SCDThreshold::_133mV
        } else if mv_threshold <= 155 {
            SCDThreshold::_155mV
        } else if mv_threshold <= 178 {
            SCDThreshold::_178mV
        } else {
            SCDThreshold::_200mV
        };
        proof {
            assert(Self::resolves(mv_threshold as int, level));
            lemma_scd_resolution(mv_threshold as int, level);
        }
        level
    }

    /// Resolves a requested trip current to a level: the current is turned
    /// into the voltage drop over `shunt`, in whole millivolts, and that
    /// voltage is resolved as [`Self::from_mv`] does. A request below every
    /// level gives the lowest level, a request above every level the
    /// highest, and a request that is a level gives that level.
    pub fn from_current(threshold: Amperes, shunt: MicroOhms) -> (level: Self)
        ensures
            Self::resolves(sense_millivolts(threshold, shunt), level),
            level == Self::spec_resolve(sense_millivolts(threshold, shunt)),
            sense_millivolts(threshold, shunt) < 22 ==> level == SCDThreshold::_22mV,
            sense_millivolts(threshold, shunt) > 200 ==> level == SCDThreshold::_200mV,
            forall|t: SCDThreshold| #[trigger]
                t.spec_millivolts() == sense_millivolts(threshold, shunt) ==> level == t,
    {
        let mv = sense_voltage(threshold, shunt);
        let level = if mv > 255 {
            SCDThreshold::_200mV
        } else {
            Self::from_mv(mv as u8)
        };
        proof {
            assert(Self::resolves(mv as int, level));
            lemma_scd_resolution(mv as int, level);
        }
        level
    }

    /// The current at which a comparator set to this level trips with the
    /// given sense resistor: the level's voltage over the resistance, in
    /// whole amperes.
    pub fn trip_current(&self, shunt: MicroOhms) -> (current: Amperes)
        requires
            shunt.0 > 0,
        ensures
            current.0 == self.spec_trip_current(shunt),
    {
        Amperes((self.millivolts() as u32) * 1000 / shunt.0)
    }
}

/// Where each level stands in the two tables.
proof fn lemma_scd_codes(level: SCDThreshold)
    ensures
        level.representable(OCDSCDRange::Lower) <==> (match level {
            SCDThreshold::_22mV | SCDThreshold::_33mV | SCDThreshold::_44mV
            | SCDThreshold::_56mV | SCDThreshold::_67mV | SCDThreshold::_78mV
            | SCDThreshold::_89mV | SCDThreshold::_100mV => true,
            _ => false,
        }),
        level.representable(OCDSCDRange::Upper) <==> (match level {
            SCDThreshold::_44mV | SCDThreshold::_67mV | SCDThreshold::_89mV
            | SCDThreshold::_111mV | SCDThreshold::_133mV | SCDThreshold::_155mV
            | SCDThreshold::_178mV | SCDThreshold::_200mV => true,
            _ => false,
        }),
        !level.representable(OCDSCDRange::Unknown),
        level.spec_bits(OCDSCDRange::Lower) == (match level {
            SCDThreshold::_33mV => 1u8,
            SCDThreshold::_44mV => 2u8,
            SCDThreshold::_56mV => 3u8,
            SCDThreshold::_67mV => 4u8,
            SCDThreshold::_78mV => 5u8,
            SCDThreshold::_89mV => 6u8,
            SCDThreshold::_100mV => 7u8,
            _ => 0u8,
        }),
        level.spec_bits(OCDSCDRange::Upper) == (match level {
            SCDThreshold::_67mV => 1u8,
            SCDThreshold::_89mV => 2u8,
            SCDThreshold::_111mV => 3u8,
            SCDThreshold::_133mV => 4u8,
            SCDThreshold::_155mV => 5u8,
            SCDThreshold::_178mV => 6u8,
            SCDThreshold::_200mV => 7u8,
            _ => 0u8,
        }),
{
    let lower = SCDThreshold::table(OCDSCDRange::Lower);
    let upper = SCDThreshold::table(OCDSCDRange::Upper);
    let mv = level.spec_millivolts();
    match level {
        SCDThreshold::_22mV => {
            assert(lower[0] == mv);
        },
        SCDThreshold::_33mV => {
            assert(lower[1] == mv);
        },
        SCDThreshold::_44mV => {
            assert(lower[2] == mv);
            assert(upper[0] == mv);
        },
        SCDThreshold::_56mV => {
            assert(lower[3] == mv);
        },
        SCDThreshold::_67mV => {
            assert(lower[4] == mv);
            assert(upper[1] == mv);
        },
        SCDThreshold::_78mV => {
            assert(lower[5] == mv);
        },
        SCDThreshold::_89mV => {
            assert(lower[6] == mv);
            assert(upper[2] == mv);
        },
        SCDThreshold::_100mV => {
            assert(lower[7] == mv);
        },
        SCDThreshold::_111mV => {
            assert(upper[3] == mv);
        },
        SCDThreshold::_133mV => {
            assert(upper[4] == mv);
        },
        SCDThreshold::_155mV => {
            assert(upper[5] == mv);
        },
        SCDThreshold::_178mV => {
            assert(upper[6] == mv);
        },
        SCDThreshold::_200mV => {
            assert(upper[7] == mv);
        },
    }
    if level.representable(OCDSCDRange::Lower) {
        let i = lower.index_of(mv);
        assert(0 <= i < lower.len() && lower[i] == mv);
    }
    if level.representable(OCDSCDRange::Upper) {
        let i = upper.index_of(mv);
        assert(0 <= i < upper.len() && upper[i] == mv);
    }
}

proof fn lemma_scd_resolution(mv: int, level: SCDThreshold)
    requires
        SCDThreshold::resolves(mv, level),
    ensures
        level == SCDThreshold::spec_resolve(mv),
{
    law_scd_resolution_is_unique(mv, level, SCDThreshold::spec_resolve(mv));
}

/// There is one level that a request resolves to: two levels that both
/// satisfy [`SCDThreshold::resolves`] for the same request are the same.
pub proof fn law_scd_resolution_is_unique(mv: int, a: SCDThreshold, b: SCDThreshold)
    requires
        SCDThreshold::resolves(mv, a),
        SCDThreshold::resolves(mv, b),
    ensures
        a == b,
{
    assert(SCDThreshold::_200mV.spec_millivolts() == 200);
    assert(a.spec_millivolts() == b.spec_millivolts());
}

/// A trip level of the over-current comparator, named by the voltage across
/// the sense resistor at which it trips.
#[allow(non_camel_case_types)]
#[derive(Debug, PartialEq, Eq, Clone, Copy, Structural)]
pub enum OCDThreshold {
    _8mV,
    _11mV,
    _14mV,
    _17mV,
    _19mV,
    _22mV,
    _25mV,
    _28mV,
    _31mV,
    _33mV,
    _36mV,
    _39mV,
    _42mV,
    _44mV,
    _47mV,
    _50mV,
    _56mV,
    _61mV,
    _67mV,
    _72mV,
    _78mV,
    _83mV,
    _89mV,
    _94mV,
    _100mV,
}

impl OCDThreshold {
    /// The voltage in millivolts that the level stands for.
    pub open spec fn spec_millivolts(self) -> int {
        match self {
            OCDThreshold::_8mV => 8,
            OCDThreshold::_11mV => 11,
            OCDThreshold::_14mV => 14,
            OCDThreshold::_17mV => 17,
            OCDThreshold::_19mV => 19,
            OCDThreshold::_22mV => 22,
            OCDThreshold::_25mV => 25,
            OCDThreshold::_28mV => 28,
            OCDThreshold::_31mV => 31,
            OCDThreshold::_33mV => 33,
            OCDThreshold::_36mV => 36,
            OCDThreshold::_39mV => 39,
            OCDThreshold::_42mV => 42,
            OCDThreshold::_44mV => 44,
            OCDThreshold::_47mV => 47,
            OCDThreshold::_50mV => 50,
            OCDThreshold::_56mV => 56,
            OCDThreshold::_61mV => 61,
            OCDThreshold::_67mV => 67,
            OCDThreshold::_72mV => 72,
            OCDThreshold::_78mV => 78,
            OCDThreshold::_83mV => 83,
            OCDThreshold::_89mV => 89,
            OCDThreshold::_94mV => 94,
            OCDThreshold::_100mV => 100,
        }
    }

    /// The register table of a sense range: the voltages that the range
    /// can be set to, in the order of their register codes. The codes of
    /// one range mean nothing in the other.
    pub open spec fn table(range: OCDSCDRange) -> Seq<int> {
        match range {
            OCDSCDRange::Lower => seq![
                8, 11, 14, 17, 19, 22, 25, 28, 31, 33, 36, 39, 42, 44, 47, 50,
            ],
            OCDSCDRange::Upper => seq![
                17, 22, 28, 33, 39, 44, 50, 56, 61, 67, 72, 78, 83, 89, 94, 100,
            ],
            OCDSCDRange::Unknown => Seq::empty(),
        }
    }

    /// The level has a register code in `range`: its voltage stands in
    /// the table of the range.
    pub open spec fn representable(self, range: OCDSCDRange) -> bool {
        Self::table(range).contains(self.spec_millivolts())
    }

    /// The sense range that the level belongs to: `Unknown` for a level
    /// that stands in both tables, else the one range that has it.
    pub open spec fn spec_range(self) -> OCDSCDRange {
        if self.representable(OCDSCDRange::Lower) && self.representable(OCDSCDRange::Upper) {
            OCDSCDRange::Unknown
        } else if self.representable(OCDSCDRange::Upper) {
            OCDSCDRange::Upper
        } else {
            OCDSCDRange::Lower
        }
    }

    /// The register code of the level in `range`: its place in the table
    /// of the range, and 0 for a level that the range cannot represent.
    pub open spec fn spec_bits(self, range: OCDSCDRange) -> u8 {
        if self.representable(range) {
            Self::table(range).index_of(self.spec_millivolts()) as u8
        } else {
            0
        }
    }

    /// The current at which a comparator set to this level trips with the
    /// given sense resistor, in whole amperes.
    pub open spec fn spec_trip_current(self, shunt: MicroOhms) -> int {
        self.spec_millivolts() * 1000 / (shunt.0 as int)
    }

    /// `level` is what a request of `mv` millivolts resolves to: the lowest
    /// level that is not below the request, or the highest level there is
    /// when the request lies above them all.
    pub open spec fn resolves(mv: int, level: OCDThreshold) -> bool {
        &&& forall|t: OCDThreshold| #[trigger]
            t.spec_millivolts() >= mv ==> level.spec_millivolts() <= t.spec_millivolts()
        &&& (level.spec_millivolts() >= mv || level == OCDThreshold::_100mV)
    }

    /// The level that a request of `mv` millivolts resolves to: the one
    /// level for which [`Self::resolves`] holds.
    pub open spec fn spec_resolve(mv: int) -> OCDThreshold {
        choose|level: OCDThreshold| Self::resolves(mv, level)
    }

    /// The voltage in millivolts that the level stands for.
    pub fn millivolts(&self) -> (mv: u8)
        ensures
            mv as int == self.spec_millivolts(),
    {
        match self {
            OCDThreshold::_8mV => 8,
            OCDThreshold::_11mV => 11,
            OCDThreshold::_14mV => 14,
            OCDThreshold::_17mV => 17,
            OCDThreshold::_19mV => 19,
            OCDThreshold::_22mV => 22,
            OCDThreshold::_25mV => 25,
            OCDThreshold::_28mV => 28,
            OCDThreshold::_31mV => 31,
            OCDThreshold::_33mV => 33,
            OCDThreshold::_36mV => 36,
            OCDThreshold::_39mV => 39,
            OCDThreshold::_42mV => 42,
            OCDThreshold::_44mV => 44,
            OCDThreshold::_47mV => 47,
            OCDThreshold::_50mV => 50,
            OCDThreshold::_56mV => 56,
            OCDThreshold::_61mV => 61,
            OCDThreshold::_67mV => 67,
            OCDThreshold::_72mV => 72,
            OCDThreshold::_78mV => 78,
            OCDThreshold::_83mV => 83,
            OCDThreshold::_89mV => 89,
            OCDThreshold::_94mV => 94,
            OCDThreshold::_100mV => 100,
        }
    }

    /// Classifies the level: `Lower` or `Upper` when only that range can
    /// represent it, `Unknown` when both can.
    pub fn range(&self) -> (r: OCDSCDRange)
        ensures
            r == self.spec_range(),
    {
        proof {
            lemma_ocd_codes(*self);
        }
        match self {
            OCDThreshold::_17mV | OCDThreshold::_22mV | OCDThreshold::_28mV
            | OCDThreshold::_33mV | OCDThreshold::_39mV | OCDThreshold::_44mV
            | OCDThreshold::_50mV => OCDSCDRange::Unknown,
            OCDThreshold::_56mV | OCDThreshold::_61mV | OCDThreshold::_67mV
            | OCDThreshold::_72mV | OCDThreshold::_78mV | OCDThreshold::_83mV
            | OCDThreshold::_89mV | OCDThreshold::_94mV | OCDThreshold::_100mV
            => OCDSCDRange::Upper,
            _ => OCDSCDRange::Lower,
        }
    }

    /// The register code of the level in `range`.
    ///
    /// For a level that `range` can represent this is its place in the
    /// table of the range; for any other level it is 0. `Unknown` has no
    /// table and represents no level.
    pub fn bits(&self, range: OCDSCDRange) -> (code: u8)
        ensures
            code == self.spec_bits(range),
            code < 16,
            self.representable(range) ==> Self::table(range)[code as int]
                == self.spec_millivolts(),
    {
        proof {
            lemma_ocd_codes(*self);
        }
        match range {
            OCDSCDRange::Lower => match self {
                OCDThreshold::_8mV => 0x0,
                OCDThreshold::_11mV => 0x1,
                OCDThreshold::_14mV => 0x2,
                OCDThreshold::_17mV => 0x3,
                OCDThreshold::_19mV => 0x4,
                OCDThreshold::_22mV => 0x5,
                OCDThreshold::_25mV => 0x6,
                OCDThreshold::_28mV => 0x7,
                OCDThreshold::_31mV => 0x8,
                OCDThreshold::_33mV => 0x9,
                OCDThreshold::_36mV => 0xa,
                OCDThreshold::_39mV => 0xb,
                OCDThreshold::_42mV => 0xc,
                OCDThreshold::_44mV => 0xd,
                OCDThreshold::_47mV => 0xe,
                OCDThreshold::_50mV => 0xf,
                _ => 0x0,
            },
            OCDSCDRange::Upper => match self {
                OCDThreshold::_17mV => 0x0,
                OCDThreshold::_22mV => 0x1,
                OCDThreshold::_28mV => 0x2,
                OCDThreshold::_33mV => 0x3,
                OCDThreshold::_39mV => 0x4,
                OCDThreshold::_44mV => 0x5,
                OCDThreshold::_50mV => 0x6,
                OCDThreshold::_56mV => 0x7,
                OCDThreshold::_61mV => 0x8,
                OCDThreshold::_67mV => 0x9,
                OCDThreshold::_72mV => 0xa,
                OCDThreshold::_78mV => 0xb,
                OCDThreshold::_83mV => 0xc,
                OCDThreshold::_89mV => 0xd,
                OCDThreshold::_94mV => 0xe,
                OCDThreshold::_100mV => 0xf,
                _ => 0x0,
            },
            OCDSCDRange::Unknown => 0x0,
        }
    }

    /// Resolves a requested voltage drop to a level, rounding up: the
    /// result is the lowest level not below `mv_threshold`, and `_100mV`
    /// for a request above every level.
    pub fn from_mv(mv_threshold: u8) -> (level: Self)
        ensures
            Self::resolves(mv_threshold as int, level),
            level == Self::spec_resolve(mv_threshold as int),
            mv_threshold < 8 ==> level == OCDThreshold::_8mV,
            mv_threshold > 100 ==> level == OCDThreshold::_100mV,
            forall|t: OCDThreshold| #[trigger] t.spec_millivolts() == mv_threshold ==> level == t,
    {
        let level = if mv_threshold <= 8 {
            OCDThreshold::_8mV
        } else if mv_threshold <= 11 {
            OCDThreshold::_11mV
        } else if mv_threshold <= 14 {
            OCDThreshold::_14mV
        } else if mv_threshold <= 17 {
            OCDThreshold::_17mV
        } else if mv_threshold <= 19 {
            OCDThreshold::_19mV
        } else if mv_threshold <= 22 {
            OCDThreshold::_22mV
        } else if mv_threshold <= 25 {
            OCDThreshold::_25mV
        } else if mv_threshold <= 28 {
            OCDThreshold::_28mV
        } else if mv_threshold <= 31 {
            OCDThreshold::_31mV
        } else if mv_threshold <= 33 {
            OCDThreshold::_33mV
        } else if mv_threshold <= 36 {
            OCDThreshold::_36mV
        } else if mv_threshold <= 39 {
            OCDThreshold::_39mV
        } else if mv_threshold <= 42 {
            OCDThreshold::_42mV
        } else if mv_threshold <= 44 {
            OCDThreshold::_44mV
        } else if mv_threshold <= 47 {
            OCDThreshold::_47mV
        } else if mv_threshold <= 50 {
            OCDThreshold::_50mV
        } else if mv_threshold <= 56 {
            OCDThreshold::_56mV
        } else if mv_threshold <= 61 {
            OCDThreshold::_61mV
        } else if mv_threshold <= 67 {
            OCDThreshold::_67mV
        } else if mv_threshold <= 72 {
            OCDThreshold::_72mV
        } else if mv_threshold <= 78 {
            OCDThreshold::_78mV
        } else if mv_threshold <= 83 {
            OCDThreshold::_83mV
        } else if mv_threshold <= 89 {
            OCDThreshold::_89mV
        } else if mv_threshold <= 94 {
            OCDThreshold::_94mV
        } else {
            OCDThreshold::_100mV
        };
        proof {
            assert(Self::resolves(mv_threshold as int, level));
            lemma_ocd_resolution(mv_threshold as int, level);
        }
        level
    }

    /// Resolves a requested trip current to a level: the current is turned
    /// into the voltage drop over `shunt`, in whole millivolts, and that
    /// voltage is resolved as [`Self::from_mv`] does. A request below every
    /// level gives the lowest level, a request above every level the
    /// highest, and a request that is a level gives that level.
    pub fn from_current(threshold: Amperes, shunt: MicroOhms) -> (level: Self)
        ensures
            Self::resolves(sense_millivolts(threshold, shunt), level),
            level == Self::spec_resolve(sense_millivolts(threshold, shunt)),
            sense_millivolts(threshold, shunt) < 8 ==> level == OCDThreshold::_8mV,
            sense_millivolts(threshold, shunt) > 100 ==> level == OCDThreshold::_100mV,
            forall|t: OCDThreshold| #[trigger]
                t.spec_millivolts() == sense_millivolts(threshold, shunt) ==> level == t,
    {
        let mv = sense_voltage(threshold, shunt);
        let level = if mv > 255 {
            OCDThreshold::_100mV
        } else {
            Self::from_mv(mv as u8)
        };
        proof {
            assert(Self::resolves(mv as int, level));
            lemma_ocd_resolution(mv as int, level);
        }
        level
    }

    /// The current at which a comparator set to this level trips with the
    /// given sense resistor: the level's voltage over the resistance, in
    /// whole amperes.
    pub fn trip_current(&self, shunt: MicroOhms) -> (current: Amperes)
        requires
            shunt.0 > 0,
        ensures
            current.0 == self.spec_trip_current(shunt),
    {
        Amperes((self.millivolts() as u32) * 1000 / shunt.0)
    }
}

/// Where each level stands in the two tables.
proof fn lemma_ocd_codes(level: OCDThreshold)
    ensures
        level.representable(OCDSCDRange::Lower) <==> (match level {
            OCDThreshold::_8mV | OCDThreshold::_11mV | OCDThreshold::_14mV | OCDThreshold::_17mV
            | OCDThreshold::_19mV | OCDThreshold::_22mV | OCDThreshold::_25mV
            | OCDThreshold::_28mV | OCDThreshold::_31mV | OCDThreshold::_33mV
            | OCDThreshold::_36mV | OCDThreshold::_39mV | OCDThreshold::_42mV
            | OCDThreshold::_44mV | OCDThreshold::_47mV | OCDThreshold::_50mV => true,
            _ => false,
        }),
        level.representable(OCDSCDRange::Upper) <==> (match level {
            OCDThreshold::_17mV | OCDThreshold::_22mV | OCDThreshold::_28mV
            | OCDThreshold::_33mV | OCDThreshold::_39mV | OCDThreshold::_44mV
            | OCDThreshold::_50mV | OCDThreshold::_56mV | OCDThreshold::_61mV
            | OCDThreshold::_67mV | OCDThreshold::_72mV | OCDThreshold::_78mV
            | OCDThreshold::_83mV | OCDThreshold::_89mV | OCDThreshold::_94mV
            | OCDThreshold::_100mV => true,
            _ => false,
        }),
        !level.representable(OCDSCDRange::Unknown),
        level.spec_bits(OCDSCDRange::Lower) == (match level {
            OCDThreshold::_11mV => 1u8,
            OCDThreshold::_14mV => 2u8,
            OCDThreshold::_17mV => 3u8,
            OCDThreshold::_19mV => 4u8,
            OCDThreshold::_22mV => 5u8,
            OCDThreshold::_25mV => 6u8,
            OCDThreshold::_28mV => 7u8,
            OCDThreshold::_31mV => 8u8,
            OCDThreshold::_33mV => 9u8,
            OCDThreshold::_36mV => 10u8,
            OCDThreshold::_39mV => 11u8,
            OCDThreshold::_42mV => 12u8,
            OCDThreshold::_44mV => 13u8,
            OCDThreshold::_47mV => 14u8,
            OCDThreshold::_50mV => 15u8,
            _ => 0u8,
        }),
        level.spec_bits(OCDSCDRange::Upper) == (match level {
            OCDThreshold::_22mV => 1u8,
            OCDThreshold::_28mV => 2u8,
            OCDThreshold::_33mV => 3u8,
            OCDThreshold::_39mV => 4u8,
            OCDThreshold::_44mV => 5u8,
            OCDThreshold::_50mV => 6u8,
            OCDThreshold::_56mV => 7u8,
            OCDThreshold::_61mV => 8u8,
            OCDThreshold::_67mV => 9u8,
            OCDThreshold::_72mV => 10u8,
            OCDThreshold::_78mV => 11u8,
            OCDThreshold::_83mV => 12u8,
            OCDThreshold::_89mV => 13u8,
            OCDThreshold::_94mV => 14u8,
            OCDThreshold::_100mV => 15u8,
            _ => 0u8,
        }),
{
    let lower = OCDThreshold::table(OCDSCDRange::Lower);
    let upper = OCDThreshold::table(OCDSCDRange::Upper);
    let mv = level.spec_millivolts();
    match level {
        OCDThreshold::_8mV => {
            assert(lower[0] == mv);
        },
        OCDThreshold::_11mV => {
            assert(lower[1] == mv);
        },
        OCDThreshold::_14mV => {
            assert(lower[2] == mv);
        },
        OCDThreshold::_17mV => {
            assert(lower[3] == mv);
            assert(upper[0] == mv);
        },
        OCDThreshold::_19mV => {
            assert(lower[4] == mv);
        },
        OCDThreshold::_22mV => {
            assert(lower[5] == mv);
            assert(upper[1] == mv);
        },
        OCDThreshold::_25mV => {
            assert(lower[6] == mv);
        },
        OCDThreshold::_28mV => {
            assert(lower[7] == mv);
            assert(upper[2] == mv);
        },
        OCDThreshold::_31mV => {
            assert(lower[8] == mv);
        },
        OCDThreshold::_33mV => {
            assert(lower[9] == mv);
            assert(upper[3] == mv);
        },
        OCDThreshold::_36mV => {
            assert(lower[10] == mv);
        },
        OCDThreshold::_39mV => {
            assert(lower[11] == mv);
            assert(upper[4] == mv);
        },
        OCDThreshold::_42mV => {
            assert(lower[12] == mv);
        },
        OCDThreshold::_44mV => {
            assert(lower[13] == mv);
            assert(upper[5] == mv);
        },
        OCDThreshold::_47mV => {
            assert(lower[14] == mv);
        },
        OCDThreshold::_50mV => {
            assert(lower[15] == mv);
            assert(upper[6] == mv);
        },
        OCDThreshold::_56mV => {
            assert(upper[7] == mv);
        },
        OCDThreshold::_61mV => {
            assert(upper[8] == mv);
        },
        OCDThreshold::_67mV => {
            assert(upper[9] == mv);
        },
        OCDThreshold::_72mV => {
            assert(upper[10] == mv);
        },
        OCDThreshold::_78mV => {
            assert(upper[11] == mv);
        },
        OCDThreshold::_83mV => {
            assert(upper[12] == mv);
        },
        OCDThreshold::_89mV => {
            assert(upper[13] == mv);
        },
        OCDThreshold::_94mV => {
            assert(upper[14] == mv);
        },
        OCDThreshold::_100mV => {
            assert(upper[15] == mv);
        },
    }
    if level.representable(OCDSCDRange::Lower) {
        let i = lower.index_of(mv);
        assert(0 <= i < lower.len() && lower[i] == mv);
    }
    if level.representable(OCDSCDRange::Upper) {
        let i = upper.index_of(mv);
        assert(0 <= i < upper.len() && upper[i] == mv);
    }
}

proof fn lemma_ocd_resolution(mv: int, level: OCDThreshold)
    requires
        OCDThreshold::resolves(mv, level),
    ensures
        level == OCDThreshold::spec_resolve(mv),
{
    law_ocd_resolution_is_unique(mv, level, OCDThreshold::spec_resolve(mv));
}

/// There is one level that a request resolves to: two levels that both
/// satisfy [`OCDThreshold::resolves`] for the same request are the same.
pub proof fn law_ocd_resolution_is_unique(mv: int, a: OCDThreshold, b: OCDThreshold)
    requires
        OCDThreshold::resolves(mv, a),
        OCDThreshold::resolves(mv, b),
    ensures
        a == b,
{
    assert(OCDThreshold::_100mV.spec_millivolts() == 100);
    assert(a.spec_millivolts() == b.spec_millivolts());
}

/// Register codes fit their fields: three bits for a short-circuit level,
/// four bits for an over-current level.
pub proof fn law_codes_fit_their_fields(scd: SCDThreshold, ocd: OCDThreshold, range: OCDSCDRange)
    ensures
        scd.spec_bits(range) < 8,
        ocd.spec_bits(range) < 16,
{
    lemma_scd_codes(scd);
    lemma_ocd_codes(ocd);
}

/// Reconciling the ranges of two levels fails exactly when no range has a
/// register code for both, which is when one level stands only in the
/// lower table and the other only in the upper one. In every other case,
/// and so whenever either level is `Unknown`, the resolved range is
/// concrete and has a register code for both levels.
pub proof fn law_reconciled_range_serves_both(scd: SCDThreshold, ocd: OCDThreshold)
    ensures
        OCDSCDRange::conflict(scd.spec_range(), ocd.spec_range()) <==> !(exists|
            range: OCDSCDRange,
        | #[trigger]
            scd.representable(range) && ocd.representable(range)),
        (scd.spec_range() == OCDSCDRange::Unknown || ocd.spec_range() == OCDSCDRange::Unknown)
            ==> !OCDSCDRange::conflict(scd.spec_range(), ocd.spec_range()),
        !OCDSCDRange::conflict(scd.spec_range(), ocd.spec_range()) ==> {
            let range = OCDSCDRange::resolved(scd.spec_range(), ocd.spec_range());
            &&& range != OCDSCDRange::Unknown
            &&& scd.representable(range)
            &&& ocd.representable(range)
            &&& SCDThreshold::table(range)[scd.spec_bits(range) as int] == scd.spec_millivolts()
            &&& OCDThreshold::table(range)[ocd.spec_bits(range) as int] == ocd.spec_millivolts()
        },
{
    lemma_scd_codes(scd);
    lemma_ocd_codes(ocd);
    if !OCDSCDRange::conflict(scd.spec_range(), ocd.spec_range()) {
        let range = OCDSCDRange::resolved(scd.spec_range(), ocd.spec_range());
        assert(scd.representable(range) && ocd.representable(range));
    }
}

} // verus!
