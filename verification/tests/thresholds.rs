use bq769x0::{
    Amperes, Error, MicroOhms, OCDDelay, OCDSCDRange, OCDThreshold, OVDelay, SCDDelay,
    SCDThreshold, UVDelay,
};

const SCD_LEVELS: [(u8, SCDThreshold); 13] = [
    (22, SCDThreshold::_22mV),
    (33, SCDThreshold::_33mV),
    (44, SCDThreshold::_44mV),
    (56, SCDThreshold::_56mV),
    (67, SCDThreshold::_67mV),
    (78, SCDThreshold::_78mV),
    (89, SCDThreshold::_89mV),
    (100, SCDThreshold::_100mV),
    (111, SCDThreshold::_111mV),
    (133, SCDThreshold::_133mV),
    (155, SCDThreshold::_155mV),
    (178, SCDThreshold::_178mV),
    (200, SCDThreshold::_200mV),
];

const OCD_LEVELS: [(u8, OCDThreshold); 25] = [
    (8, OCDThreshold::_8mV),
    (11, OCDThreshold::_11mV),
    (14, OCDThreshold::_14mV),
    (17, OCDThreshold::_17mV),
    (19, OCDThreshold::_19mV),
    (22, OCDThreshold::_22mV),
    (25, OCDThreshold::_25mV),
    (28, OCDThreshold::_28mV),
    (31, OCDThreshold::_31mV),
    (33, OCDThreshold::_33mV),
    (36, OCDThreshold::_36mV),
    (39, OCDThreshold::_39mV),
    (42, OCDThreshold::_42mV),
    (44, OCDThreshold::_44mV),
    (47, OCDThreshold::_47mV),
    (50, OCDThreshold::_50mV),
    (56, OCDThreshold::_56mV),
    (61, OCDThreshold::_61mV),
    (67, OCDThreshold::_67mV),
    (72, OCDThreshold::_72mV),
    (78, OCDThreshold::_78mV),
    (83, OCDThreshold::_83mV),
    (89, OCDThreshold::_89mV),
    (94, OCDThreshold::_94mV),
    (100, OCDThreshold::_100mV),
];

const SCD_LOWER: [u8; 8] = [22, 33, 44, 56, 67, 78, 89, 100];
const SCD_UPPER: [u8; 8] = [44, 67, 89, 111, 133, 155, 178, 200];
const OCD_LOWER: [u8; 16] = [8, 11, 14, 17, 19, 22, 25, 28, 31, 33, 36, 39, 42, 44, 47, 50];
const OCD_UPPER: [u8; 16] = [17, 22, 28, 33, 39, 44, 50, 56, 61, 67, 72, 78, 83, 89, 94, 100];

#[test]
fn scd_millivolts_are_the_names() {
    for (mv, level) in SCD_LEVELS {
        assert_eq!(level.millivolts(), mv);
    }
}

#[test]
fn ocd_millivolts_are_the_names() {
    for (mv, level) in OCD_LEVELS {
        assert_eq!(level.millivolts(), mv);
    }
}

#[test]
fn scd_from_mv_rounds_up_to_the_next_level() {
    for mv in 0..=255u8 {
        let mut expected = SCDThreshold::_200mV;
        for (entry, level) in SCD_LEVELS.iter().rev() {
            if *entry >= mv {
                expected = *level;
            }
        }
        assert_eq!(SCDThreshold::from_mv(mv), expected);
    }
}

#[test]
fn ocd_from_mv_rounds_up_to_the_next_level() {
    for mv in 0..=255u8 {
        let mut expected = OCDThreshold::_100mV;
        for (entry, level) in OCD_LEVELS.iter().rev() {
            if *entry >= mv {
                expected = *level;
            }
        }
        assert_eq!(OCDThreshold::from_mv(mv), expected);
    }
}

#[test]
fn scd_rounding_examples() {
    assert_eq!(SCDThreshold::from_mv(23), SCDThreshold::_33mV);
    assert_eq!(SCDThreshold::from_mv(101), SCDThreshold::_111mV);
    assert_eq!(SCDThreshold::from_mv(134), SCDThreshold::_155mV);
    assert_eq!(SCDThreshold::from_mv(199), SCDThreshold::_200mV);
}

#[test]
fn ocd_rounding_examples() {
    assert_eq!(OCDThreshold::from_mv(9), OCDThreshold::_11mV);
    assert_eq!(OCDThreshold::from_mv(51), OCDThreshold::_56mV);
    assert_eq!(OCDThreshold::from_mv(66), OCDThreshold::_67mV);
    assert_eq!(OCDThreshold::from_mv(99), OCDThreshold::_100mV);
}

#[test]
fn requests_below_the_table_clamp_to_the_lowest_level() {
    assert_eq!(SCDThreshold::from_mv(0), SCDThreshold::_22mV);
    assert_eq!(SCDThreshold::from_mv(21), SCDThreshold::_22mV);
    assert_eq!(OCDThreshold::from_mv(0), OCDThreshold::_8mV);
    assert_eq!(OCDThreshold::from_mv(7), OCDThreshold::_8mV);
    assert_eq!(SCDThreshold::from_current(Amperes(0), MicroOhms(667)), SCDThreshold::_22mV);
    assert_eq!(SCDThreshold::from_current(Amperes(21), MicroOhms(1000)), SCDThreshold::_22mV);
    assert_eq!(OCDThreshold::from_current(Amperes(5), MicroOhms(0)), OCDThreshold::_8mV);
    assert_eq!(OCDThreshold::from_current(Amperes(7), MicroOhms(1000)), OCDThreshold::_8mV);
}

#[test]
fn requests_above_the_table_clamp_to_the_highest_level() {
    assert_eq!(SCDThreshold::from_mv(201), SCDThreshold::_200mV);
    assert_eq!(SCDThreshold::from_mv(255), SCDThreshold::_200mV);
    assert_eq!(OCDThreshold::from_mv(101), OCDThreshold::_100mV);
    assert_eq!(OCDThreshold::from_mv(255), OCDThreshold::_100mV);
    assert_eq!(SCDThreshold::from_current(Amperes(201), MicroOhms(1000)), SCDThreshold::_200mV);
    assert_eq!(OCDThreshold::from_current(Amperes(101), MicroOhms(1000)), OCDThreshold::_100mV);
}

#[test]
fn large_voltage_drops_clamp_and_do_not_wrap() {
    // 300 mV and 264 mV would read as 44 mV and 8 mV if cut to eight bits.
    assert_eq!(SCDThreshold::from_current(Amperes(300), MicroOhms(1000)), SCDThreshold::_200mV);
    assert_eq!(OCDThreshold::from_current(Amperes(264), MicroOhms(1000)), OCDThreshold::_100mV);
    assert_eq!(SCDThreshold::from_current(Amperes(256), MicroOhms(1000)), SCDThreshold::_200mV);
    assert_eq!(
        SCDThreshold::from_current(Amperes(u32::MAX), MicroOhms(u32::MAX)),
        SCDThreshold::_200mV
    );
    assert_eq!(
        OCDThreshold::from_current(Amperes(u32::MAX), MicroOhms(u32::MAX)),
        OCDThreshold::_100mV
    );
}

#[test]
fn requests_that_match_a_level_are_not_rounded() {
    for (mv, level) in SCD_LEVELS {
        assert_eq!(SCDThreshold::from_mv(mv), level);
        assert_eq!(SCDThreshold::from_current(Amperes(mv as u32), MicroOhms(1000)), level);
    }
    for (mv, level) in OCD_LEVELS {
        assert_eq!(OCDThreshold::from_mv(mv), level);
        assert_eq!(OCDThreshold::from_current(Amperes(mv as u32), MicroOhms(1000)), level);
    }
}

#[test]
fn voltage_drop_is_cut_to_whole_millivolts() {
    // 200 A * 667 uOhm = 133.4 mV, 100 A * 667 uOhm = 66.7 mV.
    assert_eq!(SCDThreshold::from_current(Amperes(200), MicroOhms(667)), SCDThreshold::_133mV);
    assert_eq!(OCDThreshold::from_current(Amperes(100), MicroOhms(667)), OCDThreshold::_67mV);
    assert_eq!(bq769x0::protection::sense_voltage(Amperes(200), MicroOhms(667)), 133);
    assert_eq!(bq769x0::protection::sense_voltage(Amperes(100), MicroOhms(667)), 66);
    assert_eq!(
        bq769x0::protection::sense_voltage(Amperes(u32::MAX), MicroOhms(u32::MAX)),
        18446744065119617
    );
}

#[test]
fn scd_range_follows_the_tables() {
    for (mv, level) in SCD_LEVELS {
        let expected = match (SCD_LOWER.contains(&mv), SCD_UPPER.contains(&mv)) {
            (true, true) => OCDSCDRange::Unknown,
            (false, true) => OCDSCDRange::Upper,
            _ => OCDSCDRange::Lower,
        };
        assert_eq!(level.range(), expected);
    }
    assert_eq!(SCDThreshold::_44mV.range(), OCDSCDRange::Unknown);
    assert_eq!(SCDThreshold::_22mV.range(), OCDSCDRange::Lower);
    assert_eq!(SCDThreshold::_133mV.range(), OCDSCDRange::Upper);
}

#[test]
fn ocd_range_follows_the_tables() {
    for (mv, level) in OCD_LEVELS {
        let expected = match (OCD_LOWER.contains(&mv), OCD_UPPER.contains(&mv)) {
            (true, true) => OCDSCDRange::Unknown,
            (false, true) => OCDSCDRange::Upper,
            _ => OCDSCDRange::Lower,
        };
        assert_eq!(level.range(), expected);
    }
    assert_eq!(OCDThreshold::_17mV.range(), OCDSCDRange::Unknown);
    assert_eq!(OCDThreshold::_8mV.range(), OCDSCDRange::Lower);
    assert_eq!(OCDThreshold::_67mV.range(), OCDSCDRange::Upper);
}

#[test]
fn scd_bits_are_the_position_in_the_range_table() {
    for (mv, level) in SCD_LEVELS {
        let lower = SCD_LOWER.iter().position(|e| *e == mv).unwrap_or(0) as u8;
        let upper = SCD_UPPER.iter().position(|e| *e == mv).unwrap_or(0) as u8;
        assert_eq!(level.bits(OCDSCDRange::Lower), lower);
        assert_eq!(level.bits(OCDSCDRange::Upper), upper);
    }
    assert_eq!(SCDThreshold::_44mV.bits(OCDSCDRange::Lower), 2);
    assert_eq!(SCDThreshold::_44mV.bits(OCDSCDRange::Upper), 0);
    assert_eq!(SCDThreshold::_133mV.bits(OCDSCDRange::Upper), 4);
    assert_eq!(SCDThreshold::_133mV.bits(OCDSCDRange::Lower), 0);
}

#[test]
fn ocd_bits_are_the_position_in_the_range_table() {
    for (mv, level) in OCD_LEVELS {
        let lower = OCD_LOWER.iter().position(|e| *e == mv).unwrap_or(0) as u8;
        let upper = OCD_UPPER.iter().position(|e| *e == mv).unwrap_or(0) as u8;
        assert_eq!(level.bits(OCDSCDRange::Lower), lower);
        assert_eq!(level.bits(OCDSCDRange::Upper), upper);
    }
    assert_eq!(OCDThreshold::_67mV.bits(OCDSCDRange::Upper), 0x9);
    assert_eq!(OCDThreshold::_50mV.bits(OCDSCDRange::Lower), 0xf);
    assert_eq!(OCDThreshold::_50mV.bits(OCDSCDRange::Upper), 0x6);
}

#[test]
fn range_select_bit() {
    assert_eq!(OCDSCDRange::Lower.bits(), 0x00);
    assert_eq!(OCDSCDRange::Upper.bits(), 0x80);
    assert_eq!(OCDSCDRange::Unknown.bits(), 0x00);
}

#[test]
fn unresolved_range_has_no_codes() {
    for (_, level) in SCD_LEVELS {
        assert_eq!(level.bits(OCDSCDRange::Unknown), 0);
    }
    for (_, level) in OCD_LEVELS {
        assert_eq!(level.bits(OCDSCDRange::Unknown), 0);
    }
}

#[test]
fn lower_only_and_upper_only_do_not_reconcile() {
    assert_eq!(
        OCDSCDRange::reconcile(OCDSCDRange::Lower, OCDSCDRange::Upper),
        Err(Error::OCDSCDRangeMismatch)
    );
    assert_eq!(
        OCDSCDRange::reconcile(OCDSCDRange::Upper, OCDSCDRange::Lower),
        Err(Error::OCDSCDRangeMismatch)
    );
}

#[test]
fn every_other_pair_of_ranges_reconciles() {
    let lower = OCDSCDRange::Lower;
    let upper = OCDSCDRange::Upper;
    let unknown = OCDSCDRange::Unknown;
    assert_eq!(OCDSCDRange::reconcile(lower, lower), Ok(lower));
    assert_eq!(OCDSCDRange::reconcile(upper, upper), Ok(upper));
    assert_eq!(OCDSCDRange::reconcile(unknown, unknown), Ok(lower));
    assert_eq!(OCDSCDRange::reconcile(unknown, lower), Ok(lower));
    assert_eq!(OCDSCDRange::reconcile(unknown, upper), Ok(upper));
    assert_eq!(OCDSCDRange::reconcile(lower, unknown), Ok(lower));
    assert_eq!(OCDSCDRange::reconcile(upper, unknown), Ok(upper));
}

#[test]
fn reconciled_range_has_a_code_for_both_levels() {
    for (scd_mv, scd) in SCD_LEVELS {
        for (ocd_mv, ocd) in OCD_LEVELS {
            match OCDSCDRange::reconcile(scd.range(), ocd.range()) {
                Ok(range) => {
                    assert_ne!(range, OCDSCDRange::Unknown);
                    let (scd_table, ocd_table) = if range == OCDSCDRange::Lower {
                        (SCD_LOWER, OCD_LOWER)
                    } else {
                        (SCD_UPPER, OCD_UPPER)
                    };
                    assert_eq!(scd_table[scd.bits(range) as usize], scd_mv);
                    assert_eq!(ocd_table[ocd.bits(range) as usize], ocd_mv);
                }
                Err(e) => {
                    assert_eq!(e, Error::OCDSCDRangeMismatch);
                    assert_ne!(scd.range(), OCDSCDRange::Unknown);
                    assert_ne!(ocd.range(), OCDSCDRange::Unknown);
                    assert_ne!(scd.range(), ocd.range());
                }
            }
        }
    }
}

#[test]
fn trip_current_is_level_over_shunt() {
    assert_eq!(SCDThreshold::_133mV.trip_current(MicroOhms(667)), Amperes(199));
    assert_eq!(OCDThreshold::_67mV.trip_current(MicroOhms(667)), Amperes(100));
    assert_eq!(SCDThreshold::_200mV.trip_current(MicroOhms(1)), Amperes(200_000));
    assert_eq!(OCDThreshold::_8mV.trip_current(MicroOhms(u32::MAX)), Amperes(0));
}

#[test]
fn delay_register_fields() {
    assert_eq!(SCDDelay::_70uS.bits(), 0 << 3);
    assert_eq!(SCDDelay::_100uS.bits(), 1 << 3);
    assert_eq!(SCDDelay::_200uS.bits(), 2 << 3);
    assert_eq!(SCDDelay::_400uS.bits(), 3 << 3);
    assert_eq!(OCDDelay::_8ms.bits(), 0 << 4);
    assert_eq!(OCDDelay::_20ms.bits(), 1 << 4);
    assert_eq!(OCDDelay::_40ms.bits(), 2 << 4);
    assert_eq!(OCDDelay::_80ms.bits(), 3 << 4);
    assert_eq!(OCDDelay::_160ms.bits(), 4 << 4);
    assert_eq!(OCDDelay::_320ms.bits(), 5 << 4);
    assert_eq!(OCDDelay::_640ms.bits(), 6 << 4);
    assert_eq!(OCDDelay::_1280ms.bits(), 7 << 4);
    assert_eq!(UVDelay::_1s.bits(), 0 << 6);
    assert_eq!(UVDelay::_4s.bits(), 1 << 6);
    assert_eq!(UVDelay::_8s.bits(), 2 << 6);
    assert_eq!(UVDelay::_16s.bits(), 3 << 6);
    assert_eq!(OVDelay::_1s.bits(), 0 << 4);
    assert_eq!(OVDelay::_4s.bits(), 1 << 4);
    assert_eq!(OVDelay::_8s.bits(), 2 << 4);
    assert_eq!(OVDelay::_16s.bits(), 3 << 4);
}
