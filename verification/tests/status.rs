use bq769x0::{Amperes, DegreesCentigrade, MilliAmperes, MilliVolts, Stat, SysStat};

#[test]
fn each_status_bit_has_its_accessor() {
    let cases: [(u8, [bool; 7]); 8] = [
        (0x00, [false, false, false, false, false, false, false]),
        (0x80, [true, false, false, false, false, false, false]),
        (0x20, [false, true, false, false, false, false, false]),
        (0x10, [false, false, true, false, false, false, false]),
        (0x08, [false, false, false, true, false, false, false]),
        (0x04, [false, false, false, false, true, false, false]),
        (0x02, [false, false, false, false, false, true, false]),
        (0x01, [false, false, false, false, false, false, true]),
    ];
    for (bits, expected) in cases {
        let stat = Stat::from_bits(bits);
        assert_eq!(
            [
                stat.cc_ready_is_set(),
                stat.device_xready_is_set(),
                stat.ovrd_alert_is_set(),
                stat.undervoltage_is_set(),
                stat.overvoltage_is_set(),
                stat.scd_is_set(),
                stat.ocd_is_set(),
            ],
            expected
        );
    }
}

#[test]
fn unused_status_bit_sets_nothing() {
    let stat = Stat::from_bits(0x40);
    assert!(!stat.cc_ready_is_set());
    assert!(!stat.device_xready_is_set());
    assert!(stat.is_ok());
    assert_eq!(stat.to_text(), "()");
}

#[test]
fn status_is_ok_without_fault_bits() {
    assert!(Stat::from_bits(0x00).is_ok());
    assert!(Stat::from_bits(0x80).is_ok());
    assert!(Stat::from_bits(0xc0).is_ok());
    for bit in 0..6 {
        assert!(!Stat::from_bits(1 << bit).is_ok());
        assert!(!Stat::from_bits(0x80 | (1 << bit)).is_ok());
    }
}

#[test]
fn status_text_names_the_set_bits() {
    assert_eq!(Stat::from_bits(0x00).to_text(), "()");
    assert_eq!(Stat::from_bits(0x80).to_text(), "(CC_READY, )");
    assert_eq!(Stat::from_bits(0x03).to_text(), "(SCD, OCD, )");
    assert_eq!(Stat::from_bits(0x0c).to_text(), "(UV, OV, )");
    assert_eq!(
        Stat::from_bits(0xff).to_text(),
        "(CC_READY, XREADY, ALERT, UV, OV, SCD, OCD, )"
    );
}

#[test]
fn status_flag_sets() {
    assert_eq!(SysStat::all().bits(), 0b1011_1111);
    assert_eq!(SysStat::empty().bits(), 0);
    assert_eq!(SysStat::from_bits_truncate(0xff).bits(), 0xbf);
    assert_eq!(SysStat::from_bits_truncate(0x40).bits(), 0x00);
    let scd = SysStat::from_bits_truncate(bq769x0::status::SHORTCIRCUIT);
    let ocd = SysStat::from_bits_truncate(bq769x0::status::OVERCURRENT);
    assert_eq!(scd.union(ocd).bits(), 0x03);
    assert!(scd.union(ocd).contains(scd));
    assert!(!scd.contains(ocd));
    assert!(SysStat::all().contains(scd.union(ocd)));
}

#[test]
fn quantities_as_text() {
    assert_eq!(Amperes(199).to_text(), "199A");
    assert_eq!(MilliAmperes(-3239).to_text(), "-3239mA");
    assert_eq!(MilliVolts(4176).to_text(), "4176mV");
    assert_eq!(DegreesCentigrade(-5).to_text(), "-5degC");
    assert_eq!(Amperes(0).to_text(), "0A");
}

#[test]
fn millivolts_subtract_and_order() {
    assert_eq!(MilliVolts(4176) - MilliVolts(1996), MilliVolts(2180));
    assert_eq!(MilliVolts(5) - MilliVolts(5), MilliVolts(0));
    assert!(MilliVolts(1996) < MilliVolts(4176));
    assert!(DegreesCentigrade(-1) < DegreesCentigrade(0));
    assert_eq!(MilliVolts(7).max(MilliVolts(9)), MilliVolts(9));
}
