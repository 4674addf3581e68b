use sim_modem::BitErrorRate;
use sim_modem::RSSI;

#[test]
fn rssi_named_buckets() {
    assert_eq!(RSSI::parse(0), RSSI::DBMLT113);
    assert_eq!(RSSI::parse(1), RSSI::DBM111);
    assert_eq!(RSSI::parse(31), RSSI::DBMGT51);
    assert_eq!(RSSI::parse(99), RSSI::Unknown);
    assert_eq!(RSSI::parse(100), RSSI::DBMLT116);
    assert_eq!(RSSI::parse(101), RSSI::DBM115);
}

#[test]
fn rssi_low_band_linear_map() {
    assert_eq!(RSSI::parse(2), RSSI::DBM109_53(-109));
    assert_eq!(RSSI::parse(16), RSSI::DBM109_53(-81));
    assert_eq!(RSSI::parse(30), RSSI::DBM109_53(-53));
}

#[test]
fn rssi_high_band_truncated_map() {
    assert_eq!(RSSI::parse(102), RSSI::DBM114_26(-114));
    assert_eq!(RSSI::parse(150), RSSI::DBM114_26(-66));
    assert_eq!(RSSI::parse(191), RSSI::DBM114_26(-25));
}

#[test]
fn rssi_total_over_out_of_range_codes() {
    assert_eq!(RSSI::parse(32), RSSI::Unknown);
    assert_eq!(RSSI::parse(98), RSSI::Unknown);
    assert_eq!(RSSI::parse(192), RSSI::Unknown);
    assert_eq!(RSSI::parse(500), RSSI::Unknown);
    assert_eq!(RSSI::parse(-1), RSSI::Unknown);
    assert_eq!(RSSI::parse(i32::MIN), RSSI::Unknown);
    assert_eq!(RSSI::parse(i32::MAX), RSSI::Unknown);
}

#[test]
fn ber_table() {
    assert_eq!(BitErrorRate::from(0), BitErrorRate::LT001);
    assert_eq!(BitErrorRate::from(1), BitErrorRate::LT01);
    assert_eq!(BitErrorRate::from(2), BitErrorRate::LT05);
    assert_eq!(BitErrorRate::from(3), BitErrorRate::LT1);
    assert_eq!(BitErrorRate::from(4), BitErrorRate::LT2);
    assert_eq!(BitErrorRate::from(5), BitErrorRate::LT4);
    assert_eq!(BitErrorRate::from(6), BitErrorRate::LT8);
    assert_eq!(BitErrorRate::from(7), BitErrorRate::GT8);
}

#[test]
fn ber_out_of_table_is_unknown() {
    assert_eq!(BitErrorRate::from(8), BitErrorRate::Unknown);
    assert_eq!(BitErrorRate::from(99), BitErrorRate::Unknown);
    assert_eq!(BitErrorRate::from(-3), BitErrorRate::Unknown);
}

#[test]
fn ber_band_text() {
    assert_eq!(BitErrorRate::from(7).describe(), ">= 8%");
    assert_eq!(BitErrorRate::from(8).describe(), "Unknown");
    assert_eq!(BitErrorRate::from(0).describe(), "< 0.01%");
    assert_eq!(BitErrorRate::from(4).describe(), "1% - 2%");
}
