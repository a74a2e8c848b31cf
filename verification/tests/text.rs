use tosca_controller::economy::{Cost, CostTimespan, Roi};
use tosca_controller::energy::{CarbonFootprint, EnergyClass, EnergyEfficiency};
use tosca_controller::parse::{get_interface_type, parse_unsigned, read_mac};
use tosca_controller::text::{
    bytes_contain, bytes_equal, bytes_hold_at, bytes_start_with, decimal, join3,
};

#[test]
fn decimal_writes_numbers_without_leading_zeros() {
    assert_eq!(decimal(0), "0");
    assert_eq!(decimal(7), "7");
    assert_eq!(decimal(10), "10");
    assert_eq!(decimal(1230), "1230");
    assert_eq!(decimal(usize::MAX), usize::MAX.to_string());
    assert_eq!(join3("a", "", "bc"), "abc");
}

#[test]
fn byte_searches() {
    assert!(bytes_start_with(b"docker0", b"docker"));
    assert!(!bytes_start_with(b"dock", b"docker"));
    assert!(bytes_start_with(b"anything", b""));
    assert!(bytes_contain(b"/sys/devices/virtual/net/lo", b"/virtual/"));
    assert!(bytes_contain(b"abc", b""));
    assert!(bytes_contain(b"abc", b"abc"));
    assert!(bytes_contain(b"xxVMBUS", b"VMBUS"));
    assert!(!bytes_contain(b"VMBU", b"VMBUS"));
    assert!(!bytes_contain(b"", b"a"));
    assert!(bytes_hold_at(b"abcd", b"cd", 2));
    assert!(!bytes_hold_at(b"abcd", b"cd", 3));
    assert!(!bytes_hold_at(b"abcd", b"cd", usize::MAX));
    assert!(bytes_equal(b"lo", b"lo"));
    assert!(!bytes_equal(b"lo", b"lo0"));
    assert!(!bytes_equal(b"lo", b"la"));
}

#[test]
fn cost_and_roi_sentences() {
    assert_eq!(
        Cost::new(100, CostTimespan::Week).text(),
        "The device spends 100 USD in a week timespan"
    );
    assert_eq!(
        Cost::new(-1000, CostTimespan::Month).text(),
        "The device saves 1000 USD in a month timespan"
    );
    assert_eq!(
        Cost::new(0, CostTimespan::Year).text(),
        "The device spends 0 USD in a year timespan"
    );
    assert_eq!(
        Cost::new(i32::MIN, CostTimespan::Year).text(),
        "The device saves 2147483648 USD in a year timespan"
    );
    assert_eq!(
        Roi::new(10, EnergyClass::A).text(),
        "The device has a Return on Investments (Roi) for the `A` energy efficiency class over a timespan of 10 years"
    );
    assert_eq!(
        Roi::new(0, EnergyClass::APlusPlus).text(),
        "The device has a Return on Investments (Roi) for the `A++` energy efficiency class over a timespan of 1 year"
    );
}

#[test]
fn percentage_sentences() {
    assert_eq!(
        EnergyEfficiency::new(-50, EnergyClass::A).text(),
        "The device saves a 50% of energy for the \"A\" efficiency class"
    );
    assert_eq!(
        EnergyEfficiency::new(50, EnergyClass::B).text(),
        "The device consumes a 50% of energy for the \"B\" efficiency class"
    );
    assert_eq!(
        CarbonFootprint::new(-50, EnergyClass::A).text(),
        "The device removes from the atmosphere a 50% of greenhouse gases for the \"A\" efficiency class"
    );
    assert_eq!(
        CarbonFootprint::new(127, EnergyClass::G).text(),
        "The device adds to the atmosphere a 100% of greenhouse gases for the \"G\" efficiency class"
    );
    assert_eq!(
        CarbonFootprint { percentage: -128, energy_class: EnergyClass::C }.text(),
        "The device removes from the atmosphere a 128% of greenhouse gases for the \"C\" efficiency class"
    );
}

#[test]
fn numbers_are_read_like_the_standard_library_reads_them() {
    for text in [
        "0", "7", "ff", "FF", "0a", "+1f", "00ff", "100", "g", "", "+", "-1", " 1", "1 ", "1_0",
        "+-1", "++1", "fg", "256", "0000000000000000ff", "٣",
    ] {
        let length = text.chars().count();
        assert_eq!(
            parse_unsigned(text, 0, length, 16, 255),
            u8::from_str_radix(text, 16).ok().map(u32::from),
            "hexadecimal {text:?}"
        );
        assert_eq!(
            parse_unsigned(text, 0, length, 10, 0xFFFF),
            text.parse::<u16>().ok().map(u32::from),
            "decimal {text:?}"
        );
    }
    assert_eq!(parse_unsigned("65535", 0, 5, 10, 0xFFFF), Some(65535));
    assert_eq!(parse_unsigned("65536", 0, 5, 10, 0xFFFF), None);
    assert_eq!(parse_unsigned("aa:bb", 3, 5, 16, 255), Some(0xbb));
    assert_eq!(parse_unsigned("aa:bb", 0, 0, 16, 255), None);
}

#[test]
fn hardware_addresses_are_read_from_text() {
    assert_eq!(
        read_mac("00:1a:2B:ff:0:9\n"),
        Some([0x00, 0x1a, 0x2b, 0xff, 0x00, 0x09])
    );
    assert_eq!(
        read_mac("  \taa:bb:cc:dd:ee:ff \u{a0}"),
        Some([0xaa, 0xbb, 0xcc, 0xdd, 0xee, 0xff])
    );
    assert_eq!(read_mac("+a:0b:00c:d:e:f"), Some([10, 11, 12, 13, 14, 15]));
    assert_eq!(read_mac(""), None);
    assert_eq!(read_mac("\n"), None);
    assert_eq!(read_mac("aa:bb:cc:dd:ee"), None);
    assert_eq!(read_mac("aa:bb:cc:dd:ee:ff:00"), None);
    assert_eq!(read_mac("aa:bb:cc:dd:ee:ff:"), None);
    assert_eq!(read_mac(":aa:bb:cc:dd:ee:ff"), None);
    assert_eq!(read_mac("aa::cc:dd:ee:ff"), None);
    assert_eq!(read_mac("aa:bb:cc:dd:ee:fg"), None);
    assert_eq!(read_mac("aa:bb:cc:dd:ee:100"), None);
    assert_eq!(read_mac("aa:bb: cc:dd:ee:ff"), None);
    assert_eq!(read_mac("aa-bb-cc-dd-ee-ff"), None);
}

#[test]
fn interface_types_are_read_from_text() {
    assert_eq!(get_interface_type("1\n"), Some(1));
    assert_eq!(get_interface_type(" 801 "), Some(801));
    assert_eq!(get_interface_type("65535"), Some(65535));
    assert_eq!(get_interface_type("+772"), Some(772));
    assert_eq!(get_interface_type("65536"), None);
    assert_eq!(get_interface_type(""), None);
    assert_eq!(get_interface_type("-1"), None);
    assert_eq!(get_interface_type("0x1"), None);
    assert_eq!(get_interface_type("1 2"), None);
}
