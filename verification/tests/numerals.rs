use clovis_shell::decimal::{port_to_string, push_decimal};

#[test]
fn single_digits_are_written_alone() {
    assert_eq!(port_to_string(0), "0");
    assert_eq!(port_to_string(1), "1");
    assert_eq!(port_to_string(5), "5");
    assert_eq!(port_to_string(9), "9");
}

#[test]
fn each_decimal_place_adds_a_digit() {
    assert_eq!(port_to_string(10), "10");
    assert_eq!(port_to_string(99), "99");
    assert_eq!(port_to_string(100), "100");
    assert_eq!(port_to_string(999), "999");
    assert_eq!(port_to_string(1000), "1000");
    assert_eq!(port_to_string(9999), "9999");
    assert_eq!(port_to_string(10000), "10000");
    assert_eq!(port_to_string(65535), "65535");
}

#[test]
fn inner_zeros_are_kept() {
    assert_eq!(port_to_string(3000), "3000");
    assert_eq!(port_to_string(8080), "8080");
    assert_eq!(port_to_string(10001), "10001");
    assert_eq!(port_to_string(60006), "60006");
}

#[test]
fn every_port_is_written_as_std_writes_it() {
    for port in 0..=u16::MAX {
        assert_eq!(port_to_string(port), port.to_string());
    }
}

#[test]
fn every_numeral_reads_back_as_its_port() {
    for port in 0..=u16::MAX {
        let text = port_to_string(port);
        assert!(!text.is_empty() && text.len() <= 5);
        assert!(text.chars().all(|c| c.is_ascii_digit()));
        assert_eq!(text.starts_with('0'), port == 0);
        assert_eq!(text.parse::<u16>(), Ok(port));
    }
}

#[test]
fn push_decimal_appends_to_what_is_there() {
    let mut out = String::from("port=");
    push_decimal(&mut out, 53211);
    assert_eq!(out, "port=53211");
    push_decimal(&mut out, 0);
    assert_eq!(out, "port=532110");
}

#[test]
fn push_decimal_on_empty_string_is_the_numeral() {
    let mut out = String::new();
    push_decimal(&mut out, 443);
    assert_eq!(out, "443");
}
