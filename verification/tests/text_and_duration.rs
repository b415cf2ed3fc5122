use bitcoin::util::bip32::Fingerprint;
use liana_gui::duration::duration_from_sequence;
use liana_gui::text::{decimal_string, parse_u16, push_hex8, ratio_string};

#[test]
fn duration_of_one_day() {
    assert_eq!(duration_from_sequence(144), (0, 0, 1, 0, 0));
}

#[test]
fn duration_of_a_year() {
    assert_eq!(duration_from_sequence(52596), (1, 0, 0, 0, 0));
}

#[test]
fn duration_of_max_sequence() {
    // 655350 minutes: 1 year, 2 months, 28 days, 23 hours and 30 minutes.
    assert_eq!(duration_from_sequence(u16::MAX), (1, 2, 28, 23, 30));
}

#[test]
fn duration_of_zero() {
    assert_eq!(duration_from_sequence(0), (0, 0, 0, 0, 0));
}

#[test]
fn duration_of_a_few_blocks() {
    assert_eq!(duration_from_sequence(1), (0, 0, 0, 0, 10));
    assert_eq!(duration_from_sequence(6), (0, 0, 0, 1, 0));
    assert_eq!(duration_from_sequence(145), (0, 0, 1, 0, 10));
    assert_eq!(duration_from_sequence(4383), (0, 1, 0, 0, 0));
}

#[test]
fn duration_adds_back_up_for_every_sequence() {
    for s in 0..=u16::MAX {
        let (y, m, d, h, mn) = duration_from_sequence(s);
        assert_eq!(
            y * 525960 + m * 43830 + d * 1440 + h * 60 + mn,
            s as u32 * 10
        );
        assert!(m < 12 && d <= 30 && h < 24 && mn < 60);
    }
}

#[test]
fn decimal_texts() {
    assert_eq!(decimal_string(0), "0");
    assert_eq!(decimal_string(7), "7");
    assert_eq!(decimal_string(105), "105");
    assert_eq!(decimal_string(u64::MAX), u64::MAX.to_string());
}

#[test]
fn ratio_text() {
    assert_eq!(ratio_string(2, 5), "2/5");
    assert_eq!(ratio_string(10, 0), "10/0");
}

#[test]
fn hex_fingerprint() {
    let mut s = String::from("fp=");
    push_hex8(&mut s, 0x1a2b_3c4d);
    assert_eq!(s, "fp=1a2b3c4d");
    let mut z = String::new();
    push_hex8(&mut z, 0xf0);
    assert_eq!(z, "000000f0");
}

#[test]
fn parse_matches_std() {
    let inputs = [
        "", "+", "-", "0", "+0", "-0", "1", "42", "+42", "0042", "65535", "65536", "99999",
        "100000000000", " 1", "1 ", "1a", "a1", "++1", "+-1", "٣", "12.5", "1_000", "065535",
    ];
    for s in inputs.iter() {
        assert_eq!(parse_u16(s), s.parse::<u16>().ok(), "input {:?}", s);
    }
}

#[test]
fn parse_reads_back_every_decimal() {
    for v in 0..=u16::MAX {
        assert_eq!(parse_u16(&decimal_string(v as u64)), Some(v));
    }
}

#[test]
fn hex_matches_bitcoin_fingerprint_display() {
    for bytes in [[0u8, 0, 0, 0], [0x1a, 0x2b, 0x3c, 0x4d], [0xff, 0x00, 0x10, 0x01], [0xde, 0xad, 0xbe, 0xef]] {
        let fg = Fingerprint::from(&bytes[..]);
        let mut s = String::new();
        push_hex8(&mut s, u32::from_be_bytes(bytes));
        assert_eq!(s, fg.to_string());
    }
}
