use gemini_live_mock_server::pcm::{bytes_from_samples, samples_from_bytes};
use gemini_live_mock_server::text::{append_decimal, eq_ignore_ascii_case};

#[test]
fn samples_are_little_endian() {
    assert_eq!(samples_from_bytes(&[0x34, 0x12, 0xff, 0xff, 0x00, 0x80]), vec![0x1234, -1, i16::MIN]);
    assert_eq!(bytes_from_samples(&[0x1234, -1, i16::MIN]), vec![0x34, 0x12, 0xff, 0xff, 0x00, 0x80]);
}

#[test]
fn every_sample_is_read_back() {
    let all: Vec<i16> = (i16::MIN..=i16::MAX).collect();
    let bytes = bytes_from_samples(&all);
    let expected: Vec<u8> = all.iter().flat_map(|s| s.to_le_bytes()).collect();
    assert_eq!(bytes, expected);
    assert_eq!(samples_from_bytes(&bytes), all);
}

#[test]
fn a_last_byte_without_a_partner_is_dropped() {
    assert_eq!(samples_from_bytes(&[]), Vec::<i16>::new());
    assert_eq!(samples_from_bytes(&[7]), Vec::<i16>::new());
    assert_eq!(samples_from_bytes(&[7, 0, 9]), vec![7]);
    assert_eq!(bytes_from_samples(&samples_from_bytes(&[7, 0, 9])), vec![7, 0]);
}

#[test]
fn decimal_has_no_leading_zeros() {
    for n in [0u32, 1, 9, 10, 105, 999, 1000, 4294967295] {
        let mut text = "n=".to_string();
        append_decimal(&mut text, n);
        assert_eq!(text, format!("n={n}"));
    }
}

#[test]
fn case_of_ascii_letters_is_ignored() {
    let texts = ["audio", "AUDIO", "Audio", "audi", "audioo", "", "\u{e4}udio", "\u{c4}udio", "[", "{", "@", "`"];
    for a in texts {
        for b in texts {
            assert_eq!(eq_ignore_ascii_case(a, b), a.eq_ignore_ascii_case(b), "{a} {b}");
        }
    }
}
