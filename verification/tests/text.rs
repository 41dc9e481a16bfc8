use semtools::text::{blank, decimal_string, signed_decimal_string, str_eq};

#[test]
fn decimal_of_small_numbers() {
    assert_eq!(decimal_string(0), "0");
    assert_eq!(decimal_string(7), "7");
    assert_eq!(decimal_string(10), "10");
    assert_eq!(decimal_string(1905), "1905");
}

#[test]
fn decimal_of_largest_number() {
    assert_eq!(decimal_string(u64::MAX), "18446744073709551615");
}

#[test]
fn decimal_agrees_with_the_standard_library() {
    let samples: [u64; 8] = [1, 9, 99, 100, 1234567890, 1_000_000, 999_999, 4294967295000000];
    for n in samples {
        assert_eq!(decimal_string(n), n.to_string());
    }
}

#[test]
fn signed_decimal_of_negative_numbers() {
    assert_eq!(signed_decimal_string(-1), "-1");
    assert_eq!(signed_decimal_string(-42), "-42");
    assert_eq!(signed_decimal_string(0), "0");
    assert_eq!(signed_decimal_string(17), "17");
}

#[test]
fn signed_decimal_of_the_extremes() {
    assert_eq!(signed_decimal_string(i64::MIN), "-9223372036854775808");
    assert_eq!(signed_decimal_string(i64::MAX), "9223372036854775807");
}

#[test]
fn blank_text_is_recognised() {
    assert!(blank(""));
    assert!(blank("   "));
    assert!(blank("\n\t \r\n"));
    assert!(blank("\u{a0}\u{2003}"));
}

#[test]
fn text_with_content_is_not_blank() {
    assert!(!blank("a"));
    assert!(!blank("  a  "));
    assert!(!blank("\n# Title\n"));
    assert!(!blank("\u{200b}"));
}

#[test]
fn equal_texts_are_recognised() {
    assert!(str_eq("", ""));
    assert!(str_eq("md", "md"));
    assert!(str_eq("caf\u{e9} \u{1f600}", "caf\u{e9} \u{1f600}"));
    assert!(!str_eq("md", "MD"));
    assert!(!str_eq("md", "md "));
    assert!(!str_eq("", "a"));
    assert!(!str_eq("caf\u{e9}", "cafe\u{301}"));
    assert!(!str_eq("ab", "ba"));
}

#[test]
fn white_space_is_the_unicode_property() {
    let listed: Vec<u32> = (0x09..=0x0D)
        .chain([0x20, 0x85, 0xA0, 0x1680])
        .chain(0x2000..=0x200A)
        .chain([0x2028, 0x2029, 0x202F, 0x205F, 0x3000])
        .collect();
    assert_eq!(listed.len(), 25);
    let mut found = Vec::new();
    for code in 0..=0x10FFFF_u32 {
        if let Some(c) = char::from_u32(code) {
            if blank(&c.to_string()) {
                found.push(code);
            }
        }
    }
    assert_eq!(found, listed);
}

#[test]
fn white_space_around_content_does_not_make_it_blank() {
    assert!(!blank("\u{3000}x\u{3000}"));
    assert!(!blank("\t\t.\n"));
    assert!(blank("\u{2028}\u{2029}\u{202f}\u{205f}\u{1680}\u{85}"));
}
