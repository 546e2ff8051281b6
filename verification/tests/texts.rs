use rust_camera::text::{
    decimal_text, hexadecimal_text, join2, join3, join4, picture_file_name, slug_text, trim,
    wide_text,
};

#[test]
fn numbers_as_digits() {
    assert_eq!(decimal_text(0), "0");
    assert_eq!(decimal_text(9), "9");
    assert_eq!(decimal_text(10), "10");
    assert_eq!(decimal_text(1_234_567_890), "1234567890");
    assert_eq!(decimal_text(u64::MAX), "18446744073709551615");
    assert_eq!(hexadecimal_text(0x8007_0005, 8), "80070005");
    assert_eq!(hexadecimal_text(0xABC, 8), "00000ABC");
    assert_eq!(hexadecimal_text(0xDEF1_2345, 4), "2345");
    assert_eq!(hexadecimal_text(7, 0), "");
}

#[test]
fn different_numbers_differ_as_digits() {
    assert_ne!(decimal_text(10), decimal_text(100));
    assert_ne!(decimal_text(0), decimal_text(1));
}

#[test]
fn pieces_are_joined_in_order() {
    assert_eq!(join2("a", "bc"), "abc");
    assert_eq!(join3("a", "", "c"), "ac");
    assert_eq!(join4("1", "2", "3", "4"), "1234");
}

#[test]
fn trimming_takes_white_space_at_both_ends() {
    for text in [
        "", "   ", "NextFace", "  NextFace", "NextFace \t\r\n", "\u{3000}a b\u{a0}", "\u{2028}x",
        "\u{200b}x", "\u{85}é\u{1680}", "\u{b}\u{c}z",
    ] {
        assert_eq!(trim(text), text.trim());
    }
}

#[test]
fn slug_keeps_letters_digits_and_hyphens() {
    assert_eq!(slug_text("a B—c-3.d/é_"), "a-B-c-3d");
    assert_eq!(slug_text(""), "");
    assert_eq!(slug_text("../../etc/passwd"), "etcpasswd");
}

#[test]
fn slug_of_a_slug_is_itself() {
    let once = slug_text("Historic portrait — man!");
    assert_eq!(once, "Historic-portrait---man");
    assert_eq!(slug_text(&once), once);
}

#[test]
fn picture_file_names_are_in_lower_case() {
    assert_eq!(picture_file_name("Historic portrait — man"), "historic-portrait---man.jpg");
    assert_eq!(picture_file_name("ÀB C"), "b-c.jpg");
}

#[test]
fn wide_text_is_utf16_with_one_zero_at_its_end() {
    assert_eq!(wide_text(""), vec![0]);
    for text in ["Local\\4KRustCameraFrameRing", "é—😀\u{ffff}\u{10ffff}"] {
        let mut expected: Vec<u16> = text.encode_utf16().collect();
        assert!(!expected.contains(&0));
        expected.push(0);
        assert_eq!(wide_text(text), expected);
    }
}

#[test]
fn picture_file_names_have_no_capital_letter() {
    for name in ["ABC xyz", "\u{212a}ELVIN", "\u{130}stanbul", "a/B\\C.d", "—— Z—"] {
        let file = picture_file_name(name);
        let stem = file.strip_suffix(".jpg").unwrap();
        assert!(stem.chars().all(|c| matches!(c, 'a'..='z' | '0'..='9' | '-')));
    }
    assert_eq!(picture_file_name("\u{212a}ELVIN"), "kelvin.jpg");
}

#[test]
fn different_texts_have_different_wide_forms() {
    let texts = ["", "a", "aa", "\u{10000}", "\u{10001}", "\u{10400}", "\u{ffff}", "\u{e000}"];
    for (i, a) in texts.iter().enumerate() {
        for b in &texts[..i] {
            assert_ne!(wide_text(a), wide_text(b));
        }
    }
}
