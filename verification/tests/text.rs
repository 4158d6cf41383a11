use dbwin_capture::text::{
    chars_of, decode_text, format_line, name_matches, push_decimal, to_ascii_lower, trim_end,
};

#[test]
fn chars_of_keeps_every_character_in_order() {
    assert_eq!(chars_of("aé漢\u{1F600}"), vec!['a', 'é', '漢', '\u{1F600}']);
    assert_eq!(chars_of(""), Vec::<char>::new());
}

#[test]
fn to_ascii_lower_folds_only_ascii_upper_case() {
    assert_eq!(to_ascii_lower('A'), 'a');
    assert_eq!(to_ascii_lower('Z'), 'z');
    assert_eq!(to_ascii_lower('m'), 'm');
    assert_eq!(to_ascii_lower('@'), '@');
    assert_eq!(to_ascii_lower('['), '[');
    assert_eq!(to_ascii_lower('5'), '5');
    assert_eq!(to_ascii_lower('É'), 'É');
    assert_eq!(to_ascii_lower('\0'), '\0');
}

#[test]
fn name_matches_ignores_ascii_case() {
    assert!(name_matches("Notepad.EXE", "notepad.exe"));
    assert!(name_matches("notepad.exe", "NOTEPAD.EXE"));
    assert!(name_matches("", ""));
}

#[test]
fn name_matches_drops_trailing_nul_padding_of_the_stored_name() {
    assert!(name_matches("calc.exe\0\0\0\0", "CALC.exe"));
    assert!(name_matches("\0\0", ""));
    assert!(!name_matches("calc.exe", "calc.exe\0"));
}

#[test]
fn name_matches_keeps_nul_inside_the_stored_name() {
    assert!(!name_matches("calc\0.exe\0", "calc"));
    assert!(name_matches("calc\0.exe\0", "calc\0.exe"));
}

#[test]
fn name_matches_wants_the_whole_name() {
    assert!(!name_matches("notepad.exe", "notepad"));
    assert!(!name_matches("notepad.exe", "pad.exe"));
    assert!(!name_matches("notepad.exe", "otepa"));
    assert!(!name_matches("notepad", "notepad.exe"));
    assert!(!name_matches("notepad.exe", ""));
}

#[test]
fn name_matches_does_not_fold_beyond_ascii() {
    assert!(name_matches("Éclair.exe", "Éclair.EXE"));
    assert!(!name_matches("Éclair.exe", "éclair.exe"));
    assert!(!name_matches("straße", "STRASSE"));
}

#[test]
fn trim_end_removes_trailing_white_space_only() {
    assert_eq!(trim_end("hello \t\r\n"), "hello");
    assert_eq!(trim_end("  hello"), "  hello");
    assert_eq!(trim_end("a b "), "a b");
    assert_eq!(trim_end("hello"), "hello");
    assert_eq!(trim_end(" \n "), "");
    assert_eq!(trim_end(""), "");
}

#[test]
fn trim_end_knows_white_space_beyond_ascii() {
    assert_eq!(trim_end("x\u{00A0}\u{2003}\u{3000}"), "x");
    assert_eq!(trim_end("x\u{200B}"), "x\u{200B}");
    assert_eq!(trim_end("漢字 "), "漢字");
}

#[test]
fn trim_end_agrees_with_the_standard_library() {
    let texts = ["", " ", "a", "a ", " a", "a\n\n", "tab\t", "é \u{0085}", "\u{2028}", "z\u{FEFF}"];
    for text in texts {
        assert_eq!(trim_end(text), text.trim_end());
    }
}

#[test]
fn push_decimal_appends_the_numeral() {
    let mut out = String::from("n=");
    push_decimal(&mut out, 0);
    assert_eq!(out, "n=0");
    push_decimal(&mut out, 9);
    push_decimal(&mut out, 10);
    assert_eq!(out, "n=0910");
    let mut out = String::new();
    push_decimal(&mut out, 4294967295);
    assert_eq!(out, "4294967295");
    let mut out = String::new();
    push_decimal(&mut out, 1000000);
    assert_eq!(out, "1000000");
}

#[test]
fn push_decimal_agrees_with_the_standard_library() {
    let numbers =
        [0u32, 1, 7, 10, 11, 99, 100, 101, 1234, 65535, 65536, 999999999, 1000000000, u32::MAX];
    for n in numbers {
        let mut out = String::new();
        push_decimal(&mut out, n);
        assert_eq!(out, n.to_string());
    }
}

#[test]
fn format_line_brackets_the_producer() {
    assert_eq!(format_line(1234, "hello"), "[1234] hello");
    assert_eq!(format_line(0, ""), "[0] ");
    assert_eq!(format_line(u32::MAX, "x y"), "[4294967295] x y");
    assert_eq!(format_line(42, " lead"), "[42]  lead");
}

#[test]
fn decode_text_takes_well_formed_utf8() {
    assert_eq!(decode_text(b"hello"), Some("hello"));
    assert_eq!(decode_text(b""), Some(""));
    let mixed = "grüße 漢字 \u{1F600}";
    assert_eq!(decode_text(mixed.as_bytes()), Some(mixed));
    assert_eq!(decode_text(&[0x61, 0x00, 0x62]), Some("a\0b"));
}

#[test]
fn decode_text_refuses_ill_formed_utf8() {
    assert_eq!(decode_text(&[0xFF]), None);
    assert_eq!(decode_text(&[0x61, 0x80]), None);
    assert_eq!(decode_text(&[0xC3]), None);
    assert_eq!(decode_text(&[0xC0, 0x80]), None);
    assert_eq!(decode_text(&[0xED, 0xA0, 0x80]), None);
    assert_eq!(decode_text(&[0xF4, 0x90, 0x80, 0x80]), None);
}
