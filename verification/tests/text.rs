use backend_supervisor::text::{chars_of, decimal, is_whitespace, text_eq, trim};

#[test]
fn whitespace_agrees_with_std_on_every_char() {
    let mut code: u32 = 0;
    while code <= 0x10FFFF {
        if let Some(c) = char::from_u32(code) {
            assert_eq!(is_whitespace(c), c.is_whitespace(), "U+{:04X}", code);
        }
        code += 1;
    }
}

#[test]
fn trim_removes_both_ends_only() {
    assert_eq!(trim("  /data dir/x \t\n"), "/data dir/x");
    assert_eq!(trim("plain"), "plain");
    assert_eq!(trim("a b"), "a b");
}

#[test]
fn trim_of_blank_is_empty() {
    assert_eq!(trim(""), "");
    assert_eq!(trim(" \t\r\n"), "");
    assert_eq!(trim("\u{3000}\u{a0}"), "");
}

#[test]
fn trim_agrees_with_std() {
    let samples = [
        "",
        " ",
        "x",
        " x",
        "x ",
        "\u{2003}caf\u{e9} au lait\u{2028}",
        "\u{85}\u{1680}a\u{200a}b\u{205f}",
        "\u{200b}zero width is kept\u{200b}",
        "\n\n/Users/me/Library\n",
    ];
    for sample in samples {
        assert_eq!(trim(sample), sample.trim());
    }
}

#[test]
fn decimal_writes_exact_numerals() {
    assert_eq!(decimal(0), "0");
    assert_eq!(decimal(7), "7");
    assert_eq!(decimal(10), "10");
    assert_eq!(decimal(8080), "8080");
    assert_eq!(decimal(65535), "65535");
    assert_eq!(decimal(u64::MAX), "18446744073709551615");
}

#[test]
fn decimal_agrees_with_std_on_every_port() {
    let mut port: u64 = 0;
    while port <= 65535 {
        assert_eq!(decimal(port), port.to_string());
        port += 1;
    }
}

#[test]
fn text_eq_compares_characters() {
    assert!(text_eq("seekjob-backend", "seekjob-backend"));
    assert!(text_eq("", ""));
    assert!(!text_eq("seekjob-backend", "seekjob-backend "));
    assert!(!text_eq("seekjob-backend", "Seekjob-backend"));
    assert!(!text_eq("a", ""));
    assert!(text_eq("caf\u{e9}", "caf\u{e9}"));
    assert!(!text_eq("cafe\u{301}", "caf\u{e9}"));
}

#[test]
fn chars_of_keeps_order() {
    assert_eq!(chars_of("a/\u{e9}"), vec!['a', '/', '\u{e9}']);
    assert_eq!(chars_of(""), Vec::<char>::new());
}
