use book_library::text::{format_i64, format_u64, is_white_space_char, trim, trimmed_byte_len};

#[test]
fn trim_agrees_with_std() {
    let samples = [
        "", "   ", "abc", "  abc  ", "\t\n a b \r\n", "\u{3000}x\u{2029}", "\u{a0}\u{85}", "é  ", "  日本  ",
        "\u{200b}x", "x\u{1680}",
    ];
    for s in samples.iter() {
        assert_eq!(trim(s), s.trim(), "on {:?}", s);
        assert_eq!(trimmed_byte_len(s), s.trim().len(), "on {:?}", s);
    }
}

#[test]
fn white_space_agrees_with_std() {
    for u in 0u32..0x3100 {
        if let Some(c) = char::from_u32(u) {
            assert_eq!(is_white_space_char(c), c.is_whitespace(), "on {:#x}", u);
        }
    }
}

#[test]
fn trimmed_byte_len_counts_utf8_bytes() {
    assert_eq!(trimmed_byte_len("  é  "), 2);
    assert_eq!(trimmed_byte_len("日本"), 6);
    assert_eq!(trimmed_byte_len(" \t "), 0);
}

#[test]
fn format_integers_like_display() {
    for n in [0i64, 7, 10, 42, 1000, -1, -10, -987654321, i64::MAX, i64::MIN] {
        assert_eq!(format_i64(n), n.to_string());
    }
    for m in [0u64, 9, 10, 99, 100, u64::MAX] {
        assert_eq!(format_u64(m), m.to_string());
    }
}
