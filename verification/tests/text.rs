use fix_x::text::{
    any_whitespace, chars_of, copy_wide, encode_utf16, hiword, is_whitespace, loword, text_eq,
    to_wide, trimmed_bounds,
};

#[test]
fn white_space_matches_std_for_every_char() {
    for u in 0u32..=0x10ffff {
        if let Some(c) = char::from_u32(u) {
            assert_eq!(is_whitespace(c), c.is_whitespace(), "U+{:04X}", u);
        }
    }
}

#[test]
fn trimming_matches_std() {
    let samples = [
        "",
        "   ",
        "abc",
        "  abc  ",
        "\t\na b\r\n",
        "\u{3000}x\u{2028}",
        "\u{200b}x\u{200b}",
        "\u{85}\u{a0}y",
    ];
    for s in samples {
        let cs = chars_of(s);
        let (i, j) = trimmed_bounds(&cs);
        let kept: String = cs[i..j].iter().collect();
        assert_eq!(kept, s.trim(), "{:?}", s);
    }
}

#[test]
fn any_whitespace_finds_inner_space() {
    let cs = chars_of(" a b ");
    assert!(any_whitespace(&cs, 1, 4));
    assert!(!any_whitespace(&cs, 1, 2));
    assert!(!any_whitespace(&cs, 2, 2));
}

#[test]
fn text_equality() {
    assert!(text_eq("status", "status"));
    assert!(!text_eq("status", "Status"));
    assert!(!text_eq("status", "statu"));
    assert!(text_eq("", ""));
    assert!(text_eq("日本語", "日本語"));
}

#[test]
fn utf16_matches_std() {
    for s in ["", "fix-x", "fix-x 設定", "emoji 😀 and 𝄞", "\u{ffff}\u{10000}"] {
        let expected: Vec<u16> = s.encode_utf16().collect();
        assert_eq!(encode_utf16(s), expected);
        let mut wide = expected.clone();
        wide.push(0);
        assert_eq!(to_wide(s), wide);
    }
    assert_eq!(encode_utf16("😀"), vec![0xd83d, 0xde00]);
}

#[test]
fn copy_wide_pads_and_truncates() {
    let mut buf = [7u16; 8];
    copy_wide("fix-x", &mut buf);
    assert_eq!(buf, [102, 105, 120, 45, 120, 0, 0, 0]);
    let mut short = [7u16; 3];
    copy_wide("fix-x", &mut short);
    assert_eq!(short, [102, 105, 120]);
    let mut empty: [u16; 0] = [];
    copy_wide("x", &mut empty);
}

#[test]
fn words_of_message_parameters() {
    assert_eq!(loword(0x1234_abcd), 0xabcd);
    assert_eq!(hiword(0x1234_abcd), 0x1234);
    assert_eq!(loword(101), 101);
    assert_eq!(hiword(101), 0);
    assert_eq!(hiword(0xffff_0000), 0xffff);
}

#[test]
fn wide_text_has_only_the_final_terminator() {
    let wide = to_wide("fix-x 😀 設定");
    assert_eq!(wide.last(), Some(&0));
    assert!(wide[..wide.len() - 1].iter().all(|&u| u != 0));
}
