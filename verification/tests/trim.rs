use pending_redirect::text::is_whitespace_char;
use pending_redirect::text::trim;

#[test]
fn whitespace_table_matches_std_over_all_chars() {
    for u in 0..=0x10FFFFu32 {
        if let Some(c) = char::from_u32(u) {
            assert_eq!(is_whitespace_char(c), c.is_whitespace(), "mismatch at U+{:04X}", u);
        }
    }
}

#[test]
fn trim_matches_std_trim() {
    let samples = [
        "",
        " ",
        " \t\r\n",
        "http://x/1",
        "  http://x/1",
        "http://x/1\n\n",
        "\t http://x/1 \u{00A0}",
        "\u{2003}a b\u{3000}",
        "inner  space kept",
        "\u{1680}\u{2028}\u{2029}",
        "a",
        " a ",
    ];
    for s in samples {
        assert_eq!(trim(s).as_str(), s.trim(), "mismatch on {:?}", s);
    }
}
