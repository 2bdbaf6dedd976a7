use now_playing::text::{
    chars_of, decimal_chars, decimal_string, parse_u32, replace_all, replace_str, same_chars,
    split_chars, str_equals, string_from_chars, trim_chars, trim_str, white_space,
};

fn chars(s: &str) -> Vec<char> {
    s.chars().collect()
}

#[test]
fn chars_round_trip() {
    let s = "héllo\twörld";
    assert_eq!(string_from_chars(&chars_of(s)), s);
}

#[test]
fn split_matches_std() {
    for s in ["", "a", "\t", "a\tb", "a\t\tb\t", "\t\t", "only\tthree\tfields"] {
        let ours: Vec<String> = split_chars(&chars(s), '\t')
            .iter()
            .map(|p| p.iter().collect())
            .collect();
        let std: Vec<String> = s.split('\t').map(|p| p.to_string()).collect();
        assert_eq!(ours, std, "input {:?}", s);
    }
}

#[test]
fn decimal_matches_display() {
    for n in [0u64, 7, 10, 99, 100, 12345, 4294967295, 18446744073709551615] {
        assert_eq!(decimal_string(n), n.to_string());
        let v: String = decimal_chars(n).iter().collect();
        assert_eq!(v, n.to_string());
    }
}

#[test]
fn parse_matches_std() {
    let cases = [
        "", "0", "123", "+5", "+", "-0", "-1", "007", "4294967295", "4294967296",
        "99999999999999999999", "12a", " 1", "1 ", "++1", "٣",
    ];
    for s in cases {
        assert_eq!(parse_u32(&chars(s)), s.parse::<u32>().ok(), "input {:?}", s);
    }
}

#[test]
fn parse_reads_back_rendering() {
    for n in [0u32, 1, 9, 10, 65535, 4294967295] {
        assert_eq!(parse_u32(&decimal_chars(n as u64)), Some(n));
    }
}

#[test]
fn replace_matches_std() {
    let cases = [
        ("https://x/{w}x{h}.jpg", "{w}", "512"),
        ("aaaa", "aa", "b"),
        ("abc", "abcd", "z"),
        ("", "x", "y"),
        ("{{TEMPLATE}}{{TEMPLATE}}", "{{TEMPLATE}}", "<p>"),
        ("no marker here", "{{TEMPLATE}}", "<p>"),
    ];
    for (s, p, r) in cases {
        assert_eq!(replace_str(s, p, r), s.replace(p, r));
        let v: String = replace_all(&chars(s), &chars(p), &chars(r)).iter().collect();
        assert_eq!(v, s.replace(p, r));
    }
}

#[test]
fn equality_helpers() {
    assert!(str_equals("abc", "abc"));
    assert!(!str_equals("abc", "abd"));
    assert!(!str_equals("abc", "ab"));
    assert!(same_chars(&chars(""), &chars("")));
}

#[test]
fn trim_matches_std() {
    let cases = [
        "", "   ", "\t\tx\t\t", "\u{3000}a b\u{2029}", "\u{85}\u{a0}z\u{202f}", "a\u{200b}",
        "\u{1680}\u{2000}\u{200a}mid dle\u{205f}\u{2028}", "\r\n line \u{b}\u{c}",
    ];
    for s in cases {
        assert_eq!(trim_str(s), s.trim(), "input {:?}", s);
        let v: String = trim_chars(&chars(s)).iter().collect();
        assert_eq!(v, s.trim());
    }
    for c in ['\u{0}', '\u{8}', '\u{9}', '\u{d}', '\u{e}', '\u{1f}', ' ', '\u{85}', '\u{a0}', '\u{1680}',
              '\u{180e}', '\u{2000}', '\u{200a}', '\u{200b}', '\u{2028}', '\u{2029}', '\u{202f}',
              '\u{205f}', '\u{2060}', '\u{3000}', '\u{feff}', 'a'] {
        assert_eq!(white_space(c), c.is_whitespace(), "char {:?}", c);
    }
}
