use rustxt::text::{
    bounded_prefix_len, char_utf8_width, find_in, is_whitespace, replace_chars, rfind_in,
    string_of, trimmed,
};

fn chars(s: &str) -> Vec<char> {
    s.chars().collect()
}

#[test]
fn whitespace_agrees_with_std() {
    for n in 0..=0x10FFFFu32 {
        if let Some(c) = char::from_u32(n) {
            assert_eq!(is_whitespace(c), c.is_whitespace(), "{n:#x}");
            assert_eq!(char_utf8_width(c), c.len_utf8(), "{n:#x}");
        }
    }
}

#[test]
fn trim_agrees_with_std() {
    for s in ["", "  ", " a ", "\u{3000}x\u{2028}", "a b", "\t\n x\r\n"] {
        let t: String = trimmed(&chars(s)).into_iter().collect();
        assert_eq!(t, s.trim());
    }
}

#[test]
fn replace_agrees_with_std() {
    let cases = [("aaa", "aa", "b"), ("abcabc", "bc", "X"), ("", "x", "y"), ("&lt;&lt;", "&lt;", "<"), ("xyz", "q", "r")];
    for (s, p, r) in cases {
        let out: String = replace_chars(&chars(s), &chars(p), &chars(r)).into_iter().collect();
        assert_eq!(out, s.replace(p, r));
    }
}

#[test]
fn find_agrees_with_std() {
    let cases = [("hello world", "o"), ("hello", ""), ("abc", "d"), ("ééx", "x"), ("abab", "ab")];
    for (s, p) in cases {
        let c = chars(s);
        let to_char_index = |b: Option<usize>| b.map(|b| s[..b].chars().count());
        assert_eq!(find_in(&c, &chars(p)), to_char_index(s.find(p)));
        assert_eq!(rfind_in(&c, &chars(p)), to_char_index(s.rfind(p)));
    }
}

#[test]
fn bounded_prefix_follows_byte_boundaries() {
    let s = chars("aé");
    assert_eq!(bounded_prefix_len(&s, 0), Some(0));
    assert_eq!(bounded_prefix_len(&s, 1), Some(1));
    assert_eq!(bounded_prefix_len(&s, 2), None);
    assert_eq!(bounded_prefix_len(&s, 3), Some(2));
    assert_eq!(bounded_prefix_len(&s, 10), Some(2));
}

#[test]
fn string_round_trip() {
    assert_eq!(string_of(&chars("héllo")), "héllo");
}
