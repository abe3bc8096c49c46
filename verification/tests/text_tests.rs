use std::path::Path;
use kawakaze_backend::number::{decimal_chars, parse_u16, parse_u64, parse_u8, tenths_of};
use kawakaze_backend::path::{file_name, join};
use kawakaze_backend::strmap::StringMap;
use kawakaze_backend::text::{
    chars_of, contains, is_space_char, join_strings, replace, split_at_char, split_lines,
    split_once_at, split_words, starts_with, string_of, strip_leading_char, to_lower, to_upper,
    trim,
};

fn c(s: &str) -> Vec<char> {
    chars_of(s)
}

fn s(v: &Vec<char>) -> String {
    string_of(v)
}

fn all(v: Vec<Vec<char>>) -> Vec<String> {
    v.iter().map(|x| string_of(x)).collect()
}

#[test]
fn text_matches_std() {
    let samples = [
        "",
        " ",
        "a",
        "  lead and trail \t\n",
        "a b  c\td\ne",
        "line1\nline2\r\nline3\r",
        "\n\nx\n",
        "no newline at end",
        "\u{a0}nbsp\u{2003}em\u{3000}",
        "a/b//c/",
        "/",
        "ÄÖü ßtraße ΑΒΓ",
        "tab\tseparated\tvalues",
        "  \r\n  ",
    ];
    for text in samples {
        assert_eq!(s(&trim(&c(text))), text.trim(), "{:?}", text);
        assert_eq!(all(split_words(&c(text))), text.split_whitespace().collect::<Vec<_>>(), "{:?}", text);
        assert_eq!(all(split_lines(&c(text))), text.lines().collect::<Vec<_>>(), "{:?}", text);
        assert_eq!(all(split_at_char(&c(text), '/')), text.split('/').collect::<Vec<_>>(), "{:?}", text);
        assert_eq!(all(split_once_at(&c(text), ' ')), text.splitn(2, ' ').collect::<Vec<_>>(), "{:?}", text);
        assert_eq!(s(&to_lower(&c(text))), text.to_ascii_lowercase());
        assert_eq!(s(&to_upper(&c(text))), text.to_ascii_uppercase());
        assert_eq!(s(&strip_leading_char(&c(text), '/')), text.trim_start_matches('/'));
        for pattern in ["a", "//", "line", " ", "\n", "e\n", "ß"] {
            assert_eq!(contains(&c(text), &c(pattern)), text.contains(pattern));
            assert_eq!(starts_with(&c(text), &c(pattern)), text.starts_with(pattern));
            assert_eq!(s(&replace(&c(text), &c(pattern), &c("<>"))), text.replace(pattern, "<>"));
        }
        assert!(contains(&c(text), &c("")));
    }
    for u in 0..0x3100u32 {
        if let Some(ch) = char::from_u32(u) {
            assert_eq!(is_space_char(ch), ch.is_whitespace(), "{:x}", u);
        }
    }
    assert_eq!(s(&replace(&c("aaaa"), &c("aa"), &c("a"))), "aa");
    assert_eq!(s(&replace(&c("abab"), &c("ab"), &c(""))), "");
    assert_eq!(join_strings(&vec![], ", "), "");
    assert_eq!(join_strings(&vec!["a".to_string()], ", "), "a");
    assert_eq!(join_strings(&vec!["a".to_string(), "".to_string(), "b".to_string()], ", "), "a, , b");
}

#[test]
fn numbers_match_std() {
    let samples = [
        "", "0", "7", "+7", "-7", "007", "255", "256", "65535", "65536", "+", "++1", "1+", " 1", "1 ",
        "1_000", "18446744073709551615", "18446744073709551616", "99999999999999999999999", "0x10",
        "１２", "4294967296",
    ];
    for text in samples {
        assert_eq!(parse_u64(&c(text)), text.parse::<u64>().ok(), "{:?}", text);
        assert_eq!(parse_u16(&c(text)), text.parse::<u16>().ok(), "{:?}", text);
        assert_eq!(parse_u8(&c(text)), text.parse::<u8>().ok(), "{:?}", text);
    }
    for n in [0u64, 9, 10, 99, 100, 12345, u64::MAX] {
        assert_eq!(s(&decimal_chars(n)), n.to_string());
        assert_eq!(parse_u64(&decimal_chars(n)), Some(n));
    }
    assert_eq!(tenths_of(1536, 1024), 15);
    assert_eq!(tenths_of(u64::MAX, 1024), 180143985094819840);
}

#[test]
fn paths_match_std() {

    let bases = ["", "/", "/a", "/a/", "a", "a/b", "."];
    let rels = ["", "x", "x/y", "/abs", "/", "./x", "../x"];
    for base in bases {
        for rel in rels {
            assert_eq!(join(base, rel), Path::new(base).join(rel).to_str().unwrap(), "{:?} {:?}", base, rel);
        }
    }
    for path in ["", "/", "a", "/a", "/a/b", "/a/b/", "/a/b//", "/a/.", "/a/./", "/a/..", "..", ".", "a/../b", "./a", "//", "/a/b/.."] {
        let expected = Path::new(path).file_name().unwrap_or_default().to_string_lossy().to_string();
        assert_eq!(file_name(path), expected, "{:?}", path);
    }
}

#[test]
fn string_map() {
    let mut m = StringMap::new();
    assert!(m.is_empty());
    assert_eq!(m.len(), 0);
    assert_eq!(m.get("a"), None);
    m.insert("a".to_string(), "1".to_string());
    m.insert("b".to_string(), "2".to_string());
    m.insert("a".to_string(), "3".to_string());
    assert_eq!(m.len(), 2);
    assert!(!m.is_empty());
    assert_eq!(m.get("a"), Some(&"3".to_string()));
    assert_eq!(m.get("b"), Some(&"2".to_string()));
    assert!(m.contains_key("b"));
    assert!(!m.contains_key("c"));
    // A known key keeps its place.
    assert_eq!((m.key_at(0).as_str(), m.value_at(0).as_str()), ("a", "3"));
    assert_eq!((m.key_at(1).as_str(), m.value_at(1).as_str()), ("b", "2"));
    let mut other = StringMap::default();
    other.insert("b".to_string(), "2".to_string());
    other.insert("a".to_string(), "3".to_string());
    // Equality does not look at the order.
    assert_eq!(m, other);
    other.insert("a".to_string(), "4".to_string());
    assert_ne!(m, other);
    other.insert("c".to_string(), "5".to_string());
    m.extend(&other);
    assert_eq!(m.len(), 3);
    assert_eq!(m.get("a"), Some(&"4".to_string()));
    assert_eq!(m.get("c"), Some(&"5".to_string()));
    let copy = m.clone();
    assert_eq!(copy, m);
    assert!(copy.same_as(&m));
    let mut bigger = m.duplicate();
    bigger.insert("z".to_string(), "".to_string());
    assert_ne!(bigger, m);
    assert_ne!(m, bigger);
}
