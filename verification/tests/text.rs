use nacos_client::number::{parse_bool, parse_i32, parse_u16, parse_u64, parse_usize, u64_to_string};
use nacos_client::strmap::StrMap;
use nacos_client::client::cli::chars_contain;
use nacos_client::grpc::util::get_type_name;
use nacos_client::text::{
    from_chars, lines_of, split_chars, split_once_chars, str_eq, str_eq_ignore_ascii_case,
    str_is_blank, str_trim, to_chars,
};

fn chars(s: &str) -> Vec<char> {
    s.chars().collect()
}

#[test]
fn characters_round_trip() {
    assert_eq!(to_chars("héllo"), chars("héllo"));
    assert_eq!(from_chars(&chars("héllo")), "héllo");
    assert_eq!(to_chars(""), Vec::<char>::new());
}

#[test]
fn blank_and_trim_follow_unicode_whitespace() {
    assert!(str_is_blank(""));
    assert!(str_is_blank(" \t\r\n\u{a0}\u{3000}"));
    assert!(!str_is_blank(" a "));
    assert_eq!(str_trim("  a b \n"), "a b");
    assert_eq!(str_trim("\u{a0}x\u{2003}"), "x");
    assert_eq!(str_trim("   "), "");
    assert_eq!(str_trim("abc"), "abc");
}

#[test]
fn split_yields_every_part() {
    assert_eq!(split_chars(&chars("a+b+c"), '+'), vec![chars("a"), chars("b"), chars("c")]);
    assert_eq!(split_chars(&chars(""), '+'), vec![chars("")]);
    assert_eq!(split_chars(&chars("+"), '+'), vec![chars(""), chars("")]);
    assert_eq!(split_chars(&chars("ab"), '+'), vec![chars("ab")]);
    assert_eq!(split_once_chars(&chars("k=v=w"), '='), Some((chars("k"), chars("v=w"))));
    assert_eq!(split_once_chars(&chars("kv"), '='), None);
}

#[test]
fn lines_end_at_line_feeds() {
    let text = "foo\nbar\n\r\nbaz\r";
    let expected: Vec<Vec<char>> = text.lines().map(chars).collect();
    assert_eq!(lines_of(&chars(text)), expected);
    assert_eq!(lines_of(&chars(text)), vec![chars("foo"), chars("bar"), chars(""), chars("baz\r")]);
    assert_eq!(lines_of(&chars("")), Vec::<Vec<char>>::new());
    assert_eq!(lines_of(&chars("a\n")), vec![chars("a")]);
    assert_eq!(lines_of(&chars("\n")), vec![chars("")]);
    assert_eq!(lines_of(&chars("a\r\nb")), vec![chars("a"), chars("b")]);
}

#[test]
fn ascii_case_is_ignored_and_nothing_else() {
    assert!(str_eq_ignore_ascii_case("PROPERTIES", "properties"));
    assert!(str_eq_ignore_ascii_case("Yaml", "yAML"));
    assert!(!str_eq_ignore_ascii_case("yaml", "yam"));
    assert!(!str_eq_ignore_ascii_case("É", "é"));
    assert!(!str_eq_ignore_ascii_case("@", "`"));
    assert!(!str_eq_ignore_ascii_case("[", "{"));
}

#[test]
fn numbers_parse_as_the_standard_library_parses_them() {
    for text in ["0", "7", "+7", "007", "65535", "65536", "", "+", "-", "-0", "-1", " 1", "1 ", "1a",
        "18446744073709551615", "18446744073709551616", "000000000000000000000000001",
        "2147483647", "2147483648", "-2147483648", "-2147483649", "+-1", "١"] {
        assert_eq!(parse_u64(text), text.parse::<u64>().ok(), "u64 {:?}", text);
        assert_eq!(parse_u16(text), text.parse::<u16>().ok(), "u16 {:?}", text);
        assert_eq!(parse_usize(text), text.parse::<usize>().ok(), "usize {:?}", text);
        assert_eq!(parse_i32(text), text.parse::<i32>().ok(), "i32 {:?}", text);
        assert_eq!(parse_bool(text), text.parse::<bool>().ok(), "bool {:?}", text);
    }
    assert_eq!(parse_bool("true"), Some(true));
    assert_eq!(parse_bool("false"), Some(false));
    assert_eq!(parse_bool("True"), None);
    assert_eq!(parse_i32("-2147483648"), Some(i32::MIN));
    assert_eq!(parse_u64("18446744073709551615"), Some(u64::MAX));
}

#[test]
fn numbers_are_written_in_decimal() {
    for n in [0u64, 1, 9, 10, 11, 99, 100, 4096, 65535, u64::MAX] {
        assert_eq!(u64_to_string(n), n.to_string());
        assert_eq!(parse_u64(&u64_to_string(n)), Some(n));
    }
}

#[test]
fn map_keeps_one_value_for_each_key_in_insertion_order() {
    let mut m: StrMap<String> = StrMap::new();
    assert!(m.is_empty());
    m.insert("b".to_string(), "1".to_string());
    m.insert("a".to_string(), "2".to_string());
    m.insert("b".to_string(), "3".to_string());
    assert_eq!(m.len(), 2);
    assert_eq!(m.key_at(0), "b");
    assert_eq!(m.value_at(0), "3");
    assert_eq!(m.key_at(1), "a");
    assert_eq!(m.get("a"), Some(&"2".to_string()));
    assert_eq!(m.get("c"), None);
    assert!(m.contains_key("b"));
    let copy = m.duplicate();
    let clone = m.clone();
    m.clear();
    assert_eq!(m.len(), 0);
    assert_eq!(copy.len(), 2);
    assert_eq!(copy.get("b"), Some(&"3".to_string()));
    assert_eq!(clone.get("a"), Some(&"2".to_string()));
    assert_eq!(clone.key_at(0), "b");
}

const SAMPLES: [&str; 16] = [
    "",
    " ",
    "a",
    " a ",
    "\t\na b\r\n",
    "\u{a0}x\u{2003}y\u{3000}",
    "a+b+c",
    "+",
    "++",
    "k=v=w",
    "=",
    "a::b::C",
    "a:::b",
    "::",
    "http://h//p",
    "PROPERTIES",
];

#[test]
fn text_functions_agree_with_the_standard_library() {
    for a in SAMPLES {
        assert_eq!(str_trim(a), a.trim(), "trim {:?}", a);
        assert_eq!(str_is_blank(a), a.trim().is_empty(), "blank {:?}", a);
        for sep in ['+', '=', ':', '/'] {
            let expected: Vec<Vec<char>> = a.split(sep).map(chars).collect();
            assert_eq!(split_chars(&chars(a), sep), expected, "split {:?}", a);
            let once = a.split_once(sep).map(|(x, y)| (chars(x), chars(y)));
            assert_eq!(split_once_chars(&chars(a), sep), once, "split_once {:?}", a);
        }
        let name = match a.rsplit_once("::") {
            Some((_, r)) => r.to_string(),
            None => a.to_string(),
        };
        assert_eq!(get_type_name(a), name, "type name {:?}", a);
        let lines: Vec<Vec<char>> = a.lines().map(chars).collect();
        assert_eq!(lines_of(&chars(a)), lines, "lines {:?}", a);
        for b in SAMPLES {
            assert_eq!(str_eq(a, b), a == b);
            assert_eq!(str_eq_ignore_ascii_case(a, b), a.eq_ignore_ascii_case(b));
            assert_eq!(
                str_eq_ignore_ascii_case(&a.to_uppercase(), &b.to_lowercase()),
                a.to_uppercase().eq_ignore_ascii_case(&b.to_lowercase())
            );
            assert_eq!(chars_contain(&chars(a), &chars(b)), a.contains(b), "{:?} in {:?}", b, a);
        }
    }
}
