use chat_service::text::{chars_of, i64_to_string, join_ascii_words, parse_i64, push_json_string, strip_bearer};

#[test]
fn join_words_of_cors_setting() {
    assert_eq!(join_ascii_words("  http://a.com\thttp://b.com \n", ','), "http://a.com,http://b.com");
    assert_eq!(join_ascii_words("", ','), "");
    assert_eq!(join_ascii_words(" \t ", ','), "");
    assert_eq!(join_ascii_words("one", ','), "one");
}

#[test]
fn parse_i64_like_std() {
    for s in ["0", "+5", "-5", "9223372036854775807", "-9223372036854775808", "9223372036854775808", "-", "+", "", "12a", " 1", "007"] {
        assert_eq!(parse_i64(s), s.parse::<i64>().ok(), "input {:?}", s);
    }
}

#[test]
fn strip_bearer_prefixes() {
    assert_eq!(strip_bearer("Bearer abc.def.ghi"), "abc.def.ghi");
    assert_eq!(strip_bearer("BearerBearer  x \u{3000}"), "x");
    assert_eq!(strip_bearer("abc"), "abc");
    assert_eq!(strip_bearer("  Bearer x"), "Bearer x");
}

#[test]
fn integers_to_text() {
    assert_eq!(i64_to_string(i64::MIN), i64::MIN.to_string());
    assert_eq!(i64_to_string(-42), "-42");
    assert_eq!(i64_to_string(0), "0");
}

#[test]
fn json_strings_escape_like_serde_json() {
    for s in ["plain", "quote\"back\\slash", "ctl\u{1}\u{8}\u{c}\n\r\t\u{1f}", "uni é \u{7f}", ""] {
        let mut out = String::new();
        push_json_string(&mut out, s);
        assert_eq!(out, serde_json::to_string(s).unwrap());
    }
}

#[test]
fn chars_round_trip() {
    let s = "héllo wörld";
    assert_eq!(chars_of(s), s.chars().collect::<Vec<char>>());
}

#[test]
fn single_word_kept_and_separator_used() {
    assert_eq!(join_ascii_words("http://only.example", ','), "http://only.example");
    assert_eq!(join_ascii_words("a b", ';'), "a;b");
    // vertical tab is not ASCII whitespace for split_ascii_whitespace
    assert_eq!(join_ascii_words("a\u{b}b c", ','), "a\u{b}b,c");
}

#[test]
fn decimal_reads_back() {
    for n in [0i64, 1, -1, 60, 300, i64::MAX, i64::MIN, 1234567890] {
        assert_eq!(parse_i64(&i64_to_string(n)), Some(n));
    }
}
