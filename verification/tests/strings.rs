use url_shortener::utils::strings::{
    chars_of, contains, generate_random_string, get_host_header, i64_to_string, join,
    key_of_picks, parse_u16, split, starts_with, str_eq, u64_to_string,
};

#[test]
fn random_string_has_requested_length() {
    let rand_str = generate_random_string(5);
    assert_eq!(rand_str.len(), 5);
}

#[test]
fn random_string_of_no_length_is_empty() {
    assert_eq!(generate_random_string(0), "");
}

#[test]
fn random_string_holds_only_key_characters() {
    let s = generate_random_string(400);
    assert_eq!(s.chars().count(), 400);
    assert!(s.chars().all(|c| c.is_ascii_lowercase() || c.is_ascii_digit()));
}

#[test]
fn random_strings_differ() {
    let a = generate_random_string(32);
    let b = generate_random_string(32);
    assert_ne!(a, b);
}

#[test]
fn prefix_and_infix() {
    assert!(starts_with("https://a", "http"));
    assert!(starts_with("abc", ""));
    assert!(!starts_with("htt", "http"));
    assert!(!starts_with("xhttp", "http"));
    assert!(contains("my.localhost:3000", "localhost"));
    assert!(contains("abc", ""));
    assert!(contains("abc", "c"));
    assert!(!contains("local", "localhost"));
    assert!(!contains("", "a"));
}

#[test]
fn prefix_and_infix_count_characters_not_bytes() {
    assert!(starts_with("éa", "é"));
    assert!(contains("aéb", "éb"));
    assert!(!contains("aéb", "eb"));
}

#[test]
fn strings_compare_by_content() {
    assert!(str_eq("abc", "abc"));
    assert!(str_eq("", ""));
    assert!(!str_eq("abc", "abd"));
    assert!(!str_eq("abc", "ab"));
}

#[test]
fn join_keeps_the_order() {
    assert_eq!(join("ab", "cd"), "abcd");
    assert_eq!(join("", "cd"), "cd");
}

#[test]
fn host_header_without_protocol_is_kept() {
    assert_eq!(get_host_header("example.com", false), "example.com");
    assert_eq!(get_host_header("localhost:3000", false), "localhost:3000");
}

#[test]
fn host_header_gets_https() {
    assert_eq!(get_host_header("example.com", true), "https://example.com");
}

#[test]
fn host_header_of_localhost_is_the_local_address() {
    assert_eq!(get_host_header("localhost:3000", true), "http://localhost:8080");
    assert_eq!(get_host_header("my.localhost", true), "http://localhost:8080");
}

#[test]
fn host_header_that_begins_with_http_is_kept() {
    assert_eq!(get_host_header("http.example.com", true), "http.example.com");
    assert_eq!(get_host_header("https://example.com", true), "https://example.com");
}

#[test]
fn split_gives_one_piece_more_than_separators() {
    assert_eq!(split("a,b,c", ','), vec!["a", "b", "c"]);
    assert_eq!(split("", ','), vec![""]);
    assert_eq!(split(",", ','), vec!["", ""]);
    assert_eq!(split("a,,b,", ','), vec!["a", "", "b", ""]);
    assert_eq!(split("abc", ','), vec!["abc"]);
}

#[test]
fn split_agrees_with_std() {
    for text in ["", ",", "1,2", " 1 , 2 ", ",,,", "é,ü", "no comma"] {
        let expected: Vec<String> = text.split(',').map(|p| p.to_string()).collect();
        assert_eq!(split(text, ','), expected);
    }
}

#[test]
fn decimal_of_unsigned_numbers() {
    assert_eq!(u64_to_string(0), "0");
    assert_eq!(u64_to_string(7), "7");
    assert_eq!(u64_to_string(10), "10");
    assert_eq!(u64_to_string(8080), "8080");
    assert_eq!(u64_to_string(u64::MAX), "18446744073709551615");
}

#[test]
fn decimal_of_signed_numbers() {
    assert_eq!(i64_to_string(0), "0");
    assert_eq!(i64_to_string(42), "42");
    assert_eq!(i64_to_string(-1), "-1");
    assert_eq!(i64_to_string(i64::MAX), "9223372036854775807");
    assert_eq!(i64_to_string(i64::MIN), "-9223372036854775808");
}

#[test]
fn decimal_agrees_with_std() {
    for n in [1u64, 9, 99, 100, 101, 65_535, 1_000_000_007] {
        assert_eq!(u64_to_string(n), n.to_string());
        assert_eq!(i64_to_string(-(n as i64)), (-(n as i64)).to_string());
    }
}

#[test]
fn parse_u16_reads_numbers() {
    assert_eq!(parse_u16("0"), Some(0));
    assert_eq!(parse_u16("8080"), Some(8080));
    assert_eq!(parse_u16("+3000"), Some(3000));
    assert_eq!(parse_u16("007"), Some(7));
    assert_eq!(parse_u16("65535"), Some(65535));
}

#[test]
fn parse_u16_rejects_what_is_no_number() {
    assert_eq!(parse_u16(""), None);
    assert_eq!(parse_u16("+"), None);
    assert_eq!(parse_u16("-1"), None);
    assert_eq!(parse_u16("65536"), None);
    assert_eq!(parse_u16("99999999999999999999"), None);
    assert_eq!(parse_u16(" 80"), None);
    assert_eq!(parse_u16("80 "), None);
    assert_eq!(parse_u16("8o"), None);
    assert_eq!(parse_u16("++1"), None);
    assert_eq!(parse_u16("１２"), None);
}

#[test]
fn parse_u16_agrees_with_std() {
    for text in ["", "+", "-", "-0", "+0", "0", "00", "1", "65535", "65536", "6553a", "+65535", "1 ", "٣"] {
        assert_eq!(parse_u16(text), text.parse::<u16>().ok());
    }
}

#[test]
fn key_is_made_of_the_characters_that_were_picked() {
    assert_eq!(key_of_picks(&vec![0, 1, 25, 26, 35]), "abz09");
    assert_eq!(key_of_picks(&vec![]), "");
}

#[test]
fn picks_count_round_the_alphabet() {
    assert_eq!(key_of_picks(&vec![36, 37, 71, usize::MAX]), format!("ab9{}", key_of_picks(&vec![usize::MAX % 36])));
}

#[test]
fn chars_are_the_characters_in_order() {
    assert_eq!(chars_of("aé🦀"), vec!['a', 'é', '🦀']);
    assert!(chars_of("").is_empty());
}
