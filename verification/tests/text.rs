use wsprrs_web::text::{
    chars_of, parse_i32, parse_i64, parse_u32, parse_u64, parse_u8, push_i64, push_u64,
    split_commas_str, to_ascii_upper, trim_str,
};

#[test]
fn decimal_formatting_matches_display() {
    for n in [0i64, 7, -7, 10, 1_234_567, i64::MIN, i64::MAX] {
        let mut s = String::new();
        push_i64(&mut s, n);
        assert_eq!(s, n.to_string());
    }
    let mut s = String::from("x=");
    push_u64(&mut s, u64::MAX);
    assert_eq!(s, format!("x={}", u64::MAX));
}

#[test]
fn parsing_matches_std() {
    let inputs = ["", "+", "-", "0", "+5", "-5", "-0", "42", "007", "4294967295", "4294967296",
        "255", "256", "9223372036854775807", "9223372036854775808", "-9223372036854775808",
        "-9223372036854775809", "18446744073709551615", "18446744073709551616", "1 2", " 1", "1e3",
        "١٢", "99999999999999999999999999"];
    for s in inputs {
        assert_eq!(parse_u64(s), s.parse::<u64>().ok(), "u64 {s:?}");
        assert_eq!(parse_u32(s), s.parse::<u32>().ok(), "u32 {s:?}");
        assert_eq!(parse_u8(s), s.parse::<u8>().ok(), "u8 {s:?}");
        assert_eq!(parse_i32(s), s.parse::<i32>().ok(), "i32 {s:?}");
        assert_eq!(parse_i64(s), s.parse::<i64>().ok(), "i64 {s:?}");
    }
}

#[test]
fn printed_numbers_parse_back() {
    for n in [i64::MIN, -1, 0, 1, i64::MAX] {
        let mut s = String::new();
        push_i64(&mut s, n);
        assert_eq!(parse_i64(&s), Some(n));
    }
}

#[test]
fn trim_and_split_match_std() {
    for s in ["", " a ", "\t\u{3000}x y\u{85}", "   ", "a,b", ",a,,b,", " w3pog , n0call "] {
        assert_eq!(trim_str(s), s.trim());
        let pieces: Vec<String> = s.split(',').map(|p| p.to_string()).collect();
        assert_eq!(split_commas_str(s), pieces);
    }
}

#[test]
fn ascii_upper_and_chars() {
    assert_eq!(to_ascii_upper("fn20eg-é"), "FN20EG-é");
    assert_eq!(chars_of("aé"), vec!['a', 'é']);
}
