use bmcbl_windows::arith::{div_euclid_i32, rem_euclid_i32, sat_add_i32, sat_mul_i32, sat_mul_u64, sat_mul_usize, sat_sub_i32};
use bmcbl_windows::text::{
    append_decimal, char_to_ascii_lower, char_to_ascii_upper, chars_of, i64_to_text, lower_chars, parse_i32,
    str_eq, str_eq_ignore_ascii_case, trim_text, u64_to_text, upper_chars, vec_contains, vec_occurs_at,
};

#[test]
fn saturating_i32_operations_clamp() {
    assert_eq!(sat_add_i32(i32::MAX, 1), i32::MAX);
    assert_eq!(sat_add_i32(-5, 3), -2);
    assert_eq!(sat_sub_i32(i32::MIN, 1), i32::MIN);
    assert_eq!(sat_sub_i32(0, i32::MIN), i32::MAX);
    assert_eq!(sat_mul_i32(i32::MAX, 16), i32::MAX);
    assert_eq!(sat_mul_i32(-3, 16), -48);
    assert_eq!(sat_mul_usize(usize::MAX, 2), usize::MAX);
    assert_eq!(sat_mul_usize(7, 6), 42);
    assert_eq!(sat_mul_u64(u64::MAX / 2 + 1, 2), u64::MAX);
}

#[test]
fn euclidean_division_rounds_down() {
    assert_eq!(div_euclid_i32(-1, 16), -1);
    assert_eq!(div_euclid_i32(-16, 16), -1);
    assert_eq!(div_euclid_i32(-17, 16), -2);
    assert_eq!(div_euclid_i32(31, 16), 1);
    assert_eq!(rem_euclid_i32(-1, 16), 15);
    assert_eq!(rem_euclid_i32(33, 16), 1);
    assert_eq!(div_euclid_i32(i32::MIN, 16), i32::MIN / 16);
}

#[test]
fn ascii_case_mapping() {
    assert_eq!(char_to_ascii_upper('a'), 'A');
    assert_eq!(char_to_ascii_upper('é'), 'é');
    assert_eq!(char_to_ascii_lower('Z'), 'z');
    assert_eq!(upper_chars("Warn x"), "WARN X".chars().collect::<Vec<_>>());
    assert_eq!(lower_chars("MCPack"), "mcpack".chars().collect::<Vec<_>>());
    assert!(str_eq_ignore_ascii_case("MCWORLD", "mcworld"));
    assert!(!str_eq_ignore_ascii_case("mcworld", "mcworl"));
    assert!(str_eq("abc", "abc"));
    assert!(!str_eq("abc", "abd"));
}

#[test]
fn substring_search() {
    let hay = chars_of("graphics resource is unavailable");
    assert!(vec_contains(&hay, &chars_of("is unav")));
    assert!(!vec_contains(&hay, &chars_of("heap")));
    assert!(vec_occurs_at(&hay, &chars_of("graphics"), 0));
    assert!(!vec_occurs_at(&hay, &chars_of("graphics"), 1));
    assert!(vec_contains(&hay, &chars_of("")));
}

#[test]
fn parse_i32_matches_std() {
    for s in ["0", "-0", "+7", "-2147483648", "2147483647", "2147483648", "", "-", "+", "12a", " 1", "007"] {
        assert_eq!(parse_i32(s), s.parse::<i32>().ok(), "input {s:?}");
    }
}

#[test]
fn decimal_text_matches_to_string() {
    for x in [0u64, 7, 10, 12345, u64::MAX] {
        assert_eq!(u64_to_text(x), x.to_string());
    }
    for x in [0i64, -1, 42, i64::MIN, i64::MAX] {
        assert_eq!(i64_to_text(x), x.to_string());
    }
    let mut s = String::from("n=");
    append_decimal(&mut s, 305);
    assert_eq!(s, "n=305");
}

#[test]
fn trim_matches_std() {
    for s in ["  a b  ", "\t\nx", "", "   ", "\u{3000}gpu\u{3000}"] {
        assert_eq!(trim_text(s), s.trim());
    }
}

#[test]
fn shown_numbers_parse_back() {
    for v in [0i32, 1, -1, 9, 10, -10, 123_456, i32::MAX, i32::MIN] {
        assert_eq!(parse_i32(&i64_to_text(v as i64)), Some(v));
    }
}
