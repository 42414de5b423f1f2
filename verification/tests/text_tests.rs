use aurr_manager::text::{
    concat_terminated, contains, decimal_string, ends_with, first_piece_of, is_all_ascii_alpha,
    join, last_piece_of, padded, parse_u8, replace, split_once, to_ascii_lower,
};

#[test]
fn parse_u8_reads_bytes() {
    assert_eq!(parse_u8("0"), Some(0));
    assert_eq!(parse_u8("12"), Some(12));
    assert_eq!(parse_u8("+255"), Some(255));
    assert_eq!(parse_u8("256"), None);
    assert_eq!(parse_u8(""), None);
    assert_eq!(parse_u8("+"), None);
    assert_eq!(parse_u8("-1"), None);
    assert_eq!(parse_u8("1a"), None);
    assert_eq!(parse_u8("007"), Some(7));
}

#[test]
fn parse_u8_agrees_with_std() {
    for s in ["0", "9", "10", "99", "100", "255", "256", "+4", "", "x", "1 ", "00255"] {
        assert_eq!(parse_u8(s), s.parse::<u8>().ok(), "{}", s);
    }
}

#[test]
fn decimal_round_trip_for_every_byte() {
    for n in 0..=255u8 {
        let s = decimal_string(n as u64);
        assert_eq!(s, n.to_string());
        assert_eq!(parse_u8(&s), Some(n));
    }
    assert_eq!(decimal_string(1234567), "1234567");
}

#[test]
fn replace_all_occurrences() {
    assert_eq!(replace("a\\b\\c", "\\", "/"), "a/b/c");
    assert_eq!(replace("aaa", "aa", "b"), "ba");
    assert_eq!(replace("abc", "", "-"), "-a-b-c-");
    assert_eq!(replace("abc", "x", "y"), "abc");
    for (s, p, r) in [("xyxy", "xy", "z"), ("hello", "l", "L"), ("", "a", "b"), ("ab", "", "")] {
        assert_eq!(replace(s, p, r), s.replace(p, r));
    }
}

#[test]
fn pieces_of_paths() {
    assert_eq!(last_piece_of("a/b/c.exe", '/'), "c.exe");
    assert_eq!(last_piece_of("noslash", '/'), "noslash");
    assert_eq!(last_piece_of("dir/", '/'), "");
    assert_eq!(first_piece_of("cont/blob/x", '/'), "cont");
    assert_eq!(first_piece_of("cont", '/'), "cont");
}

#[test]
fn joining_and_padding() {
    let parts = vec!["a".to_string(), "b".to_string(), "c".to_string()];
    assert_eq!(join(&parts, ", "), "a, b, c");
    assert_eq!(join(&Vec::new(), ", "), "");
    assert_eq!(concat_terminated(&parts, ";"), "a;b;c;");
    assert_eq!(padded("ab", 5), "ab   ");
    assert_eq!(padded("abcdef", 3), "abcdef");
    assert_eq!(padded("name:", 15), format!("{:<15}", "name:"));
}

#[test]
fn searching_text() {
    assert!(contains("CLOUD_DEFAULT", "DEFAULT"));
    assert!(contains("x", ""));
    assert!(!contains("ab", "abc"));
    assert!(ends_with("VELO_UPLOAD_TOKEN", "UPLOAD_TOKEN"));
    assert!(!ends_with("TOKEN", "UPLOAD_TOKEN"));
    assert_eq!(split_once("a/b/c", "/"), Some(("a".to_string(), "b/c".to_string())));
    assert_eq!(split_once("a::b", "::"), Some(("a".to_string(), "b".to_string())));
    assert_eq!(split_once("abc", "/"), None);
}

#[test]
fn ascii_case_and_letters() {
    assert_eq!(to_ascii_lower("CaseName_Ä"), "casename_Ä");
    assert!(is_all_ascii_alpha("abcXYZ"));
    assert!(!is_all_ascii_alpha("abc1"));
    assert!(is_all_ascii_alpha(""));
}

#[test]
fn one_line_joins_in_parts() {
    let a = vec!["mkdir w".to_string(), "cd w".to_string()];
    let b = vec!["run".to_string()];
    let mut ab = a.clone();
    ab.extend(b.clone());
    assert_eq!(concat_terminated(&ab, ";"), concat_terminated(&a, ";") + &concat_terminated(&b, ";"));
    assert_eq!(concat_terminated(&ab, ";"), "mkdir w;cd w;run;");
}
