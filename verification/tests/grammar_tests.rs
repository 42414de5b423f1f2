use aurr_manager::grammar::{build_assignments, first_assignment_of, lines, referenced_names_of};

#[test]
fn variable_references() {
    assert_eq!(referenced_names_of("$A and $b_1/$2x $_c$D"), vec!["A", "b_1", "_c", "D"]);
    assert!(referenced_names_of("no vars $").is_empty());
}

#[test]
fn assignments_in_lines() {
    assert_eq!(first_assignment_of("x $K=\"v v\" $J=\"w\""), Some(("K".to_string(), "v v".to_string())));
    assert_eq!(first_assignment_of("$K=v"), None);
    assert_eq!(first_assignment_of("$K=\"\""), Some(("K".to_string(), String::new())));
    assert_eq!(lines("a\r\nb\n\nc"), vec!["a", "b", "", "c"]);
    assert_eq!(lines("a\n"), vec!["a"]);
    for s in ["", "\n", "x\r\n", "a\nb\r", "\r\n\r\n"] {
        assert_eq!(lines(s), s.lines().collect::<Vec<&str>>(), "{:?}", s);
    }
    assert_eq!(
        build_assignments("$A=\"1\"\n$B=\"2\""),
        vec![("A".to_string(), "1".to_string()), ("B".to_string(), "2".to_string())]
    );
}
