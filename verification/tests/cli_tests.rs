use aurr_manager::cli::{
    confirmed, filter_matches, log_file_name, setup_confirmed, CaseSource, RunObject,
};
use aurr_manager::error::AurrError;

#[test]
fn case_source_prefers_the_path() {
    let r = RunObject::Case { path: Some("p.json".to_string()), name: Some("n".to_string()) };
    assert!(matches!(r.case_source(), Ok(CaseSource::Path(p)) if p == "p.json"));
    let r = RunObject::Case { path: None, name: Some("n".to_string()) };
    assert!(matches!(r.case_source(), Ok(CaseSource::Name(n)) if n == "n"));
    let r = RunObject::Case { path: None, name: None };
    assert!(matches!(r.case_source(), Err(AurrError::NoCaseGiven)));
}

#[test]
fn filters_and_answers() {
    assert!(filter_matches("name: velo", &None));
    assert!(filter_matches("name: velo", &Some("velo".to_string())));
    assert!(!filter_matches("name: velo", &Some("surge".to_string())));
    assert!(confirmed("yes"));
    assert!(!confirmed("yes\n"));
    assert!(!confirmed("YES"));
}

#[test]
fn log_file_names_carry_the_time() {
    assert_eq!(log_file_name("./log/aurr.log", "T"), "./log/aurr_T.log");
    assert_eq!(log_file_name("./log/", "T"), "./log/_T");
    assert_eq!(log_file_name("./log/app", "T"), "./log/app_T");
    assert_eq!(log_file_name("dir.d/file", "S"), "dir.d/file_S");
    assert_eq!(log_file_name("dir.d/f.txt", "S"), "dir.d/f_S.txt");
    assert_eq!(log_file_name("a.b.c", "T"), "a.b_T.c");
    assert_eq!(log_file_name("noext", "T"), "noext_T");
    for p in ["x.y", ".hidden", "trail."] {
        let parts: Vec<&str> = p.rsplitn(2, '.').collect();
        assert_eq!(log_file_name(p, "S"), format!("{}_{}.{}", parts[1], "S", parts[0]), "{}", p);
    }
}

#[test]
fn local_setup_answers() {
    assert!(setup_confirmed("Yes\n"));
    assert!(setup_confirmed("oh YES please"));
    assert!(!setup_confirmed("no"));
}
