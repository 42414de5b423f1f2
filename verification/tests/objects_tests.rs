use aurr_manager::error::AurrError;
use aurr_manager::generate::GrantKind;
use aurr_manager::kv::StringMap;
use aurr_manager::names::HasName;
use aurr_manager::objects::{
    file_name, object_index_location, AurrObject, AurrObjectConfig, AurrObjectTaskList, AurrObjectType, TaskAction,
    TaskTable,
};
use aurr_manager::cloud::{AzureCloudResource, CloudResource};
use aurr_manager::shell::Shell;
use aurr_manager::table::SortedTable;

fn strings(v: &[&str]) -> Vec<String> {
    v.iter().map(|s| s.to_string()).collect()
}

fn velo(shell: Shell) -> AurrObject {
    let mut tasks = TaskTable::new();
    tasks.insert(AurrObjectTaskList::AtTarget, Some(strings(&["Expand-Archive x.zip"])));
    tasks.insert(AurrObjectTaskList::GenConfVar, Some(strings(&["VELO_UPLOAD_URL"])));
    tasks.insert(AurrObjectTaskList::Build, None);
    let mut call = SortedTable::new();
    call.insert("Default".to_string(), strings(&["./velo.exe", "--out", "$OUT/dump", "$NOPE"]));
    call.insert("Plain".to_string(), strings(&["run"]));
    AurrObject::from_parts(
        "Velo".to_string(),
        AurrObjectType::Tool,
        "Jonas".to_string(),
        "VELO".to_string(),
        "meta".to_string(),
        shell,
        "C:\\tools\\velo.exe".to_string(),
        tasks,
        call,
    )
}

#[test]
fn file_name_as_path_gives_it() {
    for p in ["a/b/c.txt", "a/b/", "c", "", "/", "..", "a/..", "a/.", ".", "./", "/.", "x/./", "a//b", ".hidden"] {
        let expected = std::path::Path::new(p).file_name().map(|s| s.to_string_lossy().to_string());
        assert_eq!(file_name(p), expected, "{}", p);
    }
}

#[test]
fn object_from_path() {
    let o = AurrObject::new_from_path("data/tools/key.pub", Shell::Bash, true).unwrap();
    assert_eq!(o.name(), "key.pub");
    assert_eq!(o.local_path(), "data/tools/key.pub");
    assert_eq!(o.config_tag(), "");
    assert_eq!(o.target_shell(), Shell::Bash);
    assert_eq!(o.get_task_value(AurrObjectTaskList::AtTarget), None);
    assert!(o.pending_tasks().is_empty());
    let e = AurrObject::new_from_path("missing.txt", Shell::Bash, false);
    assert!(matches!(e, Err(AurrError::FileNotFound(p)) if p == "missing.txt"));
}

#[test]
fn task_values_and_pending_tasks() {
    let o = velo(Shell::Powershell);
    assert_eq!(o.get_task_value(AurrObjectTaskList::AtTarget), Some(strings(&["Expand-Archive x.zip"])));
    assert_eq!(o.get_task_value(AurrObjectTaskList::Build), None);
    assert_eq!(o.get_task_value(AurrObjectTaskList::ReqObj), None);
    assert_eq!(
        o.pending_tasks(),
        vec![AurrObjectTaskList::GenConfVar, AurrObjectTaskList::Build]
    );
    match o.task_action(AurrObjectTaskList::GenConfVar) {
        TaskAction::Run(t, v) => {
            assert_eq!(t, AurrObjectTaskList::GenConfVar);
            assert_eq!(v, strings(&["VELO_UPLOAD_URL"]));
        }
        TaskAction::Nothing => panic!("expected a run"),
    }
    assert!(matches!(o.task_action(AurrObjectTaskList::Build), TaskAction::Nothing));
}

#[test]
fn task_names_parse_in_any_case() {
    assert_eq!(AurrObjectTaskList::parse("GENENVVAR"), Ok(AurrObjectTaskList::GenEnvVar));
    assert_eq!(AurrObjectTaskList::parse("AtTarget"), Ok(AurrObjectTaskList::AtTarget));
    assert_eq!(AurrObjectTaskList::parse("nope"), Err(()));
    assert_eq!(AurrObjectTaskList::ReqObj.to_string(), "ReqObj");
    assert_eq!(AurrObjectType::File.to_string(), "File");
}

#[test]
fn cmdline_takes_environment_before_configuration() {
    let o = velo(Shell::Bash);
    let mut cfg = AurrObjectConfig::new_empty();
    cfg.add("OUT".to_string(), "/from/config".to_string());
    let mut env = StringMap::new();
    assert_eq!(
        o.get_cmdline("Default", &cfg, &env),
        Some("./velo.exe --out /from/config/dump <CLOUD NOT FIND ENTRY: \"NOPE\" in env or provided config> ".to_string())
    );
    env.insert("OUT".to_string(), "/from/env".to_string());
    assert_eq!(
        o.get_cmdline("Default", &cfg, &env),
        Some("./velo.exe --out /from/env/dump <CLOUD NOT FIND ENTRY: \"NOPE\" in env or provided config> ".to_string())
    );
    assert_eq!(o.get_cmdline("Plain", &cfg, &env), Some("run ".to_string()));
    assert_eq!(o.get_cmdline("Missing", &cfg, &env), None);
}

#[test]
fn commands_to_bring_an_object() {
    let o = velo(Shell::Powershell);
    assert_eq!(
        o.download_command("https://u"),
        "iwr -useb 'https://u' -Outfile velo.exe"
    );
    let cmds = o.cloudify_commands(strings(&["prep"]), "https://u");
    assert_eq!(
        cmds,
        strings(&["prep", "iwr -useb 'https://u' -Outfile velo.exe", "Expand-Archive x.zip"])
    );
    let b = velo(Shell::Bash);
    assert_eq!(b.download_command("U"), "curl -L \"U\" -o ./velo.exe");
}

#[test]
fn build_output_assignments_enter_the_configuration() {
    let mut cfg = AurrObjectConfig::new_empty();
    cfg.add("A".to_string(), "old".to_string());
    cfg.add_assignments("noise\n$A=\"1\"\r\n x $B=\"two words\" $C=\"3\"\n$bad\n$D=\"unterminated\n");
    assert_eq!(cfg.get("A"), Some("1".to_string()));
    assert_eq!(cfg.get("B"), Some("two words".to_string()));
    assert_eq!(cfg.get("C"), None);
    assert_eq!(cfg.get("D"), None);
}

#[test]
fn read_timeout_defaults_to_twelve() {
    let mut cfg = AurrObjectConfig::new_empty();
    assert_eq!(cfg.read_timeout(), 12);
    cfg.add("CLOUD_TOKEN_READ_TIMEOUT".to_string(), "x".to_string());
    assert_eq!(cfg.read_timeout(), 12);
    cfg.add("CLOUD_TOKEN_READ_TIMEOUT".to_string(), "3".to_string());
    assert_eq!(cfg.read_timeout(), 3);
}

#[test]
fn cloudify_location_prefers_configuration() {
    let mut cfg = AurrObjectConfig::new_empty();
    let mut env = StringMap::new();
    let fresh = cfg.cloudify_location(&env);
    assert_eq!(fresh.len(), 36);
    env.insert("CLOUD_DEFAULT_UPLOAD_LOCATION".to_string(), "envloc".to_string());
    assert_eq!(cfg.cloudify_location(&env), "envloc");
    cfg.add("CLOUD_DEFAULT_UPLOAD_LOCATION".to_string(), "cfgloc".to_string());
    assert_eq!(cfg.cloudify_location(&env), "cfgloc");
}

#[test]
fn variable_generation_requests() {
    let o = velo(Shell::Bash);
    let mut cfg = AurrObjectConfig::new_empty();
    let mut env = StringMap::new();
    let r = o.gen_var_request("VELO_UPLOAD_URL", &cfg, &env, "Azure");
    assert!(matches!(r, Err(AurrError::MissingUploadLocation)));
    cfg.add("CLOUD_DEFAULT_UPLOAD_LOCATION".to_string(), "cfgcase".to_string());
    cfg.add("CLOUD_TOKEN_UPLOAD_TIMEOUT".to_string(), "5".to_string());
    let r = o.gen_var_request("VELO_UPLOAD_URL", &cfg, &env, "S3");
    assert!(matches!(r, Err(AurrError::UnsupportedCloudType(t)) if t == "S3"));
    let r = o.gen_var_request("VELO_DOWNLOAD", &cfg, &env, "Azure");
    assert!(matches!(r, Err(AurrError::UnsupportedParameter(p)) if p == "VELO_DOWNLOAD"));
    env.insert("CLOUD_DEFAULT_UPLOAD_LOCATION".to_string(), "envcase".to_string());
    let q = o.gen_var_request("VELO_UPLOAD_TOKEN", &cfg, &env, "Azure").unwrap();
    assert_eq!(q.kind, GrantKind::UploadToken);
    assert_eq!(q.timeout, 5);
    assert!(matches!(q.resource, CloudResource::Azure(AzureCloudResource::Container(c)) if c == "envcase"));
    let q = o.gen_var_request("X_UPLOAD_URL", &cfg, &env, "Azure").unwrap();
    assert_eq!(q.kind, GrantKind::UploadUrl);
}

#[test]
fn listing_an_object() {
    let o = velo(Shell::Bash);
    let short = o.ls(false, "[TRUE]");
    assert_eq!(
        short,
        format!(
            "\n        {:<15} {}\n        {:<15} {}\n        {:<15} {}\n        {:<15} {}\n        {:<15} {}\n        {:<15} {}\n        {:<15} {}\n        {:<15} {}\n",
            "name:", "Velo", "object_type:", "Tool", "author:", "Jonas", "config_tag:", "VELO",
            "target_shell:", "Bash", "metadata:", "meta", "local_path:", "C:\\tools\\velo.exe",
            "exists:", "[TRUE]"
        )
    );
    let full = o.ls(true, "[FALSE]");
    assert!(full.starts_with(&short.replace("[TRUE]", "[FALSE]")));
    let tail = &full[short.replace("[TRUE]", "[FALSE]").len()..];
    assert_eq!(
        tail,
        format!(
            "        {:<15} {}\n        {:<15} {}\n",
            "task_list:",
            "\n            GenConfVar: [\"VELO_UPLOAD_URL\"]\n            Build: \n            AtTarget: [\"Expand-Archive x.zip\"]",
            "call:",
            "\n            Default \"./velo.exe\", \"--out\", \"$OUT/dump\", \"$NOPE\"\n            Plain \"run\""
        )
    );
}

#[test]
fn object_index_from_environment_then_configuration() {
    let mut cfg = StringMap::new();
    let mut env = StringMap::new();
    assert_eq!(object_index_location(&cfg, &env), Err(AurrError::MissingObjectIndex));
    cfg.insert("LOCAL_AURROBJECT_INDEX".to_string(), "cfg.json".to_string());
    assert_eq!(object_index_location(&cfg, &env), Ok("cfg.json".to_string()));
    env.insert("LOCAL_AURROBJECT_INDEX".to_string(), "env.json".to_string());
    assert_eq!(object_index_location(&cfg, &env), Ok("env.json".to_string()));
}

#[test]
fn tasks_from_str() {
    assert_eq!("reqObj".parse::<AurrObjectTaskList>(), Ok(AurrObjectTaskList::ReqObj));
    assert_eq!("other".parse::<AurrObjectTaskList>(), Err(()));
}

#[test]
fn each_reference_takes_the_longest_name_where_it_stands() {
    let mut call = SortedTable::new();
    call.insert("Default".to_string(), strings(&["$A-$AB"]));
    call.insert("Edge".to_string(), strings(&["$", "a$1", "$$B", "x$A_1y"]));
    let o = AurrObject::from_parts(
        "t".to_string(),
        AurrObjectType::Tool,
        String::new(),
        String::new(),
        String::new(),
        Shell::Bash,
        "t".to_string(),
        TaskTable::new(),
        call,
    );
    let mut cfg = AurrObjectConfig::new_empty();
    cfg.add("A".to_string(), "1".to_string());
    cfg.add("AB".to_string(), "2".to_string());
    cfg.add("B".to_string(), "b".to_string());
    cfg.add("A_1y".to_string(), "z".to_string());
    let env = StringMap::new();
    assert_eq!(o.get_cmdline("Default", &cfg, &env), Some("1-2 ".to_string()));
    assert_eq!(o.get_cmdline("Edge", &cfg, &env), Some("$ a$1 $b xz ".to_string()));
}

#[test]
fn configuration_reads_back_what_was_added() {
    let mut cfg = AurrObjectConfig::new_empty();
    cfg.add("K".to_string(), "1".to_string());
    cfg.add("L".to_string(), "2".to_string());
    cfg.add("K".to_string(), "3".to_string());
    assert_eq!(cfg.get("K"), Some("3".to_string()));
    assert_eq!(cfg.get("L"), Some("2".to_string()));
}

#[test]
fn task_names_read_back_in_lower_case() {
    for t in [
        AurrObjectTaskList::GenEnvVar,
        AurrObjectTaskList::GenConfVar,
        AurrObjectTaskList::Build,
        AurrObjectTaskList::Alter,
        AurrObjectTaskList::ReqObj,
        AurrObjectTaskList::AtTarget,
    ] {
        assert_eq!(AurrObjectTaskList::from_lowercase(&t.to_string().to_ascii_lowercase()), Ok(t));
        assert_eq!(AurrObjectTaskList::parse(&t.to_string().to_uppercase()), Ok(t));
    }
}

#[test]
fn task_names_are_read_ignoring_case_and_others_refused() {
    assert_eq!(AurrObjectTaskList::parse("ATTARGET"), Ok(AurrObjectTaskList::AtTarget));
    assert_eq!(AurrObjectTaskList::parse("gEnCoNfVaR"), Ok(AurrObjectTaskList::GenConfVar));
    assert_eq!(AurrObjectTaskList::parse("compile"), Err(()));
    assert_eq!(AurrObjectTaskList::parse("build "), Err(()));
    assert_eq!("REQOBJ".parse::<AurrObjectTaskList>(), Ok(AurrObjectTaskList::ReqObj));
    assert_eq!("".parse::<AurrObjectTaskList>(), Err(()));
}
