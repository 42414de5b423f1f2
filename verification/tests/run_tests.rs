use aurr_manager::cloud::{AzureCloudResource, CloudResource};
use aurr_manager::error::AurrError;
use aurr_manager::kv::{ConfigTable, StringMap};
use aurr_manager::names::HasName;
use aurr_manager::objects::{AurrObject, AurrObjectType, TaskTable};
use aurr_manager::run::{CaseRun, PushRun};
use aurr_manager::shell::Shell;
use aurr_manager::table::SortedTable;
use aurr_manager::template::{CaseTemplate, TaskTemplate};
use aurr_manager::tools::{StepTable, Tool};

fn strings(v: &[&str]) -> Vec<String> {
    v.iter().map(|s| s.to_string()).collect()
}

fn config() -> ConfigTable {
    let mut c = ConfigTable::new();
    c.set("linux_workdir_remote".to_string(), "/tmp/aurr".to_string());
    c.set("cloud_token_read_timeout".to_string(), "4".to_string());
    c.set("velo_out".to_string(), "/o".to_string());
    c.set("CLOUD_DEFAULT_UPLOAD_LOCATION".to_string(), "old".to_string());
    c.set("CLOUD_TOKEN_UPLOAD_TIMEOUT".to_string(), "1".to_string());
    c
}

fn case(name: &str, os: &str) -> CaseTemplate {
    let mut velo_calls = SortedTable::new();
    velo_calls.insert("velo".to_string(), strings(&["Default", "Missing", "Second"]));
    let mut tasks: SortedTable<Option<SortedTable<Vec<String>>>> = SortedTable::new();
    tasks.insert("2 triage".to_string(), None);
    tasks.insert("1 memory".to_string(), Some(velo_calls));
    let t = TaskTemplate::new("T".to_string(), os.to_string(), Shell::Bash, tasks);
    CaseTemplate::from_parts(name.to_string(), "host".to_string(), t)
}

fn objects() -> SortedTable<AurrObject> {
    let mut call = SortedTable::new();
    call.insert("Default".to_string(), strings(&["./velo", "--out", "$velo_out"]));
    call.insert("Second".to_string(), strings(&["./velo", "$WHERE"]));
    let o = AurrObject::from_parts(
        "velo".to_string(),
        AurrObjectType::Tool,
        "a".to_string(),
        "velo".to_string(),
        "m".to_string(),
        Shell::Bash,
        "/x/velo".to_string(),
        TaskTable::new(),
        call,
    );
    let mut t = SortedTable::new();
    t.insert("velo".to_string(), o);
    t
}

#[test]
fn a_case_run_gives_one_line() {
    let c = case("CaseA", "Ubuntu Linux");
    let cfg = config();
    let tools = objects();
    let mut run = CaseRun::start(&c, &cfg).unwrap();
    let (tool, tool_cfg) = run.next_tool(&tools, &cfg).unwrap().unwrap();
    assert_eq!(tool.name(), "velo");
    assert_eq!(tool_cfg.get("CLOUD_DEFAULT_UPLOAD_LOCATION"), Some("casea".to_string()));
    assert_eq!(tool_cfg.get("velo_out"), Some("/o".to_string()));
    assert_eq!(tool_cfg.get("linux_workdir_remote"), None);
    let mut env = StringMap::new();
    env.insert("WHERE".to_string(), "here".to_string());
    run.record(&tools, strings(&["prep 1", "prep 2"]), &tool_cfg, &env);
    assert!(run.next_tool(&tools, &cfg).unwrap().is_none());
    assert_eq!(
        run.finish(),
        "mkdir /tmp/aurr;cd /tmp/aurr;prep 1;prep 2;./velo --out /o ;./velo here ;cd ../../;rm -r /tmp/aurr;"
    );
}

#[test]
fn a_case_name_must_be_letters() {
    let c = case("Case-1", "linux");
    assert!(matches!(CaseRun::start(&c, &config()), Err(AurrError::InvalidCaseName(n)) if n == "Case-1"));
    assert!(matches!(PushRun::start(&c, &config(), 3), Err(AurrError::InvalidCaseName(_))));
}

#[test]
fn a_missing_tool_stops_the_run() {
    let c = case("casea", "linux");
    let cfg = config();
    let run = CaseRun::start(&c, &cfg).unwrap();
    let none: SortedTable<AurrObject> = SortedTable::new();
    assert!(matches!(run.next_tool(&none, &cfg), Err(AurrError::ToolNotFound(n)) if n == "velo"));
}

#[test]
fn starting_needs_a_system_and_its_directory() {
    let cfg = config();
    assert!(CaseRun::try_start(&case("casea", "plan9"), &cfg).is_none());
    assert!(CaseRun::try_start(&case("casea", "Windows 11"), &cfg).is_none());
    assert!(matches!(CaseRun::try_start(&case("casea", "LINUX"), &cfg), Some(Ok(_))));
    assert!(PushRun::try_start(&case("casea", "plan9"), &cfg, 2).is_none());
}

fn push_tools() -> SortedTable<Tool> {
    let mut call = SortedTable::new();
    call.insert("Default".to_string(), strings(&["run"]));
    let t = Tool {
        name: "velo".to_string(),
        author: "a".to_string(),
        task: "1 memory".to_string(),
        localpath: "/x/y/velo.bin".to_string(),
        config_tag: "velo".to_string(),
        mandatory_steps: Some(StepTable::new()),
        call,
    };
    let mut tools = SortedTable::new();
    tools.insert("velo".to_string(), t);
    tools
}

#[test]
fn a_push_run_sets_container_and_timeout() {
    let c = case("CaseB", "linux");
    let mut cfg = config();
    cfg.set("cloud_default_upload_location".to_string(), "x".to_string());
    cfg.set("cloud_token_upload_timeout".to_string(), "1".to_string());
    let tools = push_tools();
    let mut run = PushRun::start(&c, &cfg, 7).unwrap();
    let (tool, tool_cfg) = run.next_tool(&tools, &cfg).unwrap().unwrap();
    assert_eq!(tool.name, "velo");
    assert_eq!(tool_cfg.get("CLOUD_DEFAULT_UPLOAD_LOCATION"), Some("caseb".to_string()));
    assert_eq!(tool_cfg.get("CLOUD_TOKEN_UPLOAD_TIMEOUT"), Some("7".to_string()));
    assert_eq!(tool_cfg.get_u8("CLOUD_TOKEN_UPLOAD_TIMEOUT"), Some(7));
    assert_eq!(tool_cfg.get("cloud_default_upload_location"), None);
    run.record(&tools, strings(&["req line"]), "https://u", &tool_cfg);
    assert!(run.next_tool(&tools, &cfg).unwrap().is_none());
    assert_eq!(
        run.finish(),
        "mkdir /tmp/aurr;cd /tmp/aurr;req line;curl -L \"https://u\" -o ./velo.bin;run;cd ../../;rm -r /tmp/aurr;"
    );
}

#[test]
fn a_case_container_names_a_container() {
    let r = CloudResource::from_path("caseb", "Azure").unwrap();
    assert!(matches!(r, CloudResource::Azure(AzureCloudResource::Container(c)) if c == "caseb"));
}

#[test]
fn a_push_run_runs_the_call_options_of_each_tool() {
    let c = case("CaseB", "linux");
    let cfg = config();
    let mut call = SortedTable::new();
    call.insert("Default".to_string(), strings(&["run", "CLOUD_DEFAULT_UPLOAD_LOCATION"]));
    call.insert("Second".to_string(), strings(&["two"]));
    let t = Tool {
        name: "velo".to_string(),
        author: "a".to_string(),
        task: "1 memory".to_string(),
        localpath: "velo.bin".to_string(),
        config_tag: "velo".to_string(),
        mandatory_steps: None,
        call,
    };
    let mut tools = SortedTable::new();
    tools.insert("velo".to_string(), t);
    let mut run = PushRun::start(&c, &cfg, 2).unwrap();
    assert_eq!(run.upcoming(), Some(&"velo".to_string()));
    let (_, tool_cfg) = run.next_tool(&tools, &cfg).unwrap().unwrap();
    run.record(&tools, Vec::new(), "https://u", &tool_cfg);
    assert_eq!(run.upcoming(), None);
    assert_eq!(
        run.finish(),
        "mkdir /tmp/aurr;cd /tmp/aurr;curl -L \"https://u\" -o ./velo.bin;run caseb;two;cd ../../;rm -r /tmp/aurr;"
    );
}
