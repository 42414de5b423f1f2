use aurr_manager::tools::{MandatorySteps, StepTable, Tool, ToolConfig};
use aurr_manager::table::SortedTable;

fn strings(v: &[&str]) -> Vec<String> {
    v.iter().map(|s| s.to_string()).collect()
}

fn tool() -> Tool {
    let mut steps = StepTable::new();
    steps.insert(MandatorySteps::Target, strings(&["cd PATH_X", "run"]));
    steps.insert(MandatorySteps::Generate, strings(&["SURGE_UPLOAD-TOKEN"]));
    let mut call = SortedTable::new();
    call.insert("Default".to_string(), strings(&["./surge", "--to", "DEST"]));
    Tool {
        name: "surge".to_string(),
        author: "j".to_string(),
        task: "1".to_string(),
        localpath: "/t/surge".to_string(),
        config_tag: "SURGE".to_string(),
        mandatory_steps: Some(steps),
        call,
    }
}

#[test]
fn step_kinds_by_name() {
    assert_eq!(MandatorySteps::parse("Generate"), Ok(MandatorySteps::Generate));
    assert_eq!(MandatorySteps::parse("TARGET"), Ok(MandatorySteps::Target));
    assert_eq!(MandatorySteps::parse("compile"), Err(()));
    assert_eq!(MandatorySteps::Compile.as_key(), "Compile");
    assert_eq!(MandatorySteps::Generate.to_string(), "generate");
}

#[test]
fn cmdline_puts_configuration_in() {
    let t = tool();
    let mut c = ToolConfig::new();
    c.add("DEST".to_string(), "https://x".to_string());
    assert_eq!(t.get_cmdline("Default", &c), Some("./surge --to https://x".to_string()));
    assert_eq!(t.get_cmdline("Other", &c), None);
}

#[test]
fn mandatory_steps_by_kind() {
    let t = tool();
    assert_eq!(t.get_mandatory_step_by_type(MandatorySteps::Generate), Some(strings(&["SURGE_UPLOAD-TOKEN"])));
    assert_eq!(t.get_mandatory_step_by_type(MandatorySteps::Compile), None);
    let mut c = ToolConfig::new();
    c.add("PATH_X".to_string(), "/w".to_string());
    assert_eq!(
        t.produce_mandator_steps_by_type(MandatorySteps::Target, &c),
        Some(strings(&["cd /w", "run"]))
    );
    assert_eq!(t.produce_mandator_steps_by_type(MandatorySteps::Generate, &c), None);
    assert_eq!(t.process_mandatory_step(MandatorySteps::Target, strings(&["a PATH_X"]), None), Some(strings(&["a PATH_X"])));
}

#[test]
fn listing_a_tool() {
    let t = tool();
    assert_eq!(
        t.list_tool(false, "[TRUE]"),
        "\n            name: surge,\n            author j,\n            localpath: /t/surge,\n            config_tag: SURGE,\n            Exists: [TRUE]\n            "
    );
    assert_eq!(
        t.list_tool(true, "[FALSE]"),
        "\n            name: surge,\n            author j,\n            localpath: /t/surge,\n            config_tag: SURGE,\n            exists: [FALSE],\n            mandatory_steps: \n\t\t target => [\"cd PATH_X\", \"run\"]\n\t\t generate => [\"SURGE_UPLOAD-TOKEN\"]\n            call_options: \n\t\t Default => [\"./surge\", \"--to\", \"DEST\"]\n            "
    );
}

#[test]
fn step_text_reads_back() {
    for s in [MandatorySteps::Generate, MandatorySteps::Target] {
        assert_eq!(MandatorySteps::parse(&s.to_string()), Ok(s));
    }
    assert_eq!(MandatorySteps::parse(&MandatorySteps::Compile.to_string()), Err(()));
}

#[test]
fn step_kinds_from_str() {
    assert_eq!("TARGET".parse::<MandatorySteps>(), Ok(MandatorySteps::Target));
    assert_eq!("compile".parse::<MandatorySteps>(), Err(()));
}

#[test]
fn a_tool_without_steps_has_none_of_any_kind() {
    let mut t = tool();
    t.mandatory_steps = None;
    assert_eq!(t.get_mandatory_step_by_type(MandatorySteps::Generate), None);
    assert_eq!(t.get_mandatory_step_by_type(MandatorySteps::Target), None);
    assert_eq!(t.produce_mandator_steps_by_type(MandatorySteps::Target, &ToolConfig::new()), None);
}

#[test]
fn a_tool_for_a_local_file() {
    let t = Tool::for_file("/opt/bin/velo.exe", true).unwrap();
    assert_eq!(t.name, "velo.exe");
    assert_eq!(t.localpath, "/opt/bin/velo.exe");
    assert!(t.mandatory_steps.is_none());
    assert_eq!(t.author, "");
    assert!(Tool::for_file("/opt/bin/velo.exe", false).is_none());
    assert!(Tool::for_file("/opt/..", true).is_none());
}
