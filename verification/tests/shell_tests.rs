use aurr_manager::shell::{OperatingSystem, Shell, ShellParser};

#[test]
fn download_template_bash() {
    assert_eq!(
        Shell::Bash.get_download_template().unwrap(),
        "curl -L \"<URL>\" -o ./<REMOTE_TOOL_FILE_NAME>"
    );
}

#[test]
fn oneliner_terminates_each_command() {
    let p = ShellParser::new(Shell::Bash, vec!["a".to_string(), "b c".to_string()]);
    assert_eq!(p.get_oneliner(), Some("a;b c;".to_string()));
}

#[test]
fn system_from_description() {
    assert_eq!(OperatingSystem::parse("Ubuntu Linux 22"), Ok(OperatingSystem::Linux));
    assert_eq!(OperatingSystem::parse("WINDOWS 11"), Ok(OperatingSystem::Windows));
    assert_eq!(OperatingSystem::parse("macos"), Err(()));
}

#[test]
fn from_str_reads_names_in_any_case() {
    assert_eq!("BASH".parse::<Shell>(), Ok(Shell::Bash));
    assert_eq!("PowerShell".parse::<Shell>(), Ok(Shell::Powershell));
    assert_eq!("zsh".parse::<Shell>(), Err(()));
    assert_eq!("Debian LINUX".parse::<OperatingSystem>(), Ok(OperatingSystem::Linux));
    assert_eq!("beos".parse::<OperatingSystem>(), Err(()));
}
