//! Shells and operating systems of the remote target, and the one-line
//! command that is run there.
use vstd::prelude::*;
use crate::error::AurrError;
use crate::kv::{setting, ConfigTable};
use crate::text::{
    all_ascii, all_ascii_alpha, ascii_lower, concat_terminated, contains, contains_seq, equals,
    is_all_ascii_alpha, owned, replace, replace_all, terminated, to_ascii_lower, to_lowercase,
    unicode_lowercase, views,
};

verus! {

broadcast use vstd::string::group_string_axioms;

/// The shell in which the commands run on the target.
#[derive(Debug, Clone, Copy, PartialEq, Eq, Structural)]
pub enum Shell {
    Powershell,
    Bash,
}

/// The shell whose lower-case name is `l`.
pub open spec fn shell_named(l: Seq<char>) -> Result<Shell, ()> {
    if l == "powershell"@ {
        Ok(Shell::Powershell)
    } else if l == "bash"@ {
        Ok(Shell::Bash)
    } else {
        Err(())
    }
}

/// The command that downloads `<URL>` to `<REMOTE_TOOL_FILE_NAME>` in a shell.
pub open spec fn download_template_of(shell: Shell) -> Seq<char> {
    match shell {
        Shell::Bash => "curl -L \"<URL>\" -o ./<REMOTE_TOOL_FILE_NAME>"@,
        Shell::Powershell => "iwr -useb '<URL>' -Outfile <REMOTE_TOOL_FILE_NAME>"@,
    }
}

/// The name of a shell as its debug form writes it.
pub open spec fn shell_name(shell: Shell) -> Seq<char> {
    match shell {
        Shell::Powershell => "Powershell"@,
        Shell::Bash => "Bash"@,
    }
}

impl Shell {
    /// The shell named by `l`, a name already in lower case.
    pub fn from_lowercase(l: &str) -> (r: Result<Shell, ()>)
        ensures
            r == shell_named(l@),
    {
        if equals(l, "powershell") {
            Ok(Shell::Powershell)
        } else if equals(l, "bash") {
            Ok(Shell::Bash)
        } else {
            Err(())
        }
    }

    /// The shell named by `s` in any case: "powershell" or "bash" after
    /// lower-casing.
    pub fn parse(s: &str) -> (r: Result<Shell, ()>)
        ensures
            r == shell_named(unicode_lowercase(s@)),
            all_ascii(s@) ==> r == shell_named(ascii_lower(s@)),
    {
        let l = to_lowercase(s);
        Shell::from_lowercase(l.as_str())
    }

    /// The download command of this shell, with the placeholders `<URL>`
    /// and `<REMOTE_TOOL_FILE_NAME>`. It is always given.
    pub fn get_download_template(&self) -> (r: Result<String, AurrError>)
        ensures
            r matches Ok(t) && t@ == download_template_of(*self),
    {
        match self {
            Shell::Bash => Ok(owned("curl -L \"<URL>\" -o ./<REMOTE_TOOL_FILE_NAME>")),
            Shell::Powershell => Ok(owned("iwr -useb '<URL>' -Outfile <REMOTE_TOOL_FILE_NAME>")),
        }
    }

    /// The name of this shell ("Powershell" or "Bash").
    pub fn name(&self) -> (r: String)
        ensures
            r@ == shell_name(*self),
    {
        match self {
            Shell::Powershell => owned("Powershell"),
            Shell::Bash => owned("Bash"),
        }
    }
}

impl std::str::FromStr for Shell {
    type Err = ();

    fn from_str(s: &str) -> (r: Result<Shell, ()>)
        ensures
            r == shell_named(unicode_lowercase(s@)),
            all_ascii(s@) ==> r == shell_named(ascii_lower(s@)),
    {
        Shell::parse(s)
    }
}

/// A download template with `<URL>` and then `<REMOTE_TOOL_FILE_NAME>`
/// replaced.
pub open spec fn filled_template(template: Seq<char>, url: Seq<char>, file_name: Seq<char>) -> Seq<
    char,
> {
    replace_all(replace_all(template, "<URL>"@, url), "<REMOTE_TOOL_FILE_NAME>"@, file_name)
}

/// Fills a download template with the URL and the file name on the target.
pub fn fill_download_template(template: &str, url: &str, file_name: &str) -> (r: String)
    ensures
        r@ == filled_template(template@, url@, file_name@),
{
    let a = replace(template, "<URL>", url);
    replace(a.as_str(), "<REMOTE_TOOL_FILE_NAME>", file_name)
}

/// The operating system of the remote target.
#[derive(Debug, Clone, Copy, PartialEq, Eq, Structural)]
pub enum OperatingSystem {
    Windows,
    Linux,
}

/// The system that a lower-case description `l` names: any text holding
/// "windows", else any holding "linux".
pub open spec fn system_named(l: Seq<char>) -> Result<OperatingSystem, ()> {
    if contains_seq(l, "windows"@) {
        Ok(OperatingSystem::Windows)
    } else if contains_seq(l, "linux"@) {
        Ok(OperatingSystem::Linux)
    } else {
        Err(())
    }
}

/// The setting that names the working directory on a system.
pub open spec fn workdir_key(os: OperatingSystem) -> Seq<char> {
    match os {
        OperatingSystem::Linux => "LINUX_WORKDIR_REMOTE"@,
        OperatingSystem::Windows => "WINDOW_WORKDIR_REMOTE"@,
    }
}

/// The commands that create and enter the working directory `wd`.
pub open spec fn setup_commands(wd: Seq<char>) -> Seq<Seq<char>> {
    seq!["mkdir "@ + wd, "cd "@ + wd]
}

/// The commands that leave and delete the working directory `wd`.
pub open spec fn cleanup_commands(wd: Seq<char>) -> Seq<Seq<char>> {
    seq!["cd ../../"@, "rm -r "@ + wd]
}

impl OperatingSystem {
    /// The system named by `l`, a description already in lower case.
    pub fn from_lowercase(l: &str) -> (r: Result<OperatingSystem, ()>)
        ensures
            r == system_named(l@),
    {
        if contains(l, "windows") {
            Ok(OperatingSystem::Windows)
        } else if contains(l, "linux") {
            Ok(OperatingSystem::Linux)
        } else {
            Err(())
        }
    }

    /// The system that `s` names in any case.
    pub fn parse(s: &str) -> (r: Result<OperatingSystem, ()>)
        ensures
            r == system_named(unicode_lowercase(s@)),
            all_ascii(s@) ==> r == system_named(ascii_lower(s@)),
    {
        let l = to_lowercase(s);
        OperatingSystem::from_lowercase(l.as_str())
    }

    /// The setting that names the working directory on this system.
    pub fn workdir_key(&self) -> (r: String)
        ensures
            r@ == workdir_key(*self),
    {
        match self {
            OperatingSystem::Linux => owned("LINUX_WORKDIR_REMOTE"),
            OperatingSystem::Windows => owned("WINDOW_WORKDIR_REMOTE"),
        }
    }

    /// The commands that prepare a task on the target: create the working
    /// directory that the configuration names, then enter it.
    pub fn get_setup(&self, config: &ConfigTable) -> (r: Vec<String>)
        requires
            setting(config.entries(), workdir_key(*self)) is Some,
        ensures
            views(r@) == setup_commands(setting(config.entries(), workdir_key(*self))->0),
    {
        let key = self.workdir_key();
        let wd = config.get(key.as_str()).unwrap();
        let mut a = owned("mkdir ");
        a.append(wd.as_str());
        let mut b = owned("cd ");
        b.append(wd.as_str());
        let r = vec![a, b];
        assert(views(r@) =~= setup_commands(wd@));
        r
    }

    /// The commands that clean up after a task: leave the working directory
    /// and delete it.
    pub fn cleanup(&self, config: &ConfigTable) -> (r: Vec<String>)
        requires
            setting(config.entries(), workdir_key(*self)) is Some,
        ensures
            views(r@) == cleanup_commands(setting(config.entries(), workdir_key(*self))->0),
    {
        let key = self.workdir_key();
        let wd = config.get(key.as_str()).unwrap();
        let a = owned("cd ../../");
        let mut b = owned("rm -r ");
        b.append(wd.as_str());
        let r = vec![a, b];
        assert(views(r@) =~= cleanup_commands(wd@));
        r
    }
}

impl std::str::FromStr for OperatingSystem {
    type Err = ();

    fn from_str(s: &str) -> (r: Result<OperatingSystem, ()>)
        ensures
            r == system_named(unicode_lowercase(s@)),
            all_ascii(s@) ==> r == system_named(ascii_lower(s@)),
    {
        OperatingSystem::parse(s)
    }
}

/// Turns a list of command lines into the one line that runs them all in a
/// shell: each command followed by `;`.
pub struct ShellParser {
    shell: Shell,
    cmdlines: Vec<String>,
}

impl ShellParser {
    /// The shell of the parser.
    pub closed spec fn shell(&self) -> Shell {
        self.shell
    }

    /// The command lines, in order.
    pub closed spec fn cmdlines(&self) -> Seq<Seq<char>> {
        views(self.cmdlines@)
    }

    /// A parser for the given shell and command lines.
    pub fn new(shell: Shell, cmdlines: Vec<String>) -> (p: ShellParser)
        ensures
            p.shell() == shell,
            p.cmdlines() == views(cmdlines@),
    {
        ShellParser { shell: shell, cmdlines: cmdlines }
    }

    /// The one-liner: every command line followed by `;`, in order (the same
    /// for both shells). It is always produced.
    pub fn get_oneliner(&self) -> (r: Option<String>)
        ensures
            r matches Some(s) && s@ == terminated(self.cmdlines(), ";"@),
    {
        match self.shell {
            Shell::Bash => Some(concat_terminated(&self.cmdlines, ";")),
            Shell::Powershell => Some(concat_terminated(&self.cmdlines, ";")),
        }
    }
}

/// The name of the cloud container of a case: the case name in lower case,
/// which must consist of ASCII letters only.
pub open spec fn container_name_spec(name: Seq<char>) -> Result<Seq<char>, ()> {
    if all_ascii_alpha(ascii_lower(name)) {
        Ok(ascii_lower(name))
    } else {
        Err(())
    }
}

/// The cloud container of a case named `name`: its ASCII lower-case form, if
/// that consists of ASCII letters only (cloud containers allow no more).
pub fn case_container(name: &str) -> (r: Result<String, AurrError>)
    ensures
        container_name_spec(name@) is Ok <==> r is Ok,
        r matches Ok(c) ==> c@ == ascii_lower(name@),
        r matches Err(e) ==> (e matches AurrError::InvalidCaseName(n) && n@ == name@),
{
    let l = to_ascii_lower(name);
    if is_all_ascii_alpha(l.as_str()) {
        Ok(l)
    } else {
        Err(AurrError::InvalidCaseName(owned(name)))
    }
}

} // verus!
