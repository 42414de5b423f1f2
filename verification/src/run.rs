//! Running a case: the commands that set up the target, bring each tool of
//! the case there and call it, and clean up, joined into one shell line.
//!
//! Bringing a tool to the target goes through the cloud; the caller does that
//! between the steps of a `CaseRun` and hands back what came of it.
use vstd::prelude::*;
use crate::error::AurrError;
use crate::names::HasName;
use crate::kv::{add_tagged, inserted, setting, ConfigTable, StringMap};
use crate::objects::{expanded_cmdline, AurrObject, AurrObjectConfig};
use crate::shell::{
    case_container, cleanup_commands, container_name_spec, setup_commands, system_named,
    workdir_key, OperatingSystem, Shell, ShellParser,
};
use crate::table::{value_of, SortedTable};
use crate::template::{scheduled, CaseTemplate};
use crate::shell::{download_template_of, fill_download_template, filled_template};
use crate::kv::{
    has_key, lemma_add_tagged_lookup, lemma_add_tagged_unique, lemma_inserted, lookup, matches_any,
    replaced_by_entries, unique_keys,
};
use crate::cloud::{resource_from_path, AzureCloudResourceView};
use crate::generate::upload_timeout;
use crate::text::{all_ascii_alpha, contains_seq, occurs_at, law_decimal_parse_round_trip};
use crate::text::{clone_strings, decimal, decimal_string, joined, last_piece, last_piece_of, owned, terminated, unicode_lowercase, views};
use crate::tools::{Tool, ToolConfig};

verus! {

broadcast use vstd::string::group_string_axioms;

/// The tags whose settings make up the configuration of a tool in a case:
/// the tool's own tag, then the cloud, the cloud provider and local ones.
pub open spec fn case_tool_tags(config_tag: Seq<char>) -> Seq<Seq<char>> {
    seq![config_tag, "CLOUD"@, "AZURE"@, "LOCAL"@]
}

/// The configuration of a tool in a case: the settings of its tags, with the
/// case's container as the upload location.
pub open spec fn case_tool_config(
    config: Seq<(Seq<char>, Seq<char>)>,
    config_tag: Seq<char>,
    container: Seq<char>,
) -> Seq<(Seq<char>, Seq<char>)> {
    inserted(
        add_tagged(Seq::empty(), config, case_tool_tags(config_tag)),
        "CLOUD_DEFAULT_UPLOAD_LOCATION"@,
        container,
    )
}

/// The command lines of the call options `options` of a tool whose call
/// options are `calls`, in order; an option that the tool does not have
/// gives no line.
pub open spec fn option_lines(
    calls: Seq<(Seq<char>, Vec<String>)>,
    options: Seq<Seq<char>>,
    config: Seq<(Seq<char>, Seq<char>)>,
    env: Seq<(Seq<char>, Seq<char>)>,
) -> Seq<Seq<char>>
    decreases options.len(),
{
    if options.len() == 0 {
        Seq::empty()
    } else {
        option_lines(calls, options.drop_last(), config, env) + match value_of(
            calls,
            options.last(),
        ) {
            Some(words) => seq![expanded_cmdline(views(words@), config, env)],
            None => Seq::empty(),
        }
    }
}

/// The system that a case template's description names.
pub open spec fn case_system(case: &CaseTemplate) -> Result<OperatingSystem, ()> {
    system_named(unicode_lowercase(case.template().os_view()))
}

/// A case being run: the commands so far, the tool calls still to do and
/// the commands that will close the run.
pub struct CaseRun {
    shell: Shell,
    container: String,
    calls: Vec<(String, Vec<String>)>,
    next: usize,
    cmds: Vec<String>,
    closing: Vec<String>,
}

impl CaseRun {
    #[verifier::type_invariant]
    spec fn next_in_range(self) -> bool {
        self.next <= self.calls@.len()
    }

    /// The commands so far, in order.
    pub closed spec fn commands(&self) -> Seq<Seq<char>> {
        views(self.cmds@)
    }

    /// The tool calls still to do, in order: each tool name with the names of
    /// its call options.
    pub closed spec fn remaining(&self) -> Seq<(Seq<char>, Seq<Seq<char>>)> {
        self.calls@.skip(self.next as int).map_values(
            |p: (String, Vec<String>)| (p.0@, views(p.1@)),
        )
    }

    /// The cloud container of the case.
    pub closed spec fn container(&self) -> Seq<char> {
        self.container@
    }

    /// The commands that close the run.
    pub closed spec fn closing(&self) -> Seq<Seq<char>> {
        views(self.closing@)
    }

    /// The shell that the run's line is for.
    pub closed spec fn shell(&self) -> Shell {
        self.shell
    }

    /// Starts a run of `case` on the system `os` that its template names: the
    /// set-up commands of the working directory that `config` names for that
    /// system come first, the clean-up commands last, and in between the
    /// tool calls of the template in order. The case name, in lower case,
    /// names the case's cloud container and must consist of ASCII letters.
    pub fn start(case: &CaseTemplate, config: &ConfigTable) -> (r: Result<CaseRun, AurrError>)
        requires
            case_system(case) is Ok,
            setting(config.entries(), workdir_key(case_system(case)->Ok_0)) is Some,
        ensures
            ({
                let wd = setting(config.entries(), workdir_key(case_system(case)->Ok_0))->0;
                match container_name_spec(case.name_view()) {
                    Err(_) => r matches Err(e) && (e matches AurrError::InvalidCaseName(n) && n@
                        == case.name_view()),
                    Ok(c) => r matches Ok(run) && run.commands() == setup_commands(wd)
                        && run.closing() == cleanup_commands(wd) && run.container() == c
                        && run.remaining() == scheduled(case.template().tasks_spec())
                        && run.shell() == case.template().shell_spec(),
                }
            }),
    {
        let template = case.task_template();
        let os = OperatingSystem::parse(template.os().as_str()).unwrap();
        let cmds = os.get_setup(config);
        let container = match case_container(case.name()) {
            Ok(c) => c,
            Err(e) => {
                return Err(e);
            },
        };
        let calls = template.scheduled_calls();
        let closing = os.cleanup(config);
        let run = CaseRun {
            shell: template.shell(),
            container,
            calls,
            next: 0,
            cmds,
            closing,
        };
        assert(run.calls@.skip(0) =~= run.calls@);
        Ok(run)
    }

    /// Starts a run as `start` does, where the case's template names a
    /// system and the configuration names its working directory; `None`
    /// otherwise.
    pub fn try_start(case: &CaseTemplate, config: &ConfigTable) -> (r: Option<
        Result<CaseRun, AurrError>,
    >)
        ensures
            r is Some <==> (case_system(case) is Ok && setting(
                config.entries(),
                workdir_key(case_system(case)->Ok_0),
            ) is Some),
            r matches Some(Ok(run)) ==> container_name_spec(case.name_view()) == Ok::<
                Seq<char>,
                (),
            >(run.container()) && run.remaining() == scheduled(case.template().tasks_spec())
                && run.commands() == setup_commands(
                setting(config.entries(), workdir_key(case_system(case)->Ok_0))->0,
            ) && run.closing() == cleanup_commands(
                setting(config.entries(), workdir_key(case_system(case)->Ok_0))->0,
            ) && run.shell() == case.template().shell_spec(),
            r matches Some(Err(e)) ==> container_name_spec(case.name_view()) is Err && (e matches AurrError::InvalidCaseName(
                n,
            ) && n@ == case.name_view()),
    {
        let os = match OperatingSystem::parse(case.task_template().os().as_str()) {
            Ok(o) => o,
            Err(_) => {
                return None;
            },
        };
        let key = os.workdir_key();
        match config.get(key.as_str()) {
            Some(_) => Some(CaseRun::start(case, config)),
            None => None,
        }
    }

    /// The next tool of the run and its configuration: the settings of the
    /// tool's tags with the case's container as the upload location. `None`
    /// when no tool call is left; an error when the tool is not in `tools`.
    pub fn next_tool<'a>(&self, tools: &'a SortedTable<AurrObject>, config: &ConfigTable) -> (r:
        Result<Option<(&'a AurrObject, AurrObjectConfig)>, AurrError>)
        ensures
            self.remaining().len() == 0 ==> r matches Ok(None),
            self.remaining().len() > 0 ==> match value_of(
                tools.entries(),
                self.remaining()[0].0,
            ) {
                None => r matches Err(e) && (e matches AurrError::ToolNotFound(n) && n@
                    == self.remaining()[0].0),
                Some(tool) => r matches Ok(Some(p)) && *p.0 == tool
                    && p.1.config.entries() == case_tool_config(
                    config.entries(),
                    tool.config_tag_view(),
                    self.container(),
                ) && (forall|k: Seq<char>|
                    k != "CLOUD_DEFAULT_UPLOAD_LOCATION"@ ==> #[trigger] lookup(
                        p.1.config.entries(),
                        k,
                    ) == if contains_seq(k, tool.config_tag_view()) || contains_seq(k, "CLOUD"@)
                        || contains_seq(k, "AZURE"@) || contains_seq(k, "LOCAL"@) {
                        lookup(config.entries(), k)
                    } else {
                        None
                    }),
            },
    {
        proof {
            use_type_invariant(self);
        }
        if self.next >= self.calls.len() {
            return Ok(None);
        }
        let name = &self.calls[self.next].0;
        assert(self.remaining()[0].0 == name@);
        let tool = match tools.get(name.as_str()) {
            Some(t) => t,
            None => {
                return Err(AurrError::ToolNotFound(name.clone()));
            },
        };
        let tags: Vec<&str> = vec![tool.config_tag().as_str(), "CLOUD", "AZURE", "LOCAL"];
        assert(tags@.map_values(|t: &str| t@) =~= case_tool_tags(tool.config_tag_view()));
        let mut tool_config = AurrObjectConfig::from_config_by_tags(config, tags).unwrap();
        tool_config.add(owned("CLOUD_DEFAULT_UPLOAD_LOCATION"), self.container.clone());
        config.keys_are_unique();
        proof {
            assert forall|k: Seq<char>|
                k != "CLOUD_DEFAULT_UPLOAD_LOCATION"@ implies #[trigger] lookup(
                    tool_config.config.entries(),
                    k,
                ) == if contains_seq(k, tool.config_tag_view()) || contains_seq(k, "CLOUD"@)
                    || contains_seq(k, "AZURE"@) || contains_seq(k, "LOCAL"@) {
                    lookup(config.entries(), k)
                } else {
                    None
                } by {
                law_case_tool_config_settings(
                    config.entries(),
                    tool.config_tag_view(),
                    self.container(),
                    k,
                );
            }
        }
        Ok(Some((tool, tool_config)))
    }

    /// Records the next tool call once the tool has been prepared and brought
    /// to the cloud: the commands that this gave (`prepared`), then the
    /// command line of each call option of the call, made with the tool's
    /// configuration as its preparation left it and the environment `env`.
    pub fn record(
        &mut self,
        tools: &SortedTable<AurrObject>,
        prepared: Vec<String>,
        config: &AurrObjectConfig,
        env: &StringMap,
    )
        requires
            old(self).remaining().len() > 0,
            value_of(tools.entries(), old(self).remaining()[0].0) is Some,
        ensures
            final(self).commands() == old(self).commands() + views(prepared@) + option_lines(
                value_of(tools.entries(), old(self).remaining()[0].0)->0.calls(),
                old(self).remaining()[0].1,
                config.config.entries(),
                env.entries(),
            ),
            final(self).remaining() == old(self).remaining().drop_first(),
            final(self).container() == old(self).container(),
            final(self).closing() == old(self).closing(),
            final(self).shell() == old(self).shell(),
    {
        proof {
            use_type_invariant(&*self);
        }
        let ghost first = self.remaining()[0];
        let ghost start = self.commands();
        let i = self.next;
        let n = self.calls.len();
        assert(self.calls@.skip(i as int).len() > 0);
        assert(first == (self.calls@[i as int].0@, views(self.calls@[i as int].1@)));
        let tool = tools.get(self.calls[i].0.as_str()).unwrap();
        let options = clone_strings(&self.calls[i].1);
        let ghost tv = tool.calls();
        let mut cmds: Vec<String> = Vec::new();
        std::mem::swap(&mut cmds, &mut self.cmds);
        let mut p = prepared;
        cmds.append(&mut p);
        let ghost base = views(cmds@);
        assert(base =~= start + views(prepared@));
        let mut j: usize = 0;
        while j < options.len()
            invariant
                j <= options@.len(),
                i < n,
                n == self.calls@.len(),
                views(options@) == first.1,
                tv == tool.calls(),
                views(cmds@) == base + option_lines(tv, first.1.take(j as int), config.config.entries(), env.entries()),
            decreases options@.len() - j,
        {
            assert(first.1.take(j + 1).drop_last() =~= first.1.take(j as int));
            assert(first.1.take(j + 1).last() == options@[j as int]@);
            let ghost before = views(cmds@);
            match tool.get_cmdline(options[j].as_str(), config, env) {
                Some(line) => {
                    cmds.push(line);
                    assert(views(cmds@) =~= before + seq![views(cmds@).last()]);
                },
                None => {},
            }
            j = j + 1;
        }
        assert(first.1.take(j as int) =~= first.1);
        self.cmds = cmds;
        self.next = i + 1;
        assert(self.calls@.skip(i + 1) =~= self.calls@.skip(i as int).drop_first());
    }

    /// The one shell line of the run: every command so far, then the closing
    /// commands, each followed by `;`.
    pub fn finish(&self) -> (r: String)
        ensures
            r@ == terminated(self.commands() + self.closing(), ";"@),
    {
        let mut all = clone_strings(&self.cmds);
        let mut tail = clone_strings(&self.closing);
        all.append(&mut tail);
        assert(views(all@) =~= self.commands() + self.closing());
        let sp = ShellParser::new(self.shell, all);
        sp.get_oneliner().unwrap()
    }
}

/// The tags whose settings make up the configuration of a pushed tool: the
/// tool's own tag, then the cloud and the cloud provider ones.
pub open spec fn push_tool_tags(config_tag: Seq<char>) -> Seq<Seq<char>> {
    seq![config_tag, "CLOUD"@, "AZURE"@]
}

/// The settings of a pushed tool's tags.
pub open spec fn push_tagged(
    config: Seq<(Seq<char>, Seq<char>)>,
    config_tag: Seq<char>,
) -> Seq<(Seq<char>, Seq<char>)> {
    add_tagged(Seq::empty(), config, push_tool_tags(config_tag))
}

/// Whether the settings of a pushed tool's tags give both an upload
/// location and an upload timeout, which pushing the tool overrides.
pub open spec fn push_config_complete(
    config: Seq<(Seq<char>, Seq<char>)>,
    config_tag: Seq<char>,
) -> bool {
    has_key(push_tagged(config, config_tag), "CLOUD_DEFAULT_UPLOAD_LOCATION"@) && has_key(
        push_tagged(config, config_tag),
        "CLOUD_TOKEN_UPLOAD_TIMEOUT"@,
    )
}

/// The configuration of a pushed tool: the settings of its tags with the
/// case's container as the upload location and the run's timeout as the
/// upload timeout.
pub open spec fn push_tool_config(
    config: Seq<(Seq<char>, Seq<char>)>,
    config_tag: Seq<char>,
    container: Seq<char>,
    timeout: u8,
) -> Seq<(Seq<char>, Seq<char>)> {
    inserted(
        inserted(push_tagged(config, config_tag), "CLOUD_DEFAULT_UPLOAD_LOCATION"@, container),
        "CLOUD_TOKEN_UPLOAD_TIMEOUT"@,
        decimal(timeout as nat),
    )
}

/// The command lines of the call options `options` of a pushed tool whose
/// call options are `calls`, in order: the words of each joined by spaces,
/// with every key of the tool's configuration replaced by its value; an
/// option that the tool does not have gives no line.
pub open spec fn tool_option_lines(
    calls: Seq<(Seq<char>, Vec<String>)>,
    options: Seq<Seq<char>>,
    config: Seq<(Seq<char>, Seq<char>)>,
) -> Seq<Seq<char>>
    decreases options.len(),
{
    if options.len() == 0 {
        Seq::empty()
    } else {
        tool_option_lines(calls, options.drop_last(), config) + match value_of(
            calls,
            options.last(),
        ) {
            Some(words) => seq![replaced_by_entries(joined(views(words@), " "@), config)],
            None => Seq::empty(),
        }
    }
}

/// A case whose tools are pushed to the cloud and run: the commands so far,
/// the tool calls still to do and the commands that close the run.
pub struct PushRun {
    shell: Shell,
    container: String,
    timeout: u8,
    calls: Vec<(String, Vec<String>)>,
    next: usize,
    cmds: Vec<String>,
    closing: Vec<String>,
}

impl PushRun {
    #[verifier::type_invariant]
    spec fn next_in_range(self) -> bool {
        self.next <= self.calls@.len()
    }

    /// The commands so far, in order.
    pub closed spec fn commands(&self) -> Seq<Seq<char>> {
        views(self.cmds@)
    }

    /// The tool calls still to do, in order: each tool name with the names
    /// of its call options.
    pub closed spec fn remaining(&self) -> Seq<(Seq<char>, Seq<Seq<char>>)> {
        self.calls@.skip(self.next as int).map_values(
            |p: (String, Vec<String>)| (p.0@, views(p.1@)),
        )
    }

    /// The cloud container of the case.
    pub closed spec fn container(&self) -> Seq<char> {
        self.container@
    }

    /// The hours for which upload grants of the run are valid.
    pub closed spec fn timeout(&self) -> u8 {
        self.timeout
    }

    /// The commands that close the run.
    pub closed spec fn closing(&self) -> Seq<Seq<char>> {
        views(self.closing@)
    }

    /// The shell that the run's line is for.
    pub closed spec fn shell(&self) -> Shell {
        self.shell
    }

    /// Starts pushing the tools of `case`, with upload grants valid for
    /// `timeout` hours: as `CaseRun::start`, with the same tool calls.
    pub fn start(case: &CaseTemplate, config: &ConfigTable, timeout: u8) -> (r: Result<
        PushRun,
        AurrError,
    >)
        requires
            case_system(case) is Ok,
            setting(config.entries(), workdir_key(case_system(case)->Ok_0)) is Some,
        ensures
            ({
                let wd = setting(config.entries(), workdir_key(case_system(case)->Ok_0))->0;
                match container_name_spec(case.name_view()) {
                    Err(_) => r matches Err(e) && (e matches AurrError::InvalidCaseName(n) && n@
                        == case.name_view()),
                    Ok(c) => r matches Ok(run) && run.commands() == setup_commands(wd)
                        && run.closing() == cleanup_commands(wd) && run.container() == c
                        && run.remaining() == scheduled(case.template().tasks_spec())
                        && run.shell() == case.template().shell_spec() && run.timeout() == timeout,
                }
            }),
    {
        let template = case.task_template();
        let os = OperatingSystem::parse(template.os().as_str()).unwrap();
        let cmds = os.get_setup(config);
        let container = match case_container(case.name()) {
            Ok(c) => c,
            Err(e) => {
                return Err(e);
            },
        };
        let calls = template.scheduled_calls();
        let closing = os.cleanup(config);
        let run = PushRun { shell: template.shell(), container, timeout, calls, next: 0, cmds, closing };
        assert(run.calls@.skip(0) =~= run.calls@);
        Ok(run)
    }

    /// Starts a push as `start` does, where the case's template names a
    /// system and the configuration names its working directory; `None`
    /// otherwise.
    pub fn try_start(case: &CaseTemplate, config: &ConfigTable, timeout: u8) -> (r: Option<
        Result<PushRun, AurrError>,
    >)
        ensures
            r is Some <==> (case_system(case) is Ok && setting(
                config.entries(),
                workdir_key(case_system(case)->Ok_0),
            ) is Some),
            r matches Some(Ok(run)) ==> container_name_spec(case.name_view()) == Ok::<
                Seq<char>,
                (),
            >(run.container()) && run.remaining() == scheduled(case.template().tasks_spec())
                && run.timeout() == timeout && run.commands() == setup_commands(
                setting(config.entries(), workdir_key(case_system(case)->Ok_0))->0,
            ) && run.closing() == cleanup_commands(
                setting(config.entries(), workdir_key(case_system(case)->Ok_0))->0,
            ) && run.shell() == case.template().shell_spec(),
            r matches Some(Err(e)) ==> container_name_spec(case.name_view()) is Err && (e matches AurrError::InvalidCaseName(
                n,
            ) && n@ == case.name_view()),
    {
        let os = match OperatingSystem::parse(case.task_template().os().as_str()) {
            Ok(o) => o,
            Err(_) => {
                return None;
            },
        };
        let key = os.workdir_key();
        match config.get(key.as_str()) {
            Some(_) => Some(PushRun::start(case, config, timeout)),
            None => None,
        }
    }

    /// The next tool to push and its configuration: the settings of its tags
    /// with the case's container as upload location and the run's timeout as
    /// upload timeout, both of which the settings must already give. `None`
    /// when no tool is left; an error when the tool is not in `tools`.
    pub fn next_tool<'a>(&self, tools: &'a SortedTable<Tool>, config: &ConfigTable) -> (r: Result<
        Option<(&'a Tool, ToolConfig)>,
        AurrError,
    >)
        requires
            self.remaining().len() > 0 ==> (value_of(tools.entries(), self.remaining()[0].0) matches Some(
                t,
            ) ==> push_config_complete(config.entries(), t.config_tag@)),
        ensures
            self.remaining().len() == 0 ==> r matches Ok(None),
            self.remaining().len() > 0 ==> match value_of(tools.entries(), self.remaining()[0].0) {
                None => r matches Err(e) && (e matches AurrError::ToolNotFound(n) && n@
                    == self.remaining()[0].0),
                Some(tool) => r matches Ok(Some(p)) && *p.0 == tool
                    && p.1.config.entries() == push_tool_config(
                    config.entries(),
                    tool.config_tag@,
                    self.container(),
                    self.timeout(),
                ) && (forall|k: Seq<char>|
                    k != "CLOUD_DEFAULT_UPLOAD_LOCATION"@ && k != "CLOUD_TOKEN_UPLOAD_TIMEOUT"@
                        ==> #[trigger] lookup(p.1.config.entries(), k) == if contains_seq(
                        k,
                        tool.config_tag@,
                    ) || contains_seq(k, "CLOUD"@) || contains_seq(k, "AZURE"@) {
                        lookup(config.entries(), k)
                    } else {
                        None
                    }),
            },
    {
        proof {
            use_type_invariant(self);
        }
        if self.next >= self.calls.len() {
            return Ok(None);
        }
        let name = &self.calls[self.next].0;
        assert(self.remaining()[0].0 == name@);
        let tool = match tools.get(name.as_str()) {
            Some(t) => t,
            None => {
                return Err(AurrError::ToolNotFound(name.clone()));
            },
        };
        let tags: Vec<&str> = vec![tool.config_tag.as_str(), "CLOUD", "AZURE"];
        assert(tags@.map_values(|t: &str| t@) =~= push_tool_tags(tool.config_tag@));
        let mut tool_config = ToolConfig::from_config_by_tags(config, tags).unwrap();
        let ghost tagged = tool_config.config.entries();
        assert(tagged == push_tagged(config.entries(), tool.config_tag@));
        let r1 = tool_config.edit_entry(owned("CLOUD_DEFAULT_UPLOAD_LOCATION"), self.container.clone());
        proof {
            reveal_strlit("CLOUD_DEFAULT_UPLOAD_LOCATION");
            reveal_strlit("CLOUD_TOKEN_UPLOAD_TIMEOUT");
            assert("CLOUD_DEFAULT_UPLOAD_LOCATION"@[6] != "CLOUD_TOKEN_UPLOAD_TIMEOUT"@[6]);
            crate::kv::lemma_inserted_keeps_key(
                tagged,
                "CLOUD_DEFAULT_UPLOAD_LOCATION"@,
                self.container@,
                "CLOUD_TOKEN_UPLOAD_TIMEOUT"@,
            );
        }
        let t = decimal_string(self.timeout as u64);
        let r2 = tool_config.edit_entry(owned("CLOUD_TOKEN_UPLOAD_TIMEOUT"), t);
        config.keys_are_unique();
        proof {
            assert forall|k: Seq<char>|
                k != "CLOUD_DEFAULT_UPLOAD_LOCATION"@ && k != "CLOUD_TOKEN_UPLOAD_TIMEOUT"@
                    implies #[trigger] lookup(tool_config.config.entries(), k) == if contains_seq(
                    k,
                    tool.config_tag@,
                ) || contains_seq(k, "CLOUD"@) || contains_seq(k, "AZURE"@) {
                    lookup(config.entries(), k)
                } else {
                    None
                } by {
                law_pushed_tool_config_settings(
                    config.entries(),
                    tool.config_tag@,
                    self.container(),
                    self.timeout(),
                    k,
                );
            }
        }
        Ok(Some((tool, tool_config)))
    }

    /// Records the next tool call once its required objects and the tool
    /// itself are in the cloud: the download commands of the required
    /// objects, then the command that downloads the tool from `url` under the
    /// last part of its local path, then the command line of each call option
    /// of the call, made with the tool's configuration `tool_config`.
    pub fn record(
        &mut self,
        tools: &SortedTable<Tool>,
        require_lines: Vec<String>,
        url: &str,
        tool_config: &ToolConfig,
    )
        requires
            old(self).remaining().len() > 0,
            value_of(tools.entries(), old(self).remaining()[0].0) is Some,
        ensures
            final(self).commands() == old(self).commands() + views(require_lines@) + seq![
                filled_template(
                    download_template_of(old(self).shell()),
                    url@,
                    last_piece(value_of(tools.entries(), old(self).remaining()[0].0)->0.localpath@, '/'),
                ),
            ] + tool_option_lines(
                value_of(tools.entries(), old(self).remaining()[0].0)->0.call.entries(),
                old(self).remaining()[0].1,
                tool_config.config.entries(),
            ),
            final(self).remaining() == old(self).remaining().drop_first(),
            final(self).container() == old(self).container(),
            final(self).closing() == old(self).closing(),
            final(self).shell() == old(self).shell(),
            final(self).timeout() == old(self).timeout(),
    {
        proof {
            use_type_invariant(&*self);
        }
        let ghost first = self.remaining()[0];
        let i = self.next;
        let n = self.calls.len();
        assert(self.calls@.skip(i as int).len() > 0);
        assert(i < n);
        assert(first == (self.calls@[i as int].0@, views(self.calls@[i as int].1@)));
        let tool = tools.get(self.calls[i].0.as_str()).unwrap();
        let options = clone_strings(&self.calls[i].1);
        let template = self.shell.get_download_template().unwrap();
        let file = last_piece_of(tool.localpath.as_str(), '/');
        let line = fill_download_template(template.as_str(), url, file.as_str());
        let ghost start = self.commands();
        let mut r = require_lines;
        let ghost rv = views(r@);
        let mut cmds: Vec<String> = Vec::new();
        std::mem::swap(&mut cmds, &mut self.cmds);
        cmds.append(&mut r);
        assert(views(cmds@) =~= start + rv);
        cmds.push(line);
        let ghost base = views(cmds@);
        assert(base =~= start + rv + seq![line@]);
        let ghost tv = tool.call.entries();
        let mut j: usize = 0;
        while j < options.len()
            invariant
                j <= options@.len(),
                i < n,
                n == self.calls@.len(),
                views(options@) == first.1,
                tv == tool.call.entries(),
                views(cmds@) == base + tool_option_lines(tv, first.1.take(j as int), tool_config.config.entries()),
            decreases options@.len() - j,
        {
            assert(first.1.take(j + 1).drop_last() =~= first.1.take(j as int));
            assert(first.1.take(j + 1).last() == options@[j as int]@);
            let ghost before = views(cmds@);
            match tool.get_cmdline(options[j].as_str(), tool_config) {
                Some(l) => {
                    cmds.push(l);
                    assert(views(cmds@) =~= before + seq![views(cmds@).last()]);
                },
                None => {},
            }
            j = j + 1;
        }
        assert(first.1.take(j as int) =~= first.1);
        self.cmds = cmds;
        self.next = i + 1;
        assert(self.calls@.skip(i + 1) =~= self.calls@.skip(i as int).drop_first());
    }

    /// The one shell line of the run: every command so far, then the closing
    /// commands, each followed by `;`.
    pub fn finish(&self) -> (r: String)
        ensures
            r@ == terminated(self.commands() + self.closing(), ";"@),
    {
        let mut all = clone_strings(&self.cmds);
        let mut tail = clone_strings(&self.closing);
        all.append(&mut tail);
        assert(views(all@) =~= self.commands() + self.closing());
        let sp = ShellParser::new(self.shell, all);
        sp.get_oneliner().unwrap()
    }
}

/// A tool of a case uploads to the case's container: the configuration that
/// a run makes for it names the container as the upload location.
pub proof fn law_case_tool_uploads_to_container(
    config: Seq<(Seq<char>, Seq<char>)>,
    config_tag: Seq<char>,
    container: Seq<char>,
)
    ensures
        lookup(case_tool_config(config, config_tag, container), "CLOUD_DEFAULT_UPLOAD_LOCATION"@)
            == Some(container),
{
    let e = Seq::<(Seq<char>, Seq<char>)>::empty();
    lemma_add_tagged_unique(e, config, case_tool_tags(config_tag));
    lemma_inserted(
        add_tagged(e, config, case_tool_tags(config_tag)),
        "CLOUD_DEFAULT_UPLOAD_LOCATION"@,
        container,
    );
}

/// A pushed tool uploads to the case's container, and the upload timeout
/// that its configuration gives back is the run's timeout.
pub proof fn law_pushed_tool_settings_read_back(
    config: Seq<(Seq<char>, Seq<char>)>,
    config_tag: Seq<char>,
    container: Seq<char>,
    timeout: u8,
)
    ensures
        lookup(push_tool_config(config, config_tag, container, timeout), "CLOUD_DEFAULT_UPLOAD_LOCATION"@)
            == Some(container),
        upload_timeout(push_tool_config(config, config_tag, container, timeout)) == Some(timeout),
{
    let e = Seq::<(Seq<char>, Seq<char>)>::empty();
    let tagged = push_tagged(config, config_tag);
    lemma_add_tagged_unique(e, config, push_tool_tags(config_tag));
    lemma_inserted(tagged, "CLOUD_DEFAULT_UPLOAD_LOCATION"@, container);
    let first = inserted(tagged, "CLOUD_DEFAULT_UPLOAD_LOCATION"@, container);
    lemma_inserted(first, "CLOUD_TOKEN_UPLOAD_TIMEOUT"@, decimal(timeout as nat));
    reveal_strlit("CLOUD_DEFAULT_UPLOAD_LOCATION");
    reveal_strlit("CLOUD_TOKEN_UPLOAD_TIMEOUT");
    assert("CLOUD_DEFAULT_UPLOAD_LOCATION"@[6] != "CLOUD_TOKEN_UPLOAD_TIMEOUT"@[6]);
    law_decimal_parse_round_trip(timeout);
}

/// The configuration a case run gives a tool holds, besides the upload
/// location, exactly the settings whose key contains the tool's tag,
/// `CLOUD`, `AZURE` or `LOCAL`, each with the configuration's value.
pub proof fn law_case_tool_config_settings(
    config: Seq<(Seq<char>, Seq<char>)>,
    config_tag: Seq<char>,
    container: Seq<char>,
    k: Seq<char>,
)
    requires
        unique_keys(config),
    ensures
        k != "CLOUD_DEFAULT_UPLOAD_LOCATION"@ ==> lookup(
            case_tool_config(config, config_tag, container),
            k,
        ) == if contains_seq(k, config_tag) || contains_seq(k, "CLOUD"@) || contains_seq(
            k,
            "AZURE"@,
        ) || contains_seq(k, "LOCAL"@) {
            lookup(config, k)
        } else {
            None
        },
{
    let e = Seq::<(Seq<char>, Seq<char>)>::empty();
    let tags = case_tool_tags(config_tag);
    lemma_add_tagged_lookup(e, config, tags, k);
    lemma_add_tagged_unique(e, config, tags);
    lemma_inserted(add_tagged(e, config, tags), "CLOUD_DEFAULT_UPLOAD_LOCATION"@, container);
    assert(tags[0] == config_tag && tags[1] == "CLOUD"@ && tags[2] == "AZURE"@ && tags[3]
        == "LOCAL"@);
    if contains_seq(k, config_tag) {
        assert(contains_seq(k, tags[0]));
    }
    if contains_seq(k, "CLOUD"@) {
        assert(contains_seq(k, tags[1]));
    }
    if contains_seq(k, "AZURE"@) {
        assert(contains_seq(k, tags[2]));
    }
    if contains_seq(k, "LOCAL"@) {
        assert(contains_seq(k, tags[3]));
    }
    assert(!has_key(e, k));
}

/// The configuration of a pushed tool holds, besides the upload location
/// and the upload timeout, exactly the settings whose key contains the
/// tool's tag, `CLOUD` or `AZURE`, each with the configuration's value.
pub proof fn law_pushed_tool_config_settings(
    config: Seq<(Seq<char>, Seq<char>)>,
    config_tag: Seq<char>,
    container: Seq<char>,
    timeout: u8,
    k: Seq<char>,
)
    requires
        unique_keys(config),
    ensures
        k != "CLOUD_DEFAULT_UPLOAD_LOCATION"@ && k != "CLOUD_TOKEN_UPLOAD_TIMEOUT"@ ==> lookup(
            push_tool_config(config, config_tag, container, timeout),
            k,
        ) == if contains_seq(k, config_tag) || contains_seq(k, "CLOUD"@) || contains_seq(
            k,
            "AZURE"@,
        ) {
            lookup(config, k)
        } else {
            None
        },
{
    let e = Seq::<(Seq<char>, Seq<char>)>::empty();
    let tags = push_tool_tags(config_tag);
    lemma_add_tagged_lookup(e, config, tags, k);
    lemma_add_tagged_unique(e, config, tags);
    let tagged = push_tagged(config, config_tag);
    lemma_inserted(tagged, "CLOUD_DEFAULT_UPLOAD_LOCATION"@, container);
    let first = inserted(tagged, "CLOUD_DEFAULT_UPLOAD_LOCATION"@, container);
    lemma_inserted(first, "CLOUD_TOKEN_UPLOAD_TIMEOUT"@, decimal(timeout as nat));
    assert(tags[0] == config_tag && tags[1] == "CLOUD"@ && tags[2] == "AZURE"@);
    if contains_seq(k, config_tag) {
        assert(contains_seq(k, tags[0]));
    }
    if contains_seq(k, "CLOUD"@) {
        assert(contains_seq(k, tags[1]));
    }
    if contains_seq(k, "AZURE"@) {
        assert(contains_seq(k, tags[2]));
    }
    assert(!has_key(e, k));
}

/// The container of a case, used as an upload location, names that
/// container: a name of ASCII letters holds no `/`.
pub proof fn law_case_container_is_container(name: Seq<char>)
    requires
        container_name_spec(name) is Ok,
    ensures
        resource_from_path(container_name_spec(name)->Ok_0) == AzureCloudResourceView::Container(
            container_name_spec(name)->Ok_0,
        ),
{
    let c = container_name_spec(name)->Ok_0;
    reveal_strlit("/");
    reveal_strlit("\\");
    assert forall|ch: char| #[trigger] crate::text::is_ascii_alpha(ch) implies ch != '/' && ch != '\\' by {}
    assert forall|i: int| !occurs_at(c, "\\"@, i) by {
        if occurs_at(c, "\\"@, i) {
            assert(c.subrange(i, i + 1)[0] == c[i]);
            assert(crate::text::is_ascii_alpha(c[i]));
        }
    }
    crate::text::lemma_replace_absent(c, "\\"@, "/"@);
    assert("/"@.len() == 1 && "/"@[0] == '/');
    if crate::text::ends_with_seq(c, "/"@) {
        assert(c.skip(c.len() - 1)[0] == c[c.len() - 1]);
        assert(crate::text::is_ascii_alpha(c[c.len() - 1]));
    }
    assert(!crate::text::ends_with_seq(c, "/"@));
    assert forall|i: int| !occurs_at(c, "/"@, i) by {
        if occurs_at(c, "/"@, i) {
            assert(c.subrange(i, i + 1)[0] == c[i]);
            assert(crate::text::is_ascii_alpha(c[i]));
        }
    }
}

impl PushRun {
    /// The name of the next tool to push, if any.
    pub fn upcoming(&self) -> (r: Option<&String>)
        ensures
            self.remaining().len() == 0 ==> r is None,
            self.remaining().len() > 0 ==> (r matches Some(n) && n@ == self.remaining()[0].0),
    {
        proof {
            use_type_invariant(self);
        }
        if self.next < self.calls.len() {
            Some(&self.calls[self.next].0)
        } else {
            None
        }
    }
}

} // verus!
