//! Objects: tools and files that a case brings to the target, with the
//! tasks that prepare them and the call options that run them.
use vstd::prelude::*;
use crate::error::AurrError;
use crate::generate::{grant_for, location_resource, request_view, upload_timeout,
    variable_grant, variable_kind, GrantRequest};
use crate::grammar::{
    assignments_of, build_assignments, is_name_start, is_name_start_exec, lemma_name_end, lines_of,
    name_end, pair_seq, piece, scan_name,
};
use crate::names::HasName;
use crate::kv::{add_matching, add_tagged, has_key, inserted, lookup, ConfigTable, StringMap};
use crate::format::{debug_string, debug_strings, debug_text, debug_text_list};
use crate::shell::{download_template_of, filled_template, fill_download_template, shell_name, Shell};
use crate::table::{value_of, SortedTable};
use crate::text::{
    all_ascii, ascii_lower, chars_of, clone_strings, equals, joined, last_piece, last_piece_of, opt_view, owned, pad_right,
    padded, parse_u8, parse_u8_spec, push_char, replace, replace_all, terminated, to_lowercase,
    unicode_lowercase, views,
};

verus! {

broadcast use vstd::string::group_string_axioms;

/// The tasks that can prepare an object, in the order in which they are
/// listed and done.
#[derive(Debug, Clone, Copy, PartialEq, Eq, Hash, PartialOrd, Ord, Structural)]
pub enum AurrObjectTaskList {
    /// Generates environment variables.
    GenEnvVar,
    /// Generates configuration entries.
    GenConfVar,
    /// Runs build scripts.
    Build,
    /// Alters the content of the object.
    Alter,
    /// Names other objects that are needed on the target.
    ReqObj,
    /// Commands to run on the target before the object is called.
    AtTarget,
}

/// The place of a task in the order.
pub open spec fn task_rank(t: AurrObjectTaskList) -> int {
    match t {
        AurrObjectTaskList::GenEnvVar => 0,
        AurrObjectTaskList::GenConfVar => 1,
        AurrObjectTaskList::Build => 2,
        AurrObjectTaskList::Alter => 3,
        AurrObjectTaskList::ReqObj => 4,
        AurrObjectTaskList::AtTarget => 5,
    }
}

/// The name of a task.
pub open spec fn task_name(t: AurrObjectTaskList) -> Seq<char> {
    match t {
        AurrObjectTaskList::Alter => "Alter"@,
        AurrObjectTaskList::AtTarget => "AtTarget"@,
        AurrObjectTaskList::Build => "Build"@,
        AurrObjectTaskList::GenConfVar => "GenConfVar"@,
        AurrObjectTaskList::GenEnvVar => "GenEnvVar"@,
        AurrObjectTaskList::ReqObj => "ReqObj"@,
    }
}

/// The task named by a lower-case name.
pub open spec fn task_named(l: Seq<char>) -> Result<AurrObjectTaskList, ()> {
    if l == "genenvvar"@ {
        Ok(AurrObjectTaskList::GenEnvVar)
    } else if l == "genconfvar"@ {
        Ok(AurrObjectTaskList::GenConfVar)
    } else if l == "build"@ {
        Ok(AurrObjectTaskList::Build)
    } else if l == "alter"@ {
        Ok(AurrObjectTaskList::Alter)
    } else if l == "reqobj"@ {
        Ok(AurrObjectTaskList::ReqObj)
    } else if l == "attarget"@ {
        Ok(AurrObjectTaskList::AtTarget)
    } else {
        Err(())
    }
}

/// The task names in ASCII lower case, which differ from each other.
proof fn lemma_lower_task_names()
    ensures
        ascii_lower(task_name(AurrObjectTaskList::Alter)) == "alter"@,
        ascii_lower(task_name(AurrObjectTaskList::AtTarget)) == "attarget"@,
        ascii_lower(task_name(AurrObjectTaskList::Build)) == "build"@,
        ascii_lower(task_name(AurrObjectTaskList::GenConfVar)) == "genconfvar"@,
        ascii_lower(task_name(AurrObjectTaskList::GenEnvVar)) == "genenvvar"@,
        ascii_lower(task_name(AurrObjectTaskList::ReqObj)) == "reqobj"@,
        "alter"@.len() == 5 && "build"@.len() == 5 && "reqobj"@.len() == 6,
        "attarget"@.len() == 8 && "genenvvar"@.len() == 9 && "genconfvar"@.len() == 10,
        "alter"@ != "build"@,
{
    reveal_strlit("Alter");
    reveal_strlit("AtTarget");
    reveal_strlit("Build");
    reveal_strlit("GenConfVar");
    reveal_strlit("GenEnvVar");
    reveal_strlit("ReqObj");
    reveal_strlit("alter");
    reveal_strlit("attarget");
    reveal_strlit("build");
    reveal_strlit("genconfvar");
    reveal_strlit("genenvvar");
    reveal_strlit("reqobj");
    assert(ascii_lower("Alter"@) =~= "alter"@);
    assert(ascii_lower("AtTarget"@) =~= "attarget"@);
    assert(ascii_lower("Build"@) =~= "build"@);
    assert(ascii_lower("GenConfVar"@) =~= "genconfvar"@);
    assert(ascii_lower("GenEnvVar"@) =~= "genenvvar"@);
    assert(ascii_lower("ReqObj"@) =~= "reqobj"@);
    assert("alter"@[0] != "build"@[0]);
}

/// Each task is found again from its name written in ASCII lower case; the
/// names are ASCII, so parsing a task's name in any case gives the task back.
pub proof fn law_task_name_round_trip(t: AurrObjectTaskList)
    ensures
        all_ascii(task_name(t)),
        task_named(ascii_lower(task_name(t))) == Ok::<AurrObjectTaskList, ()>(t),
{
    reveal_strlit("Alter");
    reveal_strlit("AtTarget");
    reveal_strlit("Build");
    reveal_strlit("GenConfVar");
    reveal_strlit("GenEnvVar");
    reveal_strlit("ReqObj");
    lemma_lower_task_names();
}

/// A text, read with ASCII case ignored, names task `t` exactly when it is
/// `t`'s name up to ASCII case, and names no task exactly when it is no
/// task's name up to ASCII case.
pub proof fn law_task_named_ignoring_case(s: Seq<char>, t: AurrObjectTaskList)
    ensures
        task_named(ascii_lower(s)) == Ok::<AurrObjectTaskList, ()>(t) <==> ascii_lower(s)
            == ascii_lower(task_name(t)),
        task_named(ascii_lower(s)) is Err <==> (forall|u: AurrObjectTaskList|
            ascii_lower(s) != ascii_lower(#[trigger] task_name(u))),
{
    lemma_lower_task_names();
    let l = ascii_lower(s);
    if task_named(l) is Err {
        assert forall|u: AurrObjectTaskList| l != ascii_lower(#[trigger] task_name(u)) by {
            lemma_lower_task_names();
        }
    } else {
        let u = task_named(l)->Ok_0;
        assert(l == ascii_lower(task_name(u)));
    }
}

impl AurrObjectTaskList {
    /// The place of the task in the order.
    pub fn rank(&self) -> (r: u8)
        ensures
            r == task_rank(*self),
    {
        match self {
            AurrObjectTaskList::GenEnvVar => 0,
            AurrObjectTaskList::GenConfVar => 1,
            AurrObjectTaskList::Build => 2,
            AurrObjectTaskList::Alter => 3,
            AurrObjectTaskList::ReqObj => 4,
            AurrObjectTaskList::AtTarget => 5,
        }
    }

    /// The name of the task.
    pub fn to_string(&self) -> (r: String)
        ensures
            r@ == task_name(*self),
    {
        match self {
            AurrObjectTaskList::Alter => owned("Alter"),
            AurrObjectTaskList::AtTarget => owned("AtTarget"),
            AurrObjectTaskList::Build => owned("Build"),
            AurrObjectTaskList::GenConfVar => owned("GenConfVar"),
            AurrObjectTaskList::GenEnvVar => owned("GenEnvVar"),
            AurrObjectTaskList::ReqObj => owned("ReqObj"),
        }
    }

    /// The task named by `l`, a name already in lower case.
    pub fn from_lowercase(l: &str) -> (r: Result<AurrObjectTaskList, ()>)
        ensures
            r == task_named(l@),
    {
        if equals(l, "genenvvar") {
            Ok(AurrObjectTaskList::GenEnvVar)
        } else if equals(l, "genconfvar") {
            Ok(AurrObjectTaskList::GenConfVar)
        } else if equals(l, "build") {
            Ok(AurrObjectTaskList::Build)
        } else if equals(l, "alter") {
            Ok(AurrObjectTaskList::Alter)
        } else if equals(l, "reqobj") {
            Ok(AurrObjectTaskList::ReqObj)
        } else if equals(l, "attarget") {
            Ok(AurrObjectTaskList::AtTarget)
        } else {
            Err(())
        }
    }

    /// The task named by `s` in any case.
    pub fn parse(s: &str) -> (r: Result<AurrObjectTaskList, ()>)
        ensures
            r == task_named(unicode_lowercase(s@)),
            all_ascii(s@) ==> r == task_named(ascii_lower(s@)),
    {
        let l = to_lowercase(s);
        AurrObjectTaskList::from_lowercase(l.as_str())
    }
}

impl std::str::FromStr for AurrObjectTaskList {
    type Err = ();

    fn from_str(s: &str) -> (r: Result<AurrObjectTaskList, ()>)
        ensures
            r == task_named(unicode_lowercase(s@)),
            all_ascii(s@) ==> r == task_named(ascii_lower(s@)),
    {
        AurrObjectTaskList::parse(s)
    }
}

/// Whether an object is a tool or a plain file.
#[derive(Debug, Clone, Copy, PartialEq, Eq, Structural)]
pub enum AurrObjectType {
    Tool,
    File,
}

/// The name of an object type.
pub open spec fn object_type_name(t: AurrObjectType) -> Seq<char> {
    match t {
        AurrObjectType::File => "File"@,
        AurrObjectType::Tool => "Tool"@,
    }
}

impl AurrObjectType {
    /// The name of the type ("Tool" or "File").
    pub fn to_string(&self) -> (r: String)
        ensures
            r@ == object_type_name(*self),
    {
        match self {
            AurrObjectType::File => owned("File"),
            AurrObjectType::Tool => owned("Tool"),
        }
    }
}

/// The views of optional values.
pub open spec fn opt_views(o: Option<Vec<String>>) -> Option<Seq<Seq<char>>> {
    match o {
        Some(x) => Some(views(x@)),
        None => None,
    }
}

/// All tasks, in task order.
pub open spec fn all_tasks() -> Seq<AurrObjectTaskList> {
    seq![
        AurrObjectTaskList::GenEnvVar,
        AurrObjectTaskList::GenConfVar,
        AurrObjectTaskList::Build,
        AurrObjectTaskList::Alter,
        AurrObjectTaskList::ReqObj,
        AurrObjectTaskList::AtTarget,
    ]
}

/// The task at place `r` of the order.
fn task_at(r: usize) -> (t: AurrObjectTaskList)
    requires
        r < 6,
    ensures
        t == all_tasks()[r as int],
        task_rank(t) == r,
{
    if r == 0 {
        AurrObjectTaskList::GenEnvVar
    } else if r == 1 {
        AurrObjectTaskList::GenConfVar
    } else if r == 2 {
        AurrObjectTaskList::Build
    } else if r == 3 {
        AurrObjectTaskList::Alter
    } else if r == 4 {
        AurrObjectTaskList::ReqObj
    } else {
        AurrObjectTaskList::AtTarget
    }
}

/// The values listed for a task, from its entry: none when the task is not
/// listed or is listed without values.
pub open spec fn values_of(entry: Option<Option<Seq<Seq<char>>>>) -> Option<Seq<Seq<char>>> {
    match entry {
        Some(Some(v)) => Some(v),
        _ => None,
    }
}

/// The tasks of an object with their values, each task at most once, handed
/// out in task order (the entries of a `BTreeMap` keyed by task).
pub struct TaskTable {
    slots: Vec<Option<Option<Vec<String>>>>,
}

impl TaskTable {
    #[verifier::type_invariant]
    spec fn six_slots(self) -> bool {
        self.slots@.len() == 6
    }

    /// The entry of task `t`: whether it is listed, and with which values.
    pub closed spec fn entry_of(&self, t: AurrObjectTaskList) -> Option<Option<Seq<Seq<char>>>> {
        match self.slots@[task_rank(t)] {
            Some(x) => Some(opt_views(x)),
            None => None,
        }
    }

    /// The listed tasks, in task order.
    pub open spec fn listed(&self) -> Seq<AurrObjectTaskList> {
        all_tasks().filter(|t: AurrObjectTaskList| self.entry_of(t) is Some)
    }

    /// A table with no task.
    pub fn new() -> (t: TaskTable)
        ensures
            forall|k: AurrObjectTaskList| t.entry_of(k) is None,
    {
        TaskTable { slots: vec![None, None, None, None, None, None] }
    }

    /// Lists `values` under `task` (std `BTreeMap::insert`), in place of
    /// what was listed there.
    pub fn insert(&mut self, task: AurrObjectTaskList, values: Option<Vec<String>>)
        ensures
            final(self).entry_of(task) == Some(opt_views(values)),
            forall|k: AurrObjectTaskList| k != task ==> final(self).entry_of(k) == old(self).entry_of(k),
    {
        proof {
            use_type_invariant(&*self);
        }
        let r = task.rank();
        let mut v: Vec<Option<Option<Vec<String>>>> = vec![None, None, None, None, None, None];
        std::mem::swap(&mut v, &mut self.slots);
        v.set(r as usize, Some(values));
        self.slots = v;
    }

    /// The entry of `task`, if it is listed.
    pub fn get(&self, task: AurrObjectTaskList) -> (r: Option<&Option<Vec<String>>>)
        ensures
            match self.entry_of(task) {
                Some(x) => r matches Some(y) && opt_views(*y) == x,
                None => r is None,
            },
    {
        proof {
            use_type_invariant(self);
        }
        let r = task.rank();
        match &self.slots[r as usize] {
            Some(x) => Some(x),
            None => None,
        }
    }

    /// The listed tasks, in task order.
    pub fn listed_tasks(&self) -> (r: Vec<AurrObjectTaskList>)
        ensures
            r@ == self.listed(),
    {
        proof {
            use_type_invariant(self);
        }
        let ghost pred = |t: AurrObjectTaskList| self.entry_of(t) is Some;
        let mut r: Vec<AurrObjectTaskList> = Vec::new();
        let mut i: usize = 0;
        while i < 6
            invariant
                self.slots@.len() == 6,
                i <= 6,
                pred == (|t: AurrObjectTaskList| self.entry_of(t) is Some),
                r@ == all_tasks().take(i as int).filter(pred),
            decreases 6 - i,
        {
            let t = task_at(i);
            proof {
                reveal_with_fuel(Seq::<_>::filter, 1);
                assert(all_tasks().take(i + 1).drop_last() =~= all_tasks().take(i as int));
            }
            if self.slots[i].is_some() {
                r.push(t);
            }
            i = i + 1;
        }
        assert(all_tasks().take(6) =~= all_tasks());
        r
    }
}

/// The configuration of an object: settings that its command lines refer to.
pub struct AurrObjectConfig {
    pub config: StringMap,
}

impl AurrObjectConfig {
    /// A configuration with no entry.
    pub fn new_empty() -> (c: AurrObjectConfig)
        ensures
            c.config.entries() == Seq::<(Seq<char>, Seq<char>)>::empty(),
    {
        AurrObjectConfig { config: StringMap::new() }
    }

    /// Writes `val` under `key`: reading `key` afterwards gives `val`, and
    /// every other key reads as before.
    pub fn add(&mut self, key: String, val: String)
        ensures
            final(self).config.entries() == inserted(old(self).config.entries(), key@, val@),
            lookup(final(self).config.entries(), key@) == Some(val@),
            forall|k2: Seq<char>|
                k2 != key@ ==> lookup(final(self).config.entries(), k2) == lookup(
                    old(self).config.entries(),
                    k2,
                ),
    {
        self.config.insert(key, val);
    }

    /// Adds every setting of `other_config` whose key contains `search`.
    pub fn search_other_config(&mut self, other_config: &ConfigTable, search: &str)
        ensures
            final(self).config.entries() == add_matching(
                old(self).config.entries(),
                other_config.entries(),
                search@,
            ),
    {
        self.config.add_matching(other_config, search);
    }

    /// The configuration made of the settings whose key contains one of the
    /// tags, tag by tag; it is always made.
    pub fn from_config_by_tags(config: &ConfigTable, tags: Vec<&str>) -> (r: Option<
        AurrObjectConfig,
    >)
        ensures
            r matches Some(t) && t.config.entries() == add_tagged(
                Seq::<(Seq<char>, Seq<char>)>::empty(),
                config.entries(),
                tags@.map_values(|t: &str| t@),
            ),
    {
        let mut t = AurrObjectConfig::new_empty();
        t.config.add_tagged(config, &tags);
        Some(t)
    }

    /// Replaces the value under `key`; the key must already be present.
    pub fn edit_entry(&mut self, key: String, new_val: String) -> (r: Result<(), AurrError>)
        ensures
            r is Ok <==> has_key(old(self).config.entries(), key@),
            r is Ok ==> final(self).config.entries() == inserted(
                old(self).config.entries(),
                key@,
                new_val@,
            ),
            r matches Err(e) ==> final(self).config.entries() == old(self).config.entries() && (
            e matches AurrError::KeyNotFound(k) && k@ == key@),
    {
        if self.config.set_existing(key.as_str(), new_val) {
            Ok(())
        } else {
            Err(AurrError::KeyNotFound(key))
        }
    }

    /// The value under `key`, as text.
    pub fn get(&self, key: &str) -> (r: Option<String>)
        ensures
            opt_view(r) == lookup(self.config.entries(), key@),
    {
        self.config.get(key)
    }

    /// The value under `key`, read as a byte; none when there is no value or
    /// it is not a number from 0 to 255.
    pub fn get_u8(&self, key: &str) -> (r: Option<u8>)
        ensures
            r == (match lookup(self.config.entries(), key@) {
                Some(v) => parse_u8_spec(v),
                None => None,
            }),
    {
        match self.config.get(key) {
            Some(v) => parse_u8(v.as_str()),
            None => None,
        }
    }
}

/// The final component of a path, as `Path::file_name` gives it: trailing
/// `/` and `.` components are passed over; a path that ends in `..`, or has
/// no component left, has none.
pub open spec fn file_name_spec(s: Seq<char>) -> Option<Seq<char>>
    decreases s.len(),
{
    if s.len() == 0 {
        None
    } else if s.last() == '/' {
        file_name_spec(s.drop_last())
    } else if last_piece(s, '/') == "."@ {
        file_name_spec(s.drop_last())
    } else if last_piece(s, '/') == ".."@ {
        None
    } else {
        Some(last_piece(s, '/'))
    }
}

/// The final component of a path (std `Path::file_name` on a `/`-separated
/// path).
pub fn file_name(path: &str) -> (r: Option<String>)
    ensures
        opt_view(r) == file_name_spec(path@),
{
    let v = chars_of(path);
    assert(v@.take(v.len() as int) =~= v@);
    file_name_upto(&v, v.len())
}

fn file_name_upto(v: &Vec<char>, n: usize) -> (r: Option<String>)
    requires
        n <= v.len(),
    ensures
        opt_view(r) == file_name_spec(v@.take(n as int)),
    decreases n,
{
    let ghost t = v@.take(n as int);
    if n == 0 {
        return None;
    }
    assert(t.drop_last() =~= v@.take(n - 1));
    if v[n - 1] == '/' {
        return file_name_upto(v, n - 1);
    }
    let head = crate::text::string_of_prefix(v, n);
    let p = last_piece_of(head.as_str(), '/');
    if equals(p.as_str(), ".") {
        file_name_upto(v, n - 1)
    } else if equals(p.as_str(), "..") {
        None
    } else {
        Some(p)
    }
}

/// The value that a command line gets for variable `name`: from the
/// environment, else from the configuration, else a note that it was not
/// found.
pub open spec fn variable_value(
    name: Seq<char>,
    config: Seq<(Seq<char>, Seq<char>)>,
    env: Seq<(Seq<char>, Seq<char>)>,
) -> Seq<char> {
    match lookup(env, name) {
        Some(x) => x,
        None => match lookup(config, name) {
            Some(x) => x,
            None => "<CLOUD NOT FIND ENTRY: \""@ + name + "\" in env or provided config>"@,
        },
    }
}

/// A variable that the environment sets takes its value from the
/// environment, whatever the configuration holds; one that only the
/// configuration sets takes it from there.
pub proof fn law_environment_before_configuration(
    name: Seq<char>,
    config: Seq<(Seq<char>, Seq<char>)>,
    env: Seq<(Seq<char>, Seq<char>)>,
)
    ensures
        lookup(env, name) matches Some(x) ==> variable_value(name, config, env) == x,
        lookup(env, name) is None && lookup(config, name) is Some ==> variable_value(
            name,
            config,
            env,
        ) == lookup(config, name)->0,
{
}

/// `w` from position `i` on, with each reference `$NAME` replaced, where it
/// stands, by the value of the longest name that follows the `$`; every other
/// character is kept.
pub open spec fn expanded_from(
    w: Seq<char>,
    i: int,
    config: Seq<(Seq<char>, Seq<char>)>,
    env: Seq<(Seq<char>, Seq<char>)>,
) -> Seq<char>
    decreases w.len() - i,
{
    if i < 0 || i >= w.len() {
        Seq::empty()
    } else if i + 1 < w.len() && w[i] == '$' && is_name_start(w[i + 1]) {
        let e = name_end(w, i + 1);
        if i < e <= w.len() {
            variable_value(w.subrange(i + 1, e), config, env) + expanded_from(w, e, config, env)
        } else {
            Seq::empty()
        }
    } else {
        seq![w[i]] + expanded_from(w, i + 1, config, env)
    }
}

/// A word of a call option with the variables it refers to put in.
pub open spec fn expanded_word(
    w: Seq<char>,
    config: Seq<(Seq<char>, Seq<char>)>,
    env: Seq<(Seq<char>, Seq<char>)>,
) -> Seq<char> {
    expanded_from(w, 0, config, env)
}

/// A call option as a command line: each word, expanded, followed by a
/// space.
pub open spec fn expanded_cmdline(
    words: Seq<Seq<char>>,
    config: Seq<(Seq<char>, Seq<char>)>,
    env: Seq<(Seq<char>, Seq<char>)>,
) -> Seq<char> {
    terminated(words.map_values(|w: Seq<char>| expanded_word(w, config, env)), " "@)
}

/// An object: a tool or a file that a case brings to the target.
pub struct AurrObject {
    name: String,
    object_type: AurrObjectType,
    author: String,
    config_tag: String,
    metadata: String,
    target_shell: Shell,
    local_path: String,
    task_list: TaskTable,
    call: SortedTable<Vec<String>>,
}

/// What to do for a listed task of an object.
pub enum TaskAction {
    /// The task has no values: nothing to do.
    Nothing,
    /// Do the task with these values.
    Run(AurrObjectTaskList, Vec<String>),
}

/// The local file name of a path in either separator style: the part after
/// the last `/` once `\` is read as `/`.
pub open spec fn remote_file_name(local_path: Seq<char>) -> Seq<char> {
    last_piece(replace_all(local_path, "\\"@, "/"@), '/')
}

impl AurrObject {
    /// The name of the object.
    pub closed spec fn name_view(&self) -> Seq<char> {
        self.name@
    }

    /// The configuration tag of the object.
    pub closed spec fn config_tag_view(&self) -> Seq<char> {
        self.config_tag@
    }

    /// The local path of the object.
    pub closed spec fn local_path_view(&self) -> Seq<char> {
        self.local_path@
    }

    /// The type of the object.
    pub closed spec fn object_type_spec(&self) -> AurrObjectType {
        self.object_type
    }

    /// The shell of the target.
    pub closed spec fn target_shell_spec(&self) -> Shell {
        self.target_shell
    }

    /// The entry of task `t`: whether it is listed, and with which values.
    pub closed spec fn task_entry(&self, t: AurrObjectTaskList) -> Option<Option<Seq<Seq<char>>>> {
        self.task_list.entry_of(t)
    }

    /// The values listed for task `t`, if it is listed with values.
    pub open spec fn task_values(&self, t: AurrObjectTaskList) -> Option<Seq<Seq<char>>> {
        values_of(self.task_entry(t))
    }

    /// The listed tasks, in task order.
    pub closed spec fn listed_tasks(&self) -> Seq<AurrObjectTaskList> {
        self.task_list.listed()
    }

    /// The call options, in name order.
    pub closed spec fn calls(&self) -> Seq<(Seq<char>, Vec<String>)> {
        self.call.entries()
    }

    /// The author.
    pub closed spec fn author_spec(&self) -> Seq<char> {
        self.author@
    }

    /// The metadata.
    pub closed spec fn metadata_spec(&self) -> Seq<char> {
        self.metadata@
    }

    /// An object made of all its parts.
    pub fn from_parts(
        name: String,
        object_type: AurrObjectType,
        author: String,
        config_tag: String,
        metadata: String,
        target_shell: Shell,
        local_path: String,
        task_list: TaskTable,
        call: SortedTable<Vec<String>>,
    ) -> (o: AurrObject)
        ensures
            o.name_view() == name@,
            o.object_type_spec() == object_type,
            o.author_spec() == author@,
            o.config_tag_view() == config_tag@,
            o.metadata_spec() == metadata@,
            o.target_shell_spec() == target_shell,
            o.local_path_view() == local_path@,
            forall|t: AurrObjectTaskList| o.task_entry(t) == task_list.entry_of(t),
            o.calls() == call.entries(),
    {
        AurrObject {
            name,
            object_type,
            author,
            config_tag,
            metadata,
            target_shell,
            local_path,
            task_list,
            call,
        }
    }

    /// An object for a local file: a file named after the last component of
    /// its path, with no author, tag, metadata, tasks or call options. The
    /// file must exist (`exists` says whether it does); a path with no final
    /// component names no file.
    pub fn new_from_path(path: &str, target_shell: Shell, exists: bool) -> (r: Result<
        AurrObject,
        AurrError,
    >)
        requires
            exists ==> file_name_spec(path@) is Some,
        ensures
            !exists ==> (r matches Err(e) && (e matches AurrError::FileNotFound(p) && p@
                == path@)),
            exists ==> (r matches Ok(o) && o.name_view() == file_name_spec(path@)->0
                && o.object_type_spec() == AurrObjectType::File && o.author_spec()
                == Seq::<char>::empty() && o.config_tag_view() == Seq::<char>::empty()
                && o.metadata_spec() == Seq::<char>::empty() && o.target_shell_spec()
                == target_shell && o.local_path_view() == path@ && (forall|t: AurrObjectTaskList|
                o.task_entry(t) is None) && o.calls().len() == 0),
    {
        if !exists {
            return Err(AurrError::FileNotFound(owned(path)));
        }
        let name = file_name(path).unwrap();
        Ok(AurrObject {
            name,
            object_type: AurrObjectType::File,
            author: String::new(),
            config_tag: String::new(),
            target_shell: target_shell,
            metadata: String::new(),
            local_path: owned(path),
            task_list: TaskTable::new(),
            call: SortedTable::new(),
        })
    }

    /// The configuration tag of the object.
    pub fn config_tag(&self) -> (r: &String)
        ensures
            r@ == self.config_tag_view(),
    {
        &self.config_tag
    }

    /// The local path of the object.
    pub fn local_path(&self) -> (r: &String)
        ensures
            r@ == self.local_path_view(),
    {
        &self.local_path
    }

    /// The author of the object.
    pub fn author(&self) -> (r: &String)
        ensures
            r@ == self.author_spec(),
    {
        &self.author
    }

    /// The metadata of the object.
    pub fn metadata(&self) -> (r: &String)
        ensures
            r@ == self.metadata_spec(),
    {
        &self.metadata
    }

    /// The type of the object.
    pub fn object_type(&self) -> (r: AurrObjectType)
        ensures
            r == self.object_type_spec(),
    {
        self.object_type
    }

    /// The tasks of the object.
    pub fn task_table(&self) -> (r: &TaskTable)
        ensures
            forall|t: AurrObjectTaskList| r.entry_of(t) == self.task_entry(t),
    {
        &self.task_list
    }

    /// The call options of the object.
    pub fn call_table(&self) -> (r: &SortedTable<Vec<String>>)
        ensures
            r.entries() == self.calls(),
    {
        &self.call
    }

    /// The shell of the target.
    pub fn target_shell(&self) -> (r: Shell)
        ensures
            r == self.target_shell_spec(),
    {
        self.target_shell
    }

    /// The values listed for `task`, if it is listed with values.
    pub fn get_task_value(&self, task: AurrObjectTaskList) -> (r: Option<Vec<String>>)
        ensures
            match self.task_values(task) {
                Some(v) => r matches Some(x) && views(x@) == v,
                None => r is None,
            },
    {
        match self.task_list.get(task) {
            Some(s) => match s {
                Some(v) => Some(clone_strings(v)),
                None => None,
            },
            None => None,
        }
    }

    /// The tasks that preparing the object goes through, in task order: all
    /// listed tasks but the one run on the target.
    pub fn pending_tasks(&self) -> (r: Vec<AurrObjectTaskList>)
        ensures
            r@ == self.listed_tasks().filter(|t: AurrObjectTaskList| t != AurrObjectTaskList::AtTarget),
    {
        let all = self.task_list.listed_tasks();
        let ghost pred = |t: AurrObjectTaskList| t != AurrObjectTaskList::AtTarget;
        let mut r: Vec<AurrObjectTaskList> = Vec::new();
        let mut i: usize = 0;
        while i < all.len()
            invariant
                i <= all@.len(),
                pred == (|t: AurrObjectTaskList| t != AurrObjectTaskList::AtTarget),
                r@ == all@.take(i as int).filter(pred),
            decreases all@.len() - i,
        {
            proof {
                reveal_with_fuel(Seq::<_>::filter, 1);
                assert(all@.take(i + 1).drop_last() =~= all@.take(i as int));
            }
            if all[i] != AurrObjectTaskList::AtTarget {
                r.push(all[i]);
            }
            i = i + 1;
        }
        assert(all@.take(i as int) =~= all@);
        r
    }

    /// What to do for `task`: run it with its values when it is listed with
    /// values, otherwise nothing. Altering objects is not supported, so an
    /// Alter task with values must not come here.
    pub fn task_action(&self, task: AurrObjectTaskList) -> (r: TaskAction)
        requires
            task == AurrObjectTaskList::Alter ==> self.task_values(task) is None,
        ensures
            match self.task_values(task) {
                Some(v) => r matches TaskAction::Run(t, x) && t == task && views(x@) == v,
                None => r is Nothing,
            },
    {
        match self.get_task_value(task) {
            Some(v) => TaskAction::Run(task, v),
            None => TaskAction::Nothing,
        }
    }

    /// The command line for call option `call_key`: each word with the
    /// variables `$NAME` it refers to put in (from the environment `env`, else
    /// the configuration, else a note), each followed by a space. None when
    /// the object has no such option.
    pub fn get_cmdline(&self, call_key: &str, config: &AurrObjectConfig, env: &StringMap) -> (r:
        Option<String>)
        ensures
            match value_of(self.calls(), call_key@) {
                Some(words) => r matches Some(s) && s@ == expanded_cmdline(
                    views(words@),
                    config.config.entries(),
                    env.entries(),
                ),
                None => r is None,
            },
    {
        match self.call.get(call_key) {
            Some(entry) => {
                let ghost ws = views(entry@).map_values(
                    |w: Seq<char>| expanded_word(w, config.config.entries(), env.entries()),
                );
                let mut s = String::new();
                let mut i: usize = 0;
                while i < entry.len()
                    invariant
                        i <= entry@.len(),
                        ws == views(entry@).map_values(
                            |w: Seq<char>|
                                expanded_word(w, config.config.entries(), env.entries()),
                        ),
                        s@ == terminated(ws.take(i as int), " "@),
                    decreases entry@.len() - i,
                {
                    let placeholder = expand_word(entry[i].as_str(), config, env);
                    s.append(placeholder.as_str());
                    s.append(" ");
                    i = i + 1;
                    assert(ws.take(i as int).drop_last() =~= ws.take(i - 1));
                }
                assert(ws.take(i as int) =~= ws);
                Some(s)
            },
            None => None,
        }
    }

    /// The download command for the object on the target: the shell's
    /// download template with the address and the object's local file name.
    pub fn download_command(&self, url: &str) -> (r: String)
        ensures
            r@ == filled_template(
                download_template_of(self.target_shell_spec()),
                url@,
                remote_file_name(self.local_path_view()),
            ),
    {
        let t = self.target_shell.get_download_template();
        let template = match t {
            Ok(x) => x,
            Err(_) => String::new(),
        };
        let p = replace(self.local_path.as_str(), "\\", "/");
        let f = last_piece_of(p.as_str(), '/');
        fill_download_template(template.as_str(), url, f.as_str())
    }

    /// The commands that bring the object to the target once it is in the
    /// cloud: the commands of its preparation, then its download command,
    /// then the commands it lists to run on the target.
    pub fn cloudify_commands(&self, prepared: Vec<String>, url: &str) -> (r: Vec<String>)
        ensures
            views(r@) == views(prepared@) + seq![
                filled_template(
                    download_template_of(self.target_shell_spec()),
                    url@,
                    remote_file_name(self.local_path_view()),
                ),
            ] + match self.task_values(AurrObjectTaskList::AtTarget) {
                Some(v) => v,
                None => Seq::empty(),
            },
    {
        let mut r = prepared;
        let d = self.download_command(url);
        r.push(d);
        let ghost mid = views(r@);
        match self.get_task_value(AurrObjectTaskList::AtTarget) {
            Some(v) => {
                let mut v = v;
                let ghost vv = views(v@);
                r.append(&mut v);
                assert(views(r@) =~= mid + vv);
            },
            None => {
                assert(views(r@) =~= mid + Seq::<Seq<char>>::empty());
            },
        }
        r
    }
}

/// The value of variable `name`: from the environment, else from the
/// configuration, else a note that it was not found.
fn value_of_variable(name: &str, config: &AurrObjectConfig, env: &StringMap) -> (r: String)
    ensures
        r@ == variable_value(name@, config.config.entries(), env.entries()),
{
    match env.get(name) {
        Some(e) => e,
        None => match config.get(name) {
            Some(e) => e,
            None => {
                let mut m = owned("<CLOUD NOT FIND ENTRY: \"");
                m.append(name);
                m.append("\" in env or provided config>");
                m
            },
        },
    }
}

/// A word with the variables it refers to put in.
fn expand_word(w: &str, config: &AurrObjectConfig, env: &StringMap) -> (r: String)
    ensures
        r@ == expanded_word(w@, config.config.entries(), env.entries()),
{
    let v = chars_of(w);
    let ghost c = config.config.entries();
    let ghost en = env.entries();
    let mut out = String::new();
    let mut i: usize = 0;
    while i < v.len()
        invariant
            v@ == w@,
            i <= v.len(),
            c == config.config.entries(),
            en == env.entries(),
            out@ + expanded_from(w@, i as int, c, en) == expanded_word(w@, c, en),
        decreases v.len() - i,
    {
        let ghost before = out@;
        if i + 1 < v.len() && v[i] == '$' && is_name_start_exec(v[i + 1]) {
            let e = scan_name(&v, i + 1);
            proof {
                lemma_name_end(v@, i + 1);
            }
            let name = piece(&v, i + 1, e);
            let value = value_of_variable(name.as_str(), config, env);
            out.append(value.as_str());
            assert(before + expanded_from(w@, i as int, c, en) =~= out@ + expanded_from(
                w@,
                e as int,
                c,
                en,
            ));
            i = e;
        } else {
            push_char(&mut out, v[i]);
            assert(before + expanded_from(w@, i as int, c, en) =~= out@ + expanded_from(
                w@,
                i + 1,
                c,
                en,
            ));
            i = i + 1;
        }
    }
    assert(out@ + Seq::<char>::empty() =~= out@);
    out
}

/// The entries `acc` after writing each pair of `pairs` in order.
pub open spec fn inserted_all(
    acc: Seq<(Seq<char>, Seq<char>)>,
    pairs: Seq<(Seq<char>, Seq<char>)>,
) -> Seq<(Seq<char>, Seq<char>)>
    decreases pairs.len(),
{
    if pairs.len() == 0 {
        acc
    } else {
        inserted(inserted_all(acc, pairs.drop_last()), pairs.last().0, pairs.last().1)
    }
}

/// The upload location that a variable is generated for: from the
/// environment, else from the configuration.
pub open spec fn variable_location(
    config: Seq<(Seq<char>, Seq<char>)>,
    env: Seq<(Seq<char>, Seq<char>)>,
) -> Option<Seq<char>> {
    match lookup(env, "CLOUD_DEFAULT_UPLOAD_LOCATION"@) {
        Some(x) => Some(x),
        None => lookup(config, "CLOUD_DEFAULT_UPLOAD_LOCATION"@),
    }
}

/// The address timeout of a configuration: the configured number of hours if
/// it is a byte, else 12.
pub open spec fn read_timeout_spec(config: Seq<(Seq<char>, Seq<char>)>) -> u8 {
    match lookup(config, "CLOUD_TOKEN_READ_TIMEOUT"@) {
        Some(v) => match parse_u8_spec(v) {
            Some(t) => t,
            None => 12,
        },
        None => 12,
    }
}

impl AurrObjectConfig {
    /// Writes the assignments that the output of a build script makes, in
    /// order.
    pub fn add_assignments(&mut self, output: &str)
        ensures
            final(self).config.entries() == inserted_all(
                old(self).config.entries(),
                assignments_of(lines_of(output@)),
            ),
    {
        let pairs = build_assignments(output);
        let ghost ps = pair_seq(pairs@);
        let mut i: usize = 0;
        while i < pairs.len()
            invariant
                i <= pairs@.len(),
                ps == pair_seq(pairs@),
                ps == assignments_of(lines_of(output@)),
                self.config.entries() == inserted_all(old(self).config.entries(), ps.take(i as int)),
            decreases pairs@.len() - i,
        {
            assert(ps.take(i + 1).drop_last() =~= ps.take(i as int));
            let k = pairs[i].0.clone();
            let v = pairs[i].1.clone();
            self.config.insert(k, v);
            i = i + 1;
        }
        assert(ps.take(i as int) =~= ps);
    }

    /// The number of hours that download addresses stay valid: the configured
    /// `CLOUD_TOKEN_READ_TIMEOUT` if it is a byte, else 12.
    pub fn read_timeout(&self) -> (r: u8)
        ensures
            r == read_timeout_spec(self.config.entries()),
    {
        match self.get_u8("CLOUD_TOKEN_READ_TIMEOUT") {
            Some(s) => s,
            None => 12,
        }
    }

    /// Where an object is uploaded to: the configured location, else the one
    /// the environment gives, else a fresh random UUID.
    pub fn cloudify_location(&self, env: &StringMap) -> (r: String)
        ensures
            match lookup(self.config.entries(), "CLOUD_DEFAULT_UPLOAD_LOCATION"@) {
                Some(v) => r@ == v,
                None => match lookup(env.entries(), "CLOUD_DEFAULT_UPLOAD_LOCATION"@) {
                    Some(v) => r@ == v,
                    None => crate::generate::uuid_shaped(r@),
                },
            },
    {
        match self.get("CLOUD_DEFAULT_UPLOAD_LOCATION") {
            Some(s) => s,
            None => match env.get("CLOUD_DEFAULT_UPLOAD_LOCATION") {
                Some(s) => s,
                None => crate::generate::new_uuid(),
            },
        }
    }
}

impl AurrObject {
    /// The grant that generating variable `var` asks for: at the upload
    /// location of the environment or else the configuration, valid for the
    /// configured upload timeout; the variable's name must end in
    /// `UPLOAD_TOKEN` or `UPLOAD_URL`. The timeout must be configured when
    /// the location names a resource.
    pub fn gen_var_request(
        &self,
        var: &str,
        config: &AurrObjectConfig,
        env: &StringMap,
        cloud_type: &str,
    ) -> (r: Result<GrantRequest, AurrError>)
        requires
            variable_location(config.config.entries(), env.entries()) matches Some(l)
                && location_resource(l, cloud_type@) is Some ==> upload_timeout(
                config.config.entries(),
            ) is Some,
        ensures
            match variable_location(config.config.entries(), env.entries()) {
                None => r matches Err(e) && e is MissingUploadLocation,
                Some(l) => match location_resource(l, cloud_type@) {
                    None => r matches Err(e) && e is UnsupportedCloudType,
                    Some(f) => match variable_kind(var@) {
                        Some(k) => r matches Ok(q) && request_view(q) == (
                            k,
                            f,
                            upload_timeout(config.config.entries())->0,
                        ),
                        None => r matches Err(e) && (e matches AurrError::UnsupportedParameter(
                            p,
                        ) && p@ == var@),
                    },
                },
            },
    {
        let location = match env.get("CLOUD_DEFAULT_UPLOAD_LOCATION") {
            Some(s) => s,
            None => match config.get("CLOUD_DEFAULT_UPLOAD_LOCATION") {
                Some(t) => t,
                None => {
                    return Err(AurrError::MissingUploadLocation);
                },
            },
        };
        let req = grant_for(
            crate::generate::GrantKind::UploadToken,
            location.as_str(),
            cloud_type,
            &config.config,
        );
        match req {
            Err(e) => Err(e),
            Ok(q) => match variable_grant(var) {
                Some(k) => Ok(GrantRequest { kind: k, resource: q.resource, timeout: q.timeout }),
                None => Err(AurrError::UnsupportedParameter(owned(var))),
            },
        }
    }
}

/// One line of an object's listing: the label padded to 15 characters, a
/// space and the value.
pub open spec fn ls_field(label: Seq<char>, value: Seq<char>) -> Seq<char> {
    "        "@ + pad_right(label, 15) + " "@ + value + "\n"@
}

/// The values of a task as its listing writes them: the list written with
/// `{:?}`, or nothing when the task has no values.
pub open spec fn task_values_text(values: Option<Seq<Seq<char>>>) -> Seq<char> {
    match values {
        Some(v) => debug_text_list(v),
        None => Seq::empty(),
    }
}

/// The listing of the tasks `tasks` of an object: each on a line of its own,
/// with its values.
pub open spec fn task_lines(o: &AurrObject, tasks: Seq<AurrObjectTaskList>) -> Seq<char>
    decreases tasks.len(),
{
    if tasks.len() == 0 {
        Seq::empty()
    } else {
        task_lines(o, tasks.drop_last()) + "\n            "@ + task_name(tasks.last()) + ": "@
            + task_values_text(o.task_values(tasks.last()))
    }
}

/// The words of a call option as its listing writes them: each written with
/// `{:?}`, separated by `, `.
pub open spec fn quoted_words(words: Seq<Seq<char>>) -> Seq<char> {
    joined(words.map_values(|w: Seq<char>| debug_text(w)), ", "@)
}

/// The listing of call options: each on a line of its own, its name and its
/// words.
pub open spec fn call_lines(calls: Seq<(Seq<char>, Vec<String>)>) -> Seq<char>
    decreases calls.len(),
{
    if calls.len() == 0 {
        Seq::empty()
    } else {
        call_lines(calls.drop_last()) + "\n            "@ + calls.last().0 + " "@ + quoted_words(
            views(calls.last().1@),
        )
    }
}

/// The listing of an object: name, type, author, tag, shell, metadata, path
/// and whether the file exists (as `exists_mark` shows it), then, in full,
/// its tasks and call options.
pub open spec fn ls_text(o: &AurrObject, full: bool, exists_mark: Seq<char>) -> Seq<char> {
    "\n"@ + ls_field("name:"@, o.name_view()) + ls_field(
        "object_type:"@,
        object_type_name(o.object_type_spec()),
    ) + ls_field("author:"@, o.author_spec()) + ls_field("config_tag:"@, o.config_tag_view())
        + ls_field("target_shell:"@, shell_name(o.target_shell_spec())) + ls_field(
        "metadata:"@,
        o.metadata_spec(),
    ) + ls_field("local_path:"@, o.local_path_view()) + ls_field("exists:"@, exists_mark) + if full {
        ls_field("task_list:"@, task_lines(o, o.listed_tasks())) + ls_field(
            "call:"@,
            call_lines(o.calls()),
        )
    } else {
        Seq::empty()
    }
}

/// Appends one listing line.
fn push_field(s: &mut String, label: &str, value: &str)
    ensures
        final(s)@ == old(s)@ + ls_field(label@, value@),
{
    s.append("        ");
    let l = padded(label, 15);
    s.append(l.as_str());
    s.append(" ");
    s.append(value);
    s.append("\n");
}

/// The words of a call option, each written with `{:?}`, separated by `, `.
fn quote_words(words: &Vec<String>) -> (r: String)
    ensures
        r@ == quoted_words(views(words@)),
{
    let mut q: Vec<String> = Vec::new();
    let mut i: usize = 0;
    while i < words.len()
        invariant
            i <= words@.len(),
            views(q@) == views(words@).take(i as int).map_values(|w: Seq<char>| debug_text(w)),
        decreases words@.len() - i,
    {
        let d = debug_string(words[i].as_str());
        let ghost before = views(q@);
        q.push(d);
        assert(views(q@) =~= before.push(debug_text(words@[i as int]@)));
        assert(views(words@).take(i + 1) =~= views(words@).take(i as int).push(words@[i as int]@));
        i = i + 1;
        assert(views(q@) =~= views(words@).take(i as int).map_values(|w: Seq<char>| debug_text(w)));
    }
    assert(views(words@).take(i as int) =~= views(words@));
    crate::text::join(&q, ", ")
}

impl AurrObject {
    /// The listing of the object for `ls`; `full` adds its tasks and call
    /// options. Whether its file exists is shown by `exists_mark`.
    pub fn ls(&self, full: bool, exists_mark: &str) -> (r: String)
        ensures
            r@ == ls_text(self, full, exists_mark@),
    {
        let mut s = owned("\n");
        push_field(&mut s, "name:", self.name.as_str());
        let t = self.object_type.to_string();
        push_field(&mut s, "object_type:", t.as_str());
        push_field(&mut s, "author:", self.author.as_str());
        push_field(&mut s, "config_tag:", self.config_tag.as_str());
        let sh = self.target_shell.name();
        push_field(&mut s, "target_shell:", sh.as_str());
        push_field(&mut s, "metadata:", self.metadata.as_str());
        push_field(&mut s, "local_path:", self.local_path.as_str());
        push_field(&mut s, "exists:", exists_mark);
        if full {
            let listed = self.task_list.listed_tasks();
            let mut tl = String::new();
            let mut i: usize = 0;
            while i < listed.len()
                invariant
                    i <= listed@.len(),
                    listed@ == self.listed_tasks(),
                    tl@ == task_lines(self, listed@.take(i as int)),
                decreases listed@.len() - i,
            {
                let task = listed[i];
                assert(listed@.take(i + 1).drop_last() =~= listed@.take(i as int));
                tl.append("\n            ");
                let n = task.to_string();
                tl.append(n.as_str());
                tl.append(": ");
                match self.get_task_value(task) {
                    Some(v) => {
                        let d = debug_strings(&v);
                        tl.append(d.as_str());
                    },
                    None => {},
                }
                i = i + 1;
            }
            assert(listed@.take(i as int) =~= listed@);
            push_field(&mut s, "task_list:", tl.as_str());
            let mut cl = String::new();
            let mut j: usize = 0;
            while j < self.call.len()
                invariant
                    j <= self.calls().len(),
                    cl@ == call_lines(self.calls().take(j as int)),
                decreases self.calls().len() - j,
            {
                let (k, v) = self.call.entry(j);
                assert(self.calls().take(j + 1).drop_last() =~= self.calls().take(j as int));
                cl.append("\n            ");
                cl.append(k.as_str());
                cl.append(" ");
                let q = quote_words(v);
                cl.append(q.as_str());
                j = j + 1;
            }
            assert(self.calls().take(j as int) =~= self.calls());
            push_field(&mut s, "call:", cl.as_str());
        }
        s
    }
}

impl HasName for AurrObject {
    open spec fn name_spec(&self) -> Seq<char> {
        self.name_view()
    }

    fn name(&self) -> (r: &str) {
        self.name.as_str()
    }
}

/// Where the index of objects is: the environment's
/// `LOCAL_AURROBJECT_INDEX`, else the configuration's.
pub fn object_index_location(config: &StringMap, env: &StringMap) -> (r: Result<String, AurrError>)
    ensures
        match lookup(env.entries(), "LOCAL_AURROBJECT_INDEX"@) {
            Some(v) => r matches Ok(x) && x@ == v,
            None => match lookup(config.entries(), "LOCAL_AURROBJECT_INDEX"@) {
                Some(v) => r matches Ok(x) && x@ == v,
                None => r matches Err(e) && e is MissingObjectIndex,
            },
        },
{
    match env.get("LOCAL_AURROBJECT_INDEX") {
        Some(v) => Ok(v),
        None => match config.get("LOCAL_AURROBJECT_INDEX") {
            Some(v) => Ok(v),
            None => Err(AurrError::MissingObjectIndex),
        },
    }
}

} // verus!
