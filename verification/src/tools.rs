//! Tools: local programs with their call options, configuration and the
//! steps that have to be done before they run.
use vstd::prelude::*;
use crate::error::AurrError;
use crate::names::HasName;
use crate::format::{debug_text_list, map_listing, print_map};
use crate::kv::{
    add_matching, add_tagged, has_key, inserted, lookup, replaced_by_entries, ConfigTable,
    StringMap,
};
use crate::objects::{file_name, file_name_spec};
use crate::table::{value_of, SortedTable};
use crate::text::{
    all_ascii, ascii_lower, clone_strings, joined, join, opt_view, owned, parse_u8, parse_u8_spec, to_lowercase,
    unicode_lowercase, views, equals,
};

verus! {

broadcast use vstd::string::group_string_axioms;

/// The kinds of steps that have to be done before a tool is used.
#[derive(Debug, Clone, Copy, PartialEq, Eq, Hash, Structural)]
pub enum MandatorySteps {
    Generate,
    Target,
    Compile,
}

/// The step kind named by a lower-case name; "compile" is not one.
pub open spec fn step_named(l: Seq<char>) -> Result<MandatorySteps, ()> {
    if l == "generate"@ {
        Ok(MandatorySteps::Generate)
    } else if l == "target"@ {
        Ok(MandatorySteps::Target)
    } else {
        Err(())
    }
}

/// The key under which a step kind is written in a tool description.
pub open spec fn step_key(s: MandatorySteps) -> Seq<char> {
    match s {
        MandatorySteps::Generate => "Generate"@,
        MandatorySteps::Target => "Target"@,
        MandatorySteps::Compile => "Compile"@,
    }
}

/// The text form of a step kind.
pub open spec fn step_text(s: MandatorySteps) -> Seq<char> {
    match s {
        MandatorySteps::Compile => "compile"@,
        MandatorySteps::Generate => "generate"@,
        MandatorySteps::Target => "target"@,
    }
}

impl MandatorySteps {
    /// The key under which this kind is written ("Generate", "Target",
    /// "Compile").
    pub fn as_key(&self) -> (r: String)
        ensures
            r@ == step_key(*self),
    {
        match self {
            MandatorySteps::Generate => owned("Generate"),
            MandatorySteps::Target => owned("Target"),
            MandatorySteps::Compile => owned("Compile"),
        }
    }

    /// The text form of this kind ("generate", "target", "compile").
    pub fn to_string(&self) -> (r: String)
        ensures
            r@ == step_text(*self),
    {
        match self {
            MandatorySteps::Compile => owned("compile"),
            MandatorySteps::Generate => owned("generate"),
            MandatorySteps::Target => owned("target"),
        }
    }

    /// The kind named by `l`, a name already in lower case.
    pub fn from_lowercase(l: &str) -> (r: Result<MandatorySteps, ()>)
        ensures
            r == step_named(l@),
    {
        if equals(l, "generate") {
            Ok(MandatorySteps::Generate)
        } else if equals(l, "target") {
            Ok(MandatorySteps::Target)
        } else {
            Err(())
        }
    }

    /// The kind named by `s` in any case.
    pub fn parse(s: &str) -> (r: Result<MandatorySteps, ()>)
        ensures
            r == step_named(unicode_lowercase(s@)),
            all_ascii(s@) ==> r == step_named(ascii_lower(s@)),
    {
        let l = to_lowercase(s);
        MandatorySteps::from_lowercase(l.as_str())
    }
}

impl std::str::FromStr for MandatorySteps {
    type Err = ();

    fn from_str(s: &str) -> (r: Result<MandatorySteps, ()>)
        ensures
            r == step_named(unicode_lowercase(s@)),
            all_ascii(s@) ==> r == step_named(ascii_lower(s@)),
    {
        MandatorySteps::parse(s)
    }
}

/// The text of a step kind reads back as that kind, except `compile`, which
/// names no kind.
pub proof fn law_step_text_reads_back(s: MandatorySteps)
    ensures
        s != MandatorySteps::Compile ==> step_named(step_text(s)) == Ok::<MandatorySteps, ()>(s),
        s == MandatorySteps::Compile ==> step_named(step_text(s)) is Err,
{
    reveal_strlit("compile");
    reveal_strlit("generate");
    reveal_strlit("target");
    assert("compile"@[0] != "generate"@[0]);
    assert("compile"@[0] != "target"@[0]);
    assert("generate"@[0] != "target"@[0]);
}

/// The character views of step lists.
pub open spec fn step_views(v: Seq<(MandatorySteps, Vec<String>)>) -> Seq<
    (MandatorySteps, Seq<Seq<char>>),
> {
    v.map_values(|p: (MandatorySteps, Vec<String>)| (p.0, views(p.1@)))
}

/// The steps listed under kind `k`, if any.
pub open spec fn steps_of(e: Seq<(MandatorySteps, Seq<Seq<char>>)>, k: MandatorySteps) -> Option<
    Seq<Seq<char>>,
> {
    if exists|i: int| 0 <= i < e.len() && e[i].0 == k {
        Some(e[choose|i: int| 0 <= i < e.len() && e[i].0 == k].1)
    } else {
        None
    }
}

/// The steps of a tool, by kind, each kind once.
pub struct StepTable {
    steps: Vec<(MandatorySteps, Vec<String>)>,
}

impl StepTable {
    #[verifier::type_invariant]
    spec fn kinds_unique(self) -> bool {
        forall|i: int, j: int|
            0 <= i < self.steps@.len() && 0 <= j < self.steps@.len() && i != j
                ==> self.steps@[i].0 != self.steps@[j].0
    }

    /// The kinds and their steps.
    pub closed spec fn entries(&self) -> Seq<(MandatorySteps, Seq<Seq<char>>)> {
        step_views(self.steps@)
    }

    /// A table with no steps.
    pub fn new() -> (t: StepTable)
        ensures
            t.entries() == Seq::<(MandatorySteps, Seq<Seq<char>>)>::empty(),
    {
        let t = StepTable { steps: Vec::new() };
        assert(t.entries() =~= Seq::<(MandatorySteps, Seq<Seq<char>>)>::empty());
        t
    }

    /// Lists `steps` under `kind`, in place of what was listed there.
    pub fn insert(&mut self, kind: MandatorySteps, steps: Vec<String>)
        ensures
            steps_of(final(self).entries(), kind) == Some(views(steps@)),
            forall|k: MandatorySteps|
                k != kind ==> steps_of(final(self).entries(), k) == steps_of(
                    old(self).entries(),
                    k,
                ),
    {
        proof {
            use_type_invariant(&*self);
        }
        let ghost old_e = self.entries();
        let ghost sv = views(steps@);
        let mut v: Vec<(MandatorySteps, Vec<String>)> = Vec::new();
        std::mem::swap(&mut v, &mut self.steps);
        let mut i: usize = 0;
        while i < v.len() && v[i].0 != kind
            invariant
                i <= v@.len(),
                forall|j: int| 0 <= j < i ==> v@[j].0 != kind,
            decreases v@.len() - i,
        {
            i = i + 1;
        }
        if i < v.len() {
            v.set(i, (kind, steps));
        } else {
            v.push((kind, steps));
        }
        proof {
            let ne = step_views(v@);
            assert(ne[i as int].0 == kind);
            assert forall|k: MandatorySteps| #[trigger] steps_of(ne, k) == (if k == kind {
                Some(sv)
            } else {
                steps_of(old_e, k)
            }) by {
                if exists|j: int| 0 <= j < ne.len() && ne[j].0 == k {
                    let c = choose|j: int| 0 <= j < ne.len() && ne[j].0 == k;
                    if k == kind {
                        assert(c == i);
                    } else {
                        assert(old_e[c].0 == k);
                        let d = choose|j: int| 0 <= j < old_e.len() && old_e[j].0 == k;
                        assert(d == c);
                    }
                } else if k != kind {
                    if exists|j: int| 0 <= j < old_e.len() && old_e[j].0 == k {
                        let d = choose|j: int| 0 <= j < old_e.len() && old_e[j].0 == k;
                        assert(ne[d].0 == k);
                    }
                }
            }
        }
        self.steps = v;
    }

    /// The number of kinds listed.
    pub fn len(&self) -> (n: usize)
        ensures
            n == self.entries().len(),
    {
        self.steps.len()
    }

    /// The kind and steps of entry `i`.
    pub fn entry(&self, i: usize) -> (r: (MandatorySteps, &Vec<String>))
        requires
            i < self.entries().len(),
        ensures
            r.0 == self.entries()[i as int].0,
            views(r.1@) == self.entries()[i as int].1,
    {
        (self.steps[i].0, &self.steps[i].1)
    }

    /// The steps listed under `kind`, if any.
    pub fn get(&self, kind: MandatorySteps) -> (r: Option<&Vec<String>>)
        ensures
            r matches Some(v) ==> steps_of(self.entries(), kind) == Some(views(v@)),
            r is None ==> steps_of(self.entries(), kind) is None,
    {
        proof {
            use_type_invariant(self);
        }
        let mut i: usize = 0;
        while i < self.steps.len()
            invariant
                i <= self.steps@.len(),
                forall|a: int, b: int|
                    0 <= a < self.steps@.len() && 0 <= b < self.steps@.len() && a != b
                        ==> self.steps@[a].0 != self.steps@[b].0,
                forall|j: int| 0 <= j < i ==> self.steps@[j].0 != kind,
            decreases self.steps@.len() - i,
        {
            if self.steps[i].0 == kind {
                proof {
                    let e = self.entries();
                    assert(e[i as int].0 == kind);
                    let c = choose|j: int| 0 <= j < e.len() && e[j].0 == kind;
                    assert(c == i);
                }
                return Some(&self.steps[i].1);
            }
            i = i + 1;
        }
        proof {
            let e = self.entries();
            assert(!(exists|j: int| 0 <= j < e.len() && e[j].0 == kind));
        }
        None
    }
}

/// The configuration of a tool: settings that its command lines refer to.
pub struct ToolConfig {
    pub config: StringMap,
}

impl ToolConfig {
    /// A configuration with no entry.
    pub fn new() -> (t: ToolConfig)
        ensures
            t.config.entries() == Seq::<(Seq<char>, Seq<char>)>::empty(),
    {
        ToolConfig { config: StringMap::new() }
    }

    /// Adds every setting of `other_config` whose key contains `search`.
    pub fn search_other_config(&mut self, other_config: &ConfigTable, search: &str)
        ensures
            final(self).config.entries() == add_matching(
                old(self).config.entries(),
                other_config.entries(),
                search@,
            ),
    {
        self.config.add_matching(other_config, search);
    }

    /// Writes `val` under `key`: reading `key` afterwards gives `val`, and
    /// every other key reads as before.
    pub fn add(&mut self, key: String, val: String)
        ensures
            final(self).config.entries() == inserted(old(self).config.entries(), key@, val@),
            lookup(final(self).config.entries(), key@) == Some(val@),
            forall|k2: Seq<char>|
                k2 != key@ ==> lookup(final(self).config.entries(), k2) == lookup(
                    old(self).config.entries(),
                    k2,
                ),
    {
        self.config.insert(key, val);
    }

    /// The configuration made of the settings whose key contains `tag`; it is
    /// always made.
    pub fn from_config_by_tag(config: ConfigTable, tag: &str) -> (r: Option<ToolConfig>)
        ensures
            r matches Some(t) && t.config.entries() == add_matching(
                Seq::<(Seq<char>, Seq<char>)>::empty(),
                config.entries(),
                tag@,
            ),
    {
        let mut t = ToolConfig::new();
        t.search_other_config(&config, tag);
        Some(t)
    }

    /// The configuration made of the settings whose key contains one of the
    /// tags, tag by tag; it is always made.
    pub fn from_config_by_tags(config: &ConfigTable, tags: Vec<&str>) -> (r: Option<ToolConfig>)
        ensures
            r matches Some(t) && t.config.entries() == add_tagged(
                Seq::<(Seq<char>, Seq<char>)>::empty(),
                config.entries(),
                tags@.map_values(|t: &str| t@),
            ),
    {
        let mut t = ToolConfig::new();
        t.config.add_tagged(config, &tags);
        Some(t)
    }

    /// Replaces the value under `key`; the key must already be present.
    pub fn edit_entry(&mut self, key: String, new_val: String) -> (r: Result<(), AurrError>)
        ensures
            r is Ok <==> has_key(old(self).config.entries(), key@),
            r is Ok ==> final(self).config.entries() == inserted(
                old(self).config.entries(),
                key@,
                new_val@,
            ),
            r matches Err(e) ==> final(self).config.entries() == old(self).config.entries() && (
            e matches AurrError::KeyNotFound(k) && k@ == key@),
    {
        if self.config.set_existing(key.as_str(), new_val) {
            Ok(())
        } else {
            Err(AurrError::KeyNotFound(key))
        }
    }

    /// The value under `key`, as text.
    pub fn get(&self, key: &str) -> (r: Option<String>)
        ensures
            opt_view(r) == lookup(self.config.entries(), key@),
    {
        self.config.get(key)
    }

    /// The value under `key`, read as a byte; none when there is no value or
    /// it is not a number from 0 to 255.
    pub fn get_u8(&self, key: &str) -> (r: Option<u8>)
        ensures
            r == (match lookup(self.config.entries(), key@) {
                Some(v) => parse_u8_spec(v),
                None => None,
            }),
    {
        match self.config.get(key) {
            Some(v) => parse_u8(v.as_str()),
            None => None,
        }
    }
}

/// The steps of kind Target after putting the configuration into them:
/// each step with every configuration key replaced by its value, entry by
/// entry; the steps stay as they are without a configuration.
pub open spec fn target_steps(
    steps: Seq<Seq<char>>,
    config: Option<Seq<(Seq<char>, Seq<char>)>>,
) -> Seq<Seq<char>> {
    match config {
        Some(c) => steps.map_values(|s: Seq<char>| replaced_by_entries(s, c)),
        None => steps,
    }
}

/// A local tool.
pub struct Tool {
    pub name: String,
    pub author: String,
    pub task: String,
    pub localpath: String,
    pub config_tag: String,
    pub mandatory_steps: Option<StepTable>,
    pub call: SortedTable<Vec<String>>,
}

impl Tool {
    /// The steps of kind `k` that the tool lists: none when it has no table
    /// of steps or no steps of that kind.
    pub open spec fn steps_of_kind(&self, k: MandatorySteps) -> Option<Seq<Seq<char>>> {
        match self.mandatory_steps {
            Some(t) => steps_of(t.entries(), k),
            None => None,
        }
    }

    /// A tool for a local file: named after the last component of its path,
    /// with nothing else known of it. There is none when the file does not
    /// exist (`exists` says whether it does) or the path has no final
    /// component.
    pub fn for_file(path: &str, exists: bool) -> (r: Option<Tool>)
        ensures
            !exists ==> r is None,
            exists ==> match file_name_spec(path@) {
                None => r is None,
                Some(n) => r matches Some(t) && t.name@ == n && t.localpath@ == path@
                    && t.author@ == Seq::<char>::empty() && t.task@ == Seq::<char>::empty()
                    && t.config_tag@ == Seq::<char>::empty() && t.mandatory_steps is None
                    && t.call.entries().len() == 0,
            },
    {
        if !exists {
            return None;
        }
        match file_name(path) {
            None => None,
            Some(name) => Some(
                Tool {
                    name,
                    author: String::new(),
                    task: String::new(),
                    localpath: owned(path),
                    config_tag: String::new(),
                    mandatory_steps: None,
                    call: SortedTable::new(),
                },
            ),
        }
    }

    /// The command line for call option `call_key`: the words of the option
    /// joined by spaces, then every key of the configuration replaced by its
    /// value, entry by entry. None when the tool has no such option.
    pub fn get_cmdline(&self, call_key: &str, tool_config: &ToolConfig) -> (r: Option<String>)
        ensures
            match value_of(self.call.entries(), call_key@) {
                Some(words) => r matches Some(s) && s@ == replaced_by_entries(
                    joined(views(words@), " "@),
                    tool_config.config.entries(),
                ),
                None => r is None,
            },
    {
        match self.call.get(call_key) {
            Some(entry) => {
                let cmdline = join(entry, " ");
                Some(tool_config.config.replace_keys(cmdline))
            },
            None => None,
        }
    }

    /// The steps of kind `mandatory_step_type`, if the tool lists any; none
    /// when the tool has no table of steps.
    pub fn get_mandatory_step_by_type(&self, mandatory_step_type: MandatorySteps) -> (r: Option<
        Vec<String>,
    >)
        ensures
            match self.steps_of_kind(mandatory_step_type) {
                Some(s) => r matches Some(v) && views(v@) == s,
                None => r is None,
            },
    {
        match &self.mandatory_steps {
            Some(table) => match table.get(mandatory_step_type) {
                Some(steps) => Some(clone_strings(steps)),
                None => None,
            },
            None => None,
        }
    }

    /// Prepares steps of a kind for use: steps of kind Target get the
    /// configuration put into them; the other kinds give nothing.
    pub fn process_mandatory_step(
        &self,
        mandatory_step_type: MandatorySteps,
        steps: Vec<String>,
        config: Option<&ToolConfig>,
    ) -> (r: Option<Vec<String>>)
        ensures
            mandatory_step_type != MandatorySteps::Target ==> r is None,
            mandatory_step_type == MandatorySteps::Target ==> (r matches Some(v) && views(v@)
                == target_steps(
                views(steps@),
                match config {
                    Some(c) => Some(c.config.entries()),
                    None => None,
                },
            )),
    {
        match mandatory_step_type {
            MandatorySteps::Generate => None,
            MandatorySteps::Compile => None,
            MandatorySteps::Target => {
                match config {
                    Some(c) => {
                        let mut out: Vec<String> = Vec::new();
                        let mut i: usize = 0;
                        while i < steps.len()
                            invariant
                                i <= steps@.len(),
                                out@.len() == i,
                                forall|j: int|
                                    0 <= j < i ==> #[trigger] out@[j]@ == replaced_by_entries(
                                        steps@[j]@,
                                        c.config.entries(),
                                    ),
                            decreases steps@.len() - i,
                        {
                            let s = c.config.replace_keys(steps[i].clone());
                            out.push(s);
                            i = i + 1;
                        }
                        assert(views(out@) =~= views(steps@).map_values(
                            |s: Seq<char>| replaced_by_entries(s, c.config.entries()),
                        ));
                        Some(out)
                    },
                    None => Some(steps),
                }
            },
        }
    }

    /// The prepared steps of a kind (see `process_mandatory_step`), or none
    /// when the tool lists no steps of that kind (or no steps at all).
    pub fn produce_mandator_steps_by_type(
        &self,
        mandatory_step_type: MandatorySteps,
        config: &ToolConfig,
    ) -> (r: Option<Vec<String>>)
        ensures
            match self.steps_of_kind(mandatory_step_type) {
                Some(s) => if mandatory_step_type == MandatorySteps::Target {
                    r matches Some(v) && views(v@) == target_steps(
                        s,
                        Some(config.config.entries()),
                    )
                } else {
                    r is None
                },
                None => r is None,
            },
    {
        match self.get_mandatory_step_by_type(mandatory_step_type) {
            Some(ms) => self.process_mandatory_step(mandatory_step_type, ms, Some(config)),
            None => None,
        }
    }
}

impl HasName for Tool {
    open spec fn name_spec(&self) -> Seq<char> {
        self.name@
    }

    fn name(&self) -> (r: &str) {
        self.name.as_str()
    }
}

/// The entries of a listing of a tool's steps: each kind by its text, with
/// its steps written with `{:?}`.
pub open spec fn step_listing_entries(e: Seq<(MandatorySteps, Seq<Seq<char>>)>) -> Seq<
    (Seq<char>, Seq<char>),
> {
    e.map_values(|p: (MandatorySteps, Seq<Seq<char>>)| (step_text(p.0), debug_text_list(p.1)))
}

/// The entries of a listing of a tool's call options: each option with its
/// words written with `{:?}`.
pub open spec fn call_listing_entries(e: Seq<(Seq<char>, Vec<String>)>) -> Seq<
    (Seq<char>, Seq<char>),
> {
    e.map_values(|p: (Seq<char>, Vec<String>)| (p.0, debug_text_list(views(p.1@))))
}

/// The listing of a tool: name, author, local path, tag and whether its file
/// exists (as `exists_mark` shows it), then, in full, its steps and call
/// options, each in table order.
pub open spec fn tool_listing(t: Tool, full: bool, exists_mark: Seq<char>) -> Seq<char> {
    if full {
        "\n            name: "@ + t.name@ + ",\n            author "@ + t.author@
            + ",\n            localpath: "@ + t.localpath@ + ",\n            config_tag: "@
            + t.config_tag@ + ",\n            exists: "@ + exists_mark
            + ",\n            mandatory_steps: "@ + map_listing(
            step_listing_entries(t.mandatory_steps->0.entries()),
        ) + "\n            call_options: "@ + map_listing(call_listing_entries(t.call.entries()))
            + "\n            "@
    } else {
        "\n            name: "@ + t.name@ + ",\n            author "@ + t.author@
            + ",\n            localpath: "@ + t.localpath@ + ",\n            config_tag: "@
            + t.config_tag@ + ",\n            Exists: "@ + exists_mark + "\n            "@
    }
}

impl Tool {
    /// The listing of the tool; in full it needs the tool's table of steps.
    pub fn list_tool(&self, full: bool, exists_mark: &str) -> (r: String)
        requires
            full ==> self.mandatory_steps is Some,
        ensures
            r@ == tool_listing(*self, full, exists_mark@),
    {
        let mut s = owned("\n            name: ");
        s.append(self.name.as_str());
        s.append(",\n            author ");
        s.append(self.author.as_str());
        s.append(",\n            localpath: ");
        s.append(self.localpath.as_str());
        s.append(",\n            config_tag: ");
        s.append(self.config_tag.as_str());
        if full {
            s.append(",\n            exists: ");
            s.append(exists_mark);
            s.append(",\n            mandatory_steps: ");
            let steps = self.mandatory_steps.as_ref().unwrap();
            let mut se: Vec<(String, Vec<String>)> = Vec::new();
            let mut i: usize = 0;
            while i < steps.len()
                invariant
                    i <= steps.entries().len(),
                    se@.len() == i,
                    forall|j: int|
                        0 <= j < i ==> (#[trigger] se@[j]).0@ == step_text(steps.entries()[j].0)
                            && views(se@[j].1@) == steps.entries()[j].1,
                decreases steps.entries().len() - i,
            {
                let (k, v) = steps.entry(i);
                se.push((k.to_string(), clone_strings(v)));
                i = i + 1;
            }
            assert(se@.map_values(|p: (String, Vec<String>)| (p.0@, debug_text_list(views(p.1@))))
                =~= step_listing_entries(steps.entries()));
            let ms = print_map(&se);
            s.append(ms.as_str());
            s.append("\n            call_options: ");
            let mut ce: Vec<(String, Vec<String>)> = Vec::new();
            let mut j: usize = 0;
            while j < self.call.len()
                invariant
                    j <= self.call.entries().len(),
                    ce@.len() == j,
                    forall|m: int|
                        0 <= m < j ==> (#[trigger] ce@[m]).0@ == self.call.entries()[m].0
                            && views(ce@[m].1@) == views(self.call.entries()[m].1@),
                decreases self.call.entries().len() - j,
            {
                let (k, v) = self.call.entry(j);
                ce.push((k.clone(), clone_strings(v)));
                j = j + 1;
            }
            assert(ce@.map_values(|p: (String, Vec<String>)| (p.0@, debug_text_list(views(p.1@))))
                =~= call_listing_entries(self.call.entries()));
            let cs = print_map(&ce);
            s.append(cs.as_str());
            s.append("\n            ");
        } else {
            s.append(",\n            Exists: ");
            s.append(exists_mark);
            s.append("\n            ");
        }
        s
    }
}

} // verus!
