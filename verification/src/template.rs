//! Case templates and task templates: which tools a case runs, in which
//! order, and how a template is listed.
use vstd::prelude::*;
use crate::format::{btmap_listing, print_btmap, print_btmap_texts, written_lists, written_texts};
use crate::generate::{new_uuid, uuid_shaped};
use crate::names::HasName;
use crate::shell::{shell_name, Shell};
use crate::table::{key_seq, text_less, ascending, SortedTable};
use crate::text::{clone_strings, owned, views};

verus! {

broadcast use vstd::string::group_string_axioms;

/// The views of the call options of a task: tool name and call option names.
pub open spec fn calls_view(e: Seq<(Seq<char>, Vec<String>)>) -> Seq<(Seq<char>, Seq<Seq<char>>)> {
    e.map_values(|p: (Seq<char>, Vec<String>)| (p.0, views(p.1@)))
}

/// The view of one task of a template.
pub open spec fn task_view(o: Option<SortedTable<Vec<String>>>) -> Option<
    Seq<(Seq<char>, Seq<Seq<char>>)>,
> {
    match o {
        Some(t) => Some(calls_view(t.entries())),
        None => None,
    }
}

/// The views of the tasks of a template.
pub open spec fn tasks_view(e: Seq<(Seq<char>, Option<SortedTable<Vec<String>>>)>) -> Seq<
    (Seq<char>, Option<Seq<(Seq<char>, Seq<Seq<char>>)>>),
> {
    e.map_values(|p: (Seq<char>, Option<SortedTable<Vec<String>>>)| (p.0, task_view(p.1)))
}

/// The tool calls of a template, task by task in task order and tool by
/// tool in tool order: each tool with the call options that the task names
/// for it. Tasks without tools give none.
pub open spec fn scheduled(tasks: Seq<(Seq<char>, Option<Seq<(Seq<char>, Seq<Seq<char>>)>>)>) -> Seq<
    (Seq<char>, Seq<Seq<char>>),
>
    decreases tasks.len(),
{
    if tasks.len() == 0 {
        Seq::empty()
    } else {
        scheduled(tasks.drop_last()) + match tasks.last().1 {
            Some(calls) => calls,
            None => Seq::empty(),
        }
    }
}

/// The clean listing of one task: `None` when it names no tool, else the
/// listing of its tools.
pub open spec fn clean_task(o: Option<SortedTable<Vec<String>>>) -> Seq<char> {
    match o {
        Some(t) => btmap_listing(written_lists(t.entries())),
        None => "None"@,
    }
}

/// A task template: an operating system, a shell, and tasks that name tools
/// with the call options to run them with. Tasks run in the order of their
/// names.
pub struct TaskTemplate {
    name: String,
    os: String,
    shell: Shell,
    tasks: SortedTable<Option<SortedTable<Vec<String>>>>,
}

/// A copy of a table of call options.
fn copy_calls(t: &SortedTable<Vec<String>>) -> (r: SortedTable<Vec<String>>)
    ensures
        calls_view(r.entries()) == calls_view(t.entries()),
{
    t.ordered();
    let mut r: SortedTable<Vec<String>> = SortedTable::new();
    let mut i: usize = 0;
    while i < t.len()
        invariant
            i <= t.entries().len(),
            ascending(t.entries()),
            r.entries().len() == i,
            key_seq(r.entries()) == key_seq(t.entries()).take(i as int),
            calls_view(r.entries()) == calls_view(t.entries()).take(i as int),
        decreases t.entries().len() - i,
    {
        let (k, v) = t.entry(i);
        proof {
            if i > 0 {
                assert(key_seq(r.entries())[i - 1] == t.entries()[i - 1].0);
                assert(r.entries().last().0 == t.entries()[i - 1].0);
                assert(text_less(t.entries()[i - 1].0, t.entries()[i as int].0));
            }
        }
        r.push_greatest(k.clone(), clone_strings(v));
        i = i + 1;
        assert(key_seq(r.entries()) =~= key_seq(t.entries()).take(i as int));
        assert(calls_view(r.entries()) =~= calls_view(t.entries()).take(i as int));
    }
    assert(calls_view(t.entries()).take(i as int) =~= calls_view(t.entries()));
    r
}

impl TaskTemplate {
    /// The name of the template.
    pub closed spec fn name_view(&self) -> Seq<char> {
        self.name@
    }

    /// The operating system that the template is for.
    pub closed spec fn os_view(&self) -> Seq<char> {
        self.os@
    }

    /// The shell that the template's commands are written for.
    pub closed spec fn shell_spec(&self) -> Shell {
        self.shell
    }

    /// The tasks, in task order, each with its tools and their call options.
    pub closed spec fn tasks_spec(&self) -> Seq<(Seq<char>, Option<Seq<(Seq<char>, Seq<Seq<char>>)>>)> {
        tasks_view(self.tasks.entries())
    }

    /// The tasks as a table.
    pub closed spec fn task_table(&self) -> Seq<(Seq<char>, Option<SortedTable<Vec<String>>>)> {
        self.tasks.entries()
    }

    /// A template of all its parts.
    pub fn new(
        name: String,
        os: String,
        shell: Shell,
        tasks: SortedTable<Option<SortedTable<Vec<String>>>>,
    ) -> (t: TaskTemplate)
        ensures
            t.name_view() == name@,
            t.os_view() == os@,
            t.shell_spec() == shell,
            t.task_table() == tasks.entries(),
    {
        TaskTemplate { name, os, shell, tasks }
    }

    /// The operating system that the template is for.
    pub fn os(&self) -> (r: &String)
        ensures
            r@ == self.os_view(),
    {
        &self.os
    }

    /// The shell of the template.
    pub fn shell(&self) -> (r: Shell)
        ensures
            r == self.shell_spec(),
    {
        self.shell
    }

    /// The names of the tasks, in the order in which they run: ascending
    /// (alphanumeric) order of their names.
    pub fn list_tasks(&self) -> (r: Vec<String>)
        ensures
            views(r@) == key_seq(self.tasks_spec()),
            forall|i: int, j: int|
                0 <= i < j < r@.len() ==> text_less(#[trigger] r@[i]@, #[trigger] r@[j]@),
    {
        self.tasks.ordered();
        let r = self.tasks.keys();
        assert(key_seq(self.tasks.entries()) =~= key_seq(self.tasks_spec()));
        assert forall|i: int, j: int| 0 <= i < j < r@.len() implies text_less(
            #[trigger] r@[i]@,
            #[trigger] r@[j]@,
        ) by {
            assert(views(r@)[i] == self.tasks.entries()[i].0);
            assert(views(r@)[j] == self.tasks.entries()[j].0);
        }
        r
    }

    /// A copy of the tasks.
    pub fn tasks(&self) -> (r: SortedTable<Option<SortedTable<Vec<String>>>>)
        ensures
            tasks_view(r.entries()) == self.tasks_spec(),
    {
        self.tasks.ordered();
        let mut r: SortedTable<Option<SortedTable<Vec<String>>>> = SortedTable::new();
        let mut i: usize = 0;
        while i < self.tasks.len()
            invariant
                i <= self.tasks.entries().len(),
                ascending(self.tasks.entries()),
                r.entries().len() == i,
                key_seq(r.entries()) == key_seq(self.tasks.entries()).take(i as int),
                tasks_view(r.entries()) == tasks_view(self.tasks.entries()).take(i as int),
            decreases self.tasks.entries().len() - i,
        {
            let (k, v) = self.tasks.entry(i);
            let c = match v {
                Some(t) => Some(copy_calls(t)),
                None => None,
            };
            proof {
                if i > 0 {
                    assert(key_seq(r.entries())[i - 1] == self.tasks.entries()[i - 1].0);
                    assert(r.entries().last().0 == self.tasks.entries()[i - 1].0);
                    assert(text_less(self.tasks.entries()[i - 1].0, self.tasks.entries()[i as int].0));
                }
            }
            r.push_greatest(k.clone(), c);
            i = i + 1;
            assert(key_seq(r.entries()) =~= key_seq(self.tasks.entries()).take(i as int));
            assert(tasks_view(r.entries()) =~= tasks_view(self.tasks.entries()).take(i as int));
        }
        assert(tasks_view(self.tasks.entries()).take(i as int) =~= tasks_view(self.tasks.entries()));
        r
    }

    /// The tasks with each written out: `None` for a task without tools,
    /// else the listing of its tools and call options.
    pub fn list_tasks_clean(&self) -> (r: SortedTable<String>)
        ensures
            key_seq(r.entries()) == key_seq(self.task_table()),
            r.entries().len() == self.task_table().len(),
            forall|i: int|
                0 <= i < r.entries().len() ==> #[trigger] r.entries()[i].1@ == clean_task(
                    self.task_table()[i].1,
                ),
    {
        self.tasks.ordered();
        let mut r: SortedTable<String> = SortedTable::new();
        let mut i: usize = 0;
        while i < self.tasks.len()
            invariant
                i <= self.tasks.entries().len(),
                ascending(self.tasks.entries()),
                key_seq(r.entries()) == key_seq(self.tasks.entries()).take(i as int),
                r.entries().len() == i,
                forall|j: int|
                    0 <= j < i ==> #[trigger] r.entries()[j].1@ == clean_task(
                        self.tasks.entries()[j].1,
                    ),
            decreases self.tasks.entries().len() - i,
        {
            let (k, v) = self.tasks.entry(i);
            let val = match v {
                None => owned("None"),
                Some(a) => print_btmap(a),
            };
            proof {
                if i > 0 {
                    assert(key_seq(r.entries())[i - 1] == self.tasks.entries()[i - 1].0);
                    assert(r.entries().last().0 == self.tasks.entries()[i - 1].0);
                    assert(text_less(self.tasks.entries()[i - 1].0, self.tasks.entries()[i as int].0));
                }
            }
            r.push_greatest(k.clone(), val);
            i = i + 1;
            assert(key_seq(r.entries()) =~= key_seq(self.tasks.entries()).take(i as int));
        }
        assert(key_seq(self.tasks.entries()).take(i as int) =~= key_seq(self.tasks.entries()));
        r
    }

    /// The tool calls of the template, in the order in which a case runs
    /// them (see `scheduled`).
    pub fn scheduled_calls(&self) -> (r: Vec<(String, Vec<String>)>)
        ensures
            r@.map_values(|p: (String, Vec<String>)| (p.0@, views(p.1@))) == scheduled(
                self.tasks_spec(),
            ),
    {
        let ghost ts = self.tasks_spec();
        let mut r: Vec<(String, Vec<String>)> = Vec::new();
        let mut i: usize = 0;
        while i < self.tasks.len()
            invariant
                i <= self.tasks.entries().len(),
                ts == tasks_view(self.tasks.entries()),
                r@.map_values(|p: (String, Vec<String>)| (p.0@, views(p.1@))) == scheduled(
                    ts.take(i as int),
                ),
            decreases self.tasks.entries().len() - i,
        {
            let (_, v) = self.tasks.entry(i);
            assert(ts.take(i + 1).drop_last() =~= ts.take(i as int));
            match v {
                Some(sub) => {
                    let ghost base = r@.map_values(|p: (String, Vec<String>)| (p.0@, views(p.1@)));
                    let mut j: usize = 0;
                    while j < sub.len()
                        invariant
                            j <= sub.entries().len(),
                            r@.map_values(|p: (String, Vec<String>)| (p.0@, views(p.1@))) == base
                                + calls_view(sub.entries()).take(j as int),
                        decreases sub.entries().len() - j,
                    {
                        let (tool, opts) = sub.entry(j);
                        let ghost before = r@;
                        r.push((tool.clone(), clone_strings(opts)));
                        assert(r@ == before.push(r@.last()));
                        assert(r@.map_values(|p: (String, Vec<String>)| (p.0@, views(p.1@)))
                            =~= before.map_values(|p: (String, Vec<String>)| (p.0@, views(p.1@)))
                            .push(calls_view(sub.entries())[j as int]));
                        j = j + 1;
                        assert(r@.map_values(|p: (String, Vec<String>)| (p.0@, views(p.1@)))
                            =~= base + calls_view(sub.entries()).take(j as int));
                    }
                    assert(calls_view(sub.entries()).take(j as int) =~= calls_view(sub.entries()));
                },
                None => {
                    assert(scheduled(ts.take(i + 1)) =~= scheduled(ts.take(i as int)));
                },
            }
            i = i + 1;
        }
        assert(ts.take(i as int) =~= ts);
        r
    }

    /// The template written out: its name, system, shell and cleaned tasks.
    pub fn to_display_string(&self) -> (r: String)
        ensures
            r@ == template_text(self.name_view(), self.os_view(), self.shell_spec(), self.task_table()),
    {
        let clean = self.list_tasks_clean();
        let ghost e = self.task_table();
        assert(written_texts(clean.entries()) =~= clean_texts(e)) by {
            assert forall|i: int| 0 <= i < clean.entries().len() implies written_texts(
                clean.entries(),
            )[i] == clean_texts(e)[i] by {
                assert(key_seq(clean.entries())[i] == key_seq(e)[i]);
                assert(clean.entries()[i].1@ == clean_task(e[i].1));
            }
        }
        let mut s = owned("\n        TaskName: ");
        s.append(self.name.as_str());
        s.append(",\n        OS: ");
        s.append(self.os.as_str());
        s.append(",\n        Shell: ");
        let sh = self.shell.name();
        s.append(sh.as_str());
        s.append(",\n        Tasks: ");
        let t = print_btmap_texts(&clean);
        s.append(t.as_str());
        s.append("\n        ");
        s
    }
}

/// The tasks of a template with each cleaned listing written with `{:?}`.
pub open spec fn clean_texts(e: Seq<(Seq<char>, Option<SortedTable<Vec<String>>>)>) -> Seq<
    (Seq<char>, Seq<char>),
> {
    e.map_values(
        |p: (Seq<char>, Option<SortedTable<Vec<String>>>)|
            (p.0, crate::format::debug_text(clean_task(p.1))),
    )
}

/// A task template written out.
pub open spec fn template_text(
    name: Seq<char>,
    os: Seq<char>,
    shell: Shell,
    e: Seq<(Seq<char>, Option<SortedTable<Vec<String>>>)>,
) -> Seq<char> {
    "\n        TaskName: "@ + name + ",\n        OS: "@ + os + ",\n        Shell: "@ + shell_name(shell)
        + ",\n        Tasks: "@ + btmap_listing(clean_texts(e)) + "\n        "@
}

/// A case template: one case on one host, run with a task template.
pub struct CaseTemplate {
    name: String,
    hostname: String,
    task_template: TaskTemplate,
}

impl CaseTemplate {
    /// The host name.
    pub closed spec fn hostname_view(&self) -> Seq<char> {
        self.hostname@
    }

    /// The name of the case.
    pub closed spec fn name_view(&self) -> Seq<char> {
        self.name@
    }

    /// The task template.
    pub closed spec fn template(&self) -> &TaskTemplate {
        &self.task_template
    }

    /// A case of all its parts.
    pub fn from_parts(name: String, hostname: String, task_template: TaskTemplate) -> (c:
        CaseTemplate)
        ensures
            c.name_view() == name@,
            c.hostname_view() == hostname@,
            c.template() == &task_template,
    {
        CaseTemplate { name, hostname, task_template }
    }

    /// A case for a task template: with the name given or else a fresh random
    /// UUID, and the host given or else `N/A`.
    pub fn new_from_task(
        name: Option<String>,
        hostname: Option<String>,
        tasktemplate: TaskTemplate,
    ) -> (c: CaseTemplate)
        ensures
            match name {
                Some(n) => c.name_view() == n@,
                None => uuid_shaped(c.name_view()),
            },
            match hostname {
                Some(h) => c.hostname_view() == h@,
                None => c.hostname_view() == "N/A"@,
            },
            c.template() == &tasktemplate,
    {
        let n = match name {
            Some(nn) => nn,
            None => new_uuid(),
        };
        let h = match hostname {
            Some(hh) => hh,
            None => owned("N/A"),
        };
        CaseTemplate { name: n, hostname: h, task_template: tasktemplate }
    }

    /// The host of the case.
    pub fn hostname(&self) -> (r: &String)
        ensures
            r@ == self.hostname_view(),
    {
        &self.hostname
    }

    /// The task template of the case.
    pub fn task_template(&self) -> (r: &TaskTemplate)
        ensures
            r == self.template(),
    {
        &self.task_template
    }

    /// The case written out for listings: name, host and task template.
    pub fn ls_case(&self) -> (r: String)
        ensures
            r@ == "\n      name: "@ + self.name_view() + "\n      hostname: "@ + self.hostname_view()
                + "\n        task_template: "@ + template_text(
                self.template().name_view(),
                self.template().os_view(),
                self.template().shell_spec(),
                self.template().task_table(),
            ) + "\n        "@,
    {
        let t = self.task_template.to_display_string();
        let mut s = owned("\n      name: ");
        s.append(self.name.as_str());
        s.append("\n      hostname: ");
        s.append(self.hostname.as_str());
        s.append("\n        task_template: ");
        s.append(t.as_str());
        s.append("\n        ");
        s
    }
}

impl HasName for TaskTemplate {
    open spec fn name_spec(&self) -> Seq<char> {
        self.name_view()
    }

    fn name(&self) -> (r: &str) {
        self.name.as_str()
    }
}

impl HasName for CaseTemplate {
    open spec fn name_spec(&self) -> Seq<char> {
        self.name_view()
    }

    fn name(&self) -> (r: &str) {
        self.name.as_str()
    }
}

} // verus!
