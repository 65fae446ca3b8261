//! The assistants that are known by name, and the choice among those that
//! are installed.

use vstd::prelude::*;
use crate::ai::adapter::CliAdapter;
use crate::ai::types::CliAdapterInfo;
use crate::text::convert::{chars_of, string_of};

verus! {

/// `which::which` looks the command up in the directories of the search
/// path. What it finds depends on the machine, so nothing is said of the
/// answer.
#[verifier::external_body]
fn command_exists(command: &str) -> (found: bool) {
    which::which(command).is_ok()
}

/// An assistant that is known by name.
#[derive(Debug, Clone)]
pub struct PresetCli {
    pub name: String,
    pub command: String,
    pub args: Vec<String>,
}

/// A known assistant, as values.
pub struct PresetCliView {
    pub name: Seq<char>,
    pub command: Seq<char>,
    pub args: Seq<Seq<char>>,
}

impl DeepView for PresetCli {
    type V = PresetCliView;

    open spec fn deep_view(&self) -> PresetCliView {
        PresetCliView { name: self.name@, command: self.command@, args: self.args.deep_view() }
    }
}

/// The known assistants, in the order of preference.
pub open spec fn presets() -> Seq<PresetCliView> {
    seq![
        PresetCliView { name: "Codex CLI"@, command: "codex"@, args: seq!["-q"@] },
        PresetCliView {
            name: "GitHub Copilot"@,
            command: "gh"@,
            args: seq!["copilot"@, "suggest"@, "-t"@, "shell"@],
        },
        PresetCliView { name: "Gemini CLI"@, command: "gemini"@, args: Seq::empty() },
        PresetCliView { name: "Aider"@, command: "aider"@, args: seq!["--message"@] },
        PresetCliView { name: "LLM CLI"@, command: "llm"@, args: Seq::empty() },
    ]
}

fn preset(name: &str, command: &str, args: Vec<String>) -> (p: PresetCli)
    ensures
        p.deep_view() == (PresetCliView {
            name: name@,
            command: command@,
            args: args.deep_view(),
        }),
{
    PresetCli { name: string_of(&chars_of(name)), command: string_of(&chars_of(command)), args }
}

fn words(a: &Vec<&str>) -> (out: Vec<String>)
    ensures
        out.deep_view() == Seq::new(a@.len(), |i: int| a@[i]@),
{
    let mut out: Vec<String> = Vec::new();
    let mut i: usize = 0;
    while i < a.len()
        invariant
            i <= a.len(),
            out.len() == i,
            forall|k: int| 0 <= k < i ==> out@[k]@ == a@[k]@,
        decreases a.len() - i,
    {
        out.push(string_of(&chars_of(a[i])));
        i += 1;
    }
    assert(out.deep_view() =~= Seq::new(a@.len(), |i: int| a@[i]@));
    out
}

/// The known assistants, in the order of preference.
pub fn preset_clis() -> (list: Vec<PresetCli>)
    ensures
        list.deep_view() == presets(),
{
    let mut list: Vec<PresetCli> = Vec::new();
    let a1 = words(&vec!["-q"]);
    let a2 = words(&vec!["copilot", "suggest", "-t", "shell"]);
    let a3 = words(&Vec::new());
    let a4 = words(&vec!["--message"]);
    let a5 = words(&Vec::new());
    assert(a1.deep_view() =~= seq!["-q"@]);
    assert(a2.deep_view() =~= seq!["copilot"@, "suggest"@, "-t"@, "shell"@]);
    assert(a3.deep_view() =~= Seq::<Seq<char>>::empty());
    assert(a4.deep_view() =~= seq!["--message"@]);
    assert(a5.deep_view() =~= Seq::<Seq<char>>::empty());
    list.push(preset("Codex CLI", "codex", a1));
    list.push(preset("GitHub Copilot", "gh", a2));
    list.push(preset("Gemini CLI", "gemini", a3));
    list.push(preset("Aider", "aider", a4));
    list.push(preset("LLM CLI", "llm", a5));
    assert(list.deep_view() =~= presets());
    list
}

/// For each known assistant, whether its command is installed.
pub fn probe_presets(list: &Vec<PresetCli>) -> (available: Vec<bool>)
    ensures
        available.len() == list.len(),
{
    let mut available: Vec<bool> = Vec::new();
    let mut i: usize = 0;
    while i < list.len()
        invariant
            i <= list.len(),
            available.len() == i,
        decreases list.len() - i,
    {
        available.push(command_exists(list[i].command.as_str()));
        i += 1;
    }
    available
}

/// The known assistants with whether each is installed, given that for each.
pub fn describe_presets(list: &Vec<PresetCli>, available: &Vec<bool>) -> (infos: Vec<CliAdapterInfo>)
    requires
        available.len() == list.len(),
    ensures
        infos.len() == list.len(),
        forall|i: int|
            0 <= i < list.len() ==> {
                &&& (#[trigger] infos@[i]).name@ == list@[i].name@
                &&& infos@[i].command@ == list@[i].command@
                &&& infos@[i].available == available@[i]
            },
{
    let mut infos: Vec<CliAdapterInfo> = Vec::new();
    let mut i: usize = 0;
    while i < list.len()
        invariant
            i <= list.len(),
            available.len() == list.len(),
            infos.len() == i,
            forall|k: int|
                0 <= k < i ==> {
                    &&& (#[trigger] infos@[k]).name@ == list@[k].name@
                    &&& infos@[k].command@ == list@[k].command@
                    &&& infos@[k].available == available@[k]
                },
        decreases list.len() - i,
    {
        infos.push(
            CliAdapterInfo {
                name: list[i].name.clone(),
                command: list[i].command.clone(),
                available: available[i],
            },
        );
        i += 1;
    }
    infos
}

/// The known assistants, each with whether its command is installed on this
/// machine.
pub fn detect_cli_adapters() -> (infos: Vec<CliAdapterInfo>)
    ensures
        infos.len() == presets().len(),
        forall|i: int|
            0 <= i < presets().len() ==> (#[trigger] infos@[i]).name@ == presets()[i].name
                && infos@[i].command@ == presets()[i].command,
{
    let list = preset_clis();
    let available = probe_presets(&list);
    let infos = describe_presets(&list, &available);
    assert forall|i: int| 0 <= i < presets().len() implies (#[trigger] infos@[i]).name@
        == presets()[i].name && infos@[i].command@ == presets()[i].command by {
        assert(list.deep_view()[i] == list@[i].deep_view());
    }
    infos
}

/// The index of the first installed assistant at or after `from`, or the
/// number of assistants where none is installed.
pub open spec fn first_installed(available: Seq<bool>, from: int) -> int
    decreases available.len() - from,
{
    if from < 0 || from >= available.len() {
        available.len() as int
    } else if available[from] {
        from
    } else {
        first_installed(available, from + 1)
    }
}

/// The index of the first assistant at or after `from` with the given name,
/// or the number of assistants where none has it.
pub open spec fn named(list: Seq<PresetCliView>, name: Seq<char>, from: int) -> int
    decreases list.len() - from,
{
    if from < 0 || from >= list.len() {
        list.len() as int
    } else if list[from].name == name {
        from
    } else {
        named(list, name, from + 1)
    }
}

/// The index of the assistant that the first name of the priority list, at
/// or after `from`, stands for that is known and installed; or the number
/// of assistants where there is no such name.
pub open spec fn first_preferred(
    list: Seq<PresetCliView>,
    available: Seq<bool>,
    priority: Seq<Seq<char>>,
    from: int,
) -> int
    decreases priority.len() - from,
{
    if from < 0 || from >= priority.len() {
        list.len() as int
    } else {
        let at = named(list, priority[from], 0);
        if 0 <= at < list.len() && at < available.len() && available[at] {
            at
        } else {
            first_preferred(list, available, priority, from + 1)
        }
    }
}

/// The index of the assistant to use: with no priority list the first that
/// is installed; else the first of the list that is known and installed.
pub open spec fn chosen(
    list: Seq<PresetCliView>,
    available: Seq<bool>,
    priority: Seq<Seq<char>>,
) -> int {
    if priority.len() == 0 {
        first_installed(available, 0)
    } else {
        first_preferred(list, available, priority, 0)
    }
}

/// Whether a choice is the assistant at index `at` of the list, with its
/// name, its command and its arguments, or none where the list has no such
/// index.
pub open spec fn is_choice(r: Option<CliAdapter>, list: Seq<PresetCliView>, at: int) -> bool {
    if 0 <= at < list.len() {
        r matches Some(adapter) && adapter.adapter_name@ == list[at].name && adapter.command@
            == list[at].command && adapter.args.deep_view() == list[at].args
    } else {
        r is None
    }
}

fn find_named(list: &Vec<PresetCli>, name: &String) -> (at: usize)
    ensures
        at == named(list.deep_view(), name@, 0),
        at <= list.len(),
{
    let mut i: usize = 0;
    while i < list.len()
        invariant
            i <= list.len(),
            named(list.deep_view(), name@, 0) == named(list.deep_view(), name@, i as int),
        decreases list.len() - i,
    {
        assert(list.deep_view()[i as int].name == list@[i as int].name@);
        if list[i].name == *name {
            return i;
        }
        i += 1;
    }
    i
}

fn clone_words(a: &Vec<String>) -> (out: Vec<String>)
    ensures
        out.deep_view() == a.deep_view(),
{
    let mut out: Vec<String> = Vec::new();
    let mut i: usize = 0;
    while i < a.len()
        invariant
            i <= a.len(),
            out.len() == i,
            forall|k: int| 0 <= k < i ==> out@[k]@ == a@[k]@,
        decreases a.len() - i,
    {
        out.push(a[i].clone());
        i += 1;
    }
    assert(out.deep_view() =~= a.deep_view());
    out
}

fn adapter_of(p: &PresetCli) -> (adapter: CliAdapter)
    ensures
        adapter.adapter_name@ == p.name@,
        adapter.command@ == p.command@,
        adapter.args.deep_view() == p.args.deep_view(),
{
    CliAdapter::new(p.name.clone(), p.command.clone(), clone_words(&p.args))
}

/// Chooses the assistant to use among the known ones, given for each
/// whether it is installed.
pub fn select_adapter(list: &Vec<PresetCli>, available: &Vec<bool>, priority: &Vec<String>) -> (r:
    Option<CliAdapter>)
    requires
        available.len() == list.len(),
    ensures
        is_choice(
            r,
            list.deep_view(),
            chosen(list.deep_view(), available@, priority.deep_view()),
        ),
{
    let ghost lv = list.deep_view();
    let ghost pv = priority.deep_view();
    if priority.len() == 0 {
        let mut i: usize = 0;
        while i < list.len()
            invariant
                i <= list.len(),
                available.len() == list.len(),
                priority.len() == 0,
                lv == list.deep_view(),
                first_installed(available@, 0) == first_installed(available@, i as int),
            decreases list.len() - i,
        {
            if available[i] {
                assert(lv[i as int] == list@[i as int].deep_view());
                return Some(adapter_of(&list[i]));
            }
            i += 1;
        }
        return None;
    }
    let mut k: usize = 0;
    while k < priority.len()
        invariant
            k <= priority.len(),
            available.len() == list.len(),
            priority.len() > 0,
            lv == list.deep_view(),
            pv == priority.deep_view(),
            first_preferred(lv, available@, pv, 0) == first_preferred(
                lv,
                available@,
                pv,
                k as int,
            ),
        decreases priority.len() - k,
    {
        assert(pv[k as int] == priority@[k as int]@);
        let at = find_named(list, &priority[k]);
        if at < list.len() && available[at] {
            assert(lv[at as int] == list@[at as int].deep_view());
            return Some(adapter_of(&list[at]));
        }
        k += 1;
    }
    None
}

/// Chooses the assistant to use among those installed on this machine: the
/// choice that `chosen` makes among the known assistants for the priority
/// list, whichever of them the machine has.
pub fn first_available_adapter_with_priority(priority: &Vec<String>) -> (r: Option<CliAdapter>)
    ensures
        exists|available: Seq<bool>|
            available.len() == presets().len() && is_choice(
                r,
                presets(),
                #[trigger] chosen(presets(), available, priority.deep_view()),
            ),
{
    let list = preset_clis();
    let available = probe_presets(&list);
    let r = select_adapter(&list, &available, priority);
    assert(is_choice(r, presets(), chosen(presets(), available@, priority.deep_view())));
    r
}

/// What to say where no assistant is installed.
pub fn no_adapter_message() -> (out: String)
    ensures
        out@ == "No AI CLI adapter available. Install one of: codex, gemini, aider, llm"@,
{
    string_of(
        &chars_of("No AI CLI adapter available. Install one of: codex, gemini, aider, llm"),
    )
}

} // verus!
