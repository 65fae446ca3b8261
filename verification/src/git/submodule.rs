//! Submodules: reading the status listing and the `.gitmodules` file.

use vstd::prelude::*;
use crate::git::history::short_form;
use crate::git::types::{SubmoduleInfo, SubmoduleStatus};
use crate::text::convert::{chars_of, slice_chars, string_of};
use crate::text::lines::{lines, split_lines, texts};
use crate::text::search::{find_char, find_from, starts_with, starts_with_str};
use crate::text::trim::{chars_trim, trim};

verus! {

/// A submodule, as values.
pub struct SubmoduleInfoView {
    pub path: Seq<char>,
    pub url: Seq<char>,
    pub branch: Option<Seq<char>>,
    pub head_oid: Option<Seq<char>>,
    pub head_short_oid: Option<Seq<char>>,
    pub status: SubmoduleStatus,
}

impl DeepView for SubmoduleInfo {
    type V = SubmoduleInfoView;

    open spec fn deep_view(&self) -> SubmoduleInfoView {
        SubmoduleInfoView {
            path: self.path@,
            url: self.url@,
            branch: self.branch.deep_view(),
            head_oid: self.head_oid.deep_view(),
            head_short_oid: self.head_short_oid.deep_view(),
            status: self.status,
        }
    }
}

/// The status that the first character of a status line stands for.
pub open spec fn prefix_status(line: Seq<char>) -> SubmoduleStatus {
    if line.len() > 0 && line[0] == '+' {
        SubmoduleStatus::Modified
    } else if line.len() > 0 && line[0] == '-' {
        SubmoduleStatus::Uninitialized
    } else if line.len() > 0 && line[0] == 'U' {
        SubmoduleStatus::Conflict
    } else {
        SubmoduleStatus::UpToDate
    }
}

/// Whether the first character of a status line is a status mark.
pub open spec fn has_status_mark(line: Seq<char>) -> bool {
    line.len() > 0 && (line[0] == '+' || line[0] == '-' || line[0] == 'U' || line[0] == ' ')
}

/// A status line without its status mark.
pub open spec fn after_status_mark(line: Seq<char>) -> Seq<char> {
    if has_status_mark(line) {
        line.subrange(1, line.len() as int)
    } else {
        line
    }
}

/// Parts a status line into its status and what follows the status mark.
pub fn parse_status_prefix(line: &str) -> (r: (SubmoduleStatus, String))
    ensures
        r.0 == prefix_status(line@),
        r.1@ == after_status_mark(line@),
{
    let chars = chars_of(line);
    let (status, rest) = status_prefix_chars(&chars);
    (status, string_of(&rest))
}

fn status_prefix_chars(chars: &Vec<char>) -> (r: (SubmoduleStatus, Vec<char>))
    ensures
        r.0 == prefix_status(chars@),
        r.1@ == after_status_mark(chars@),
{
    if chars.len() > 0 {
        let c = chars[0];
        if c == '+' {
            return (SubmoduleStatus::Modified, slice_chars(chars, 1, chars.len()));
        } else if c == '-' {
            return (SubmoduleStatus::Uninitialized, slice_chars(chars, 1, chars.len()));
        } else if c == 'U' {
            return (SubmoduleStatus::Conflict, slice_chars(chars, 1, chars.len()));
        } else if c == ' ' {
            return (SubmoduleStatus::UpToDate, slice_chars(chars, 1, chars.len()));
        }
    }
    assert(chars@.subrange(0, chars.len() as int) =~= chars@);
    (SubmoduleStatus::UpToDate, slice_chars(chars, 0, chars.len()))
}

/// The submodule that one status line tells of: the line without the
/// whitespace around it is a status mark, the commit, a space, the path, and
/// maybe a space and a description. A line without a space after the commit
/// tells of none. An uninitialized submodule has no commit.
pub open spec fn status_line(line: Seq<char>) -> Option<SubmoduleInfoView> {
    let trimmed = trim(line);
    let status = prefix_status(trimmed);
    let rest = after_status_mark(trimmed);
    let space = find_from(rest, ' ', 0);
    if trimmed.len() == 0 || space >= rest.len() {
        None
    } else {
        let oid = rest.subrange(0, space);
        let tail = rest.subrange(space + 1, rest.len() as int);
        Some(
            SubmoduleInfoView {
                path: tail.subrange(0, find_from(tail, ' ', 0)),
                url: Seq::empty(),
                branch: None,
                head_oid: if status == SubmoduleStatus::Uninitialized {
                    None
                } else {
                    Some(oid)
                },
                head_short_oid: if status == SubmoduleStatus::Uninitialized {
                    None
                } else {
                    Some(short_form(oid))
                },
                status,
            },
        )
    }
}

/// The submodules that the first `n` lines tell of.
pub open spec fn status_results(ls: Seq<Seq<char>>, n: int) -> Seq<SubmoduleInfoView>
    decreases n,
{
    if n <= 0 || n > ls.len() {
        Seq::empty()
    } else {
        match status_line(ls[n - 1]) {
            Some(info) => status_results(ls, n - 1).push(info),
            None => status_results(ls, n - 1),
        }
    }
}

fn parse_status_line(line: &Vec<char>) -> (r: Option<SubmoduleInfo>)
    ensures
        r.deep_view() == status_line(line@),
{
    let trimmed = chars_trim(line);
    if trimmed.len() == 0 {
        return None;
    }
    let (status, rest) = status_prefix_chars(&trimmed);
    let space = find_char(&rest, ' ', 0);
    if space >= rest.len() {
        return None;
    }
    let oid = slice_chars(&rest, 0, space);
    let tail = slice_chars(&rest, space + 1, rest.len());
    let path_end = find_char(&tail, ' ', 0);
    let path = slice_chars(&tail, 0, path_end);
    let short = if oid.len() >= 7 {
        slice_chars(&oid, 0, 7)
    } else {
        slice_chars(&oid, 0, oid.len())
    };
    proof {
        assert(oid@.subrange(0, oid.len() as int) =~= oid@);
    }
    let uninitialized = status == SubmoduleStatus::Uninitialized;
    let head_oid = if uninitialized {
        None
    } else {
        Some(string_of(&oid))
    };
    let head_short_oid = if uninitialized {
        None
    } else {
        Some(string_of(&short))
    };
    Some(
        SubmoduleInfo {
            path: string_of(&path),
            url: String::new(),
            branch: None,
            head_oid,
            head_short_oid,
            status,
        },
    )
}

/// The submodules that a status listing tells of.
pub fn parse_submodule_status(output: &str) -> (results: Vec<SubmoduleInfo>)
    ensures
        results.deep_view() == status_results(lines(output@), lines(output@).len() as int),
{
    let ls = split_lines(&chars_of(output));
    let ghost tl = texts(ls@);
    let mut results: Vec<SubmoduleInfo> = Vec::new();
    let mut i: usize = 0;
    assert(results.deep_view() =~= Seq::<SubmoduleInfoView>::empty());
    while i < ls.len()
        invariant
            i <= ls.len(),
            tl == texts(ls@),
            results.deep_view() == status_results(tl, i as int),
        decreases ls.len() - i,
    {
        let ghost before = results.deep_view();
        match parse_status_line(&ls[i]) {
            Some(info) => {
                results.push(info);
                assert(results.deep_view() =~= before.push(info.deep_view()));
            },
            None => {},
        }
        i += 1;
    }
    results
}

/// A section of the `.gitmodules` file.
#[derive(Debug, Clone)]
pub struct GitmoduleSection {
    pub path: String,
    pub url: String,
    pub branch: Option<String>,
}

/// A section of the `.gitmodules` file, as values.
pub struct GitmoduleSectionView {
    pub path: Seq<char>,
    pub url: Seq<char>,
    pub branch: Option<Seq<char>>,
}

impl DeepView for GitmoduleSection {
    type V = GitmoduleSectionView;

    open spec fn deep_view(&self) -> GitmoduleSectionView {
        GitmoduleSectionView { path: self.path@, url: self.url@, branch: self.branch.deep_view() }
    }
}

/// What is known while the file is read: the sections closed so far, and
/// the section that is open, if any.
pub struct ModulesState {
    pub sections: Seq<GitmoduleSectionView>,
    pub current: GitmoduleSectionView,
    pub in_section: bool,
}

/// A section with nothing set.
pub open spec fn no_section() -> GitmoduleSectionView {
    GitmoduleSectionView { path: Seq::empty(), url: Seq::empty(), branch: None }
}

/// The sections once the open one is closed: it counts where it has a path.
pub open spec fn closed(state: ModulesState) -> Seq<GitmoduleSectionView> {
    if state.in_section && state.current.path.len() > 0 {
        state.sections.push(state.current)
    } else {
        state.sections
    }
}

/// What follows `key` on a line that begins with it.
pub open spec fn value_after(line: Seq<char>, key: Seq<char>) -> Seq<char> {
    line.subrange(key.len() as int, line.len() as int)
}

/// The state after one more line. A line that opens a section closes the
/// one before; inside a section the first that applies of `path = `,
/// `url = ` and `branch = ` sets that field.
pub open spec fn modules_step(state: ModulesState, line: Seq<char>) -> ModulesState {
    let t = trim(line);
    if starts_with(t, "[submodule "@) {
        ModulesState { sections: closed(state), current: no_section(), in_section: true }
    } else if !state.in_section {
        state
    } else if starts_with(t, "path = "@) {
        ModulesState {
            sections: state.sections,
            current: GitmoduleSectionView {
                path: value_after(t, "path = "@),
                url: state.current.url,
                branch: state.current.branch,
            },
            in_section: true,
        }
    } else if starts_with(t, "url = "@) {
        ModulesState {
            sections: state.sections,
            current: GitmoduleSectionView {
                path: state.current.path,
                url: value_after(t, "url = "@),
                branch: state.current.branch,
            },
            in_section: true,
        }
    } else if starts_with(t, "branch = "@) {
        ModulesState {
            sections: state.sections,
            current: GitmoduleSectionView {
                path: state.current.path,
                url: state.current.url,
                branch: Some(value_after(t, "branch = "@)),
            },
            in_section: true,
        }
    } else {
        state
    }
}

/// The state after the first `n` lines.
pub open spec fn modules_state(ls: Seq<Seq<char>>, n: int) -> ModulesState
    decreases n,
{
    if n <= 0 || n > ls.len() {
        ModulesState { sections: Seq::empty(), current: no_section(), in_section: false }
    } else {
        modules_step(modules_state(ls, n - 1), ls[n - 1])
    }
}

/// The sections of a `.gitmodules` file that have a path.
pub open spec fn gitmodules(content: Seq<char>) -> Seq<GitmoduleSectionView> {
    closed(modules_state(lines(content), lines(content).len() as int))
}

fn value_of(line: &Vec<char>, key: &str) -> (r: Option<Vec<char>>)
    ensures
        match r {
            Some(v) => starts_with(line@, key@) && v@ == value_after(line@, key@),
            None => !starts_with(line@, key@),
        },
{
    if starts_with_str(line, key) {
        let k = chars_of(key);
        Some(slice_chars(line, k.len(), line.len()))
    } else {
        None
    }
}

fn copy_opt(a: &Option<Vec<char>>) -> (r: Option<String>)
    ensures
        r.deep_view() == match a {
            Some(v) => Some(v@),
            None => None,
        },
{
    match a {
        Some(v) => Some(string_of(v)),
        None => None,
    }
}

/// Reads the sections of a `.gitmodules` file.
pub fn parse_gitmodules(content: &str) -> (sections: Vec<GitmoduleSection>)
    ensures
        sections.deep_view() == gitmodules(content@),
{
    let ls = split_lines(&chars_of(content));
    let ghost tl = texts(ls@);
    let mut sections: Vec<GitmoduleSection> = Vec::new();
    let mut current_path: Vec<char> = Vec::new();
    let mut current_url: Vec<char> = Vec::new();
    let mut current_branch: Option<Vec<char>> = None;
    let mut in_section = false;
    let mut i: usize = 0;
    assert(sections.deep_view() =~= Seq::<GitmoduleSectionView>::empty());
    while i < ls.len()
        invariant
            i <= ls.len(),
            tl == texts(ls@),
            modules_state(tl, i as int) == (ModulesState {
                sections: sections.deep_view(),
                current: GitmoduleSectionView {
                    path: current_path@,
                    url: current_url@,
                    branch: match current_branch {
                        Some(b) => Some(b@),
                        None => None,
                    },
                },
                in_section,
            }),
        decreases ls.len() - i,
    {
        let trimmed = chars_trim(&ls[i]);
        let ghost before = sections.deep_view();
        if starts_with_str(&trimmed, "[submodule ") {
            if in_section && current_path.len() > 0 {
                let section = GitmoduleSection {
                    path: string_of(&current_path),
                    url: string_of(&current_url),
                    branch: copy_opt(&current_branch),
                };
                sections.push(section);
                assert(sections.deep_view() =~= before.push(section.deep_view()));
            }
            current_path = Vec::new();
            current_url = Vec::new();
            current_branch = None;
            in_section = true;
        } else if in_section {
            if let Some(val) = value_of(&trimmed, "path = ") {
                current_path = val;
            } else if let Some(val) = value_of(&trimmed, "url = ") {
                current_url = val;
            } else if let Some(val) = value_of(&trimmed, "branch = ") {
                current_branch = Some(val);
            }
        }
        i += 1;
    }
    if in_section && current_path.len() > 0 {
        let ghost before = sections.deep_view();
        let section = GitmoduleSection {
            path: string_of(&current_path),
            url: string_of(&current_url),
            branch: copy_opt(&current_branch),
        };
        sections.push(section);
        assert(sections.deep_view() =~= before.push(section.deep_view()));
    }
    sections
}

/// The index of the first section at or after `from` for `path`, or the
/// number of sections where there is none.
pub open spec fn find_section(sections: Seq<GitmoduleSectionView>, path: Seq<char>, from: int) -> int
    decreases sections.len() - from,
{
    if from < 0 || from >= sections.len() {
        sections.len() as int
    } else if sections[from].path == path {
        from
    } else {
        find_section(sections, path, from + 1)
    }
}

/// A submodule with the address and the branch of the first section for its
/// path, where there is one.
pub open spec fn enriched(sub: SubmoduleInfoView, sections: Seq<GitmoduleSectionView>) -> SubmoduleInfoView {
    let at = find_section(sections, sub.path, 0);
    if 0 <= at < sections.len() {
        SubmoduleInfoView {
            path: sub.path,
            url: sections[at].url,
            branch: sections[at].branch,
            head_oid: sub.head_oid,
            head_short_oid: sub.head_short_oid,
            status: sub.status,
        }
    } else {
        sub
    }
}

fn clone_opt(a: &Option<String>) -> (r: Option<String>)
    ensures
        r.deep_view() == a.deep_view(),
{
    match a {
        Some(v) => Some(v.clone()),
        None => None,
    }
}

/// Gives each submodule the address and the branch that the `.gitmodules`
/// file records for its path.
pub fn enrich_from_gitmodules(submodules: &mut Vec<SubmoduleInfo>, gitmodules_content: &str)
    ensures
        final(submodules).len() == old(submodules).len(),
        forall|i: int|
            0 <= i < old(submodules).len() ==> #[trigger] final(submodules)@[i].deep_view()
                == enriched(old(submodules)@[i].deep_view(), gitmodules(gitmodules_content@)),
{
    let sections = parse_gitmodules(gitmodules_content);
    let ghost sv = sections.deep_view();
    let n = submodules.len();
    let mut i: usize = 0;
    while i < n
        invariant
            i <= n,
            submodules.len() == n,
            old(submodules).len() == n,
            sv == sections.deep_view(),
            forall|k: int|
                0 <= k < i ==> #[trigger] submodules@[k].deep_view() == enriched(
                    old(submodules)@[k].deep_view(),
                    sv,
                ),
            forall|k: int| i <= k < n ==> #[trigger] submodules@[k] == old(submodules)@[k],
        decreases n - i,
    {
        let mut at: usize = 0;
        while at < sections.len() && sections[at].path != submodules[i].path
            invariant
                at <= sections.len(),
                i < n,
                submodules.len() == n,
                sv == sections.deep_view(),
                find_section(sv, submodules@[i as int].path@, 0) == find_section(
                    sv,
                    submodules@[i as int].path@,
                    at as int,
                ),
            decreases sections.len() - at,
        {
            assert(sv[at as int].path == sections@[at as int].path@);
            at += 1;
        }
        if at < sections.len() {
            assert(sv[at as int] == sections@[at as int].deep_view());
            let url = sections[at].url.clone();
            let branch = clone_opt(&sections[at].branch);
            submodules[i].url = url;
            submodules[i].branch = branch;
        }
        i += 1;
    }
}

} // verus!
