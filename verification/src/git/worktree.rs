//! Worktrees: reading the porcelain listing.

use vstd::prelude::*;
use crate::git::history::short_form;
use crate::git::types::WorktreeInfo;
use crate::text::convert::{chars_of, slice_chars, str_eq, string_of};
use crate::text::lines::{lines, split_lines, texts};
use crate::text::search::{starts_with, starts_with_str};

verus! {

/// A worktree, as values.
pub struct WorktreeInfoView {
    pub path: Seq<char>,
    pub branch: Option<Seq<char>>,
    pub head_oid: Option<Seq<char>>,
    pub head_short_oid: Option<Seq<char>>,
    pub is_main: bool,
    pub is_clean: bool,
}

impl DeepView for WorktreeInfo {
    type V = WorktreeInfoView;

    open spec fn deep_view(&self) -> WorktreeInfoView {
        WorktreeInfoView {
            path: self.path@,
            branch: self.branch.deep_view(),
            head_oid: self.head_oid.deep_view(),
            head_short_oid: self.head_short_oid.deep_view(),
            is_main: self.is_main,
            is_clean: self.is_clean,
        }
    }
}

/// The name of a reference without `refs/heads/` before it.
pub open spec fn short_ref(refname: Seq<char>) -> Seq<char> {
    if starts_with(refname, "refs/heads/"@) {
        refname.subrange("refs/heads/"@.len() as int, refname.len() as int)
    } else {
        refname
    }
}

fn strip_refs_chars(refname: &Vec<char>) -> (out: Vec<char>)
    ensures
        out@ == short_ref(refname@),
{
    if starts_with_str(refname, "refs/heads/") {
        let p = chars_of("refs/heads/");
        slice_chars(refname, p.len(), refname.len())
    } else {
        assert(refname@.subrange(0, refname.len() as int) =~= refname@);
        slice_chars(refname, 0, refname.len())
    }
}

/// Takes `refs/heads/` off the name of a reference.
pub fn strip_refs_prefix(refname: &str) -> (out: String)
    ensures
        out@ == short_ref(refname@),
{
    string_of(&strip_refs_chars(&chars_of(refname)))
}

/// What is known while the listing is read: the worktrees found so far, and
/// the fields of the block that is being read.
pub struct ListingState {
    pub worktrees: Seq<WorktreeInfoView>,
    pub path: Seq<char>,
    pub head_oid: Option<Seq<char>>,
    pub branch: Option<Seq<char>>,
    pub is_bare: bool,
}

/// The worktrees once the block that is being read is closed: it counts
/// where it has a path and is not bare. The first worktree is the main one.
pub open spec fn with_block(state: ListingState) -> Seq<WorktreeInfoView> {
    if state.path.len() > 0 && !state.is_bare {
        state.worktrees.push(
            WorktreeInfoView {
                path: state.path,
                branch: state.branch,
                head_oid: state.head_oid,
                head_short_oid: match state.head_oid {
                    Some(oid) => Some(short_form(oid)),
                    None => None,
                },
                is_main: state.worktrees.len() == 0,
                is_clean: true,
            },
        )
    } else {
        state.worktrees
    }
}

/// What follows `key` on a line that begins with it.
pub open spec fn field_after(line: Seq<char>, key: Seq<char>) -> Seq<char> {
    line.subrange(key.len() as int, line.len() as int)
}

/// The state after one more line. An empty line closes a block that has a
/// path; else the first that applies of `worktree `, `HEAD `, `branch ` and
/// `bare` sets that field.
pub open spec fn listing_step(state: ListingState, line: Seq<char>) -> ListingState {
    if line.len() == 0 {
        if state.path.len() > 0 {
            ListingState {
                worktrees: with_block(state),
                path: Seq::empty(),
                head_oid: None,
                branch: None,
                is_bare: false,
            }
        } else {
            state
        }
    } else if starts_with(line, "worktree "@) {
        ListingState {
            worktrees: state.worktrees,
            path: field_after(line, "worktree "@),
            head_oid: state.head_oid,
            branch: state.branch,
            is_bare: state.is_bare,
        }
    } else if starts_with(line, "HEAD "@) {
        ListingState {
            worktrees: state.worktrees,
            path: state.path,
            head_oid: Some(field_after(line, "HEAD "@)),
            branch: state.branch,
            is_bare: state.is_bare,
        }
    } else if starts_with(line, "branch "@) {
        ListingState {
            worktrees: state.worktrees,
            path: state.path,
            head_oid: state.head_oid,
            branch: Some(short_ref(field_after(line, "branch "@))),
            is_bare: state.is_bare,
        }
    } else if line == "bare"@ {
        ListingState {
            worktrees: state.worktrees,
            path: state.path,
            head_oid: state.head_oid,
            branch: state.branch,
            is_bare: true,
        }
    } else {
        state
    }
}

/// The state after the first `n` lines.
pub open spec fn listing_state(ls: Seq<Seq<char>>, n: int) -> ListingState
    decreases n,
{
    if n <= 0 || n > ls.len() {
        ListingState {
            worktrees: Seq::empty(),
            path: Seq::empty(),
            head_oid: None,
            branch: None,
            is_bare: false,
        }
    } else {
        listing_step(listing_state(ls, n - 1), ls[n - 1])
    }
}

/// The worktrees of a porcelain listing, each taken as clean.
pub open spec fn worktrees_of(output: Seq<char>) -> Seq<WorktreeInfoView> {
    with_block(listing_state(lines(output), lines(output).len() as int))
}

/// The text of characters that may be missing.
pub open spec fn opt_text(a: Option<Vec<char>>) -> Option<Seq<char>> {
    match a {
        Some(v) => Some(v@),
        None => None,
    }
}

fn field_of(line: &Vec<char>, key: &str) -> (r: Option<Vec<char>>)
    ensures
        match r {
            Some(v) => starts_with(line@, key@) && v@ == field_after(line@, key@),
            None => !starts_with(line@, key@),
        },
{
    if starts_with_str(line, key) {
        let k = chars_of(key);
        Some(slice_chars(line, k.len(), line.len()))
    } else {
        None
    }
}

fn close_block(
    worktrees: &mut Vec<WorktreeInfo>,
    path: &Vec<char>,
    head_oid: &Option<Vec<char>>,
    branch: &Option<Vec<char>>,
    is_bare: bool,
)
    ensures
        final(worktrees).deep_view() == with_block(
            ListingState {
                worktrees: old(worktrees).deep_view(),
                path: path@,
                head_oid: opt_text(*head_oid),
                branch: opt_text(*branch),
                is_bare,
            },
        ),
{
    if path.len() > 0 && !is_bare {
        let is_main = worktrees.len() == 0;
        let head_short_oid = match head_oid {
            Some(oid) => {
                if oid.len() >= 7 {
                    Some(string_of(&slice_chars(oid, 0, 7)))
                } else {
                    Some(string_of(oid))
                }
            },
            None => None,
        };
        let info = WorktreeInfo {
            path: string_of(path),
            branch: match branch {
                Some(b) => Some(string_of(b)),
                None => None,
            },
            head_oid: match head_oid {
                Some(oid) => Some(string_of(oid)),
                None => None,
            },
            head_short_oid,
            is_main,
            is_clean: true,
        };
        let ghost before = worktrees.deep_view();
        worktrees.push(info);
        assert(worktrees.deep_view() =~= before.push(info.deep_view()));
    }
}

/// Reads the worktrees of a porcelain listing. Bare worktrees are left out.
pub fn parse_worktree_list(output: &str) -> (worktrees: Vec<WorktreeInfo>)
    ensures
        worktrees.deep_view() == worktrees_of(output@),
{
    let ls = split_lines(&chars_of(output));
    let ghost tl = texts(ls@);
    let mut worktrees: Vec<WorktreeInfo> = Vec::new();
    let mut path: Vec<char> = Vec::new();
    let mut head_oid: Option<Vec<char>> = None;
    let mut branch: Option<Vec<char>> = None;
    let mut is_bare = false;
    let mut i: usize = 0;
    assert(worktrees.deep_view() =~= Seq::<WorktreeInfoView>::empty());
    while i < ls.len()
        invariant
            i <= ls.len(),
            tl == texts(ls@),
            listing_state(tl, i as int) == (ListingState {
                worktrees: worktrees.deep_view(),
                path: path@,
                head_oid: opt_text(head_oid),
                branch: opt_text(branch),
                is_bare,
            }),
        decreases ls.len() - i,
    {
        let line = &ls[i];
        if line.len() == 0 {
            if path.len() > 0 {
                close_block(&mut worktrees, &path, &head_oid, &branch, is_bare);
                path = Vec::new();
                head_oid = None;
                branch = None;
                is_bare = false;
            }
        } else if let Some(val) = field_of(line, "worktree ") {
            path = val;
        } else if let Some(val) = field_of(line, "HEAD ") {
            head_oid = Some(val);
        } else if let Some(val) = field_of(line, "branch ") {
            branch = Some(strip_refs_chars(&val));
        } else if str_eq("bare", line) {
            is_bare = true;
        }
        i += 1;
    }
    close_block(&mut worktrees, &path, &head_oid, &branch, is_bare);
    worktrees
}

/// Whether a worktree is clean, from the run of the status command in it:
/// clean where the command went through and printed nothing but whitespace.
pub fn check_worktree_clean(success: bool, stdout: &str) -> (clean: bool)
    ensures
        clean == (success && crate::text::trim::is_blank(stdout@)),
{
    success && crate::text::trim::chars_trim(&chars_of(stdout)).len() == 0
}

} // verus!
