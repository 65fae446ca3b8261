//! The index while a merge is in conflict: the stage of an entry, the paths
//! in conflict, and the content that resolves a whole file.

use vstd::prelude::*;
use crate::git::error::GitError;
use crate::git::types::{
    CommitFileChange,
    CommitFileStatus,
    ConflictFile,
    ConflictResolution,
    MergeBaseContent,
};
use crate::git::conflict::{parse_blocks, parse_conflict_markers};
use crate::text::convert::{chars_of, push_str, string_of};
use crate::text::number::{decimal, push_decimal};

verus! {

/// The stage that the flags of an index entry name: 0 for an entry that is
/// not in conflict, 1 for the common ancestor, 2 for our side, 3 for theirs.
pub open spec fn stage_of(flags: u16) -> u16 {
    (flags & 0x3000) >> 12
}

/// The stage of an index entry, from its flags.
pub fn entry_stage(flags: u16) -> (stage: u16)
    ensures
        stage == stage_of(flags),
        stage <= 3,
{
    let stage = (flags & 0x3000) >> 12;
    assert((flags & 0x3000) >> 12 <= 3) by (bit_vector);
    stage
}

/// An entry of the index: its path and its flags.
#[derive(Debug, Clone)]
pub struct IndexEntry {
    pub path: String,
    pub flags: u16,
}

/// The index of the first entry at or after `from` for `path` at `stage`,
/// or the number of entries where there is none.
pub open spec fn find_stage(entries: Seq<IndexEntry>, path: Seq<char>, stage: u16, from: int) -> int
    decreases entries.len() - from,
{
    if from < 0 || from >= entries.len() {
        entries.len() as int
    } else if entries[from].path@ == path && stage_of(entries[from].flags) == stage {
        from
    } else {
        find_stage(entries, path, stage, from + 1)
    }
}

/// The text of the error for a stage that the index does not hold.
pub open spec fn stage_missing_text(stage: u16, path: Seq<char>) -> Seq<char> {
    "stage "@ + decimal(stage as nat) + " entry not found for "@ + path
}

/// Finds the entry of the index for `path` at `stage`.
pub fn find_stage_entry(entries: &Vec<IndexEntry>, path: &str, stage: u16) -> (r: Result<
    usize,
    GitError,
>)
    ensures
        ({
            let at = find_stage(entries@, path@, stage, 0);
            if at < entries.len() {
                r == Ok::<usize, GitError>(at as usize)
            } else {
                r matches Err(e) && e is ConflictFailed && e.detail() == stage_missing_text(
                    stage,
                    path@,
                )
            }
        }),
{
    let key = string_of(&chars_of(path));
    let mut i: usize = 0;
    while i < entries.len()
        invariant
            i <= entries.len(),
            key@ == path@,
            find_stage(entries@, path@, stage, 0) == find_stage(entries@, path@, stage, i as int),
        decreases entries.len() - i,
    {
        if entries[i].path == key && entry_stage(entries[i].flags) == stage {
            return Ok(i);
        }
        i += 1;
    }
    let mut msg: Vec<char> = Vec::new();
    push_str(&mut msg, "stage ");
    push_decimal(&mut msg, stage as u64);
    push_str(&mut msg, " entry not found for ");
    push_str(&mut msg, path);
    assert(msg@ =~= stage_missing_text(stage, path@));
    Err(GitError::ConflictFailed(string_of(&msg)))
}

/// Which sides the resolution of a whole file reads from the index.
pub fn stages_needed(resolution: &ConflictResolution) -> (r: (bool, bool))
    ensures
        r.0 == (resolution is Ours || resolution is Both),
        r.1 == (resolution is Theirs || resolution is Both),
{
    match resolution {
        ConflictResolution::Ours => (true, false),
        ConflictResolution::Theirs => (false, true),
        ConflictResolution::Both => (true, true),
        ConflictResolution::Manual(_) => (false, false),
    }
}

/// The content that resolves a whole file: our side, their side, ours
/// followed by theirs, or the given text as it is.
pub open spec fn resolved_content(
    resolution: ConflictResolution,
    ours: Seq<char>,
    theirs: Seq<char>,
) -> Seq<char> {
    match resolution {
        ConflictResolution::Ours => ours,
        ConflictResolution::Theirs => theirs,
        ConflictResolution::Both => ours + theirs,
        ConflictResolution::Manual(text) => text@,
    }
}

/// The content to write for a file resolved as a whole, from the two sides
/// as the index holds them. A side that the resolution does not read may be
/// given as empty.
pub fn resolve_conflict(resolution: &ConflictResolution, ours: &str, theirs: &str) -> (out: String)
    ensures
        out@ == resolved_content(*resolution, ours@, theirs@),
{
    let mut text: Vec<char> = Vec::new();
    match resolution {
        ConflictResolution::Ours => push_str(&mut text, ours),
        ConflictResolution::Theirs => push_str(&mut text, theirs),
        ConflictResolution::Both => {
            push_str(&mut text, ours);
            push_str(&mut text, theirs);
        },
        ConflictResolution::Manual(content) => push_str(&mut text, content.as_str()),
    }
    string_of(&text)
}

/// The three sides of a file in conflict. The common ancestor may be
/// missing.
pub fn get_merge_base_content(path: &str, base: Option<String>, ours: String, theirs: String) -> (r:
    MergeBaseContent)
    ensures
        r.path@ == path@,
        r.base_content == base,
        r.ours_content == ours,
        r.theirs_content == theirs,
{
    MergeBaseContent {
        path: string_of(&chars_of(path)),
        base_content: base,
        ours_content: ours,
        theirs_content: theirs,
    }
}

/// Whether `path` is among the first `n` paths.
pub open spec fn seen_before(paths: Seq<Option<Seq<char>>>, n: int, path: Seq<char>) -> bool {
    exists|k: int| 0 <= k < n && k < paths.len() && paths[k] == Some(path)
}

/// The paths among the first `n`, each once, in the order in which they
/// first occur.
pub open spec fn distinct_paths(paths: Seq<Option<Seq<char>>>, n: int) -> Seq<Seq<char>>
    decreases n,
{
    if n <= 0 || n > paths.len() {
        Seq::empty()
    } else {
        match paths[n - 1] {
            Some(p) => if seen_before(paths, n - 1, p) {
                distinct_paths(paths, n - 1)
            } else {
                distinct_paths(paths, n - 1).push(p)
            },
            None => distinct_paths(paths, n - 1),
        }
    }
}

proof fn lemma_distinct_paths(paths: Seq<Option<Seq<char>>>, n: int, path: Seq<char>)
    requires
        0 <= n <= paths.len(),
    ensures
        distinct_paths(paths, n).contains(path) <==> seen_before(paths, n, path),
    decreases n,
{
    if n == 0 {
        if distinct_paths(paths, 0).contains(path) {
            let k = choose|k: int|
                0 <= k < distinct_paths(paths, 0).len() && distinct_paths(paths, 0)[k] == path;
        }
    } else {
        lemma_distinct_paths(paths, n - 1, path);
        let before = distinct_paths(paths, n - 1);
        let now = distinct_paths(paths, n);
        if seen_before(paths, n, path) {
            let k = choose|k: int| 0 <= k < n && k < paths.len() && paths[k] == Some(path);
            if k < n - 1 {
                assert(seen_before(paths, n - 1, path));
                let j = choose|j: int| 0 <= j < before.len() && before[j] == path;
                assert(now[j] == path);
            } else {
                if seen_before(paths, n - 1, path) {
                    let j = choose|j: int| 0 <= j < before.len() && before[j] == path;
                    assert(now[j] == path);
                } else {
                    assert(now == before.push(path));
                    assert(now[before.len() as int] == path);
                }
            }
        }
        if now.contains(path) {
            let j = choose|j: int| 0 <= j < now.len() && now[j] == path;
            if j < before.len() {
                assert(before[j] == path);
                assert(before.contains(path));
                let k = choose|k: int| 0 <= k < n - 1 && k < paths.len() && paths[k] == Some(path);
                assert(0 <= k < n && paths[k] == Some(path));
            } else {
                assert(paths[n - 1] == Some(path));
            }
        }
    }
}

/// The paths in conflict, each once, from the path that each conflict of
/// the index names, if it names one.
pub fn collect_conflict_paths(candidates: &Vec<Option<String>>) -> (paths: Vec<String>)
    ensures
        paths.deep_view() == distinct_paths(candidates.deep_view(), candidates.len() as int),
{
    let ghost cv = candidates.deep_view();
    let mut paths: Vec<String> = Vec::new();
    let mut i: usize = 0;
    assert(paths.deep_view() =~= Seq::<Seq<char>>::empty());
    while i < candidates.len()
        invariant
            i <= candidates.len(),
            cv == candidates.deep_view(),
            paths.deep_view() == distinct_paths(cv, i as int),
        decreases candidates.len() - i,
    {
        if let Some(p) = &candidates[i] {
            assert(cv[i as int] == Some(p@));
            let mut known = false;
            let mut k: usize = 0;
            while k < paths.len()
                invariant
                    k <= paths.len(),
                    known == exists|j: int| 0 <= j < k && paths.deep_view()[j] == p@,
                decreases paths.len() - k,
            {
                if paths[k] == *p {
                    assert(paths.deep_view()[k as int] == p@);
                    known = true;
                }
                k += 1;
            }
            proof {
                lemma_distinct_paths(cv, i as int, p@);
                assert(known == paths.deep_view().contains(p@));
            }
            if !known {
                let ghost before = paths.deep_view();
                paths.push(p.clone());
                assert(paths.deep_view() =~= before.push(p@));
            }
        } else {
            assert(cv[i as int] is None);
        }
        i += 1;
    }
    paths
}

/// A file in conflict as a value: its path and the blocks found in its
/// content.
pub fn get_conflict_file(path: String, content: &str) -> (file: ConflictFile)
    ensures
        file.path == path,
        file.conflicts.deep_view() == parse_blocks(content@),
        file.conflict_count == file.conflicts.len(),
{
    let blocks = parse_conflict_markers(content);
    ConflictFile { path, conflict_count: blocks.len(), conflicts: blocks }
}

/// How a commit changed a file, as the diff of the commit tells it.
#[derive(Debug, Clone, Copy, PartialEq, Eq, Structural)]
pub enum DeltaKind {
    Added,
    Deleted,
    Renamed,
    Other,
}

/// The change of one file in a commit. The counts of added and deleted
/// lines are 0 where they are not known.
pub fn commit_file_change(path: &str, delta: DeltaKind, line_stats: Option<(usize, usize)>) -> (c:
    CommitFileChange)
    ensures
        c.path@ == path@,
        c.status == match delta {
            DeltaKind::Added => CommitFileStatus::Added,
            DeltaKind::Deleted => CommitFileStatus::Deleted,
            DeltaKind::Renamed => CommitFileStatus::Renamed,
            DeltaKind::Other => CommitFileStatus::Modified,
        },
        c.additions == match line_stats {
            Some(s) => s.0 as u32,
            None => 0u32,
        },
        c.deletions == match line_stats {
            Some(s) => s.1 as u32,
            None => 0u32,
        },
{
    let status = match delta {
        DeltaKind::Added => CommitFileStatus::Added,
        DeltaKind::Deleted => CommitFileStatus::Deleted,
        DeltaKind::Renamed => CommitFileStatus::Renamed,
        DeltaKind::Other => CommitFileStatus::Modified,
    };
    let (adds, dels): (usize, usize) = match line_stats {
        Some(s) => s,
        None => (0, 0),
    };
    CommitFileChange {
        path: string_of(&chars_of(path)),
        status,
        additions: #[verifier::truncate]
        (adds as u32),
        deletions: #[verifier::truncate]
        (dels as u32),
    }
}

} // verus!
