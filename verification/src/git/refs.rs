//! Names that point at commits: the map from a commit to the names on it,
//! and the values that describe branches and tags.

use vstd::prelude::*;
use crate::git::history::{short_form, short_oid};
use crate::git::types::{BranchInfo, CommitRef, CommitRefKind, CommitRefView, TagInfo};
use crate::text::convert::{chars_of, push_str, slice_chars, string_of};
use crate::text::search::{find_char, find_from};

verus! {

/// The names on one commit.
#[derive(Debug, Clone)]
pub struct RefEntry {
    pub oid: String,
    pub refs: Vec<CommitRef>,
}

/// The names on each commit that has any.
#[derive(Debug, Clone)]
pub struct RefMap {
    pub entries: Vec<RefEntry>,
}

/// The index of the first entry at or after `from` that is for `oid`, or
/// the number of entries where there is none.
pub open spec fn find_entry(entries: Seq<RefEntry>, oid: Seq<char>, from: int) -> int
    decreases entries.len() - from,
{
    if from < 0 || from >= entries.len() {
        entries.len() as int
    } else if entries[from].oid@ == oid {
        from
    } else {
        find_entry(entries, oid, from + 1)
    }
}

proof fn lemma_find_entry(entries: Seq<RefEntry>, oid: Seq<char>, from: int)
    requires
        0 <= from <= entries.len(),
    ensures
        from <= find_entry(entries, oid, from) <= entries.len(),
        find_entry(entries, oid, from) < entries.len() ==> entries[find_entry(
            entries,
            oid,
            from,
        )].oid@ == oid,
    decreases entries.len() - from,
{
    if from < entries.len() && entries[from].oid@ != oid {
        lemma_find_entry(entries, oid, from + 1);
    }
}

proof fn lemma_find_entry_same_keys(a: Seq<RefEntry>, b: Seq<RefEntry>, oid: Seq<char>, from: int)
    requires
        0 <= from <= a.len(),
        a.len() == b.len(),
        forall|k: int| 0 <= k < a.len() ==> (#[trigger] a[k]).oid@ == b[k].oid@,
    ensures
        find_entry(a, oid, from) == find_entry(b, oid, from),
    decreases a.len() - from,
{
    if from < a.len() {
        assert(a[from].oid@ == b[from].oid@);
        if a[from].oid@ != oid {
            lemma_find_entry_same_keys(a, b, oid, from + 1);
        }
    }
}

proof fn lemma_find_entry_push(a: Seq<RefEntry>, e: RefEntry, oid: Seq<char>, from: int)
    requires
        0 <= from <= a.len(),
    ensures
        find_entry(a, oid, from) < a.len() ==> find_entry(a.push(e), oid, from) == find_entry(
            a,
            oid,
            from,
        ),
        find_entry(a, oid, from) >= a.len() ==> find_entry(a.push(e), oid, from) == (if e.oid@
            == oid {
            a.len() as int
        } else {
            a.len() as int + 1
        }),
    decreases a.len() - from,
{
    if from < a.len() {
        assert(a.push(e)[from] == a[from]);
        if a[from].oid@ != oid {
            lemma_find_entry_push(a, e, oid, from + 1);
        }
    } else {
        assert(a.push(e)[from] == e);
        assert(find_entry(a.push(e), oid, from + 1) == a.len() + 1);
    }
}

/// The names on the commit `oid`, in the order in which they were put.
pub open spec fn refs_in(entries: Seq<RefEntry>, oid: Seq<char>) -> Seq<CommitRefView> {
    let at = find_entry(entries, oid, 0);
    if 0 <= at < entries.len() {
        entries[at].refs.deep_view()
    } else {
        Seq::empty()
    }
}

/// A branch or a tag and the commit it points at.
#[derive(Debug, Clone)]
pub struct RefTip {
    pub name: String,
    pub oid: String,
    pub kind: CommitRefKind,
}

/// The names, among the first `n`, that point at `oid`.
pub open spec fn tip_refs(tips: Seq<RefTip>, n: int, oid: Seq<char>) -> Seq<CommitRefView>
    decreases n,
{
    if n <= 0 || n > tips.len() {
        Seq::empty()
    } else if tips[n - 1].oid@ == oid {
        tip_refs(tips, n - 1, oid).push(
            CommitRefView { name: tips[n - 1].name@, kind: tips[n - 1].kind },
        )
    } else {
        tip_refs(tips, n - 1, oid)
    }
}

/// The name `HEAD`.
pub open spec fn head_ref() -> CommitRefView {
    CommitRefView { name: "HEAD"@, kind: CommitRefKind::Head }
}

/// The names on the commit `oid`: `HEAD` first where it points there, then
/// the branches and tags that do, in their order.
pub open spec fn refs_on(head: Option<Seq<char>>, tips: Seq<RefTip>, oid: Seq<char>) -> Seq<
    CommitRefView,
> {
    if head == Some(oid) {
        seq![head_ref()] + tip_refs(tips, tips.len() as int, oid)
    } else {
        tip_refs(tips, tips.len() as int, oid)
    }
}

impl RefMap {
    /// The names on the commit `oid`.
    pub open spec fn refs_at(self, oid: Seq<char>) -> Seq<CommitRefView> {
        refs_in(self.entries@, oid)
    }

    /// A map without names.
    pub fn new() -> (map: RefMap)
        ensures
            forall|oid: Seq<char>| #[trigger] map.refs_at(oid) == Seq::<CommitRefView>::empty(),
    {
        RefMap { entries: Vec::new() }
    }

    fn find(&self, oid: &str) -> (at: usize)
        ensures
            at == find_entry(self.entries@, oid@, 0),
            at <= self.entries.len(),
    {
        let key = string_of(&chars_of(oid));
        let mut i: usize = 0;
        while i < self.entries.len()
            invariant
                i <= self.entries.len(),
                key@ == oid@,
                find_entry(self.entries@, oid@, 0) == find_entry(self.entries@, oid@, i as int),
            decreases self.entries.len() - i,
        {
            if self.entries[i].oid == key {
                return i;
            }
            i += 1;
        }
        i
    }

    /// Puts a name on the commit `oid`, after the names already on it, or
    /// before them where `first` is set.
    pub fn add(&mut self, oid: &str, name: CommitRef, first: bool)
        ensures
            forall|o: Seq<char>|
                #[trigger] final(self).refs_at(o) == if o == oid@ {
                    if first {
                        seq![name.deep_view()] + old(self).refs_at(o)
                    } else {
                        old(self).refs_at(o).push(name.deep_view())
                    }
                } else {
                    old(self).refs_at(o)
                },
    {
        let at = self.find(oid);
        let ghost before = self.entries@;
        proof {
            lemma_find_entry(before, oid@, 0);
        }
        if at < self.entries.len() {
            let ghost refs0 = self.entries@[at as int].refs.deep_view();
            if first {
                self.entries[at].refs.insert(0, name);
                assert(self.entries@[at as int].refs.deep_view() =~= seq![name.deep_view()]
                    + refs0);
            } else {
                self.entries[at].refs.push(name);
                assert(self.entries@[at as int].refs.deep_view() =~= refs0.push(name.deep_view()));
            }
            proof {
                let after = self.entries@;
                assert forall|o: Seq<char>| #[trigger]
                    refs_in(after, o) == if o == oid@ {
                        if first {
                            seq![name.deep_view()] + refs_in(before, o)
                        } else {
                            refs_in(before, o).push(name.deep_view())
                        }
                    } else {
                        refs_in(before, o)
                    } by {
                    lemma_find_entry_same_keys(before, after, o, 0);
                    lemma_find_entry(before, o, 0);
                }
            }
        } else {
            let mut refs: Vec<CommitRef> = Vec::new();
            refs.push(name);
            let entry = RefEntry { oid: string_of(&chars_of(oid)), refs };
            self.entries.push(entry);
            proof {
                let after = self.entries@;
                assert(entry.refs.deep_view() =~= seq![name.deep_view()]);
                assert(seq![name.deep_view()] + Seq::<CommitRefView>::empty() =~= seq![
                    name.deep_view(),
                ]);
                assert(Seq::<CommitRefView>::empty().push(name.deep_view()) =~= seq![
                    name.deep_view(),
                ]);
                assert forall|o: Seq<char>| #[trigger]
                    refs_in(after, o) == if o == oid@ {
                        if first {
                            seq![name.deep_view()] + refs_in(before, o)
                        } else {
                            refs_in(before, o).push(name.deep_view())
                        }
                    } else {
                        refs_in(before, o)
                    } by {
                    lemma_find_entry_push(before, entry, o, 0);
                    lemma_find_entry(before, o, 0);
                }
            }
        }
    }

    /// The names on the commit `oid`.
    pub fn get(&self, oid: &str) -> (out: Vec<CommitRef>)
        ensures
            out.deep_view() == self.refs_at(oid@),
    {
        let at = self.find(oid);
        let mut out: Vec<CommitRef> = Vec::new();
        if at < self.entries.len() {
            let refs = &self.entries[at].refs;
            let mut i: usize = 0;
            while i < refs.len()
                invariant
                    i <= refs.len(),
                    out.len() == i,
                    forall|k: int| 0 <= k < i ==> out@[k].deep_view() == refs@[k].deep_view(),
                decreases refs.len() - i,
            {
                out.push(CommitRef { name: refs[i].name.clone(), kind: refs[i].kind });
                i += 1;
            }
            assert(out.deep_view() =~= refs.deep_view());
        } else {
            assert(out.deep_view() =~= Seq::<CommitRefView>::empty());
        }
        out
    }
}

/// The kind of name that a branch is.
pub fn branch_ref_kind(is_remote: bool) -> (kind: CommitRefKind)
    ensures
        kind == if is_remote {
            CommitRefKind::RemoteBranch
        } else {
            CommitRefKind::LocalBranch
        },
{
    if is_remote {
        CommitRefKind::RemoteBranch
    } else {
        CommitRefKind::LocalBranch
    }
}

/// The map from each commit to the names on it.
pub fn build_ref_map(head_oid: Option<&str>, tips: &Vec<RefTip>) -> (map: RefMap)
    ensures
        forall|oid: Seq<char>|
            #[trigger] map.refs_at(oid) == refs_on(
                match head_oid {
                    Some(h) => Some(h@),
                    None => None,
                },
                tips@,
                oid,
            ),
{
    let mut map = RefMap::new();
    let mut i: usize = 0;
    while i < tips.len()
        invariant
            i <= tips.len(),
            forall|oid: Seq<char>| #[trigger] map.refs_at(oid) == tip_refs(tips@, i as int, oid),
        decreases tips.len() - i,
    {
        let tip = &tips[i];
        let ghost before = map;
        map.add(tip.oid.as_str(), CommitRef { name: tip.name.clone(), kind: tip.kind }, false);
        proof {
            assert forall|oid: Seq<char>| #[trigger]
                map.refs_at(oid) == tip_refs(tips@, i + 1, oid) by {
                assert(before.refs_at(oid) == tip_refs(tips@, i as int, oid));
            }
        }
        i += 1;
    }
    if let Some(head) = head_oid {
        let ghost before = map;
        map.add(
            head,
            CommitRef { name: string_of(&chars_of("HEAD")), kind: CommitRefKind::Head },
            true,
        );
        proof {
            assert forall|oid: Seq<char>| #[trigger]
                map.refs_at(oid) == refs_on(Some(head@), tips@, oid) by {
                assert(before.refs_at(oid) == tip_refs(tips@, tips.len() as int, oid));
            }
        }
    }
    map
}

/// The name of the remote that a remote-tracking branch belongs to: what
/// stands before the first slash of the branch's name.
pub open spec fn remote_of(name: Seq<char>) -> Seq<char> {
    name.subrange(0, find_from(name, '/', 0))
}

/// A branch as a value. A remote-tracking branch has the name of its remote
/// and counts nothing; a local branch has no remote name and counts how far
/// it is ahead of and behind its upstream, where that is known.
pub fn branch_info(
    name: &str,
    is_head: bool,
    is_remote: bool,
    upstream: Option<String>,
    ahead_behind: Option<(usize, usize)>,
) -> (info: BranchInfo)
    ensures
        info.name@ == name@,
        info.is_head == is_head,
        info.is_remote == is_remote,
        info.upstream == upstream,
        info.remote_name.deep_view() == if is_remote {
            Some(remote_of(name@))
        } else {
            None
        },
        info.ahead_count == match ahead_behind {
            Some(counts) if !is_remote => counts.0 as u32,
            _ => 0u32,
        },
        info.behind_count == match ahead_behind {
            Some(counts) if !is_remote => counts.1 as u32,
            _ => 0u32,
        },
{
    let chars = chars_of(name);
    let remote_name = if is_remote {
        let k = find_char(&chars, '/', 0);
        Some(string_of(&slice_chars(&chars, 0, k)))
    } else {
        None
    };
    let (ahead, behind): (usize, usize) = if !is_remote {
        match ahead_behind {
            Some(counts) => counts,
            None => (0, 0),
        }
    } else {
        (0, 0)
    };
    BranchInfo {
        name: string_of(&chars),
        is_head,
        is_remote,
        remote_name,
        upstream,
        ahead_count: #[verifier::truncate]
        (ahead as u32),
        behind_count: #[verifier::truncate]
        (behind as u32),
    }
}

/// What an annotated tag carries beside its target.
#[derive(Debug, Clone)]
pub struct TagAnnotation {
    pub tagger_name: Option<String>,
    pub tagger_date: Option<i64>,
    pub message: Option<String>,
}

/// A tag as a value: annotated where it has an annotation, lightweight
/// where it has none.
pub fn tag_info(name: &str, commit_oid: &str, annotation: Option<TagAnnotation>) -> (info: TagInfo)
    ensures
        info.name@ == name@,
        info.target_oid@ == commit_oid@,
        info.target_short_oid@ == short_form(commit_oid@),
        info.is_annotated == annotation is Some,
        match annotation {
            Some(a) => info.tagger_name == a.tagger_name && info.tagger_date == a.tagger_date
                && info.message == a.message,
            None => info.tagger_name is None && info.tagger_date is None && info.message is None,
        },
{
    match annotation {
        Some(a) => TagInfo {
            name: string_of(&chars_of(name)),
            target_oid: string_of(&chars_of(commit_oid)),
            target_short_oid: short_oid(commit_oid),
            is_annotated: true,
            tagger_name: a.tagger_name,
            tagger_date: a.tagger_date,
            message: a.message,
        },
        None => TagInfo {
            name: string_of(&chars_of(name)),
            target_oid: string_of(&chars_of(commit_oid)),
            target_short_oid: short_oid(commit_oid),
            is_annotated: false,
            tagger_name: None,
            tagger_date: None,
            message: None,
        },
    }
}

/// The full name of the local branch `name`.
pub fn branch_ref(name: &str) -> (out: String)
    ensures
        out@ == "refs/heads/"@ + name@,
{
    let mut text: Vec<char> = Vec::new();
    push_str(&mut text, "refs/heads/");
    push_str(&mut text, name);
    string_of(&text)
}

/// The full name of the tag `name`.
pub fn tag_ref(name: &str) -> (out: String)
    ensures
        out@ == "refs/tags/"@ + name@,
{
    let mut text: Vec<char> = Vec::new();
    push_str(&mut text, "refs/tags/");
    push_str(&mut text, name);
    string_of(&text)
}

/// The refspec that pushes the local branch `branch` to the branch of the
/// same name.
pub fn push_refspec(branch: &str) -> (out: String)
    ensures
        out@ == "refs/heads/"@ + branch@ + ":refs/heads/"@ + branch@,
{
    let mut text: Vec<char> = Vec::new();
    push_str(&mut text, "refs/heads/");
    push_str(&mut text, branch);
    push_str(&mut text, ":refs/heads/");
    push_str(&mut text, branch);
    string_of(&text)
}

} // verus!
