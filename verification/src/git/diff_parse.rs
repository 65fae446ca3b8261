//! Building structured diffs from the lines that a diff prints, one by one.

use vstd::prelude::*;
use crate::git::types::{
    DiffHunk,
    DiffHunkView,
    DiffLine,
    DiffLineKind,
    DiffLineView,
    FileDiff,
    FileDiffView,
};

verus! {

/// The header of the hunk that a printed line belongs to.
#[derive(Debug, Clone)]
pub struct HunkHeader {
    pub header: String,
    pub old_start: u32,
    pub old_lines: u32,
    pub new_start: u32,
    pub new_lines: u32,
}

/// One printed line of a diff: the file it belongs to, the hunk it belongs
/// to, if any, its origin mark and its content.
#[derive(Debug, Clone)]
pub struct DiffEvent {
    pub old_path: Option<String>,
    pub new_path: Option<String>,
    pub hunk: Option<HunkHeader>,
    pub origin: char,
    pub content: String,
    pub old_lineno: Option<u32>,
    pub new_lineno: Option<u32>,
}

/// The header of a hunk, as values.
pub struct HunkHeaderView {
    pub header: Seq<char>,
    pub old_start: u32,
    pub old_lines: u32,
    pub new_start: u32,
    pub new_lines: u32,
}

/// A printed line, as values.
pub struct DiffEventView {
    pub old_path: Option<Seq<char>>,
    pub new_path: Option<Seq<char>>,
    pub hunk: Option<HunkHeaderView>,
    pub origin: char,
    pub content: Seq<char>,
    pub old_lineno: Option<u32>,
    pub new_lineno: Option<u32>,
}

impl DeepView for HunkHeader {
    type V = HunkHeaderView;

    open spec fn deep_view(&self) -> HunkHeaderView {
        HunkHeaderView {
            header: self.header@,
            old_start: self.old_start,
            old_lines: self.old_lines,
            new_start: self.new_start,
            new_lines: self.new_lines,
        }
    }
}

impl DeepView for DiffEvent {
    type V = DiffEventView;

    open spec fn deep_view(&self) -> DiffEventView {
        DiffEventView {
            old_path: self.old_path.deep_view(),
            new_path: self.new_path.deep_view(),
            hunk: self.hunk.deep_view(),
            origin: self.origin,
            content: self.content@,
            old_lineno: self.old_lineno,
            new_lineno: self.new_lineno,
        }
    }
}

/// The kind of a line by its origin mark.
pub open spec fn kind_of_origin(origin: char) -> DiffLineKind {
    if origin == '+' || origin == '>' {
        DiffLineKind::Addition
    } else if origin == '-' || origin == '<' {
        DiffLineKind::Deletion
    } else {
        DiffLineKind::Context
    }
}

/// Whether a line with this origin mark is a header of a file or of a hunk,
/// which is no line of any hunk.
pub open spec fn is_header_origin(origin: char) -> bool {
    origin == 'H' || origin == 'F'
}

/// The files with a new, empty file at the end where the last file is not
/// the one that the event belongs to.
pub open spec fn with_file(files: Seq<FileDiffView>, ev: DiffEventView) -> Seq<FileDiffView> {
    if files.len() == 0 || files.last().old_path != ev.old_path || files.last().new_path
        != ev.new_path {
        files.push(FileDiffView { old_path: ev.old_path, new_path: ev.new_path, hunks: Seq::empty() })
    } else {
        files
    }
}

/// The hunks with a new, empty hunk at the end where the event names a hunk
/// whose header is not that of the last hunk.
pub open spec fn with_hunk(hunks: Seq<DiffHunkView>, ev: DiffEventView) -> Seq<DiffHunkView> {
    match ev.hunk {
        Some(h) => if hunks.len() == 0 || hunks.last().header != h.header {
            hunks.push(
                DiffHunkView {
                    header: h.header,
                    old_start: h.old_start,
                    old_lines: h.old_lines,
                    new_start: h.new_start,
                    new_lines: h.new_lines,
                    lines: Seq::empty(),
                },
            )
        } else {
            hunks
        },
        None => hunks,
    }
}

/// The line that the event stands for.
pub open spec fn line_of(ev: DiffEventView) -> DiffLineView {
    DiffLineView {
        kind: kind_of_origin(ev.origin),
        content: ev.content,
        old_lineno: ev.old_lineno,
        new_lineno: ev.new_lineno,
        word_diff: None,
    }
}

/// The hunks with the event's line at the end of the last hunk, where there
/// is a hunk.
pub open spec fn with_line(hunks: Seq<DiffHunkView>, ev: DiffEventView) -> Seq<DiffHunkView> {
    if hunks.len() == 0 {
        hunks
    } else {
        let last = hunks.last();
        hunks.update(
            hunks.len() - 1,
            DiffHunkView {
                header: last.header,
                old_start: last.old_start,
                old_lines: last.old_lines,
                new_start: last.new_start,
                new_lines: last.new_lines,
                lines: last.lines.push(line_of(ev)),
            },
        )
    }
}

/// The files after one more printed line.
pub open spec fn after_event(files: Seq<FileDiffView>, ev: DiffEventView) -> Seq<FileDiffView> {
    let opened = with_file(files, ev);
    if is_header_origin(ev.origin) {
        opened
    } else {
        let last = opened.last();
        opened.update(
            opened.len() - 1,
            FileDiffView {
                old_path: last.old_path,
                new_path: last.new_path,
                hunks: with_line(with_hunk(last.hunks, ev), ev),
            },
        )
    }
}

/// The files after the first `n` printed lines.
pub open spec fn after_events(events: Seq<DiffEventView>, n: int) -> Seq<FileDiffView>
    decreases n,
{
    if n <= 0 || n > events.len() {
        Seq::empty()
    } else {
        after_event(after_events(events, n - 1), events[n - 1])
    }
}

fn same_path(a: &Option<String>, b: &Option<String>) -> (r: bool)
    ensures
        r == (a.deep_view() == b.deep_view()),
{
    match (a, b) {
        (Some(x), Some(y)) => *x == *y,
        (None, None) => true,
        _ => false,
    }
}

fn clone_path(a: &Option<String>) -> (r: Option<String>)
    ensures
        r.deep_view() == a.deep_view(),
{
    match a {
        Some(x) => Some(x.clone()),
        None => None,
    }
}

fn open_hunk(hunks: &mut Vec<DiffHunk>, event: &DiffEvent)
    ensures
        final(hunks).deep_view() == with_hunk(old(hunks).deep_view(), event.deep_view()),
{
    if let Some(h) = &event.hunk {
        let needs_hunk = hunks.len() == 0 || hunks[hunks.len() - 1].header != h.header;
        if needs_hunk {
            let hunk = DiffHunk {
                header: h.header.clone(),
                old_start: h.old_start,
                old_lines: h.old_lines,
                new_start: h.new_start,
                new_lines: h.new_lines,
                lines: Vec::new(),
            };
            assert(hunk.lines.deep_view() =~= Seq::<DiffLineView>::empty());
            hunks.push(hunk);
            assert(hunks.deep_view() =~= with_hunk(old(hunks).deep_view(), event.deep_view()));
        }
    }
}

fn add_line(hunks: &mut Vec<DiffHunk>, event: &DiffEvent)
    ensures
        final(hunks).deep_view() == with_line(old(hunks).deep_view(), event.deep_view()),
{
    if hunks.len() > 0 {
        let kind = if event.origin == '+' || event.origin == '>' {
            DiffLineKind::Addition
        } else if event.origin == '-' || event.origin == '<' {
            DiffLineKind::Deletion
        } else {
            DiffLineKind::Context
        };
        let line = DiffLine {
            kind,
            content: event.content.clone(),
            old_lineno: event.old_lineno,
            new_lineno: event.new_lineno,
            word_diff: None,
        };
        let last = hunks.len() - 1;
        let ghost lines0 = hunks@[last as int].lines.deep_view();
        hunks[last].lines.push(line);
        assert(hunks@[last as int].lines.deep_view() =~= lines0.push(line_of(event.deep_view())));
        assert(hunks.deep_view() =~= with_line(old(hunks).deep_view(), event.deep_view()));
    }
}

/// Takes one more printed line into the files.
pub fn push_diff_event(file_diffs: &mut Vec<FileDiff>, event: &DiffEvent)
    ensures
        final(file_diffs).deep_view() == after_event(old(file_diffs).deep_view(), event.deep_view()),
{
    let ghost files0 = file_diffs.deep_view();
    let ghost ev = event.deep_view();
    let needs_new = file_diffs.len() == 0 || !same_path(
        &file_diffs[file_diffs.len() - 1].old_path,
        &event.old_path,
    ) || !same_path(&file_diffs[file_diffs.len() - 1].new_path, &event.new_path);
    if needs_new {
        let file = FileDiff {
            old_path: clone_path(&event.old_path),
            new_path: clone_path(&event.new_path),
            hunks: Vec::new(),
        };
        assert(file.hunks.deep_view() =~= Seq::<DiffHunkView>::empty());
        file_diffs.push(file);
        assert(file_diffs.deep_view() =~= with_file(files0, ev));
    }
    assert(file_diffs.deep_view() == with_file(files0, ev));
    if event.origin == 'H' || event.origin == 'F' {
        return ;
    }
    let last = file_diffs.len() - 1;
    open_hunk(&mut file_diffs[last].hunks, event);
    add_line(&mut file_diffs[last].hunks, event);
    assert(file_diffs.deep_view() =~= after_event(files0, ev));
}

/// The structured diffs that a run of printed lines stands for.
pub fn parse_diff_to_file_diffs(events: &Vec<DiffEvent>) -> (file_diffs: Vec<FileDiff>)
    ensures
        file_diffs.deep_view() == after_events(events.deep_view(), events.len() as int),
{
    let mut file_diffs: Vec<FileDiff> = Vec::new();
    let mut i: usize = 0;
    assert(file_diffs.deep_view() =~= Seq::<FileDiffView>::empty());
    while i < events.len()
        invariant
            i <= events.len(),
            file_diffs.deep_view() == after_events(events.deep_view(), i as int),
        decreases events.len() - i,
    {
        assert(events.deep_view()[i as int] == events@[i as int].deep_view());
        push_diff_event(&mut file_diffs, &events[i]);
        i += 1;
    }
    file_diffs
}

} // verus!
