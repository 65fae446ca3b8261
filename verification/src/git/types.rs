//! The values that the engine hands out and takes in.

use vstd::prelude::*;

verus! {

/// The kind of a line of a diff.
#[derive(Debug, Clone, Copy, PartialEq, Eq, Structural)]
pub enum DiffLineKind {
    Context,
    Addition,
    Deletion,
    FileHeader,
    HunkHeader,
}

/// A run of a line's text, highlighted where it differs from its partner.
#[derive(Debug, Clone)]
pub struct WordSegment {
    pub text: String,
    pub highlighted: bool,
}

/// A segment, as values.
pub struct WordSegmentView {
    pub text: Seq<char>,
    pub highlighted: bool,
}

impl DeepView for WordSegment {
    type V = WordSegmentView;

    open spec fn deep_view(&self) -> WordSegmentView {
        WordSegmentView { text: self.text@, highlighted: self.highlighted }
    }
}

/// A line of a hunk. Paired deletions and additions carry a word diff.
#[derive(Debug, Clone)]
pub struct DiffLine {
    pub kind: DiffLineKind,
    pub content: String,
    pub old_lineno: Option<u32>,
    pub new_lineno: Option<u32>,
    pub word_diff: Option<Vec<WordSegment>>,
}

/// A line of a hunk, as values.
pub struct DiffLineView {
    pub kind: DiffLineKind,
    pub content: Seq<char>,
    pub old_lineno: Option<u32>,
    pub new_lineno: Option<u32>,
    pub word_diff: Option<Seq<WordSegmentView>>,
}

impl DeepView for DiffLine {
    type V = DiffLineView;

    open spec fn deep_view(&self) -> DiffLineView {
        DiffLineView {
            kind: self.kind,
            content: self.content@,
            old_lineno: self.old_lineno,
            new_lineno: self.new_lineno,
            word_diff: self.word_diff.deep_view(),
        }
    }
}

/// A hunk: its header, its two ranges, and its lines in order.
#[derive(Debug, Clone)]
pub struct DiffHunk {
    pub header: String,
    pub old_start: u32,
    pub old_lines: u32,
    pub new_start: u32,
    pub new_lines: u32,
    pub lines: Vec<DiffLine>,
}

/// A hunk, as values.
pub struct DiffHunkView {
    pub header: Seq<char>,
    pub old_start: u32,
    pub old_lines: u32,
    pub new_start: u32,
    pub new_lines: u32,
    pub lines: Seq<DiffLineView>,
}

impl DeepView for DiffHunk {
    type V = DiffHunkView;

    open spec fn deep_view(&self) -> DiffHunkView {
        DiffHunkView {
            header: self.header@,
            old_start: self.old_start,
            old_lines: self.old_lines,
            new_start: self.new_start,
            new_lines: self.new_lines,
            lines: self.lines.deep_view(),
        }
    }
}

/// The four range numbers by which a hunk is found again in a fresh diff.
#[derive(Debug, Clone)]
pub struct HunkIdentifier {
    pub old_start: u32,
    pub old_lines: u32,
    pub new_start: u32,
    pub new_lines: u32,
}

/// A hunk and the indices, into its lines, of the lines that take part.
#[derive(Debug, Clone)]
pub struct LineRange {
    pub hunk: HunkIdentifier,
    pub line_indices: Vec<usize>,
}

/// The diff of one file: its path before and after, and its hunks in order.
#[derive(Debug, Clone)]
pub struct FileDiff {
    pub old_path: Option<String>,
    pub new_path: Option<String>,
    pub hunks: Vec<DiffHunk>,
}

/// The diff of one file, as values.
pub struct FileDiffView {
    pub old_path: Option<Seq<char>>,
    pub new_path: Option<Seq<char>>,
    pub hunks: Seq<DiffHunkView>,
}

impl DeepView for FileDiff {
    type V = FileDiffView;

    open spec fn deep_view(&self) -> FileDiffView {
        FileDiffView {
            old_path: self.old_path.deep_view(),
            new_path: self.new_path.deep_view(),
            hunks: self.hunks.deep_view(),
        }
    }
}

/// How a diff is computed: the number of context lines, and which side.
#[derive(Debug, Clone)]
pub struct DiffOptions {
    pub context_lines: u32,
    pub staged: bool,
}

impl Default for DiffOptions {
    fn default() -> (r: Self)
        ensures
            r.context_lines == 3,
            !r.staged,
    {
        DiffOptions { context_lines: 3, staged: false }
    }
}

/// The kind of a name that points at a commit.
#[derive(Debug, Clone, Copy, PartialEq, Eq, Structural)]
pub enum CommitRefKind {
    Head,
    LocalBranch,
    RemoteBranch,
    Tag,
}

/// A name that points at a commit.
#[derive(Debug, Clone)]
pub struct CommitRef {
    pub name: String,
    pub kind: CommitRefKind,
}

/// A name on a commit, as values.
pub struct CommitRefView {
    pub name: Seq<char>,
    pub kind: CommitRefKind,
}

impl DeepView for CommitRef {
    type V = CommitRefView;

    open spec fn deep_view(&self) -> CommitRefView {
        CommitRefView { name: self.name@, kind: self.kind }
    }
}

/// A commit: its ids, its message, its author, its parents and the names on
/// it.
#[derive(Debug, Clone)]
pub struct CommitInfo {
    pub oid: String,
    pub short_oid: String,
    pub message: String,
    pub body: String,
    pub author_name: String,
    pub author_email: String,
    pub author_date: i64,
    pub parent_oids: Vec<String>,
    pub refs: Vec<CommitRef>,
}

/// A commit, as values.
pub struct CommitInfoView {
    pub oid: Seq<char>,
    pub short_oid: Seq<char>,
    pub message: Seq<char>,
    pub body: Seq<char>,
    pub author_name: Seq<char>,
    pub author_email: Seq<char>,
    pub author_date: i64,
    pub parent_oids: Seq<Seq<char>>,
    pub refs: Seq<CommitRefView>,
}

impl DeepView for CommitInfo {
    type V = CommitInfoView;

    open spec fn deep_view(&self) -> CommitInfoView {
        CommitInfoView {
            oid: self.oid@,
            short_oid: self.short_oid@,
            message: self.message@,
            body: self.body@,
            author_name: self.author_name@,
            author_email: self.author_email@,
            author_date: self.author_date,
            parent_oids: self.parent_oids.deep_view(),
            refs: self.refs.deep_view(),
        }
    }
}

/// Whether a commit is a merge.
#[derive(Debug, Clone, Copy, PartialEq, Eq, Structural)]
pub enum GraphNodeType {
    Normal,
    Merge,
}

/// An edge from a commit's column to the column of one of its parents.
#[derive(Debug, Clone, Copy, PartialEq, Eq, Structural)]
pub struct GraphEdge {
    pub from_column: usize,
    pub to_column: usize,
    pub color_index: usize,
}

/// An edge, as values.
pub struct GraphEdgeView {
    pub from_column: int,
    pub to_column: int,
    pub color_index: int,
}

impl DeepView for GraphEdge {
    type V = GraphEdgeView;

    open spec fn deep_view(&self) -> GraphEdgeView {
        GraphEdgeView {
            from_column: self.from_column as int,
            to_column: self.to_column as int,
            color_index: self.color_index as int,
        }
    }
}

/// The place of a commit in the graph: its column, and an edge to each of
/// its parents.
#[derive(Debug, Clone)]
pub struct CommitGraphRow {
    pub oid: String,
    pub column: usize,
    pub node_type: GraphNodeType,
    pub edges: Vec<GraphEdge>,
}

/// A row of the graph, as values.
pub struct CommitGraphRowView {
    pub oid: Seq<char>,
    pub column: int,
    pub node_type: GraphNodeType,
    pub edges: Seq<GraphEdgeView>,
}

impl DeepView for CommitGraphRow {
    type V = CommitGraphRowView;

    open spec fn deep_view(&self) -> CommitGraphRowView {
        CommitGraphRowView {
            oid: self.oid@,
            column: self.column as int,
            node_type: self.node_type,
            edges: self.edges.deep_view(),
        }
    }
}

/// One conflict in a file: the text of each side, and where its markers
/// stand, counted in lines from 1.
#[derive(Debug, Clone)]
pub struct ConflictBlock {
    pub ours: String,
    pub base: Option<String>,
    pub theirs: String,
    pub start_line: u32,
    pub end_line: u32,
}

/// A conflict, as values.
pub struct ConflictBlockView {
    pub ours: Seq<char>,
    pub base: Option<Seq<char>>,
    pub theirs: Seq<char>,
    pub start_line: u32,
    pub end_line: u32,
}

impl DeepView for ConflictBlock {
    type V = ConflictBlockView;

    open spec fn deep_view(&self) -> ConflictBlockView {
        ConflictBlockView {
            ours: self.ours@,
            base: self.base.deep_view(),
            theirs: self.theirs@,
            start_line: self.start_line,
            end_line: self.end_line,
        }
    }
}

/// A file in conflict and the blocks found in it.
#[derive(Debug, Clone)]
pub struct ConflictFile {
    pub path: String,
    pub conflict_count: usize,
    pub conflicts: Vec<ConflictBlock>,
}

/// How a conflict is resolved: by one side, by both, or by a text given.
#[derive(Debug, Clone)]
pub enum ConflictResolution {
    Ours,
    Theirs,
    Both,
    Manual(String),
}

/// How a file changed.
#[derive(Debug, Clone, Copy, PartialEq, Eq, Structural)]
pub enum FileStatusKind {
    Untracked,
    Modified,
    Deleted,
    Renamed,
    Typechange,
    Conflicted,
}

/// Whether a change is in the index or in the working tree.
#[derive(Debug, Clone, Copy, PartialEq, Eq, Structural)]
pub enum StagingState {
    Unstaged,
    Staged,
}

/// One change of one file.
#[derive(Debug, Clone)]
pub struct FileStatus {
    pub path: String,
    pub kind: FileStatusKind,
    pub staging: StagingState,
}

/// One change of one file, as values.
pub struct FileStatusView {
    pub path: Seq<char>,
    pub kind: FileStatusKind,
    pub staging: StagingState,
}

impl DeepView for FileStatus {
    type V = FileStatusView;

    open spec fn deep_view(&self) -> FileStatusView {
        FileStatusView { path: self.path@, kind: self.kind, staging: self.staging }
    }
}

/// The changes of the working tree and the index.
#[derive(Debug, Clone)]
pub struct RepoStatus {
    pub files: Vec<FileStatus>,
}

/// The id of a commit that was made.
#[derive(Debug, Clone)]
pub struct CommitResult {
    pub oid: String,
}

/// A branch, with its upstream and how far it is from it.
#[derive(Debug, Clone)]
pub struct BranchInfo {
    pub name: String,
    pub is_head: bool,
    pub is_remote: bool,
    pub remote_name: Option<String>,
    pub upstream: Option<String>,
    pub ahead_count: u32,
    pub behind_count: u32,
}

/// A remote and its address.
#[derive(Debug, Clone)]
pub struct RemoteInfo {
    pub name: String,
    pub url: String,
}

/// What was fetched from.
#[derive(Debug, Clone)]
pub struct FetchResult {
    pub remote_name: String,
}

/// How what was pulled is taken in.
#[derive(Debug, Clone, Copy, PartialEq, Eq, Structural)]
pub enum PullOption {
    Merge,
    Rebase,
}

/// What was pushed, and where to.
#[derive(Debug, Clone)]
pub struct PushResult {
    pub remote_name: String,
    pub branch: String,
}

/// The way a merge went.
#[derive(Debug, Clone, Copy, PartialEq, Eq, Structural)]
pub enum MergeKind {
    FastForward,
    Normal,
    Rebase,
    UpToDate,
    Conflict,
}

/// The outcome of a merge: how it went, the commit it ended with, and the
/// paths in conflict.
#[derive(Debug, Clone)]
pub struct MergeResult {
    pub kind: MergeKind,
    pub oid: Option<String>,
    pub conflicts: Vec<String>,
}

/// What the caller allows of a merge.
#[derive(Debug, Clone, Copy, PartialEq, Eq, Structural)]
pub enum MergeOption {
    Default,
    FastForwardOnly,
    NoFastForward,
}

/// A commit with the files it changed.
#[derive(Debug, Clone)]
pub struct CommitDetail {
    pub info: CommitInfo,
    pub files: Vec<CommitFileChange>,
    pub stats: CommitStats,
}

/// How a commit changed one file.
#[derive(Debug, Clone)]
pub struct CommitFileChange {
    pub path: String,
    pub status: CommitFileStatus,
    pub additions: u32,
    pub deletions: u32,
}

/// How a commit changed a file.
#[derive(Debug, Clone, Copy, PartialEq, Eq, Structural)]
pub enum CommitFileStatus {
    Added,
    Modified,
    Deleted,
    Renamed,
}

/// The totals of the changes of a commit.
#[derive(Debug, Clone)]
pub struct CommitStats {
    pub additions: u32,
    pub deletions: u32,
    pub files_changed: u32,
}

/// The blame of a file, line by line.
#[derive(Debug, Clone)]
pub struct BlameResult {
    pub path: String,
    pub lines: Vec<BlameLine>,
}

/// A line of a file and the commit that introduced it.
#[derive(Debug, Clone)]
pub struct BlameLine {
    pub line_number: u32,
    pub content: String,
    pub commit_oid: String,
    pub commit_short_oid: String,
    pub author_name: String,
    pub author_date: i64,
    pub is_block_start: bool,
}

/// The filter of a log query. What is not set does not filter.
#[derive(Debug, Clone)]
pub struct LogFilter {
    pub author: Option<String>,
    pub since: Option<i64>,
    pub until: Option<i64>,
    pub message: Option<String>,
    pub path: Option<String>,
}

/// A page of the log and the graph laid out for it.
#[derive(Debug, Clone)]
pub struct CommitLogResult {
    pub commits: Vec<CommitInfo>,
    pub graph: Vec<CommitGraphRow>,
}

/// A stash.
#[derive(Debug, Clone)]
pub struct StashEntry {
    pub index: usize,
    pub message: String,
    pub branch_name: String,
    pub author_date: i64,
}

/// A tag and the commit it points at.
#[derive(Debug, Clone)]
pub struct TagInfo {
    pub name: String,
    pub target_oid: String,
    pub target_short_oid: String,
    pub is_annotated: bool,
    pub tagger_name: Option<String>,
    pub tagger_date: Option<i64>,
    pub message: Option<String>,
}

/// What a rebase does with a commit.
#[derive(Debug, Clone, Copy, PartialEq, Eq, Structural)]
pub enum RebaseAction {
    Pick,
    Reword,
    Edit,
    Squash,
    Fixup,
    Drop,
}

/// An entry of the plan of a rebase.
#[derive(Debug, Clone)]
pub struct RebaseTodoEntry {
    pub action: RebaseAction,
    pub oid: String,
    pub short_oid: String,
    pub message: String,
    pub author_name: String,
}

/// A rebase in progress.
#[derive(Debug, Clone)]
pub struct RebaseState {
    pub onto_branch: String,
    pub onto_oid: String,
    pub current_step: usize,
    pub total_steps: usize,
    pub has_conflicts: bool,
}

/// The outcome of a rebase.
#[derive(Debug, Clone)]
pub struct RebaseResult {
    pub completed: bool,
    pub conflicts: Vec<String>,
}

/// The three sides of a file in conflict.
#[derive(Debug, Clone)]
pub struct MergeBaseContent {
    pub path: String,
    pub base_content: Option<String>,
    pub ours_content: String,
    pub theirs_content: String,
}

/// How a cherry-pick ends.
#[derive(Debug, Clone, Copy, PartialEq, Eq, Structural)]
pub enum CherryPickMode {
    Normal,
    NoCommit,
    Merge,
}

/// The outcome of a cherry-pick.
#[derive(Debug, Clone)]
pub struct CherryPickResult {
    pub completed: bool,
    pub conflicts: Vec<String>,
    pub oid: Option<String>,
}

/// How a revert ends.
#[derive(Debug, Clone, Copy, PartialEq, Eq, Structural)]
pub enum RevertMode {
    Auto,
    NoCommit,
    Edit,
}

/// The outcome of a revert.
#[derive(Debug, Clone)]
pub struct RevertResult {
    pub completed: bool,
    pub conflicts: Vec<String>,
    pub oid: Option<String>,
}

/// How far a reset goes: the branch alone, the index too, or the working
/// tree as well.
#[derive(Debug, Clone, Copy, PartialEq, Eq, Structural)]
pub enum ResetMode {
    Soft,
    Mixed,
    Hard,
}

/// The commit that a reset went to.
#[derive(Debug, Clone)]
pub struct ResetResult {
    pub oid: String,
}

/// An entry of the log of a reference.
#[derive(Debug, Clone)]
pub struct ReflogEntry {
    pub index: usize,
    pub old_oid: String,
    pub new_oid: String,
    pub message: String,
    pub committer_name: String,
    pub time: i64,
}

/// The state of a submodule.
#[derive(Debug, Clone, Copy, PartialEq, Eq, Structural)]
pub enum SubmoduleStatus {
    UpToDate,
    Modified,
    Uninitialized,
    Conflict,
}

/// A submodule.
#[derive(Debug, Clone)]
pub struct SubmoduleInfo {
    pub path: String,
    pub url: String,
    pub branch: Option<String>,
    pub head_oid: Option<String>,
    pub head_short_oid: Option<String>,
    pub status: SubmoduleStatus,
}

/// A worktree.
#[derive(Debug, Clone)]
pub struct WorktreeInfo {
    pub path: String,
    pub branch: Option<String>,
    pub head_oid: Option<String>,
    pub head_short_oid: Option<String>,
    pub is_main: bool,
    pub is_clean: bool,
}

/// A line of a blame, as values.
pub struct BlameLineView {
    pub line_number: u32,
    pub content: Seq<char>,
    pub commit_oid: Seq<char>,
    pub commit_short_oid: Seq<char>,
    pub author_name: Seq<char>,
    pub author_date: i64,
    pub is_block_start: bool,
}

impl DeepView for BlameLine {
    type V = BlameLineView;

    open spec fn deep_view(&self) -> BlameLineView {
        BlameLineView {
            line_number: self.line_number,
            content: self.content@,
            commit_oid: self.commit_oid@,
            commit_short_oid: self.commit_short_oid@,
            author_name: self.author_name@,
            author_date: self.author_date,
            is_block_start: self.is_block_start,
        }
    }
}

} // verus!
