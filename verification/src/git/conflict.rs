//! Conflict markers: finding the blocks they delimit in a file's text, and
//! replacing one block by the chosen resolution.

use vstd::prelude::*;
use crate::git::error::GitError;
use crate::git::types::{ConflictBlock, ConflictBlockView, ConflictResolution};
use crate::text::convert::{chars_of, push_chars, push_str, slice_chars, string_of};
use crate::text::lines::{
    lemma_line_start_bounds,
    lemma_line_start_grows,
    lemma_line_start_past_end,
    lemma_lines_from_line_start,
    lemma_unlines_push,
    line_offset,
    line_start,
    lines,
    lines_from,
    split_lines,
    texts,
    unlines,
};
use crate::text::number::{decimal, push_decimal};
use crate::text::search::{starts_with, starts_with_str};

verus! {

/// A line that opens a block.
pub open spec fn is_start_marker(line: Seq<char>) -> bool {
    starts_with(line, "<<<<<<<"@)
}

/// A line that opens the section of the common ancestor.
pub open spec fn is_base_marker(line: Seq<char>) -> bool {
    starts_with(line, "|||||||"@)
}

/// A line that parts our side from theirs.
pub open spec fn is_separator_marker(line: Seq<char>) -> bool {
    starts_with(line, "======="@)
}

/// A line that closes a block.
pub open spec fn is_end_marker(line: Seq<char>) -> bool {
    starts_with(line, ">>>>>>>"@)
}

/// Where our side ends: the first line at or after `from` that is a separator
/// or a base marker, or the number of lines.
pub open spec fn ours_end(ls: Seq<Seq<char>>, from: int) -> int
    decreases ls.len() - from,
{
    if from < 0 || from >= ls.len() {
        ls.len() as int
    } else if is_separator_marker(ls[from]) || is_base_marker(ls[from]) {
        from
    } else {
        ours_end(ls, from + 1)
    }
}

/// Where the base section ends: the first separator at or after `from`, or
/// the number of lines.
pub open spec fn base_end(ls: Seq<Seq<char>>, from: int) -> int
    decreases ls.len() - from,
{
    if from < 0 || from >= ls.len() {
        ls.len() as int
    } else if is_separator_marker(ls[from]) {
        from
    } else {
        base_end(ls, from + 1)
    }
}

/// Where their side ends: the first end marker at or after `from`, or the
/// number of lines.
pub open spec fn theirs_end(ls: Seq<Seq<char>>, from: int) -> int
    decreases ls.len() - from,
{
    if from < 0 || from >= ls.len() {
        ls.len() as int
    } else if is_end_marker(ls[from]) {
        from
    } else {
        theirs_end(ls, from + 1)
    }
}

/// Each section ends at or after the line it is searched from, and within
/// the lines.
pub proof fn lemma_section_ends(ls: Seq<Seq<char>>, from: int)
    requires
        0 <= from <= ls.len(),
    ensures
        from <= ours_end(ls, from) <= ls.len(),
        from <= base_end(ls, from) <= ls.len(),
        from <= theirs_end(ls, from) <= ls.len(),
    decreases ls.len() - from,
{
    if from < ls.len() {
        lemma_section_ends(ls, from + 1);
    }
}

/// The lines from `from` up to `to`, or none where that is no range.
pub open spec fn between(ls: Seq<Seq<char>>, from: int, to: int) -> Seq<Seq<char>> {
    if 0 <= from <= to <= ls.len() {
        ls.subrange(from, to)
    } else {
        Seq::empty()
    }
}

/// The parts of the block whose start marker is line `start`.
pub struct BlockSpan {
    /// The index of the line after our side.
    pub ours_stop: int,
    /// Whether a base section follows our side.
    pub has_base: bool,
    /// The index of the separator (or of the end of the lines).
    pub separator: int,
    /// The index of the end marker (or of the end of the lines).
    pub theirs_stop: int,
}

/// Where the parts of the block that starts at line `start` end: our side
/// goes up to the first separator or base marker, the base section, where
/// one is opened, up to the first separator, and their side from the line
/// after the separator up to the first end marker.
pub open spec fn block_span(ls: Seq<Seq<char>>, start: int) -> BlockSpan {
    let ours_stop = ours_end(ls, start + 1);
    let has_base = ours_stop < ls.len() && is_base_marker(ls[ours_stop]);
    let separator = if has_base {
        base_end(ls, ours_stop + 1)
    } else {
        ours_stop
    };
    let theirs_stop = if separator + 1 < ls.len() {
        theirs_end(ls, separator + 1)
    } else {
        separator + 1
    };
    BlockSpan { ours_stop, has_base, separator, theirs_stop }
}

/// Our side of the block that starts at line `start`.
pub open spec fn block_ours(ls: Seq<Seq<char>>, start: int) -> Seq<char> {
    unlines(between(ls, start + 1, block_span(ls, start).ours_stop))
}

/// The base section of the block that starts at line `start`, where it has
/// one.
pub open spec fn block_base(ls: Seq<Seq<char>>, start: int) -> Option<Seq<char>> {
    let span = block_span(ls, start);
    if span.has_base {
        Some(unlines(between(ls, span.ours_stop + 1, span.separator)))
    } else {
        None
    }
}

/// Their side of the block that starts at line `start`.
pub open spec fn block_theirs(ls: Seq<Seq<char>>, start: int) -> Seq<char> {
    let span = block_span(ls, start);
    unlines(between(ls, span.separator + 1, span.theirs_stop))
}

/// The index of the first line after the block that starts at line `start`.
/// Where the block is cut short by the end of the text, this lies past the
/// last line.
pub open spec fn block_next(ls: Seq<Seq<char>>, start: int) -> int {
    block_span(ls, start).theirs_stop + 1
}

/// The block that starts at line `start`, with its line numbers.
pub open spec fn block_at(ls: Seq<Seq<char>>, start: int) -> ConflictBlockView {
    ConflictBlockView {
        ours: block_ours(ls, start),
        base: block_base(ls, start),
        theirs: block_theirs(ls, start),
        start_line: (start + 1) as u32,
        end_line: block_next(ls, start) as u32,
    }
}

/// The blocks found from line `from` on: each start marker opens a block,
/// and the search goes on after that block.
pub open spec fn blocks_from(ls: Seq<Seq<char>>, from: int) -> Seq<ConflictBlockView>
    decreases ls.len() - from,
{
    if from < 0 || from >= ls.len() {
        Seq::empty()
    } else if is_start_marker(ls[from]) {
        let next = block_next(ls, from);
        if from < next < ls.len() {
            seq![block_at(ls, from)] + blocks_from(ls, next)
        } else {
            seq![block_at(ls, from)]
        }
    } else {
        blocks_from(ls, from + 1)
    }
}

/// The conflict blocks of a text, in the order in which they stand.
pub open spec fn parse_blocks(content: Seq<char>) -> Seq<ConflictBlockView> {
    blocks_from(lines(content), 0)
}

/// The parts of one block as text, and where the search goes on.
pub struct BlockParts {
    pub ours: String,
    pub base: Option<String>,
    pub theirs: String,
    /// The index of the first line after the block, or the number of lines
    /// where the block runs to the end of the text.
    pub next: usize,
    /// The number, counted from 1, of the line that closes the block.
    pub end_line: u32,
}

fn join_lines(ls: &Vec<Vec<char>>, from: usize, to: usize) -> (out: Vec<char>)
    requires
        from <= to <= ls.len(),
    ensures
        out@ == unlines(texts(ls@).subrange(from as int, to as int)),
{
    let ghost tl = texts(ls@);
    let mut out: Vec<char> = Vec::new();
    let mut i: usize = from;
    assert(tl.subrange(from as int, from as int) =~= Seq::<Seq<char>>::empty());
    while i < to
        invariant
            from <= i <= to <= ls.len(),
            tl == texts(ls@),
            out@ == unlines(tl.subrange(from as int, i as int)),
        decreases to - i,
    {
        proof {
            lemma_unlines_push(tl.subrange(from as int, i as int), tl[i as int]);
            assert(tl.subrange(from as int, i as int).push(tl[i as int]) =~= tl.subrange(
                from as int,
                i + 1,
            ));
        }
        let ghost before = out@;
        push_chars(&mut out, &ls[i]);
        out.push('\n');
        assert(out@ =~= before + tl[i as int].push('\n'));
        i += 1;
    }
    out
}

fn scan_ours(ls: &Vec<Vec<char>>, from: usize) -> (i: usize)
    requires
        from <= ls.len(),
    ensures
        i == ours_end(texts(ls@), from as int),
        from <= i <= ls.len(),
{
    let mut i: usize = from;
    while i < ls.len() && !starts_with_str(&ls[i], "=======") && !starts_with_str(&ls[i], "|||||||")
        invariant
            from <= i <= ls.len(),
            ours_end(texts(ls@), from as int) == ours_end(texts(ls@), i as int),
        decreases ls.len() - i,
    {
        i += 1;
    }
    i
}

fn scan_base(ls: &Vec<Vec<char>>, from: usize) -> (i: usize)
    requires
        from <= ls.len(),
    ensures
        i == base_end(texts(ls@), from as int),
        from <= i <= ls.len(),
{
    let mut i: usize = from;
    while i < ls.len() && !starts_with_str(&ls[i], "=======")
        invariant
            from <= i <= ls.len(),
            base_end(texts(ls@), from as int) == base_end(texts(ls@), i as int),
        decreases ls.len() - i,
    {
        i += 1;
    }
    i
}

fn scan_theirs(ls: &Vec<Vec<char>>, from: usize) -> (i: usize)
    requires
        from <= ls.len(),
    ensures
        i == theirs_end(texts(ls@), from as int),
        from <= i <= ls.len(),
{
    let mut i: usize = from;
    while i < ls.len() && !starts_with_str(&ls[i], ">>>>>>>")
        invariant
            from <= i <= ls.len(),
            theirs_end(texts(ls@), from as int) == theirs_end(texts(ls@), i as int),
        decreases ls.len() - i,
    {
        i += 1;
    }
    i
}

/// Reads the block whose start marker is line `start`.
pub fn parse_one_block(ls: &Vec<Vec<char>>, start: usize) -> (parts: BlockParts)
    requires
        start < ls.len(),
    ensures
        parts.ours@ == block_ours(texts(ls@), start as int),
        parts.base.deep_view() == block_base(texts(ls@), start as int),
        parts.theirs@ == block_theirs(texts(ls@), start as int),
        parts.next == if block_next(texts(ls@), start as int) < ls.len() {
            block_next(texts(ls@), start as int)
        } else {
            ls.len() as int
        },
        parts.end_line == block_next(texts(ls@), start as int) as u32,
        start + 3 <= block_next(texts(ls@), start as int) <= ls.len() + 2,
{
    let ghost tl = texts(ls@);
    let len = ls.len();
    let ours_stop = scan_ours(ls, start + 1);
    let ours = join_lines(ls, start + 1, ours_stop);
    let has_base = ours_stop < len && starts_with_str(&ls[ours_stop], "|||||||");
    let mut separator = ours_stop;
    let mut base: Option<String> = None;
    if has_base {
        separator = scan_base(ls, ours_stop + 1);
        let base_text = join_lines(ls, ours_stop + 1, separator);
        base = Some(string_of(&base_text));
    }
    let mut theirs: Vec<char> = Vec::new();
    let after: u128;
    if separator < len {
        let theirs_stop = if separator + 1 < len {
            scan_theirs(ls, separator + 1)
        } else {
            separator + 1
        };
        theirs = join_lines(ls, separator + 1, theirs_stop);
        after = theirs_stop as u128 + 1;
    } else {
        assert(between(tl, separator + 1, separator + 1) =~= Seq::<Seq<char>>::empty());
        after = len as u128 + 2;
    }
    assert(after == block_next(tl, start as int));
    let next: usize = if after < len as u128 {
        after as usize
    } else {
        len
    };
    let end_line: u32 = #[verifier::truncate]
    (after as u32);
    BlockParts { ours: string_of(&ours), base, theirs: string_of(&theirs), next, end_line }
}

/// Finds the conflict blocks among the lines of a text.
pub fn parse_conflict_markers(content: &str) -> (blocks: Vec<ConflictBlock>)
    ensures
        blocks.deep_view() == parse_blocks(content@),
{
    let chars = chars_of(content);
    let ls = split_lines(&chars);
    let ghost tl = texts(ls@);
    let mut blocks: Vec<ConflictBlock> = Vec::new();
    let mut i: usize = 0;
    assert(blocks.deep_view() =~= Seq::<ConflictBlockView>::empty());
    while i < ls.len()
        invariant
            i <= ls.len(),
            tl == texts(ls@),
            parse_blocks(content@) == blocks.deep_view() + blocks_from(tl, i as int),
        decreases ls.len() - i,
    {
        if starts_with_str(&ls[i], "<<<<<<<") {
            let start_line: u32 = #[verifier::truncate]
            ((i + 1) as u32);
            let parts = parse_one_block(&ls, i);
            let block = ConflictBlock {
                ours: parts.ours,
                base: parts.base,
                theirs: parts.theirs,
                start_line,
                end_line: parts.end_line,
            };
            let ghost before = blocks.deep_view();
            blocks.push(block);
            proof {
                assert(block.deep_view() == block_at(tl, i as int));
                assert(blocks.deep_view() =~= before.push(block_at(tl, i as int)));
                let rest = blocks_from(tl, parts.next as int);
                if block_next(tl, i as int) >= ls.len() {
                    assert(rest =~= Seq::<ConflictBlockView>::empty());
                }
                assert(before + (seq![block_at(tl, i as int)] + rest) =~= before.push(
                    block_at(tl, i as int),
                ) + rest);
                assert(before + seq![block_at(tl, i as int)] =~= before.push(
                    block_at(tl, i as int),
                ) + Seq::<ConflictBlockView>::empty());
            }
            i = parts.next;
        } else {
            i += 1;
        }
    }
    proof {
        assert(blocks.deep_view() + Seq::<ConflictBlockView>::empty() =~= blocks.deep_view());
    }
    blocks
}

/// The index of the start-marker line of the block that `skip` blocks
/// precede, counted from line `from` on as `blocks_from` counts them, or the
/// number of lines where there is no such block.
pub open spec fn nth_block(ls: Seq<Seq<char>>, skip: int, from: int) -> int
    decreases ls.len() - from,
{
    if from < 0 || from >= ls.len() {
        ls.len() as int
    } else if is_start_marker(ls[from]) {
        if skip <= 0 {
            from
        } else {
            let next = block_next(ls, from);
            if from < next < ls.len() {
                nth_block(ls, skip - 1, next)
            } else {
                ls.len() as int
            }
        }
    } else {
        nth_block(ls, skip, from + 1)
    }
}

/// The block that `skip` others precede exists where `blocks_from` finds
/// more than `skip` blocks, and only there; and it is the block that
/// `blocks_from` gives at that index.
pub proof fn lemma_nth_block(ls: Seq<Seq<char>>, skip: int, from: int)
    requires
        0 <= from <= ls.len(),
        0 <= skip,
    ensures
        from <= nth_block(ls, skip, from) <= ls.len(),
        nth_block(ls, skip, from) < ls.len() <==> skip < blocks_from(ls, from).len(),
        nth_block(ls, skip, from) < ls.len() ==> is_start_marker(ls[nth_block(ls, skip, from)])
            && blocks_from(ls, from)[skip] == block_at(ls, nth_block(ls, skip, from)),
    decreases ls.len() - from,
{
    if from < ls.len() {
        if is_start_marker(ls[from]) {
            let next = block_next(ls, from);
            if skip > 0 && from < next < ls.len() {
                lemma_nth_block(ls, skip - 1, next);
                if nth_block(ls, skip - 1, next) < ls.len() {
                    let rest = blocks_from(ls, next);
                    assert((seq![block_at(ls, from)] + rest)[skip] == rest[skip - 1]);
                }
            }
        } else {
            lemma_nth_block(ls, skip, from + 1);
        }
    }
}

/// The text that stands for a block once it is resolved: our side, their
/// side, ours followed by theirs, or the given text, which gets a line feed
/// at its end where it has none.
pub open spec fn resolution_text(block: ConflictBlockView, resolution: ConflictResolution) -> Seq<
    char,
> {
    match resolution {
        ConflictResolution::Ours => block.ours,
        ConflictResolution::Theirs => block.theirs,
        ConflictResolution::Both => block.ours + block.theirs,
        ConflictResolution::Manual(text) => if text@.len() > 0 && text@.last() == '\n' {
            text@
        } else {
            text@.push('\n')
        },
    }
}

/// Where the block whose start marker is line `start` begins in the text:
/// at the first character of its start-marker line.
pub open spec fn span_begin(content: Seq<char>, start: int) -> int {
    line_start(content, start)
}

/// Where the block whose start marker is line `start` ends in the text:
/// right after the line feed that ends its end-marker line, or at the end
/// of the text where the block runs that far.
pub open spec fn span_end(content: Seq<char>, start: int) -> int {
    line_start(content, block_next(lines(content), start))
}

/// The text with `text` in the place of the block whose start marker is
/// line `start`: the characters before the block as they are, then `text`,
/// then the characters after the block as they are.
pub open spec fn spliced(content: Seq<char>, start: int, text: Seq<char>) -> Seq<char> {
    content.subrange(0, span_begin(content, start)) + text + content.subrange(
        span_end(content, start),
        content.len() as int,
    )
}

/// The text with the block at `index`, as `parse_blocks` numbers the blocks,
/// replaced by its resolution.
pub open spec fn resolved(content: Seq<char>, index: int, resolution: ConflictResolution) -> Seq<
    char,
> {
    spliced(
        content,
        nth_block(lines(content), index, 0),
        resolution_text(parse_blocks(content)[index], resolution),
    )
}

/// The text of the message that refuses a block index.
pub open spec fn out_of_range_text(index: nat, total: nat) -> Seq<char> {
    "block_index "@ + decimal(index) + " out of range (total: "@ + decimal(total) + ")"@
}

/// Finds the start-marker line of the block at `index`, or counts the blocks
/// where there are too few.
fn find_block(ls: &Vec<Vec<char>>, index: usize) -> (r: Result<usize, usize>)
    ensures
        match r {
            Ok(at) => at < ls.len() && at == nth_block(texts(ls@), index as int, 0) && index
                < blocks_from(texts(ls@), 0).len(),
            Err(total) => total == blocks_from(texts(ls@), 0).len() && index >= total,
        },
{
    let ghost tl = texts(ls@);
    let mut count: usize = 0;
    let mut i: usize = 0;
    while i < ls.len()
        invariant
            i <= ls.len(),
            tl == texts(ls@),
            count <= index,
            blocks_from(tl, 0).len() == count + blocks_from(tl, i as int).len(),
            nth_block(tl, index as int, 0) == nth_block(tl, index - count, i as int),
        decreases ls.len() - i,
    {
        if starts_with_str(&ls[i], "<<<<<<<") {
            if count == index {
                return Ok(i);
            }
            let parts = parse_one_block(ls, i);
            proof {
                if block_next(tl, i as int) >= ls.len() {
                    assert(blocks_from(tl, ls.len() as int) =~= Seq::<ConflictBlockView>::empty());
                }
            }
            count += 1;
            i = parts.next;
        } else {
            i += 1;
        }
    }
    Err(count)
}

/// Replaces the block with the given index, counted from 0 in the order in
/// which `parse_conflict_markers` finds the blocks, by its resolution. All
/// text outside the block stays as it is, character for character. Fails
/// where the text has no such block.
pub fn resolve_single_block(content: &str, block_index: usize, resolution: &ConflictResolution) -> (r:
    Result<String, GitError>)
    ensures
        ({
            let total = parse_blocks(content@).len();
            if block_index < total {
                r matches Ok(text) && text@ == resolved(content@, block_index as int, *resolution)
            } else {
                r matches Err(e) && e is ConflictFailed && e.detail() == out_of_range_text(
                    block_index as nat,
                    total,
                )
            }
        }),
{
    let chars = chars_of(content);
    let ls = split_lines(&chars);
    let ghost tl = texts(ls@);
    let at = match find_block(&ls, block_index) {
        Ok(at) => at,
        Err(total_blocks) => {
            let mut msg: Vec<char> = Vec::new();
            push_str(&mut msg, "block_index ");
            push_decimal(&mut msg, block_index as u64);
            push_str(&mut msg, " out of range (total: ");
            push_decimal(&mut msg, total_blocks as u64);
            push_str(&mut msg, ")");
            assert(msg@ =~= out_of_range_text(block_index as nat, total_blocks as nat));
            return Err(GitError::ConflictFailed(string_of(&msg)));
        },
    };
    let parts = parse_one_block(&ls, at);
    let begin = line_offset(&chars, at);
    let end = line_offset(&chars, parts.next);
    proof {
        lemma_nth_block(tl, block_index as int, 0);
        if block_next(tl, at as int) >= ls.len() {
            lemma_line_start_past_end(chars@, 0, ls.len() as int);
            lemma_line_start_past_end(chars@, 0, block_next(tl, at as int));
        }
        assert(end == span_end(content@, at as int));
    }
    let mut result = slice_chars(&chars, 0, begin);
    let ghost before = result@;
    match resolution {
        ConflictResolution::Ours => {
            push_str(&mut result, parts.ours.as_str());
        },
        ConflictResolution::Theirs => {
            push_str(&mut result, parts.theirs.as_str());
        },
        ConflictResolution::Both => {
            push_str(&mut result, parts.ours.as_str());
            push_str(&mut result, parts.theirs.as_str());
        },
        ConflictResolution::Manual(manual) => {
            let manual_chars = chars_of(manual.as_str());
            push_chars(&mut result, &manual_chars);
            if !(manual_chars.len() > 0 && manual_chars[manual_chars.len() - 1] == '\n') {
                result.push('\n');
            }
        },
    }
    assert(result@ =~= before + resolution_text(block_at(tl, at as int), *resolution));
    let rest = slice_chars(&chars, end, chars.len());
    push_chars(&mut result, &rest);
    Ok(string_of(&result))
}

/// Resolving a block with both sides puts our side and, right after it,
/// their side in the place of the block, and all text outside the block
/// stays as it was, character for character: the text is what stands before
/// the block, the block, and what stands after it, and the result is what
/// stands before the block, our side, their side, and what stands after it.
/// The block begins where its start-marker line begins: from there on the
/// text reads as the lines from that marker on.
pub proof fn lemma_resolve_both(content: Seq<char>, index: int, resolution: ConflictResolution)
    requires
        resolution is Both,
        0 <= index < parse_blocks(content).len(),
    ensures
        ({
            let start = nth_block(lines(content), index, 0);
            let begin = span_begin(content, start);
            let end = span_end(content, start);
            let block = parse_blocks(content)[index];
            &&& 0 <= start < lines(content).len()
            &&& is_start_marker(lines(content)[start])
            &&& 0 <= begin <= end <= content.len()
            &&& lines_from(content, begin) == lines(content).subrange(
                start,
                lines(content).len() as int,
            )
            &&& content == content.subrange(0, begin) + content.subrange(begin, end)
                + content.subrange(end, content.len() as int)
            &&& resolved(content, index, resolution) == content.subrange(0, begin) + (block.ours
                + block.theirs) + content.subrange(end, content.len() as int)
        }),
{
    let ls = lines(content);
    lemma_nth_block(ls, index, 0);
    let start = nth_block(ls, index, 0);
    lemma_block_next_bounds(ls, start);
    lemma_line_start_bounds(content, 0, start);
    lemma_line_start_bounds(content, 0, block_next(ls, start));
    lemma_line_start_grows(content, 0, start, block_next(ls, start));
    lemma_lines_from_line_start(content, 0, start);
    let begin = span_begin(content, start);
    let end = span_end(content, start);
    assert(content =~= content.subrange(0, begin) + content.subrange(begin, end)
        + content.subrange(end, content.len() as int));
}

/// A block takes at least its three marker lines, and ends at most two lines
/// past the last line.
pub proof fn lemma_block_next_bounds(ls: Seq<Seq<char>>, start: int)
    requires
        0 <= start < ls.len(),
    ensures
        start + 3 <= block_next(ls, start) <= ls.len() + 2,
{
    lemma_section_ends(ls, start + 1);
    let span = block_span(ls, start);
    if span.has_base {
        lemma_section_ends(ls, span.ours_stop + 1);
    }
    if span.separator + 1 < ls.len() {
        lemma_section_ends(ls, span.separator + 1);
    }
}

/// Whether lines `start`, `sep` and `end` delimit a conflict span, with a
/// base section opened at line `base` where there is one: they hold the
/// markers in this order. Without a base section no line of our side is a
/// separator or a base marker; with one, no line of our side is, and no line
/// of the base section is a separator. No line of their side is an end
/// marker.
pub open spec fn is_span(ls: Seq<Seq<char>>, start: int, base: Option<int>, sep: int, end: int) -> bool {
    let ours_stop = match base {
        Some(b) => b,
        None => sep,
    };
    &&& 0 <= start < ours_stop <= sep
    &&& sep < end < ls.len()
    &&& is_start_marker(ls[start])
    &&& is_separator_marker(ls[sep])
    &&& is_end_marker(ls[end])
    &&& base matches Some(b) ==> b < sep && is_base_marker(ls[b])
    &&& forall|k: int|
        start < k < ours_stop ==> !is_separator_marker(#[trigger] ls[k]) && !is_base_marker(ls[k])
    &&& forall|k: int| ours_stop < k < sep ==> !is_separator_marker(#[trigger] ls[k])
    &&& forall|k: int| sep < k < end ==> !is_end_marker(#[trigger] ls[k])
}

/// Whether line `k` lies in none of the spans.
pub open spec fn is_outside(starts: Seq<int>, ends: Seq<int>, k: int) -> bool {
    forall|i: int| 0 <= i < starts.len() ==> k < #[trigger] starts[i] || ends[i] < k
}

/// Whether the lines hold exactly the given conflict spans, one after the
/// other and apart from each other: span `i` opens at line `starts[i]`, has
/// a base section from line `bases[i]` where that is set, its sides part at
/// line `seps[i]` and it closes at line `ends[i]`; and no line outside the
/// spans opens a block.
pub open spec fn holds_spans(
    ls: Seq<Seq<char>>,
    starts: Seq<int>,
    bases: Seq<Option<int>>,
    seps: Seq<int>,
    ends: Seq<int>,
) -> bool {
    &&& starts.len() == bases.len()
    &&& starts.len() == seps.len()
    &&& starts.len() == ends.len()
    &&& forall|i: int|
        0 <= i < starts.len() ==> is_span(ls, #[trigger] starts[i], bases[i], seps[i], ends[i])
    &&& forall|i: int| 0 <= i < starts.len() - 1 ==> #[trigger] ends[i] < starts[i + 1]
    &&& forall|k: int|
        0 <= k < ls.len() && #[trigger] is_outside(starts, ends, k) ==> !is_start_marker(ls[k])
}

/// The block that a span stands for: our side is the lines between the
/// start marker and the base marker or, without one, the separator; the
/// base section the lines between the base marker and the separator; their
/// side the lines between the separator and the end marker. Its start line
/// is that of the start marker and its end line that of the end marker,
/// counted from 1.
pub open spec fn span_block(
    ls: Seq<Seq<char>>,
    start: int,
    base: Option<int>,
    sep: int,
    end: int,
) -> ConflictBlockView {
    ConflictBlockView {
        ours: unlines(
            between(
                ls,
                start + 1,
                match base {
                    Some(b) => b,
                    None => sep,
                },
            ),
        ),
        base: match base {
            Some(b) => Some(unlines(between(ls, b + 1, sep))),
            None => None,
        },
        theirs: unlines(between(ls, sep + 1, end)),
        start_line: (start + 1) as u32,
        end_line: (end + 1) as u32,
    }
}

proof fn lemma_ours_end_scan(ls: Seq<Seq<char>>, from: int, stop: int)
    requires
        0 <= from <= stop < ls.len(),
        forall|k: int|
            from <= k < stop ==> !is_separator_marker(#[trigger] ls[k]) && !is_base_marker(ls[k]),
        is_separator_marker(ls[stop]) || is_base_marker(ls[stop]),
    ensures
        ours_end(ls, from) == stop,
    decreases stop - from,
{
    if from < stop {
        lemma_ours_end_scan(ls, from + 1, stop);
    }
}

proof fn lemma_base_end_scan(ls: Seq<Seq<char>>, from: int, stop: int)
    requires
        0 <= from <= stop < ls.len(),
        forall|k: int| from <= k < stop ==> !is_separator_marker(#[trigger] ls[k]),
        is_separator_marker(ls[stop]),
    ensures
        base_end(ls, from) == stop,
    decreases stop - from,
{
    if from < stop {
        lemma_base_end_scan(ls, from + 1, stop);
    }
}

proof fn lemma_theirs_end_scan(ls: Seq<Seq<char>>, from: int, stop: int)
    requires
        0 <= from <= stop < ls.len(),
        forall|k: int| from <= k < stop ==> !is_end_marker(#[trigger] ls[k]),
        is_end_marker(ls[stop]),
    ensures
        theirs_end(ls, from) == stop,
    decreases stop - from,
{
    if from < stop {
        lemma_theirs_end_scan(ls, from + 1, stop);
    }
}

proof fn lemma_span_is_block(ls: Seq<Seq<char>>, start: int, base: Option<int>, sep: int, end: int)
    requires
        is_span(ls, start, base, sep, end),
    ensures
        block_at(ls, start) == span_block(ls, start, base, sep, end),
        block_next(ls, start) == end + 1,
{
    reveal_strlit("=======");
    reveal_strlit("|||||||");
    assert(!is_base_marker(ls[sep])) by {
        let l = ls[sep];
        assert(l.subrange(0, 7)[0] == '=');
        if is_base_marker(l) {
            assert(l.subrange(0, 7)[0] == '|');
        }
    }
    match base {
        Some(b) => {
            lemma_ours_end_scan(ls, start + 1, b);
            lemma_base_end_scan(ls, b + 1, sep);
        },
        None => {
            lemma_ours_end_scan(ls, start + 1, sep);
        },
    }
    lemma_theirs_end_scan(ls, sep + 1, end);
}

proof fn lemma_spans_ordered(
    ls: Seq<Seq<char>>,
    starts: Seq<int>,
    bases: Seq<Option<int>>,
    seps: Seq<int>,
    ends: Seq<int>,
    i: int,
    k: int,
)
    requires
        holds_spans(ls, starts, bases, seps, ends),
        0 <= i < k < starts.len(),
    ensures
        ends[i] < starts[k],
    decreases k - i,
{
    if k > i + 1 {
        lemma_spans_ordered(ls, starts, bases, seps, ends, i, k - 1);
        assert(is_span(ls, starts[k - 1], bases[k - 1], seps[k - 1], ends[k - 1]));
        assert(ends[k - 1] < starts[k]);
    } else {
        assert(ends[i] < starts[i + 1]);
    }
}

/// The blocks that spans `j` and later stand for.
pub open spec fn span_blocks(
    ls: Seq<Seq<char>>,
    starts: Seq<int>,
    bases: Seq<Option<int>>,
    seps: Seq<int>,
    ends: Seq<int>,
    j: int,
) -> Seq<ConflictBlockView>
    decreases starts.len() - j,
{
    if j < 0 || j >= starts.len() {
        Seq::empty()
    } else {
        seq![span_block(ls, starts[j], bases[j], seps[j], ends[j])] + span_blocks(
            ls,
            starts,
            bases,
            seps,
            ends,
            j + 1,
        )
    }
}

proof fn lemma_span_blocks(
    ls: Seq<Seq<char>>,
    starts: Seq<int>,
    bases: Seq<Option<int>>,
    seps: Seq<int>,
    ends: Seq<int>,
    j: int,
)
    requires
        0 <= j <= starts.len(),
    ensures
        span_blocks(ls, starts, bases, seps, ends, j).len() == starts.len() - j,
        forall|i: int|
            0 <= i < starts.len() - j ==> #[trigger] span_blocks(ls, starts, bases, seps, ends, j)[i]
                == span_block(ls, starts[i + j], bases[i + j], seps[i + j], ends[i + j]),
    decreases starts.len() - j,
{
    if j < starts.len() {
        lemma_span_blocks(ls, starts, bases, seps, ends, j + 1);
    }
}

proof fn lemma_spans_from(
    ls: Seq<Seq<char>>,
    starts: Seq<int>,
    bases: Seq<Option<int>>,
    seps: Seq<int>,
    ends: Seq<int>,
    j: int,
    p: int,
)
    requires
        holds_spans(ls, starts, bases, seps, ends),
        0 <= j <= starts.len(),
        0 <= p <= ls.len(),
        j > 0 ==> ends[j - 1] < p,
        j < starts.len() ==> p <= starts[j],
    ensures
        blocks_from(ls, p) == span_blocks(ls, starts, bases, seps, ends, j),
    decreases ls.len() - p,
{
    let n = starts.len() as int;
    if j < n {
        assert(is_span(ls, starts[j], bases[j], seps[j], ends[j]));
    }
    if p >= ls.len() {
    } else if j < n && p == starts[j] {
        lemma_span_is_block(ls, starts[j], bases[j], seps[j], ends[j]);
        let next = ends[j] + 1;
        if next < ls.len() {
            if j + 1 < n {
                assert(ends[j] < starts[j + 1]);
            }
            lemma_spans_from(ls, starts, bases, seps, ends, j + 1, next);
        } else {
            if j + 1 < n {
                assert(ends[j] < starts[j + 1]);
                assert(is_span(ls, starts[j + 1], bases[j + 1], seps[j + 1], ends[j + 1]));
            }
            assert(span_blocks(ls, starts, bases, seps, ends, j + 1) =~= Seq::<
                ConflictBlockView,
            >::empty());
            assert(seq![block_at(ls, p)] + Seq::<ConflictBlockView>::empty() =~= seq![
                block_at(ls, p),
            ]);
        }
    } else {
        assert forall|i: int| 0 <= i < n implies p < #[trigger] starts[i] || ends[i] < p by {
            assert(is_span(ls, starts[i], bases[i], seps[i], ends[i]));
            if i < j {
                if i < j - 1 {
                    lemma_spans_ordered(ls, starts, bases, seps, ends, i, j - 1);
                    assert(is_span(ls, starts[j - 1], bases[j - 1], seps[j - 1], ends[j - 1]));
                }
            } else if i > j {
                lemma_spans_ordered(ls, starts, bases, seps, ends, j, i);
            }
        }
        assert(is_outside(starts, ends, p));
        assert(!is_start_marker(ls[p]));
        lemma_spans_from(ls, starts, bases, seps, ends, j, p + 1);
    }
}

/// A text that holds exactly `n` conflict spans, apart from each other, with
/// or without a base section, has exactly `n` blocks, and block `i` is span
/// `i`: its sides and its base section are the lines between the markers,
/// its start line is the line of its start marker and its end line the line
/// of its end marker, both counted from 1. Where the line numbers fit in 32
/// bits, each block starts before it ends, and ends before the next starts.
pub proof fn lemma_block_count(
    content: Seq<char>,
    starts: Seq<int>,
    bases: Seq<Option<int>>,
    seps: Seq<int>,
    ends: Seq<int>,
)
    requires
        holds_spans(lines(content), starts, bases, seps, ends),
    ensures
        parse_blocks(content).len() == starts.len(),
        forall|i: int|
            0 <= i < starts.len() ==> #[trigger] parse_blocks(content)[i] == span_block(
                lines(content),
                starts[i],
                bases[i],
                seps[i],
                ends[i],
            ),
        lines(content).len() <= u32::MAX ==> forall|i: int|
            0 <= i < starts.len() ==> {
                &&& (#[trigger] parse_blocks(content)[i]).start_line == starts[i] + 1
                &&& parse_blocks(content)[i].end_line == ends[i] + 1
                &&& parse_blocks(content)[i].start_line < parse_blocks(content)[i].end_line
                &&& i + 1 < starts.len() ==> parse_blocks(content)[i].end_line < parse_blocks(
                    content,
                )[i + 1].start_line
            },
{
    let ls = lines(content);
    lemma_spans_from(ls, starts, bases, seps, ends, 0, 0);
    lemma_span_blocks(ls, starts, bases, seps, ends, 0);
    if ls.len() <= u32::MAX {
        assert forall|i: int| 0 <= i < starts.len() implies {
            &&& (#[trigger] parse_blocks(content)[i]).start_line == starts[i] + 1
            &&& parse_blocks(content)[i].end_line == ends[i] + 1
            &&& parse_blocks(content)[i].start_line < parse_blocks(content)[i].end_line
            &&& i + 1 < starts.len() ==> parse_blocks(content)[i].end_line < parse_blocks(
                content,
            )[i + 1].start_line
        } by {
            assert(is_span(ls, starts[i], bases[i], seps[i], ends[i]));
            if i + 1 < starts.len() {
                assert(is_span(ls, starts[i + 1], bases[i + 1], seps[i + 1], ends[i + 1]));
                assert(ends[i] < starts[i + 1]);
            }
        }
    }
}

} // verus!
