use rocket_git::git::conflict::{parse_conflict_markers, resolve_single_block};
use rocket_git::git::types::ConflictResolution;

#[test]
fn parse_conflict_markers_standard_format() {
    let content =
        "before\n<<<<<<< HEAD\nours line\n=======\ntheirs line\n>>>>>>> branch\nafter\n";
    let blocks = parse_conflict_markers(content);
    assert_eq!(blocks.len(), 1);
    assert_eq!(blocks[0].ours, "ours line\n");
    assert_eq!(blocks[0].base, None);
    assert_eq!(blocks[0].theirs, "theirs line\n");
}

#[test]
fn parse_conflict_markers_diff3_format() {
    let content = "before\n<<<<<<< HEAD\nours line\n||||||| base\nbase line\n=======\ntheirs line\n>>>>>>> branch\nafter\n";
    let blocks = parse_conflict_markers(content);
    assert_eq!(blocks.len(), 1);
    assert_eq!(blocks[0].ours, "ours line\n");
    assert_eq!(blocks[0].base, Some("base line\n".to_string()));
    assert_eq!(blocks[0].theirs, "theirs line\n");
}

#[test]
fn parse_conflict_markers_multiple_blocks() {
    let content = "<<<<<<< HEAD\na\n=======\nb\n>>>>>>> br\nmiddle\n<<<<<<< HEAD\nc\n=======\nd\n>>>>>>> br\n";
    let blocks = parse_conflict_markers(content);
    assert_eq!(blocks.len(), 2);
    assert_eq!(blocks[0].ours, "a\n");
    assert_eq!(blocks[0].base, None);
    assert_eq!(blocks[0].theirs, "b\n");
    assert_eq!(blocks[1].ours, "c\n");
    assert_eq!(blocks[1].base, None);
    assert_eq!(blocks[1].theirs, "d\n");
}

#[test]
fn parse_conflict_markers_diff3_with_multiple_base_lines() {
    let content = "<<<<<<< HEAD\nours1\nours2\n||||||| base-ref\nbase1\nbase2\nbase3\n=======\ntheirs1\n>>>>>>> branch\n";
    let blocks = parse_conflict_markers(content);
    assert_eq!(blocks.len(), 1);
    assert_eq!(blocks[0].ours, "ours1\nours2\n");
    assert_eq!(blocks[0].base, Some("base1\nbase2\nbase3\n".to_string()));
    assert_eq!(blocks[0].theirs, "theirs1\n");
}

#[test]
fn resolve_single_block_with_diff3() {
    let content = "before\n<<<<<<< HEAD\nours\n||||||| base\noriginal\n=======\ntheirs\n>>>>>>> branch\nafter\n";
    let result = resolve_single_block(content, 0, &ConflictResolution::Ours).unwrap();
    assert_eq!(result, "before\nours\nafter\n");

    let result = resolve_single_block(content, 0, &ConflictResolution::Theirs).unwrap();
    assert_eq!(result, "before\ntheirs\nafter\n");

    let result = resolve_single_block(content, 0, &ConflictResolution::Both).unwrap();
    assert_eq!(result, "before\nours\ntheirs\nafter\n");
}

#[test]
fn resolve_single_block_out_of_range() {
    let content = "<<<<<<< HEAD\na\n=======\nb\n>>>>>>> br\n";
    let result = resolve_single_block(content, 1, &ConflictResolution::Ours);
    assert!(result.is_err());
}

#[test]
fn parse_blocks_numbers_lines_from_one() {
    let content =
        "before\n<<<<<<< HEAD\nours line\n=======\ntheirs line\n>>>>>>> branch\nafter\n";
    let blocks = parse_conflict_markers(content);
    assert_eq!(blocks[0].start_line, 2);
    assert_eq!(blocks[0].end_line, 6);
}

#[test]
fn parse_blocks_finds_each_of_three_spans() {
    let content = "<<<<<<< A\n1\n=======\n2\n>>>>>>> B\nx\ny\n<<<<<<< A\n=======\n>>>>>>> B\n<<<<<<< A\n3\n4\n=======\n5\n>>>>>>> B\nend";
    let blocks = parse_conflict_markers(content);
    assert_eq!(blocks.len(), 3);
    assert_eq!((blocks[0].start_line, blocks[0].end_line), (1, 5));
    assert_eq!((blocks[1].start_line, blocks[1].end_line), (8, 10));
    assert_eq!((blocks[2].start_line, blocks[2].end_line), (11, 16));
    assert_eq!(blocks[1].ours, "");
    assert_eq!(blocks[1].theirs, "");
    assert_eq!(blocks[2].ours, "3\n4\n");
}

#[test]
fn parse_blocks_reads_the_base_section() {
    let blocks =
        parse_conflict_markers("<<<<<<< H\nours\n||||||| B\nbase\n=======\ntheirs\n>>>>>>> T\n");
    assert_eq!(blocks.len(), 1);
    assert_eq!(blocks[0].ours, "ours\n");
    assert_eq!(blocks[0].base, Some("base\n".to_string()));
    assert_eq!(blocks[0].theirs, "theirs\n");
    assert_eq!((blocks[0].start_line, blocks[0].end_line), (1, 7));
}

#[test]
fn parse_blocks_of_text_without_markers_is_empty() {
    assert!(parse_conflict_markers("").is_empty());
    assert!(parse_conflict_markers("plain\ntext\n=======\n").is_empty());
}

#[test]
fn parse_blocks_handles_a_block_cut_short() {
    let blocks = parse_conflict_markers("<<<<<<< HEAD\nours\n");
    assert_eq!(blocks.len(), 1);
    assert_eq!(blocks[0].ours, "ours\n");
    assert_eq!(blocks[0].theirs, "");
    assert_eq!(blocks[0].start_line, 1);
    assert_eq!(blocks[0].end_line, 4);
}

#[test]
fn parse_blocks_strips_carriage_returns() {
    let blocks = parse_conflict_markers("<<<<<<< H\r\nours\r\n=======\r\ntheirs\r\n>>>>>>> T\r\n");
    assert_eq!(blocks.len(), 1);
    assert_eq!(blocks[0].ours, "ours\n");
    assert_eq!(blocks[0].theirs, "theirs\n");
}

#[test]
fn resolve_both_keeps_the_text_around_the_block() {
    let before = "one\ntwo\n";
    let after = "three\n<<<<<<< HEAD\nx\n=======\ny\n>>>>>>> br\nfour\n";
    let content = format!("{before}<<<<<<< HEAD\nours\n=======\ntheirs\n>>>>>>> br\n{after}");
    let result = resolve_single_block(&content, 0, &ConflictResolution::Both).unwrap();
    assert_eq!(result, format!("{before}ours\ntheirs\n{after}"));
}

#[test]
fn resolve_second_block_leaves_the_first() {
    let content = "<<<<<<< HEAD\na\n=======\nb\n>>>>>>> br\nmiddle\n<<<<<<< HEAD\nc\n=======\nd\n>>>>>>> br\n";
    let result = resolve_single_block(content, 1, &ConflictResolution::Theirs).unwrap();
    assert_eq!(result, "<<<<<<< HEAD\na\n=======\nb\n>>>>>>> br\nmiddle\nd\n");
}

#[test]
fn resolve_manual_ends_with_a_line_feed() {
    let content = "<<<<<<< HEAD\na\n=======\nb\n>>>>>>> br\ntail\n";
    let manual = ConflictResolution::Manual("merged".to_string());
    assert_eq!(resolve_single_block(content, 0, &manual).unwrap(), "merged\ntail\n");
    let manual = ConflictResolution::Manual("merged\n".to_string());
    assert_eq!(resolve_single_block(content, 0, &manual).unwrap(), "merged\ntail\n");
    let manual = ConflictResolution::Manual(String::new());
    assert_eq!(resolve_single_block(content, 0, &manual).unwrap(), "\ntail\n");
}

#[test]
fn resolve_out_of_range_names_the_index_and_the_total() {
    let content = "<<<<<<< HEAD\na\n=======\nb\n>>>>>>> br\n";
    let err = resolve_single_block(content, 3, &ConflictResolution::Ours).unwrap_err();
    assert_eq!(
        err.message(),
        "failed to resolve conflict: block_index 3 out of range (total: 1)"
    );
    let err = resolve_single_block("no markers", 0, &ConflictResolution::Ours).unwrap_err();
    assert_eq!(
        err.message(),
        "failed to resolve conflict: block_index 0 out of range (total: 0)"
    );
}

#[test]
fn resolve_keeps_a_missing_final_line_feed() {
    let content = "<<<<<<< H\na\n=======\nb\n>>>>>>> T\nz";
    let result = resolve_single_block(content, 0, &ConflictResolution::Both).unwrap();
    assert_eq!(result, "a\nb\nz");
    let content = "<<<<<<< H\na\n=======\nb\n>>>>>>> T";
    let result = resolve_single_block(content, 0, &ConflictResolution::Both).unwrap();
    assert_eq!(result, "a\nb\n");
}

#[test]
fn resolve_keeps_carriage_returns_outside_the_block() {
    let content = "x\r\n\r\n<<<<<<< H\r\na\r\n=======\r\nb\r\n>>>>>>> T\r\ny\r\nlast\r";
    let result = resolve_single_block(content, 0, &ConflictResolution::Ours).unwrap();
    assert_eq!(result, "x\r\n\r\na\ny\r\nlast\r");
    let result = resolve_single_block(content, 0, &ConflictResolution::Manual("m".to_string())).unwrap();
    assert_eq!(result, "x\r\n\r\nm\ny\r\nlast\r");
}

#[test]
fn resolve_counts_blocks_not_start_markers() {
    let content = "<<<<<<< a\n<<<<<<< b\n=======\n>>>>>>> c\n";
    assert_eq!(parse_conflict_markers(content).len(), 1);
    let err = resolve_single_block(content, 1, &ConflictResolution::Ours).unwrap_err();
    assert_eq!(
        err.message(),
        "failed to resolve conflict: block_index 1 out of range (total: 1)"
    );
    let result = resolve_single_block(content, 0, &ConflictResolution::Ours).unwrap();
    assert_eq!(result, "<<<<<<< b\n");
}

#[test]
fn resolve_a_block_cut_short_takes_the_rest_of_the_text() {
    let content = "head\n<<<<<<< HEAD\nours";
    assert_eq!(resolve_single_block(content, 0, &ConflictResolution::Theirs).unwrap(), "head\n");
    assert_eq!(resolve_single_block(content, 0, &ConflictResolution::Ours).unwrap(), "head\nours\n");
}

#[test]
fn resolve_every_block_in_turn_keeps_the_others() {
    let blocks = ["<<<<<<< A\n1\n=======\n2\n>>>>>>> B\n", "<<<<<<< A\n||||||| O\n0\n=======\n3\n>>>>>>> B\r\n", "<<<<<<< A\n4\n=======\n>>>>>>> B"];
    let content = format!("top\r\n{}mid\n{}\n{}", blocks[0], blocks[1], blocks[2]);
    assert_eq!(parse_conflict_markers(&content).len(), 3);
    assert_eq!(
        resolve_single_block(&content, 0, &ConflictResolution::Both).unwrap(),
        format!("top\r\n1\n2\nmid\n{}\n{}", blocks[1], blocks[2])
    );
    assert_eq!(
        resolve_single_block(&content, 1, &ConflictResolution::Both).unwrap(),
        format!("top\r\n{}mid\n3\n\n{}", blocks[0], blocks[2])
    );
    assert_eq!(
        resolve_single_block(&content, 2, &ConflictResolution::Both).unwrap(),
        format!("top\r\n{}mid\n{}\n4\n", blocks[0], blocks[1])
    );
    assert!(resolve_single_block(&content, 3, &ConflictResolution::Both).is_err());
}
