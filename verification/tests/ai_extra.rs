use rocket_git::ai::adapter::{parse_generate_response, run_prompt, CliAdapter};
use rocket_git::ai::detector::{
    describe_presets, detect_cli_adapters, first_available_adapter_with_priority,
    no_adapter_message, preset_clis, probe_presets, select_adapter,
};
use rocket_git::ai::diff_text::format_diff_text;
use rocket_git::ai::fences::{json_payload, strip_code_fences};
use rocket_git::ai::types::AiError;
use rocket_git::git::types::{DiffHunk, DiffLine, DiffLineKind, FileDiff};

#[test]
fn fences_are_stripped() {
    assert_eq!(strip_code_fences("```json\n{\"a\":1}\n```"), "{\"a\":1}");
    assert_eq!(strip_code_fences("```\n{}\n```"), "{}");
    assert_eq!(strip_code_fences("  plain  "), "plain");
    assert_eq!(strip_code_fences("```"), "");
    assert_eq!(strip_code_fences("x```"), "x");
    assert_eq!(json_payload("\n ```json\n{}\n```  \n"), "{}");
}

#[test]
fn answer_body_is_trimmed_as_a_whole() {
    let r = parse_generate_response("  subject  \n\n- one\n- two\n\n").unwrap();
    assert_eq!(r.subject, "subject");
    assert_eq!(r.body, "- one\n- two");
    assert!(matches!(parse_generate_response(" \n"), Err(AiError::ParseFailed(m)) if m == "empty response"));
}

#[test]
fn command_output_is_read() {
    assert_eq!(run_prompt(true, Some(0), "  answer\n", "").unwrap(), "answer");
    let e = run_prompt(true, Some(0), " \n", "").unwrap_err();
    assert_eq!(e.message(), "failed to parse response: empty response");
    let e = run_prompt(false, Some(2), "out", "boom").unwrap_err();
    assert!(matches!(&e, AiError::CliExecutionFailed(m) if m == "exit code 2: boom"));
    assert_eq!(e.message(), "cli execution failed: exit code 2: boom");
    let e = run_prompt(false, None, "", "killed").unwrap_err();
    assert!(matches!(&e, AiError::CliExecutionFailed(m) if m == "exit code -1: killed"));
    let e = run_prompt(false, Some(-11), "", "").unwrap_err();
    assert!(matches!(&e, AiError::CliExecutionFailed(m) if m == "exit code -11: "));
    assert_eq!(AiError::NoAdapterAvailable.message(), "no adapter available");
}

#[test]
fn adapter_keeps_what_it_is_given() {
    let a = CliAdapter::new("N".to_string(), "cmd".to_string(), vec!["-x".to_string()]);
    assert_eq!(a.adapter_name, "N");
    assert_eq!(a.command, "cmd");
    assert_eq!(a.args, vec!["-x"]);
}

#[test]
fn presets_are_listed_in_order() {
    let list = preset_clis();
    let names: Vec<_> = list.iter().map(|p| (p.name.as_str(), p.command.as_str())).collect();
    assert_eq!(
        names,
        vec![
            ("Codex CLI", "codex"),
            ("GitHub Copilot", "gh"),
            ("Gemini CLI", "gemini"),
            ("Aider", "aider"),
            ("LLM CLI", "llm"),
        ]
    );
    assert_eq!(list[1].args, vec!["copilot", "suggest", "-t", "shell"]);
    assert!(list[2].args.is_empty());
    let infos = detect_cli_adapters();
    assert_eq!(infos.len(), list.len());
    assert_eq!(infos[0].name, "Codex CLI");
    assert_eq!(infos[4].command, "llm");
    let infos = describe_presets(&list, &vec![true, false, true, false, false]);
    assert!(infos[0].available && !infos[1].available && infos[2].available);
}

#[test]
fn adapter_is_chosen_by_priority_among_the_installed() {
    let list = preset_clis();
    let available = vec![false, true, false, true, true];
    let none: Vec<String> = Vec::new();
    assert_eq!(select_adapter(&list, &available, &none).unwrap().adapter_name, "GitHub Copilot");
    let priority = vec!["Gemini CLI".to_string(), "Nope".to_string(), "LLM CLI".to_string(), "Aider".to_string()];
    let chosen = select_adapter(&list, &available, &priority).unwrap();
    assert_eq!(chosen.adapter_name, "LLM CLI");
    assert_eq!(chosen.command, "llm");
    assert!(select_adapter(&list, &vec![false; 5], &none).is_none());
    assert!(select_adapter(&list, &vec![true; 5], &vec!["Unknown".to_string()]).is_none());
    let first = select_adapter(&list, &vec![true; 5], &vec!["Aider".to_string()]).unwrap();
    assert_eq!(first.args, vec!["--message"]);
}

#[test]
fn priority_with_unknown_names_returns_none() {
    let result = first_available_adapter_with_priority(&vec![
        "NonExistent Tool".to_string(),
        "Another Fake".to_string(),
    ]);
    assert!(result.is_none());
    assert!(no_adapter_message().starts_with("No AI CLI adapter available."));
}

fn line(content: &str) -> DiffLine {
    DiffLine {
        kind: DiffLineKind::Context,
        content: content.to_string(),
        old_lineno: None,
        new_lineno: None,
        word_diff: None,
    }
}

fn hunk(header: &str, lines: Vec<DiffLine>) -> DiffHunk {
    DiffHunk { header: header.to_string(), old_start: 1, old_lines: 1, new_start: 1, new_lines: 1, lines }
}

#[test]
fn diffs_are_shown_as_text() {
    let diffs = vec![
        FileDiff {
            old_path: Some("old.rs".to_string()),
            new_path: Some("new.rs".to_string()),
            hunks: vec![hunk("@@ h1 @@", vec![line("a"), line("b")]), hunk("@@ h2 @@", vec![])],
        },
        FileDiff { old_path: Some("gone.rs".to_string()), new_path: None, hunks: vec![] },
        FileDiff { old_path: None, new_path: None, hunks: vec![hunk("@@ h3 @@", vec![line("c\n")])] },
    ];
    assert_eq!(
        format_diff_text(&diffs),
        "--- new.rs\n@@ h1 @@\na\nb\n@@ h2 @@\n\n\n--- gone.rs\n\n\n--- unknown\n@@ h3 @@\nc\n"
    );
    assert_eq!(format_diff_text(&Vec::new()), "");
}

#[test]
fn priority_with_empty_list_delegates_to_default() {
    let list = preset_clis();
    let from_priority = first_available_adapter_with_priority(&Vec::new());
    let from_default = select_adapter(&list, &probe_presets(&list), &Vec::new());
    match (from_priority, from_default) {
        (Some(p), Some(d)) => assert_eq!(p.adapter_name, d.adapter_name),
        (None, None) => {}
        _ => panic!("empty priority should match default behavior"),
    }
}

