use rocket_git::ai::prompt::build_commit_message_prompt;
use rocket_git::ai::types::{CommitMessageStyle, GenerateRequest, Language};

#[test]
fn conventional_prompt_contains_conventional_commits_instruction() {
    let request = GenerateRequest {
        diff: "diff --git a/foo.rs".to_string(),
        style: CommitMessageStyle::Conventional,
        language: Language::En,
    };
    let prompt = build_commit_message_prompt(&request);
    assert!(prompt.contains("Conventional Commits"));
    assert!(prompt.contains("feat, fix"));
    assert!(prompt.contains("English"));
    assert!(prompt.contains("diff --git a/foo.rs"));
}

#[test]
fn simple_prompt_contains_imperative_instruction() {
    let request = GenerateRequest {
        diff: "+new line".to_string(),
        style: CommitMessageStyle::Simple,
        language: Language::En,
    };
    let prompt = build_commit_message_prompt(&request);
    assert!(prompt.contains("imperative mood"));
}

#[test]
fn detailed_prompt_contains_body_instruction() {
    let request = GenerateRequest {
        diff: "-old\n+new".to_string(),
        style: CommitMessageStyle::Detailed,
        language: Language::Ja,
    };
    let prompt = build_commit_message_prompt(&request);
    assert!(prompt.contains("body"));
    assert!(prompt.contains("Japanese"));
}

#[test]
fn prompt_includes_diff_content() {
    let diff = "--- a/file.rs\n+++ b/file.rs\n@@ -1,3 +1,3 @@";
    let request = GenerateRequest {
        diff: diff.to_string(),
        style: CommitMessageStyle::Conventional,
        language: Language::En,
    };
    let prompt = build_commit_message_prompt(&request);
    assert!(prompt.contains(diff));
}
