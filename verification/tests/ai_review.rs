use rocket_git::ai::review::build_review_prompt;

#[test]
fn build_review_prompt_includes_diff() {
    let diff = "--- a/main.rs\n+++ b/main.rs\n@@ -1 +1 @@\n-old\n+new";
    let prompt = build_review_prompt(diff);
    assert!(prompt.contains("--- a/main.rs"));
    assert!(prompt.contains("Review the following"));
}

#[test]
fn build_review_prompt_specifies_json_format() {
    let prompt = build_review_prompt("diff");
    assert!(prompt.contains("JSON"));
    assert!(prompt.contains("\"comments\""));
}
