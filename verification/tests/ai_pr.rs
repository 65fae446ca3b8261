use rocket_git::ai::pr::build_pr_description_prompt;

#[test]
fn build_prompt_includes_branch_and_diff() {
    let prompt = build_pr_description_prompt("diff content", "feat/auth");
    assert!(prompt.contains("feat/auth"));
    assert!(prompt.contains("diff content"));
}

#[test]
fn pr_build_prompt_specifies_json_format() {
    let prompt = build_pr_description_prompt("diff", "main");
    assert!(prompt.contains("JSON"));
    assert!(prompt.contains("\"title\""));
    assert!(prompt.contains("\"body\""));
}
