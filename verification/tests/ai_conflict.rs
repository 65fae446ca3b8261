use rocket_git::ai::conflict::build_conflict_resolve_prompt;

#[test]
fn build_prompt_without_base() {
    let prompt = build_conflict_resolve_prompt("our code", "their code", None);
    assert!(prompt.contains("our code"));
    assert!(prompt.contains("their code"));
    assert!(!prompt.contains("Base (common ancestor)"));
}

#[test]
fn build_prompt_with_base() {
    let prompt = build_conflict_resolve_prompt("our code", "their code", Some("base code"));
    assert!(prompt.contains("base code"));
    assert!(prompt.contains("Base (common ancestor)"));
}

#[test]
fn conflict_build_prompt_specifies_json_format() {
    let prompt = build_conflict_resolve_prompt("a", "b", None);
    assert!(prompt.contains("JSON"));
    assert!(prompt.contains("\"resolved_code\""));
    assert!(prompt.contains("\"confidence\""));
}
