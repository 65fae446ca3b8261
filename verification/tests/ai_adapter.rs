use rocket_git::ai::adapter::parse_generate_response;

#[test]
fn parse_single_line_response() {
    let result = parse_generate_response("feat: add auth handler\n").unwrap();
    assert_eq!(result.subject, "feat: add auth handler");
    assert!(result.body.is_empty());
    assert!(result.alternatives.is_empty());
}

#[test]
fn parse_multiline_response() {
    let raw = "feat(auth): add handler\n\n- Switch to slog\n- Add error handling";
    let result = parse_generate_response(raw).unwrap();
    assert_eq!(result.subject, "feat(auth): add handler");
    assert!(result.body.contains("Switch to slog"));
}

#[test]
fn parse_empty_response_returns_error() {
    let result = parse_generate_response("");
    assert!(result.is_err());
}

#[test]
fn parse_whitespace_only_response_returns_error() {
    let result = parse_generate_response("   \n  ");
    assert!(result.is_err());
}
