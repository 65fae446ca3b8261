use rocket_git::git::submodule::{
    enrich_from_gitmodules, parse_gitmodules, parse_submodule_status,
};
use rocket_git::git::types::{SubmoduleInfo, SubmoduleStatus};

#[test]
fn parse_submodule_status_up_to_date() {
    let output = " abc1234567890 vendor/lib-auth (v1.0.0)\n";
    let result = parse_submodule_status(output);

    assert_eq!(result.len(), 1);
    assert_eq!(result[0].path, "vendor/lib-auth");
    assert_eq!(result[0].status, SubmoduleStatus::UpToDate);
    assert_eq!(result[0].head_oid.as_deref(), Some("abc1234567890"));
    assert_eq!(result[0].head_short_oid.as_deref(), Some("abc1234"));
}

#[test]
fn parse_submodule_status_modified() {
    let output = "+def5678901234 vendor/lib-crypto (heads/v2.x)\n";
    let result = parse_submodule_status(output);

    assert_eq!(result.len(), 1);
    assert_eq!(result[0].path, "vendor/lib-crypto");
    assert_eq!(result[0].status, SubmoduleStatus::Modified);
    assert_eq!(result[0].head_oid.as_deref(), Some("def5678901234"));
}

#[test]
fn parse_submodule_status_uninitialized() {
    let output = "-aaa1111222233 vendor/lib-utils\n";
    let result = parse_submodule_status(output);

    assert_eq!(result.len(), 1);
    assert_eq!(result[0].path, "vendor/lib-utils");
    assert_eq!(result[0].status, SubmoduleStatus::Uninitialized);
    assert!(result[0].head_oid.is_none());
    assert!(result[0].head_short_oid.is_none());
}

#[test]
fn parse_submodule_status_conflict() {
    let output = "Uabc1234567890 vendor/lib-conflict (v1.0.0)\n";
    let result = parse_submodule_status(output);

    assert_eq!(result.len(), 1);
    assert_eq!(result[0].path, "vendor/lib-conflict");
    assert_eq!(result[0].status, SubmoduleStatus::Conflict);
    assert_eq!(result[0].head_oid.as_deref(), Some("abc1234567890"));
}

#[test]
fn parse_submodule_status_multiple() {
    let output = " abc1234567890 vendor/a (v1.0)\n+def5678901234 vendor/b\n";
    let result = parse_submodule_status(output);

    assert_eq!(result.len(), 2);
    assert_eq!(result[0].path, "vendor/a");
    assert_eq!(result[1].path, "vendor/b");
}

#[test]
fn parse_submodule_status_empty() {
    let result = parse_submodule_status("");
    assert!(result.is_empty());
}

#[test]
fn parse_gitmodules_single() {
    let content = r#"[submodule "vendor/lib-auth"]
	path = vendor/lib-auth
	url = git@github.com:example/lib-auth.git
	branch = main
"#;
    let sections = parse_gitmodules(content);

    assert_eq!(sections.len(), 1);
    assert_eq!(sections[0].path, "vendor/lib-auth");
    assert_eq!(sections[0].url, "git@github.com:example/lib-auth.git");
    assert_eq!(sections[0].branch.as_deref(), Some("main"));
}

#[test]
fn parse_gitmodules_multiple() {
    let content = r#"[submodule "vendor/a"]
	path = vendor/a
	url = https://example.com/a.git
[submodule "vendor/b"]
	path = vendor/b
	url = https://example.com/b.git
	branch = develop
"#;
    let sections = parse_gitmodules(content);

    assert_eq!(sections.len(), 2);
    assert_eq!(sections[0].path, "vendor/a");
    assert!(sections[0].branch.is_none());
    assert_eq!(sections[1].path, "vendor/b");
    assert_eq!(sections[1].branch.as_deref(), Some("develop"));
}

#[test]
fn parse_gitmodules_empty() {
    let sections = parse_gitmodules("");
    assert!(sections.is_empty());
}

#[test]
fn enrich_from_gitmodules_fills_url_and_branch() {
    let mut submodules = vec![SubmoduleInfo {
        path: "vendor/lib-auth".to_string(),
        url: String::new(),
        branch: None,
        head_oid: Some("abc123".to_string()),
        head_short_oid: Some("abc123".to_string()),
        status: SubmoduleStatus::UpToDate,
    }];

    let gitmodules = r#"[submodule "vendor/lib-auth"]
	path = vendor/lib-auth
	url = git@github.com:example/lib-auth.git
	branch = main
"#;

    enrich_from_gitmodules(&mut submodules, gitmodules);

    assert_eq!(submodules[0].url, "git@github.com:example/lib-auth.git");
    assert_eq!(submodules[0].branch.as_deref(), Some("main"));
}
