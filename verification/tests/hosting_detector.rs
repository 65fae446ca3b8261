use rocket_git::hosting::detector::detect_from_remote_url;
use rocket_git::hosting::types::HostingProviderKind;

#[test]
fn detects_github_https() {
    let info = detect_from_remote_url("https://github.com/HMasataka/rocket.git");
    assert_eq!(info.provider, HostingProviderKind::Github);
    assert_eq!(info.owner, "HMasataka");
    assert_eq!(info.repo, "rocket");
    assert_eq!(info.url, "https://github.com/HMasataka/rocket");
}

#[test]
fn detects_github_ssh() {
    let info = detect_from_remote_url("git@github.com:HMasataka/rocket.git");
    assert_eq!(info.provider, HostingProviderKind::Github);
    assert_eq!(info.owner, "HMasataka");
    assert_eq!(info.repo, "rocket");
    assert_eq!(info.url, "https://github.com/HMasataka/rocket");
}

#[test]
fn detects_github_https_without_git_suffix() {
    let info = detect_from_remote_url("https://github.com/owner/repo");
    assert_eq!(info.provider, HostingProviderKind::Github);
    assert_eq!(info.owner, "owner");
    assert_eq!(info.repo, "repo");
    assert_eq!(info.url, "https://github.com/owner/repo");
}

#[test]
fn detects_gitlab_https() {
    let info = detect_from_remote_url("https://gitlab.com/owner/repo.git");
    assert_eq!(info.provider, HostingProviderKind::Gitlab);
    assert_eq!(info.owner, "owner");
    assert_eq!(info.repo, "repo");
    assert_eq!(info.url, "https://gitlab.com/owner/repo");
}

#[test]
fn detects_gitlab_ssh() {
    let info = detect_from_remote_url("git@gitlab.com:owner/repo.git");
    assert_eq!(info.provider, HostingProviderKind::Gitlab);
    assert_eq!(info.owner, "owner");
    assert_eq!(info.repo, "repo");
    assert_eq!(info.url, "https://gitlab.com/owner/repo");
}

#[test]
fn returns_unknown_for_unrecognized_url() {
    let info = detect_from_remote_url("https://bitbucket.org/owner/repo.git");
    assert_eq!(info.provider, HostingProviderKind::Unknown);
}

#[test]
fn handles_empty_url() {
    let info = detect_from_remote_url("");
    assert_eq!(info.provider, HostingProviderKind::Unknown);
}

#[test]
fn handles_whitespace_trimming() {
    let info = detect_from_remote_url("  https://github.com/owner/repo.git  ");
    assert_eq!(info.provider, HostingProviderKind::Github);
    assert_eq!(info.owner, "owner");
    assert_eq!(info.repo, "repo");
}
