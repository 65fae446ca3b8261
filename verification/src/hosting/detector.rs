//! Telling the hosting provider from the address of a remote.

use vstd::prelude::*;
use crate::hosting::types::{HostingInfo, HostingInfoView, HostingProviderKind};
use crate::text::convert::{chars_of, push_chars, push_str, slice_chars, string_of};
use crate::text::search::{ends_with, ends_with_str, find_char, find_from, starts_with};
use crate::text::trim::{chars_trim, trim};

verus! {

/// An address without the whitespace around it and without `.git` at its
/// end.
pub open spec fn normalized(url: Seq<char>) -> Seq<char> {
    let t = trim(url);
    if ends_with(t, ".git"@) {
        t.subrange(0, t.len() - ".git"@.len())
    } else {
        t
    }
}

fn normalize_chars(url: &Vec<char>) -> (out: Vec<char>)
    ensures
        out@ == normalized(url@),
{
    let t = chars_trim(url);
    if ends_with_str(&t, ".git") {
        let suffix = chars_of(".git");
        slice_chars(&t, 0, t.len() - suffix.len())
    } else {
        t
    }
}

/// Takes the whitespace around an address and `.git` at its end away.
pub fn normalize_url(url: &str) -> (out: String)
    ensures
        out@ == normalized(url@),
{
    string_of(&normalize_chars(&chars_of(url)))
}

/// The address of the site of a provider, or nothing for an unknown one.
pub open spec fn provider_base(provider: HostingProviderKind) -> Seq<char> {
    match provider {
        HostingProviderKind::Github => "https://github.com"@,
        HostingProviderKind::Gitlab => "https://gitlab.com"@,
        HostingProviderKind::Unknown => Seq::empty(),
    }
}

/// The repository that a path of the form `owner/repo` names at a provider:
/// the owner is what stands before the first slash, the repository what
/// follows it, and neither is empty. Its address is that of the provider's
/// site with the owner and the repository after it; for an unknown provider
/// it is the address that was given.
pub open spec fn owner_repo(
    path: Seq<char>,
    provider: HostingProviderKind,
    original_url: Seq<char>,
) -> Option<HostingInfoView> {
    let slash = find_from(path, '/', 0);
    if 0 < slash && slash + 1 < path.len() {
        let owner = path.subrange(0, slash);
        let repo = path.subrange(slash + 1, path.len() as int);
        Some(
            HostingInfoView {
                provider,
                owner,
                repo,
                url: if provider_base(provider).len() == 0 {
                    original_url
                } else {
                    provider_base(provider) + "/"@ + owner + "/"@ + repo
                },
            },
        )
    } else {
        None
    }
}

fn owner_repo_chars(path: &Vec<char>, provider: HostingProviderKind, original_url: &Vec<char>) -> (r:
    Option<HostingInfo>)
    ensures
        r.deep_view() == owner_repo(path@, provider, original_url@),
{
    let slash = find_char(path, '/', 0);
    if slash == 0 || slash >= path.len() || slash + 1 >= path.len() {
        return None;
    }
    let owner = slice_chars(path, 0, slash);
    let repo = slice_chars(path, slash + 1, path.len());
    let base = match provider {
        HostingProviderKind::Github => chars_of("https://github.com"),
        HostingProviderKind::Gitlab => chars_of("https://gitlab.com"),
        HostingProviderKind::Unknown => Vec::new(),
    };
    let mut url: Vec<char> = Vec::new();
    if base.len() == 0 {
        push_chars(&mut url, original_url);
    } else {
        push_chars(&mut url, &base);
        push_str(&mut url, "/");
        push_chars(&mut url, &owner);
        push_str(&mut url, "/");
        push_chars(&mut url, &repo);
    }
    Some(
        HostingInfo {
            provider,
            owner: string_of(&owner),
            repo: string_of(&repo),
            url: string_of(&url),
        },
    )
}

/// Reads the owner and the repository from a path of the form `owner/repo`.
pub fn parse_owner_repo(path: &str, provider: HostingProviderKind, original_url: &str) -> (r:
    Option<HostingInfo>)
    ensures
        r.deep_view() == owner_repo(path@, provider, original_url@),
{
    owner_repo_chars(&chars_of(path), provider, &chars_of(original_url))
}

/// `url` without `prefix`, where it begins with it.
pub open spec fn after_prefix(url: Seq<char>, prefix: Seq<char>) -> Option<Seq<char>> {
    if starts_with(url, prefix) {
        Some(url.subrange(prefix.len() as int, url.len() as int))
    } else {
        None
    }
}

/// The repository at the site `host` (such as `github.com`) that a
/// normalized address names: the address is `git@<host>:owner/repo`,
/// `https://<host>/owner/repo` or `http://<host>/owner/repo`.
pub open spec fn at_site(url: Seq<char>, host: Seq<char>, provider: HostingProviderKind) -> Option<
    HostingInfoView,
> {
    match after_prefix(url, "git@"@ + host + ":"@) {
        Some(rest) => owner_repo(rest, provider, url),
        None => match after_prefix(url, "https://"@ + host + "/"@) {
            Some(rest) => owner_repo(rest, provider, url),
            None => match after_prefix(url, "http://"@ + host + "/"@) {
                Some(rest) => owner_repo(rest, provider, url),
                None => None,
            },
        },
    }
}

fn strip_prefix_chars(url: &Vec<char>, a: &str, host: &str, b: &str) -> (r: Option<Vec<char>>)
    ensures
        match r {
            Some(rest) => after_prefix(url@, a@ + host@ + b@) == Some(rest@),
            None => after_prefix(url@, a@ + host@ + b@) is None,
        },
{
    let mut prefix: Vec<char> = Vec::new();
    push_str(&mut prefix, a);
    push_str(&mut prefix, host);
    push_str(&mut prefix, b);
    assert(prefix@ =~= a@ + host@ + b@);
    if crate::text::search::chars_start_with(url, &prefix) {
        Some(slice_chars(url, prefix.len(), url.len()))
    } else {
        None
    }
}

fn parse_site(url: &Vec<char>, host: &str, provider: HostingProviderKind) -> (r: Option<HostingInfo>)
    ensures
        r.deep_view() == at_site(url@, host@, provider),
{
    if let Some(rest) = strip_prefix_chars(url, "git@", host, ":") {
        return owner_repo_chars(&rest, provider, url);
    }
    if let Some(rest) = strip_prefix_chars(url, "https://", host, "/") {
        return owner_repo_chars(&rest, provider, url);
    }
    if let Some(rest) = strip_prefix_chars(url, "http://", host, "/") {
        return owner_repo_chars(&rest, provider, url);
    }
    None
}

/// The repository at GitHub that a normalized address names.
pub fn parse_github(url: &str) -> (r: Option<HostingInfo>)
    ensures
        r.deep_view() == at_site(url@, "github.com"@, HostingProviderKind::Github),
{
    parse_site(&chars_of(url), "github.com", HostingProviderKind::Github)
}

/// The repository at GitLab that a normalized address names.
pub fn parse_gitlab(url: &str) -> (r: Option<HostingInfo>)
    ensures
        r.deep_view() == at_site(url@, "gitlab.com"@, HostingProviderKind::Gitlab),
{
    parse_site(&chars_of(url), "gitlab.com", HostingProviderKind::Gitlab)
}

/// What the address of a remote tells of its hosting: the repository at
/// GitHub, else at GitLab, that the normalized address names; else an
/// unknown provider, no owner, no repository, and the address as given.
pub open spec fn hosting_of(url: Seq<char>) -> HostingInfoView {
    let n = normalized(url);
    match at_site(n, "github.com"@, HostingProviderKind::Github) {
        Some(info) => info,
        None => match at_site(n, "gitlab.com"@, HostingProviderKind::Gitlab) {
            Some(info) => info,
            None => HostingInfoView {
                provider: HostingProviderKind::Unknown,
                owner: Seq::empty(),
                repo: Seq::empty(),
                url,
            },
        },
    }
}

/// Tells the hosting of a repository from the address of its remote.
pub fn detect_from_remote_url(url: &str) -> (info: HostingInfo)
    ensures
        info.deep_view() == hosting_of(url@),
{
    let chars = chars_of(url);
    let n = normalize_chars(&chars);
    if let Some(info) = parse_site(&n, "github.com", HostingProviderKind::Github) {
        return info;
    }
    if let Some(info) = parse_site(&n, "gitlab.com", HostingProviderKind::Gitlab) {
        return info;
    }
    HostingInfo {
        provider: HostingProviderKind::Unknown,
        owner: String::new(),
        repo: String::new(),
        url: string_of(&chars),
    }
}

} // verus!
