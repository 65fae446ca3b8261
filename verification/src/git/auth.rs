//! Credentials: how often they are asked for, in which order the sources
//! are tried, and what the credential helper is asked and answers.

use vstd::prelude::*;
use crate::text::convert::{chars_of, push_str, slice_chars, string_of};
use crate::text::lines::{lines, split_lines, texts};
use crate::text::search::{find_char, find_from, starts_with, starts_with_str};

verus! {

/// How often credentials are handed out for one transfer.
pub const MAX_RETRIES: usize = 3;

/// Whether credentials are handed out once more, after `attempts` times.
pub fn attempt_allowed(attempts: usize) -> (r: Result<(), String>)
    ensures
        attempts < MAX_RETRIES ==> r is Ok,
        attempts >= MAX_RETRIES ==> (r matches Err(m) && m@
            == "authentication failed after maximum retries"@),
{
    if attempts >= MAX_RETRIES {
        Err(string_of(&chars_of("authentication failed after maximum retries")))
    } else {
        Ok(())
    }
}

/// A source of credentials.
#[derive(Debug, Clone, Copy, PartialEq, Eq, Structural)]
pub enum CredentialSource {
    /// A key held by the agent.
    SshAgent,
    /// The key file `id_ed25519`.
    KeyEd25519,
    /// The key file `id_rsa`.
    KeyRsa,
    /// A token from the environment.
    Token,
    /// The credential helper.
    Helper,
    /// What the library takes by default.
    Default,
}

/// The sources to try, in this order, for what the remote allows: for keys
/// the agent, then the two key files; for a name and a password a token,
/// then the helper; and the default at the end.
pub open spec fn sources_for(allows_ssh_key: bool, allows_user_pass: bool) -> Seq<CredentialSource> {
    (if allows_ssh_key {
        seq![CredentialSource::SshAgent, CredentialSource::KeyEd25519, CredentialSource::KeyRsa]
    } else {
        Seq::empty()
    }) + (if allows_user_pass {
        seq![CredentialSource::Token, CredentialSource::Helper]
    } else {
        Seq::empty()
    }) + seq![CredentialSource::Default]
}

/// The sources of credentials to try, in order.
pub fn credential_sources(allows_ssh_key: bool, allows_user_pass: bool) -> (sources: Vec<
    CredentialSource,
>)
    ensures
        sources@ == sources_for(allows_ssh_key, allows_user_pass),
{
    let mut sources: Vec<CredentialSource> = Vec::new();
    if allows_ssh_key {
        sources.push(CredentialSource::SshAgent);
        sources.push(CredentialSource::KeyEd25519);
        sources.push(CredentialSource::KeyRsa);
    }
    if allows_user_pass {
        sources.push(CredentialSource::Token);
        sources.push(CredentialSource::Helper);
    }
    sources.push(CredentialSource::Default);
    assert(sources@ =~= sources_for(allows_ssh_key, allows_user_pass));
    sources
}

/// What stands before the first slash.
pub open spec fn host_of(rest: Seq<char>) -> Seq<char> {
    rest.subrange(0, find_from(rest, '/', 0))
}

/// The protocol and the host of an address: for an address that begins with
/// `https://` or `http://` that protocol and what follows up to the first
/// slash; for any other `https` and the address as it is.
pub open spec fn url_parts(url: Seq<char>) -> (Seq<char>, Seq<char>) {
    if starts_with(url, "https://"@) {
        ("https"@, host_of(url.subrange("https://"@.len() as int, url.len() as int)))
    } else if starts_with(url, "http://"@) {
        ("http"@, host_of(url.subrange("http://"@.len() as int, url.len() as int)))
    } else {
        ("https"@, url)
    }
}

fn host_after(url: &Vec<char>, prefix: &str) -> (host: String)
    requires
        starts_with(url@, prefix@),
    ensures
        host@ == host_of(url@.subrange(prefix@.len() as int, url@.len() as int)),
{
    let p = chars_of(prefix);
    let rest = slice_chars(url, p.len(), url.len());
    let k = find_char(&rest, '/', 0);
    string_of(&slice_chars(&rest, 0, k))
}

/// Parts an address into its protocol and its host.
pub fn parse_url_parts(url: &str) -> (r: (String, String))
    ensures
        r.0@ == url_parts(url@).0,
        r.1@ == url_parts(url@).1,
{
    let chars = chars_of(url);
    if starts_with_str(&chars, "https://") {
        (string_of(&chars_of("https")), host_after(&chars, "https://"))
    } else if starts_with_str(&chars, "http://") {
        (string_of(&chars_of("http")), host_after(&chars, "http://"))
    } else {
        (string_of(&chars_of("https")), string_of(&chars))
    }
}

/// What the credential helper is asked: the protocol, the host and the user
/// name, each on a line of its own, and an empty line.
pub open spec fn helper_request_text(
    protocol: Seq<char>,
    host: Seq<char>,
    username: Seq<char>,
) -> Seq<char> {
    "protocol="@ + protocol + "\n"@ + "host="@ + host + "\n"@ + "username="@ + username + "\n"@
        + "\n"@
}

/// What the credential helper is asked for an address and a user name.
pub fn helper_request(url: &str, username: &str) -> (out: String)
    ensures
        out@ == helper_request_text(url_parts(url@).0, url_parts(url@).1, username@),
{
    let (protocol, host) = parse_url_parts(url);
    let mut text: Vec<char> = Vec::new();
    push_str(&mut text, "protocol=");
    push_str(&mut text, protocol.as_str());
    push_str(&mut text, "\n");
    push_str(&mut text, "host=");
    push_str(&mut text, host.as_str());
    push_str(&mut text, "\n");
    push_str(&mut text, "username=");
    push_str(&mut text, username);
    push_str(&mut text, "\n");
    push_str(&mut text, "\n");
    assert(text@ =~= helper_request_text(url_parts(url@).0, url_parts(url@).1, username@));
    string_of(&text)
}

/// The index of the first line at or after `from` that begins with
/// `password=`, or the number of lines where there is none.
pub open spec fn password_line(ls: Seq<Seq<char>>, from: int) -> int
    decreases ls.len() - from,
{
    if from < 0 || from >= ls.len() {
        ls.len() as int
    } else if starts_with(ls[from], "password="@) {
        from
    } else {
        password_line(ls, from + 1)
    }
}

/// The password in the answer of the credential helper: what follows
/// `password=` on the first line that begins with it.
pub open spec fn helper_password(answer: Seq<char>) -> Option<Seq<char>> {
    let ls = lines(answer);
    let at = password_line(ls, 0);
    if 0 <= at < ls.len() {
        Some(ls[at].subrange("password="@.len() as int, ls[at].len() as int))
    } else {
        None
    }
}

/// Reads the password from the answer of the credential helper.
pub fn parse_helper_password(answer: &str) -> (r: Option<String>)
    ensures
        r.deep_view() == helper_password(answer@),
{
    let ls = split_lines(&chars_of(answer));
    let ghost tl = texts(ls@);
    let mut i: usize = 0;
    while i < ls.len()
        invariant
            i <= ls.len(),
            tl == texts(ls@),
            tl == lines(answer@),
            password_line(tl, 0) == password_line(tl, i as int),
        decreases ls.len() - i,
    {
        if starts_with_str(&ls[i], "password=") {
            let p = chars_of("password=");
            return Some(string_of(&slice_chars(&ls[i], p.len(), ls[i].len())));
        }
        i += 1;
    }
    None
}

} // verus!
