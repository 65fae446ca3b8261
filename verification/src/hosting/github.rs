//! Reading what the command-line client of GitHub prints.

use vstd::prelude::*;
use crate::hosting::json::{
    as_flag,
    as_items,
    as_number,
    as_text,
    items_of,
    json_array,
    json_bool,
    json_field,
    json_of,
    json_parse,
    json_parse_list,
    json_str,
    json_u64,
    member,
    number_at,
    number_field,
    parsed_json,
    parsed_json_list,
    text_at,
    text_field,
    JsonView,
};
use crate::hosting::types::{
    CheckStatus,
    CiCheck,
    CiCheckView,
    Issue,
    IssueState,
    IssueView,
    PrDetail,
    PrDetailView,
    PrLabel,
    PrLabelView,
    PrState,
    PullRequest,
    PullRequestView,
    ReviewState,
    Reviewer,
    ReviewerView,
};
use crate::text::convert::{chars_of, push_str, str_eq, string_of};
use crate::text::trim::{chars_trim, trim};

verus! {

/// The label that a value describes.
pub open spec fn label_of(j: JsonView) -> PrLabelView {
    PrLabelView { name: text_at(j, "name"@), color: text_at(j, "color"@) }
}

/// The labels that a value lists, or none where it is no array.
pub open spec fn labels_of(j: JsonView) -> Seq<PrLabelView> {
    match as_items(j) {
        Some(items) => Seq::new(items.len(), |i: int| label_of(items[i])),
        None => Seq::empty(),
    }
}

/// The login of the author of a value.
pub open spec fn author_of(j: JsonView) -> Seq<char> {
    text_at(member(j, "author"@), "login"@)
}

/// The state of a pull request: closed, merged, or else open.
pub open spec fn pr_state_of(j: JsonView) -> PrState {
    let state = text_at(j, "state"@);
    if state == "CLOSED"@ {
        PrState::Closed
    } else if state == "MERGED"@ {
        PrState::Merged
    } else {
        PrState::Open
    }
}

/// The state of an issue: closed, or else open.
pub open spec fn issue_state_of(j: JsonView) -> IssueState {
    if text_at(j, "state"@) == "CLOSED"@ {
        IssueState::Closed
    } else {
        IssueState::Open
    }
}

/// The field that a pull request or an issue must have and lacks, if any:
/// the first of its number, its title and its address.
pub open spec fn missing_field(j: JsonView) -> Option<Seq<char>> {
    if as_number(member(j, "number"@)) is None {
        Some("missing field: number"@)
    } else if as_text(member(j, "title"@)) is None {
        Some("missing field: title"@)
    } else if as_text(member(j, "url"@)) is None {
        Some("missing field: url"@)
    } else {
        None
    }
}

/// The pull request that a value describes. Fields that are missing, but
/// for the three that must be there, are empty, 0 or false, and a state
/// that is not known is open.
pub open spec fn pull_request_of(j: JsonView) -> PullRequestView {
    PullRequestView {
        number: number_at(j, "number"@),
        title: text_at(j, "title"@),
        state: pr_state_of(j),
        author: author_of(j),
        created_at: text_at(j, "createdAt"@),
        updated_at: text_at(j, "updatedAt"@),
        head_branch: text_at(j, "headRefName"@),
        base_branch: text_at(j, "baseRefName"@),
        draft: as_flag(member(j, "isDraft"@)) == Some(true),
        labels: labels_of(member(j, "labels"@)),
        additions: number_at(j, "additions"@),
        deletions: number_at(j, "deletions"@),
        changed_files: number_at(j, "changedFiles"@),
        body: text_at(j, "body"@),
        url: text_at(j, "url"@),
    }
}

/// The issue that a value describes.
pub open spec fn issue_of(j: JsonView) -> IssueView {
    IssueView {
        number: number_at(j, "number"@),
        title: text_at(j, "title"@),
        state: issue_state_of(j),
        author: author_of(j),
        created_at: text_at(j, "createdAt"@),
        labels: labels_of(member(j, "labels"@)),
        url: text_at(j, "url"@),
    }
}

/// The status of a check: by its conclusion where that is success or
/// failure, else running where it is in progress, else pending.
pub open spec fn check_status_of(j: JsonView) -> CheckStatus {
    if text_at(j, "conclusion"@) == "SUCCESS"@ {
        CheckStatus::Success
    } else if text_at(j, "conclusion"@) == "FAILURE"@ {
        CheckStatus::Failure
    } else if text_at(j, "status"@) == "IN_PROGRESS"@ {
        CheckStatus::Running
    } else {
        CheckStatus::Pending
    }
}

/// The check that a value describes.
pub open spec fn check_of(j: JsonView) -> CiCheckView {
    CiCheckView {
        name: text_at(j, "name"@),
        status: check_status_of(j),
        description: text_at(j, "description"@),
        elapsed: Seq::empty(),
        url: text_at(j, "detailsUrl"@),
    }
}

/// The checks that the description of a pull request lists.
pub open spec fn checks_of(j: JsonView) -> Seq<CiCheckView> {
    match as_items(member(j, "statusCheckRollup"@)) {
        Some(items) => Seq::new(items.len(), |i: int| check_of(items[i])),
        None => Seq::empty(),
    }
}

/// The state of a review: approved, changes requested, commented, or else
/// pending.
pub open spec fn review_state_of(j: JsonView) -> ReviewState {
    let state = text_at(j, "state"@);
    if state == "APPROVED"@ {
        ReviewState::Approved
    } else if state == "CHANGES_REQUESTED"@ {
        ReviewState::ChangesRequested
    } else if state == "COMMENTED"@ {
        ReviewState::Commented
    } else {
        ReviewState::Pending
    }
}

/// Who looked at a pull request, and with what outcome, as a value
/// describes it.
pub open spec fn reviewer_of(j: JsonView) -> ReviewerView {
    ReviewerView { login: author_of(j), state: review_state_of(j) }
}

/// Those who looked at a pull request, as its description lists them.
pub open spec fn reviewers_of(j: JsonView) -> Seq<ReviewerView> {
    match as_items(member(j, "reviews"@)) {
        Some(items) => Seq::new(items.len(), |i: int| reviewer_of(items[i])),
        None => Seq::empty(),
    }
}

fn field_is(v: &serde_json::Value, key: &str, expected: &str) -> (r: bool)
    ensures
        r == (text_at(json_of(*v), key@) == expected@),
{
    let text = text_field(v, key);
    str_eq(expected, &chars_of(text.as_str()))
}

fn author_login(v: &serde_json::Value) -> (out: String)
    ensures
        out@ == author_of(json_of(*v)),
{
    text_field(json_field(v, "author"), "login")
}

pub(crate) fn map_labels(labels: &serde_json::Value) -> (out: Vec<PrLabel>)
    ensures
        out.deep_view() == labels_of(json_of(*labels)),
{
    let mut out: Vec<PrLabel> = Vec::new();
    match json_array(labels) {
        Some(items) => {
            let mut i: usize = 0;
            while i < items.len()
                invariant
                    i <= items.len(),
                    out.len() == i,
                    forall|k: int|
                        0 <= k < i ==> #[trigger] out@[k].deep_view() == label_of(
                            json_of(items@[k]),
                        ),
                decreases items.len() - i,
            {
                out.push(
                    PrLabel {
                        name: text_field(&items[i], "name"),
                        color: text_field(&items[i], "color"),
                    },
                );
                i += 1;
            }
            assert(out.deep_view() =~= labels_of(json_of(*labels)));
        },
        None => {
            assert(out.deep_view() =~= labels_of(json_of(*labels)));
        },
    }
    out
}

fn check_required(v: &serde_json::Value) -> (r: Result<(), String>)
    ensures
        match r {
            Ok(_) => missing_field(json_of(*v)) is None,
            Err(e) => missing_field(json_of(*v)) == Some(e@),
        },
{
    if json_u64(json_field(v, "number")).is_none() {
        return Err(string_of(&chars_of("missing field: number")));
    }
    if json_str(json_field(v, "title")).is_none() {
        return Err(string_of(&chars_of("missing field: title")));
    }
    if json_str(json_field(v, "url")).is_none() {
        return Err(string_of(&chars_of("missing field: url")));
    }
    Ok(())
}

pub(crate) fn map_pr_from_gh_json(v: &serde_json::Value) -> (r: Result<PullRequest, String>)
    ensures
        match r {
            Ok(pr) => missing_field(json_of(*v)) is None && pr.deep_view() == pull_request_of(
                json_of(*v),
            ),
            Err(e) => missing_field(json_of(*v)) == Some(e@),
        },
{
    match check_required(v) {
        Err(e) => {
            return Err(e);
        },
        Ok(_) => {},
    }
    let state = if field_is(v, "state", "CLOSED") {
        PrState::Closed
    } else if field_is(v, "state", "MERGED") {
        PrState::Merged
    } else {
        PrState::Open
    };
    let draft = match json_bool(json_field(v, "isDraft")) {
        Some(b) => b,
        None => false,
    };
    Ok(
        PullRequest {
            number: number_field(v, "number"),
            title: text_field(v, "title"),
            state,
            author: author_login(v),
            created_at: text_field(v, "createdAt"),
            updated_at: text_field(v, "updatedAt"),
            head_branch: text_field(v, "headRefName"),
            base_branch: text_field(v, "baseRefName"),
            draft,
            labels: map_labels(json_field(v, "labels")),
            additions: number_field(v, "additions"),
            deletions: number_field(v, "deletions"),
            changed_files: number_field(v, "changedFiles"),
            body: text_field(v, "body"),
            url: text_field(v, "url"),
        },
    )
}

fn map_issue(v: &serde_json::Value) -> (r: Result<Issue, String>)
    ensures
        match r {
            Ok(issue) => missing_field(json_of(*v)) is None && issue.deep_view() == issue_of(
                json_of(*v),
            ),
            Err(e) => missing_field(json_of(*v)) == Some(e@),
        },
{
    match check_required(v) {
        Err(e) => {
            return Err(e);
        },
        Ok(_) => {},
    }
    let state = if field_is(v, "state", "CLOSED") {
        IssueState::Closed
    } else {
        IssueState::Open
    };
    Ok(
        Issue {
            number: number_field(v, "number"),
            title: text_field(v, "title"),
            state,
            author: author_login(v),
            created_at: text_field(v, "createdAt"),
            labels: map_labels(json_field(v, "labels")),
            url: text_field(v, "url"),
        },
    )
}

pub(crate) fn map_checks_from_gh_json(v: &serde_json::Value) -> (out: Vec<CiCheck>)
    ensures
        out.deep_view() == checks_of(json_of(*v)),
{
    let mut out: Vec<CiCheck> = Vec::new();
    match json_array(json_field(v, "statusCheckRollup")) {
        Some(items) => {
            let mut i: usize = 0;
            while i < items.len()
                invariant
                    i <= items.len(),
                    out.len() == i,
                    forall|k: int|
                        0 <= k < i ==> #[trigger] out@[k].deep_view() == check_of(
                            json_of(items@[k]),
                        ),
                decreases items.len() - i,
            {
                let c = &items[i];
                let status = if field_is(c, "conclusion", "SUCCESS") {
                    CheckStatus::Success
                } else if field_is(c, "conclusion", "FAILURE") {
                    CheckStatus::Failure
                } else if field_is(c, "status", "IN_PROGRESS") {
                    CheckStatus::Running
                } else {
                    CheckStatus::Pending
                };
                out.push(
                    CiCheck {
                        name: text_field(c, "name"),
                        status,
                        description: text_field(c, "description"),
                        elapsed: String::new(),
                        url: text_field(c, "detailsUrl"),
                    },
                );
                i += 1;
            }
            assert(out.deep_view() =~= checks_of(json_of(*v)));
        },
        None => {
            assert(out.deep_view() =~= checks_of(json_of(*v)));
        },
    }
    out
}

pub(crate) fn map_reviewers_from_gh_json(v: &serde_json::Value) -> (out: Vec<Reviewer>)
    ensures
        out.deep_view() == reviewers_of(json_of(*v)),
{
    let mut out: Vec<Reviewer> = Vec::new();
    match json_array(json_field(v, "reviews")) {
        Some(items) => {
            let mut i: usize = 0;
            while i < items.len()
                invariant
                    i <= items.len(),
                    out.len() == i,
                    forall|k: int|
                        0 <= k < i ==> #[trigger] out@[k].deep_view() == reviewer_of(
                            json_of(items@[k]),
                        ),
                decreases items.len() - i,
            {
                let r = &items[i];
                let state = if field_is(r, "state", "APPROVED") {
                    ReviewState::Approved
                } else if field_is(r, "state", "CHANGES_REQUESTED") {
                    ReviewState::ChangesRequested
                } else if field_is(r, "state", "COMMENTED") {
                    ReviewState::Commented
                } else {
                    ReviewState::Pending
                };
                out.push(Reviewer { login: author_login(r), state });
                i += 1;
            }
            assert(out.deep_view() =~= reviewers_of(json_of(*v)));
        },
        None => {
            assert(out.deep_view() =~= reviewers_of(json_of(*v)));
        },
    }
    out
}

/// The message for a text that is no JSON.
pub open spec fn parse_failure_text(cause: Seq<char>) -> Seq<char> {
    "failed to parse JSON: "@ + cause
}

fn parse_failure(cause: &str) -> (out: String)
    ensures
        out@ == parse_failure_text(cause@),
{
    let mut text: Vec<char> = Vec::new();
    push_str(&mut text, "failed to parse JSON: ");
    push_str(&mut text, cause);
    string_of(&text)
}

/// The index of the first item at or after `from` that lacks a field it
/// must have, or the number of items where none does.
pub open spec fn first_incomplete(items: Seq<JsonView>, from: int) -> int
    decreases items.len() - from,
{
    if from < 0 || from >= items.len() {
        items.len() as int
    } else if missing_field(items[from]) is Some {
        from
    } else {
        first_incomplete(items, from + 1)
    }
}

/// The pull requests that a list of values describes, or the field that the
/// first incomplete one lacks.
pub open spec fn pull_requests_of(items: Seq<JsonView>) -> Result<Seq<PullRequestView>, Seq<char>> {
    let at = first_incomplete(items, 0);
    if 0 <= at < items.len() {
        Err(missing_field(items[at])->0)
    } else {
        Ok(Seq::new(items.len(), |i: int| pull_request_of(items[i])))
    }
}

/// The issues that a list of values describes, or the field that the first
/// incomplete one lacks.
pub open spec fn issues_of(items: Seq<JsonView>) -> Result<Seq<IssueView>, Seq<char>> {
    let at = first_incomplete(items, 0);
    if 0 <= at < items.len() {
        Err(missing_field(items[at])->0)
    } else {
        Ok(Seq::new(items.len(), |i: int| issue_of(items[i])))
    }
}

/// What a listing of pull requests reads as.
pub open spec fn pr_list_of(text: Seq<char>) -> Result<Seq<PullRequestView>, Seq<char>> {
    match parsed_json_list(text) {
        Ok(items) => pull_requests_of(items),
        Err(cause) => Err(parse_failure_text(cause)),
    }
}

/// What a listing of issues reads as.
pub open spec fn issue_list_of(text: Seq<char>) -> Result<Seq<IssueView>, Seq<char>> {
    match parsed_json_list(text) {
        Ok(items) => issues_of(items),
        Err(cause) => Err(parse_failure_text(cause)),
    }
}

/// What the description of one pull request reads as.
pub open spec fn pr_detail_of(text: Seq<char>) -> Result<PrDetailView, Seq<char>> {
    match parsed_json(text) {
        Ok(j) => match missing_field(j) {
            Some(field) => Err(field),
            None => Ok(
                PrDetailView {
                    pull_request: pull_request_of(j),
                    checks: checks_of(j),
                    reviewers: reviewers_of(j),
                },
            ),
        },
        Err(cause) => Err(parse_failure_text(cause)),
    }
}

/// Whether a result holds what the model of it says.
pub open spec fn agrees<T: DeepView>(r: Result<T, String>, model: Result<T::V, Seq<char>>) -> bool {
    match r {
        Ok(v) => model == Ok::<T::V, Seq<char>>(v.deep_view()),
        Err(e) => model == Err::<T::V, Seq<char>>(e@),
    }
}

/// Reads the pull requests of a listing.
pub fn parse_pr_list_json(json: &str) -> (r: Result<Vec<PullRequest>, String>)
    ensures
        agrees(r, pr_list_of(json@)),
{
    let raw = match json_parse_list(json) {
        Ok(items) => items,
        Err(e) => {
            return Err(parse_failure(e.as_str()));
        },
    };
    let ghost items = items_of(raw@);
    let mut out: Vec<PullRequest> = Vec::new();
    let mut i: usize = 0;
    while i < raw.len()
        invariant
            i <= raw.len(),
            items == items_of(raw@),
            parsed_json_list(json@) == Ok::<Seq<JsonView>, Seq<char>>(items),
            out.len() == i,
            first_incomplete(items, 0) == first_incomplete(items, i as int),
            forall|k: int| 0 <= k < i ==> #[trigger] out@[k].deep_view() == pull_request_of(items[k]),
        decreases raw.len() - i,
    {
        assert(items[i as int] == json_of(raw@[i as int]));
        match map_pr_from_gh_json(&raw[i]) {
            Ok(pr) => {
                out.push(pr);
            },
            Err(e) => {
                return Err(e);
            },
        }
        i += 1;
    }
    assert(out.deep_view() =~= Seq::new(items.len(), |i: int| pull_request_of(items[i])));
    Ok(out)
}

/// Reads the issues of a listing.
pub fn parse_issue_list_json(json: &str) -> (r: Result<Vec<Issue>, String>)
    ensures
        agrees(r, issue_list_of(json@)),
{
    let raw = match json_parse_list(json) {
        Ok(items) => items,
        Err(e) => {
            return Err(parse_failure(e.as_str()));
        },
    };
    let ghost items = items_of(raw@);
    let mut out: Vec<Issue> = Vec::new();
    let mut i: usize = 0;
    while i < raw.len()
        invariant
            i <= raw.len(),
            items == items_of(raw@),
            parsed_json_list(json@) == Ok::<Seq<JsonView>, Seq<char>>(items),
            out.len() == i,
            first_incomplete(items, 0) == first_incomplete(items, i as int),
            forall|k: int| 0 <= k < i ==> #[trigger] out@[k].deep_view() == issue_of(items[k]),
        decreases raw.len() - i,
    {
        assert(items[i as int] == json_of(raw@[i as int]));
        match map_issue(&raw[i]) {
            Ok(issue) => {
                out.push(issue);
            },
            Err(e) => {
                return Err(e);
            },
        }
        i += 1;
    }
    assert(out.deep_view() =~= Seq::new(items.len(), |i: int| issue_of(items[i])));
    Ok(out)
}

/// Reads the description of one pull request, with its checks and reviews.
pub fn parse_pr_detail_json(json: &str) -> (r: Result<PrDetail, String>)
    ensures
        agrees(r, pr_detail_of(json@)),
{
    let v = match json_parse(json) {
        Ok(v) => v,
        Err(e) => {
            return Err(parse_failure(e.as_str()));
        },
    };
    let pr = match map_pr_from_gh_json(&v) {
        Ok(pr) => pr,
        Err(e) => {
            return Err(e);
        },
    };
    let checks = map_checks_from_gh_json(&v);
    let reviewers = map_reviewers_from_gh_json(&v);
    Ok(PrDetail { pull_request: pr, checks, reviewers })
}

/// The text of the failure of a command of the client.
pub open spec fn command_failure_text(what: Seq<char>, stderr: Seq<char>) -> Seq<char> {
    what + " failed: "@ + stderr
}

fn command_failure(what: &str, stderr: &str) -> (out: String)
    ensures
        out@ == command_failure_text(what@, stderr@),
{
    let mut text: Vec<char> = Vec::new();
    push_str(&mut text, what);
    push_str(&mut text, " failed: ");
    push_str(&mut text, stderr);
    string_of(&text)
}

/// What the listing of pull requests came to.
pub fn list_pull_requests(success: bool, stdout: &str, stderr: &str) -> (r: Result<
    Vec<PullRequest>,
    String,
>)
    ensures
        success ==> agrees(r, pr_list_of(stdout@)),
        !success ==> (r matches Err(e) && e@ == command_failure_text("gh pr list"@, stderr@)),
{
    if !success {
        return Err(command_failure("gh pr list", stderr));
    }
    parse_pr_list_json(stdout)
}

/// What the description of one pull request came to.
pub fn get_pull_request_detail(success: bool, stdout: &str, stderr: &str) -> (r: Result<
    PrDetail,
    String,
>)
    ensures
        success ==> agrees(r, pr_detail_of(stdout@)),
        !success ==> (r matches Err(e) && e@ == command_failure_text("gh pr view"@, stderr@)),
{
    if !success {
        return Err(command_failure("gh pr view", stderr));
    }
    parse_pr_detail_json(stdout)
}

/// What the listing of issues came to.
pub fn list_issues(success: bool, stdout: &str, stderr: &str) -> (r: Result<Vec<Issue>, String>)
    ensures
        success ==> agrees(r, issue_list_of(stdout@)),
        !success ==> (r matches Err(e) && e@ == command_failure_text("gh issue list"@, stderr@)),
{
    if !success {
        return Err(command_failure("gh issue list", stderr));
    }
    parse_issue_list_json(stdout)
}

/// The default branch, from what the client printed: the output without
/// the whitespace around it, which must not be empty.
pub fn get_default_branch(success: bool, stdout: &str, stderr: &str) -> (r: Result<String, String>)
    ensures
        !success ==> (r matches Err(e) && e@ == command_failure_text("gh repo view"@, stderr@)),
        success && trim(stdout@).len() == 0 ==> (r matches Err(e) && e@
            == "default branch not found"@),
        success && trim(stdout@).len() > 0 ==> (r matches Ok(b) && b@ == trim(stdout@)),
{
    if !success {
        return Err(command_failure("gh repo view", stderr));
    }
    let branch = chars_trim(&chars_of(stdout));
    if branch.len() == 0 {
        return Err(string_of(&chars_of("default branch not found")));
    }
    Ok(string_of(&branch))
}

/// The address of the page that compares `head` with `base`.
pub open spec fn compare_url(repo_url: Seq<char>, head: Seq<char>, base: Seq<char>) -> Seq<char> {
    repo_url + "/compare/"@ + base + "..."@ + head + "?expand=1"@
}

/// The address of the page on which a pull request is opened, from the
/// address of the repository that the client printed.
pub fn create_pull_request_url(success: bool, stdout: &str, stderr: &str, head: &str, base: &str) -> (r:
    Result<String, String>)
    ensures
        success ==> (r matches Ok(url) && url@ == compare_url(trim(stdout@), head@, base@)),
        !success ==> (r matches Err(e) && e@ == command_failure_text("gh browse"@, stderr@)),
{
    if !success {
        return Err(command_failure("gh browse", stderr));
    }
    let mut text = chars_trim(&chars_of(stdout));
    push_str(&mut text, "/compare/");
    push_str(&mut text, base);
    push_str(&mut text, "...");
    push_str(&mut text, head);
    push_str(&mut text, "?expand=1");
    assert(text@ =~= compare_url(trim(stdout@), head@, base@));
    Ok(string_of(&text))
}

} // verus!
