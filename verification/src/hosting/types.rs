//! The values that describe a hosted repository.

use vstd::prelude::*;

verus! {

/// The hosting providers that are told apart.
#[derive(Debug, Clone, Copy, PartialEq, Eq, Structural)]
pub enum HostingProviderKind {
    Github,
    Gitlab,
    Unknown,
}

/// Where a repository is hosted.
#[derive(Debug, Clone)]
pub struct HostingInfo {
    pub provider: HostingProviderKind,
    pub owner: String,
    pub repo: String,
    pub url: String,
}

/// The hosting of a repository, as values.
pub struct HostingInfoView {
    pub provider: HostingProviderKind,
    pub owner: Seq<char>,
    pub repo: Seq<char>,
    pub url: Seq<char>,
}

impl DeepView for HostingInfo {
    type V = HostingInfoView;

    open spec fn deep_view(&self) -> HostingInfoView {
        HostingInfoView {
            provider: self.provider,
            owner: self.owner@,
            repo: self.repo@,
            url: self.url@,
        }
    }
}

/// The state of a pull request.
#[derive(Debug, Clone, Copy, PartialEq, Eq, Structural)]
pub enum PrState {
    Open,
    Closed,
    Merged,
}

/// A label.
#[derive(Debug, Clone)]
pub struct PrLabel {
    pub name: String,
    pub color: String,
}

/// A pull request.
#[derive(Debug, Clone)]
pub struct PullRequest {
    pub number: u64,
    pub title: String,
    pub state: PrState,
    pub author: String,
    pub created_at: String,
    pub updated_at: String,
    pub head_branch: String,
    pub base_branch: String,
    pub draft: bool,
    pub labels: Vec<PrLabel>,
    pub additions: u64,
    pub deletions: u64,
    pub changed_files: u64,
    pub body: String,
    pub url: String,
}

/// The state of an issue.
#[derive(Debug, Clone, Copy, PartialEq, Eq, Structural)]
pub enum IssueState {
    Open,
    Closed,
}

/// An issue.
#[derive(Debug, Clone)]
pub struct Issue {
    pub number: u64,
    pub title: String,
    pub state: IssueState,
    pub author: String,
    pub created_at: String,
    pub labels: Vec<PrLabel>,
    pub url: String,
}

/// The state of a check.
#[derive(Debug, Clone, Copy, PartialEq, Eq, Structural)]
pub enum CheckStatus {
    Success,
    Failure,
    Pending,
    Running,
}

/// A check that runs on a pull request.
#[derive(Debug, Clone)]
pub struct CiCheck {
    pub name: String,
    pub status: CheckStatus,
    pub description: String,
    pub elapsed: String,
    pub url: String,
}

/// A pull request with its checks and with those who looked at it.
#[derive(Debug, Clone)]
pub struct PrDetail {
    pub pull_request: PullRequest,
    pub checks: Vec<CiCheck>,
    pub reviewers: Vec<Reviewer>,
}

/// The state of a review.
#[derive(Debug, Clone, Copy, PartialEq, Eq, Structural)]
pub enum ReviewState {
    Approved,
    ChangesRequested,
    Pending,
    Commented,
}

/// Someone who looked at a pull request, and the outcome.
#[derive(Debug, Clone)]
pub struct Reviewer {
    pub login: String,
    pub state: ReviewState,
}

/// A label, as values.
pub struct PrLabelView {
    pub name: Seq<char>,
    pub color: Seq<char>,
}

impl DeepView for PrLabel {
    type V = PrLabelView;

    open spec fn deep_view(&self) -> PrLabelView {
        PrLabelView { name: self.name@, color: self.color@ }
    }
}

/// A pull request, as values.
pub struct PullRequestView {
    pub number: u64,
    pub title: Seq<char>,
    pub state: PrState,
    pub author: Seq<char>,
    pub created_at: Seq<char>,
    pub updated_at: Seq<char>,
    pub head_branch: Seq<char>,
    pub base_branch: Seq<char>,
    pub draft: bool,
    pub labels: Seq<PrLabelView>,
    pub additions: u64,
    pub deletions: u64,
    pub changed_files: u64,
    pub body: Seq<char>,
    pub url: Seq<char>,
}

impl DeepView for PullRequest {
    type V = PullRequestView;

    open spec fn deep_view(&self) -> PullRequestView {
        PullRequestView {
            number: self.number,
            title: self.title@,
            state: self.state,
            author: self.author@,
            created_at: self.created_at@,
            updated_at: self.updated_at@,
            head_branch: self.head_branch@,
            base_branch: self.base_branch@,
            draft: self.draft,
            labels: self.labels.deep_view(),
            additions: self.additions,
            deletions: self.deletions,
            changed_files: self.changed_files,
            body: self.body@,
            url: self.url@,
        }
    }
}

/// An issue, as values.
pub struct IssueView {
    pub number: u64,
    pub title: Seq<char>,
    pub state: IssueState,
    pub author: Seq<char>,
    pub created_at: Seq<char>,
    pub labels: Seq<PrLabelView>,
    pub url: Seq<char>,
}

impl DeepView for Issue {
    type V = IssueView;

    open spec fn deep_view(&self) -> IssueView {
        IssueView {
            number: self.number,
            title: self.title@,
            state: self.state,
            author: self.author@,
            created_at: self.created_at@,
            labels: self.labels.deep_view(),
            url: self.url@,
        }
    }
}

/// A check, as values.
pub struct CiCheckView {
    pub name: Seq<char>,
    pub status: CheckStatus,
    pub description: Seq<char>,
    pub elapsed: Seq<char>,
    pub url: Seq<char>,
}

impl DeepView for CiCheck {
    type V = CiCheckView;

    open spec fn deep_view(&self) -> CiCheckView {
        CiCheckView {
            name: self.name@,
            status: self.status,
            description: self.description@,
            elapsed: self.elapsed@,
            url: self.url@,
        }
    }
}

/// Someone who looked at a pull request, as values.
pub struct ReviewerView {
    pub login: Seq<char>,
    pub state: ReviewState,
}

impl DeepView for Reviewer {
    type V = ReviewerView;

    open spec fn deep_view(&self) -> ReviewerView {
        ReviewerView { login: self.login@, state: self.state }
    }
}

/// A pull request with its checks and with those who looked at it, as
/// values.
pub struct PrDetailView {
    pub pull_request: PullRequestView,
    pub checks: Seq<CiCheckView>,
    pub reviewers: Seq<ReviewerView>,
}

impl DeepView for PrDetail {
    type V = PrDetailView;

    open spec fn deep_view(&self) -> PrDetailView {
        PrDetailView {
            pull_request: self.pull_request.deep_view(),
            checks: self.checks.deep_view(),
            reviewers: self.reviewers.deep_view(),
        }
    }
}

} // verus!
