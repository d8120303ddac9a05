//! What the handlers read of a webhook delivery, as plain values.

use vstd::prelude::*;

verus! {

/// The repository that a webhook event concerns.
pub struct RepositoryInfo {
    pub id: u64,
    pub name: String,
    pub full_name: Option<String>,
    /// The login of the repository's owner, where the event names one.
    pub owner_login: Option<String>,
}

/// A comment on an issue or a pull request.
pub struct CommentInfo {
    pub id: u64,
    /// The id of the user who wrote the comment.
    pub user_id: u64,
    pub body: Option<String>,
}

/// The issue that a comment belongs to.
pub struct IssueInfo {
    pub number: u64,
    /// The issue is a pull request.
    pub is_pull_request: bool,
    /// The issue is open.
    pub is_open: bool,
    pub html_url: String,
}

/// What happened to an issue comment.
#[derive(PartialEq, Eq, Structural, Clone, Copy, Debug)]
pub enum CommentAction {
    Created,
    Deleted,
    Edited,
    /// An action that this library does not know.
    Other,
}

/// The payload of an `issue_comment` event.
pub struct IssueCommentPayload {
    pub action: CommentAction,
    pub comment: CommentInfo,
    pub issue: IssueInfo,
}

/// A pull request.
pub struct PullInfo {
    pub number: u64,
    pub title: Option<String>,
    /// The name of the branch that the pull request merges into.
    pub base_ref: String,
    /// The name of the branch that holds the pull request's commits.
    pub head_ref: String,
    /// The commit at the head of the pull request.
    pub head_sha: String,
}

/// The payload of a `pull_request` event.
pub struct PullRequestPayload {
    /// The pull request was opened by this event.
    pub opened: bool,
    pub pull_request: PullInfo,
}

/// The part of an event that depends on its kind.
pub enum EventPayload {
    /// The app was installed, with the full names of the repositories it was given, if listed.
    Installation { repositories: Option<Vec<String>> },
    /// Repositories were added to or removed from an installation (full names).
    InstallationRepositories { added: Vec<String>, removed: Vec<String> },
    IssueComment(IssueCommentPayload),
    PullRequest(PullRequestPayload),
    /// Commits were pushed to the reference `git_ref`.
    Push { git_ref: String },
    /// Any other kind of event.
    Other,
}

/// A webhook event.
pub struct WebhookEventInfo {
    pub repository: Option<RepositoryInfo>,
    pub payload: EventPayload,
}

} // verus!
