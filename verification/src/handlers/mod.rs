//! The decisions of the webhook handlers. Each handler is a sequence of
//! calls to GitHub; the functions here decide, from the event and from what
//! each call returned, what the handler does next.

pub mod github_app_authorization;
pub mod installation;
pub mod installation_repositories;
pub mod issue_comment;
pub mod pull_request;
pub mod push;
pub mod consistency;

use vstd::prelude::*;

use crate::events::RepositoryInfo;
use crate::messages::BotMessage;

verus! {

/// Why a handler stopped without doing anything.
#[derive(PartialEq, Eq, Structural, Clone, Copy, Debug)]
pub enum Notice {
    /// The delivery carried no event.
    NoEvent,
    /// The event is of another kind than the handler's.
    OtherEvent,
    /// The comment event is not an edit.
    NotEdited,
    /// The comment is not the app's own, or not on an open pull request.
    NotBotCommentOnOpenPullRequest,
    /// The pull request event is not its opening.
    NotOpened,
}

/// The note that a handler adds to the error of a failed call.
#[derive(PartialEq, Eq, Structural, Clone, Copy, Debug)]
pub enum ErrorNote {
    FetchPullRequest,
    CheckMergeable,
    MergePullRequest,
    UpdateComment,
}

impl ErrorNote {
    pub open spec fn spec_text(self) -> Seq<char> {
        match self {
            ErrorNote::FetchPullRequest => "Failed to fetch pull request"@,
            ErrorNote::CheckMergeable => "Failed to check if PR is mergeable"@,
            ErrorNote::MergePullRequest => "Failed to fast-forward merge PR"@,
            ErrorNote::UpdateComment => "Failed to update comment"@,
        }
    }

    /// The text of the note.
    pub fn text(&self) -> (s: &'static str)
        ensures
            s@ == self.spec_text(),
    {
        match self {
            ErrorNote::FetchPullRequest => "Failed to fetch pull request",
            ErrorNote::CheckMergeable => "Failed to check if PR is mergeable",
            ErrorNote::MergePullRequest => "Failed to fast-forward merge PR",
            ErrorNote::UpdateComment => "Failed to update comment",
        }
    }
}

/// Why a handler failed.
#[derive(PartialEq, Eq, Structural, Clone, Copy, Debug)]
pub enum HandlerError {
    /// The event names no repository.
    RepositoryMissing,
    /// The event's repository names no owner.
    OwnerMissing,
}

impl HandlerError {
    pub open spec fn spec_message(self) -> Seq<char> {
        match self {
            HandlerError::RepositoryMissing => "Repository information missing from event"@,
            HandlerError::OwnerMissing => "Owner information missing from repository"@,
        }
    }

    /// The message of the error.
    pub fn message(&self) -> (s: &'static str)
        ensures
            s@ == self.spec_message(),
    {
        match self {
            HandlerError::RepositoryMissing => "Repository information missing from event",
            HandlerError::OwnerMissing => "Owner information missing from repository",
        }
    }
}

/// How a handler ends.
#[derive(PartialEq, Eq, Structural, Clone, Copy, Debug)]
pub enum Outcome {
    /// It did nothing, for the reason given; the handler succeeds.
    Ignored(Notice),
    /// The handler fails with this error.
    Failed(HandlerError),
}

/// The next step of a handler: go on with the data given, or end.
pub enum Flow<T> {
    Continue(T),
    Done(Outcome),
}

/// A rewrite of the app's comment `comment_id` in the repository with id `repo_id` to `body`.
#[derive(PartialEq, Eq, Structural, Clone, Copy, Debug)]
pub struct CommentUpdate {
    pub repo_id: u64,
    pub comment_id: u64,
    pub body: BotMessage,
}

/// The repository an event concerns, as its id, its name and its owner's login.
pub struct RepositoryTarget {
    pub id: u64,
    pub name: String,
    pub owner: String,
}

/// The repository target of an event's repository: it must be there, and name its owner.
pub fn repository_target(repository: Option<RepositoryInfo>) -> (r: Result<RepositoryTarget, HandlerError>)
    ensures
        repository is None ==> r == Err::<RepositoryTarget, HandlerError>(HandlerError::RepositoryMissing),
        repository matches Some(repo) ==> match repo.owner_login {
            None => r == Err::<RepositoryTarget, HandlerError>(HandlerError::OwnerMissing),
            Some(owner) => r matches Ok(t) && t.id == repo.id && t.name == repo.name && t.owner == owner,
        },
{
    match repository {
        None => Err(HandlerError::RepositoryMissing),
        Some(repo) => match repo.owner_login {
            None => Err(HandlerError::OwnerMissing),
            Some(owner) => Ok(RepositoryTarget { id: repo.id, name: repo.name, owner }),
        },
    }
}

} // verus!
