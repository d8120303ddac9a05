//! `pull_request` events: when a pull request is opened, the app posts its comment.

use vstd::prelude::*;

use crate::events::{EventPayload, WebhookEventInfo};
use crate::fast_forward::{fast_forward_status, spec_fast_forward_status, CompareStatus, FastForwardStatus};
use crate::handlers::{repository_target, Flow, HandlerError, Notice, Outcome, RepositoryTarget};
use crate::messages::BotMessage;

verus! {

/// The opened pull request that the handler goes on with.
pub struct PullRequestJob {
    pub repository: RepositoryTarget,
    pub number: u64,
    pub base_ref: String,
    pub head_ref: String,
}

/// What the first decision makes of a `pull_request` event: the event needs a repository with
/// an owner, and only the opening of a pull request goes on.
pub open spec fn pull_request_start_result(event: Option<WebhookEventInfo>, r: Flow<PullRequestJob>) -> bool {
    match event {
        None => r == Flow::<PullRequestJob>::Done(Outcome::Ignored(Notice::NoEvent)),
        Some(e) => match e.payload {
            EventPayload::PullRequest(p) => match e.repository {
                None => r == Flow::<PullRequestJob>::Done(Outcome::Failed(HandlerError::RepositoryMissing)),
                Some(repo) => match repo.owner_login {
                    None => r == Flow::<PullRequestJob>::Done(Outcome::Failed(HandlerError::OwnerMissing)),
                    Some(owner) => if !p.opened {
                        r == Flow::<PullRequestJob>::Done(Outcome::Ignored(Notice::NotOpened))
                    } else {
                        r matches Flow::Continue(job)
                            && job.repository.id == repo.id && job.repository.name == repo.name
                            && job.repository.owner == owner
                            && job.number == p.pull_request.number
                            && job.base_ref == p.pull_request.base_ref
                            && job.head_ref == p.pull_request.head_ref
                    },
                },
            },
            _ => r == Flow::<PullRequestJob>::Done(Outcome::Ignored(Notice::OtherEvent)),
        },
    }
}

/// Takes the first decision on a `pull_request` event, as `pull_request_start_result` describes it.
pub fn pull_request_start(event: Option<WebhookEventInfo>) -> (r: Flow<PullRequestJob>)
    ensures
        pull_request_start_result(event, r),
        r matches Flow::Continue(job) ==> {
            &&& event is Some
            &&& event->0.payload is PullRequest
            &&& event->0.payload->PullRequest_0.opened
            &&& event->0.repository is Some
            &&& job.repository.id == event->0.repository->0.id
            &&& job.repository.name == event->0.repository->0.name
            &&& event->0.repository->0.owner_login == Some(job.repository.owner)
            &&& job.number == event->0.payload->PullRequest_0.pull_request.number
            &&& job.base_ref == event->0.payload->PullRequest_0.pull_request.base_ref
            &&& job.head_ref == event->0.payload->PullRequest_0.pull_request.head_ref
        },
{
    let e = match event {
        None => return Flow::Done(Outcome::Ignored(Notice::NoEvent)),
        Some(e) => e,
    };
    let payload = match e.payload {
        EventPayload::PullRequest(p) => p,
        _ => return Flow::Done(Outcome::Ignored(Notice::OtherEvent)),
    };
    let repository = match repository_target(e.repository) {
        Ok(t) => t,
        Err(err) => return Flow::Done(Outcome::Failed(err)),
    };
    if !payload.opened {
        return Flow::Done(Outcome::Ignored(Notice::NotOpened));
    }
    let pr = payload.pull_request;
    Flow::Continue(PullRequestJob {
        repository,
        number: pr.number,
        base_ref: pr.base_ref,
        head_ref: pr.head_ref,
    })
}

/// The message that the app first posts on a pull request: the unticked box, unless the
/// branch cannot be fast-forward merged.
pub open spec fn spec_initial_comment(status: FastForwardStatus) -> BotMessage {
    match status {
        FastForwardStatus::NotMergeable => BotMessage::NotMergeable,
        FastForwardStatus::Mergeable | FastForwardStatus::Merged => BotMessage::Unchecked,
    }
}

/// The message that the app first posts on a pull request with status `status`.
pub fn initial_comment(status: FastForwardStatus) -> (r: BotMessage)
    ensures
        r == spec_initial_comment(status),
{
    match status {
        FastForwardStatus::Mergeable => BotMessage::Unchecked,
        FastForwardStatus::Merged => BotMessage::Unchecked,
        FastForwardStatus::NotMergeable => BotMessage::NotMergeable,
    }
}

/// A comment to post on issue `issue_number` of the repository with id `repo_id`.
#[derive(PartialEq, Eq, Structural, Clone, Copy, Debug)]
pub struct NewComment {
    pub repo_id: u64,
    pub issue_number: u64,
    pub body: BotMessage,
}

/// The comment to post on the opened pull request `job`, whose head compares with its base as `compared`.
pub fn pull_request_comment(job: &PullRequestJob, compared: CompareStatus) -> (r: NewComment)
    ensures
        r == (NewComment {
            repo_id: job.repository.id,
            issue_number: job.number,
            body: spec_initial_comment(spec_fast_forward_status(compared)),
        }),
{
    NewComment {
        repo_id: job.repository.id,
        issue_number: job.number,
        body: initial_comment(fast_forward_status(compared)),
    }
}

} // verus!
