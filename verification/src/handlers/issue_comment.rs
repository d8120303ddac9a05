//! `issue_comment` events: someone edited the app's comment on a pull request,
//! typically to tick its box.

use vstd::prelude::*;

use crate::events::{CommentAction, EventPayload, PullInfo, WebhookEventInfo};
use crate::fast_forward::{
    fast_forward_merge_request, fast_forward_status, spec_branch_ref_endpoint,
    spec_fast_forward_status, CompareStatus, FastForwardStatus, RefUpdate,
};
use crate::handlers::{repository_target, CommentUpdate, Flow, HandlerError, Notice, Outcome, RepositoryTarget};
use crate::messages::BotMessage;

verus! {

/// The comment was written by the bot, on an issue that is an open pull request.
pub fn is_bot_comment_on_open_pr(comment_user_id: u64, is_pull_request: bool, is_open: bool, bot_user_id: u64) -> (r: bool)
    ensures
        r == (comment_user_id == bot_user_id && is_pull_request && is_open),
{
    comment_user_id == bot_user_id && is_pull_request && is_open
}

/// The edited comment that the handler goes on with.
pub struct CommentJob {
    pub repository: RepositoryTarget,
    pub comment_id: u64,
    pub pr_number: u64,
    pub pr_url: String,
    /// The comment's body (empty where the event gives none).
    pub body: String,
}

/// The text of a comment's body, empty where there is none.
pub open spec fn spec_body_text(body: Option<String>) -> Seq<char> {
    match body {
        Some(b) => b@,
        None => Seq::empty(),
    }
}

/// What the first decision makes of an `issue_comment` event: only edits of the bot's own
/// comment on an open pull request go on, and those need a repository with an owner.
pub open spec fn issue_comment_start_result(event: Option<WebhookEventInfo>, bot_user_id: u64, r: Flow<CommentJob>) -> bool {
    match event {
        None => r == Flow::<CommentJob>::Done(Outcome::Ignored(Notice::NoEvent)),
        Some(e) => match e.payload {
            EventPayload::IssueComment(p) => {
                if p.action != CommentAction::Edited {
                    r == Flow::<CommentJob>::Done(Outcome::Ignored(Notice::NotEdited))
                } else if !(p.comment.user_id == bot_user_id && p.issue.is_pull_request && p.issue.is_open) {
                    r == Flow::<CommentJob>::Done(Outcome::Ignored(Notice::NotBotCommentOnOpenPullRequest))
                } else {
                    match e.repository {
                        None => r == Flow::<CommentJob>::Done(Outcome::Failed(HandlerError::RepositoryMissing)),
                        Some(repo) => match repo.owner_login {
                            None => r == Flow::<CommentJob>::Done(Outcome::Failed(HandlerError::OwnerMissing)),
                            Some(owner) => r matches Flow::Continue(job)
                                && job.repository.id == repo.id && job.repository.name == repo.name
                                && job.repository.owner == owner
                                && job.comment_id == p.comment.id && job.pr_number == p.issue.number
                                && job.pr_url == p.issue.html_url
                                && job.body@ == spec_body_text(p.comment.body),
                        },
                    }
                }
            },
            _ => r == Flow::<CommentJob>::Done(Outcome::Ignored(Notice::OtherEvent)),
        },
    }
}

/// Takes the first decision on an `issue_comment` event, as `issue_comment_start_result` describes it.
pub fn issue_comment_start(event: Option<WebhookEventInfo>, bot_user_id: u64) -> (r: Flow<CommentJob>)
    ensures
        issue_comment_start_result(event, bot_user_id, r),
        r matches Flow::Continue(job) ==> {
            &&& event is Some
            &&& event->0.payload is IssueComment
            &&& event->0.payload->IssueComment_0.action == CommentAction::Edited
            &&& event->0.payload->IssueComment_0.comment.user_id == bot_user_id
            &&& event->0.payload->IssueComment_0.issue.is_pull_request
            &&& event->0.payload->IssueComment_0.issue.is_open
            &&& event->0.repository is Some
            &&& job.repository.id == event->0.repository->0.id
            &&& job.repository.name == event->0.repository->0.name
            &&& event->0.repository->0.owner_login == Some(job.repository.owner)
            &&& job.comment_id == event->0.payload->IssueComment_0.comment.id
            &&& job.pr_number == event->0.payload->IssueComment_0.issue.number
            &&& job.body@ == match event->0.payload->IssueComment_0.comment.body {
                Some(b) => b@,
                None => Seq::<char>::empty(),
            }
        },
{
    let e = match event {
        None => return Flow::Done(Outcome::Ignored(Notice::NoEvent)),
        Some(e) => e,
    };
    let payload = match e.payload {
        EventPayload::IssueComment(p) => p,
        _ => return Flow::Done(Outcome::Ignored(Notice::OtherEvent)),
    };
    if payload.action != CommentAction::Edited {
        return Flow::Done(Outcome::Ignored(Notice::NotEdited));
    }
    if !is_bot_comment_on_open_pr(
        payload.comment.user_id,
        payload.issue.is_pull_request,
        payload.issue.is_open,
        bot_user_id,
    ) {
        return Flow::Done(Outcome::Ignored(Notice::NotBotCommentOnOpenPullRequest));
    }
    let repository = match repository_target(e.repository) {
        Ok(t) => t,
        Err(err) => return Flow::Done(Outcome::Failed(err)),
    };
    let body = match payload.comment.body {
        Some(b) => b,
        None => String::new(),
    };
    Flow::Continue(CommentJob {
        repository,
        comment_id: payload.comment.id,
        pr_number: payload.issue.number,
        pr_url: payload.issue.html_url,
        body,
    })
}

/// What the app does with its comment, given the pull request's status and the comment's body.
#[derive(PartialEq, Eq, Structural, Clone, Copy, Debug)]
pub enum CommentReaction {
    /// Leave the comment as it is.
    Keep,
    /// Rewrite the comment to this message.
    Rewrite(BotMessage),
    /// Merge the pull request.
    Merge,
}

/// The reaction to an edit of the app's comment: a ticked box on a mergeable pull request
/// asks for the merge; otherwise the comment is brought back to the message that fits
/// the status, or left alone once the pull request is merged.
pub open spec fn spec_comment_reaction(status: FastForwardStatus, body: Seq<char>) -> CommentReaction {
    match status {
        FastForwardStatus::NotMergeable => if body == BotMessage::NotMergeable.spec_text() {
            CommentReaction::Keep
        } else {
            CommentReaction::Rewrite(BotMessage::NotMergeable)
        },
        FastForwardStatus::Mergeable => if body == BotMessage::Checked.spec_text() {
            CommentReaction::Merge
        } else if body == BotMessage::Unchecked.spec_text() {
            CommentReaction::Keep
        } else {
            CommentReaction::Rewrite(BotMessage::Unchecked)
        },
        FastForwardStatus::Merged => CommentReaction::Keep,
    }
}

/// The comment's body is the text of the message `m`.
fn body_is(body: &String, m: BotMessage) -> (r: bool)
    ensures
        r == (body@ == m.spec_text()),
{
    let text = String::from_str(m.text());
    *body == text
}

/// The reaction to an edit of the app's comment whose body is `body`.
pub fn comment_reaction(status: FastForwardStatus, body: &String) -> (r: CommentReaction)
    ensures
        r == spec_comment_reaction(status, body@),
{
    match status {
        FastForwardStatus::NotMergeable => if body_is(body, BotMessage::NotMergeable) {
            CommentReaction::Keep
        } else {
            CommentReaction::Rewrite(BotMessage::NotMergeable)
        },
        FastForwardStatus::Mergeable => if body_is(body, BotMessage::Checked) {
            CommentReaction::Merge
        } else if body_is(body, BotMessage::Unchecked) {
            CommentReaction::Keep
        } else {
            CommentReaction::Rewrite(BotMessage::Unchecked)
        },
        FastForwardStatus::Merged => CommentReaction::Keep,
    }
}

/// What the handler does once it knows how the pull request's head compares with its base.
pub enum CommentPlan {
    /// Nothing more.
    Keep,
    /// Rewrite the comment.
    Rewrite(CommentUpdate),
    /// Fast-forward the base branch with `update`; once that succeeded, rewrite the comment with `mark`.
    Merge { update: RefUpdate, mark: CommentUpdate },
}

/// The plan for the edited comment `job` on the pull request `pr`, whose head compares with its
/// base as `compared`.
pub fn issue_comment_plan(job: &CommentJob, pr: &PullInfo, compared: CompareStatus) -> (r: CommentPlan)
    ensures
        match spec_comment_reaction(spec_fast_forward_status(compared), job.body@) {
            CommentReaction::Keep => r is Keep,
            CommentReaction::Rewrite(m) => r == CommentPlan::Rewrite(
                CommentUpdate { repo_id: job.repository.id, comment_id: job.comment_id, body: m },
            ),
            CommentReaction::Merge => r matches CommentPlan::Merge { update, mark }
                && update.endpoint@ == spec_branch_ref_endpoint(
                    job.repository.owner@,
                    job.repository.name@,
                    pr.base_ref@,
                )
                && update.sha@ == pr.head_sha@
                && !update.force
                && mark == (CommentUpdate {
                    repo_id: job.repository.id,
                    comment_id: job.comment_id,
                    body: BotMessage::Merged,
                }),
        },
{
    let status = fast_forward_status(compared);
    match comment_reaction(status, &job.body) {
        CommentReaction::Keep => CommentPlan::Keep,
        CommentReaction::Rewrite(m) => CommentPlan::Rewrite(
            CommentUpdate { repo_id: job.repository.id, comment_id: job.comment_id, body: m },
        ),
        CommentReaction::Merge => CommentPlan::Merge {
            update: fast_forward_merge_request(
                job.repository.owner.as_str(),
                job.repository.name.as_str(),
                pr.base_ref.as_str(),
                pr.head_sha.as_str(),
            ),
            mark: CommentUpdate {
                repo_id: job.repository.id,
                comment_id: job.comment_id,
                body: BotMessage::Merged,
            },
        },
    }
}

} // verus!
