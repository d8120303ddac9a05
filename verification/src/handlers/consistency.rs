//! What holds across the handlers: the app's own writes never call for another write,
//! a ticked box on a mergeable pull request is what merges it, and nothing else does.

use vstd::prelude::*;

use crate::events::{CommentAction, CommentInfo, EventPayload, WebhookEventInfo};
use crate::fast_forward::{spec_fast_forward_status, CompareStatus, FastForwardStatus};
use crate::handlers::issue_comment::{
    issue_comment_start_result, spec_comment_reaction, CommentJob, CommentReaction,
};
use crate::handlers::pull_request::{pull_request_start_result, spec_initial_comment, PullRequestJob};
use crate::handlers::push::{push_start_result, spec_comment_updates, spec_push_update, PushJob};
use crate::handlers::{CommentUpdate, Flow};
use crate::messages::{lemma_messages_distinct, BotMessage};

verus! {

/// The event is an edit, by the bot, of its comment on an open pull request, and the
/// comment's body is `body` (`None` where the event gives none).
pub open spec fn is_bot_edit_on_open_pr(event: Option<WebhookEventInfo>, bot_user_id: u64, body: Option<Seq<char>>) -> bool {
    match event {
        Some(e) => match e.payload {
            EventPayload::IssueComment(p) => {
                &&& p.action == CommentAction::Edited
                &&& p.comment.user_id == bot_user_id
                &&& p.issue.is_pull_request
                &&& p.issue.is_open
                &&& body == match p.comment.body {
                    Some(b) => Some(b@),
                    None => None::<Seq<char>>,
                }
            },
            _ => false,
        },
        None => false,
    }
}

/// The event names a repository, and that repository names its owner.
pub open spec fn has_repository_owner(event: Option<WebhookEventInfo>) -> bool {
    match event {
        Some(e) => match e.repository {
            Some(repo) => repo.owner_login is Some,
            None => false,
        },
        None => false,
    }
}

/// The event is the opening of a pull request.
pub open spec fn is_pull_request_opening(event: Option<WebhookEventInfo>) -> bool {
    match event {
        Some(e) => match e.payload {
            EventPayload::PullRequest(p) => p.opened,
            _ => false,
        },
        None => false,
    }
}

/// When an edit of the app's comment makes the app rewrite it, the rewritten comment,
/// which GitHub reports as a further edit, is left as it is: the app never edits in a loop.
pub proof fn law_rewrite_is_final(status: FastForwardStatus, body: Seq<char>, m: BotMessage)
    requires
        spec_comment_reaction(status, body) == CommentReaction::Rewrite(m),
    ensures
        spec_comment_reaction(status, m.spec_text()) == CommentReaction::Keep,
{
    lemma_messages_distinct(m, BotMessage::Checked);
}

/// A comment that a push rewrote needs no rewrite on the next push with the same status.
pub proof fn law_push_update_is_final(status: FastForwardStatus, body: Seq<char>, m: BotMessage)
    requires
        spec_push_update(status, body) == Some(m),
    ensures
        spec_push_update(status, m.spec_text()) is None,
{
}

/// The comment that the app posts on an opened pull request is left as it is, both by an
/// edit event and by a push, while the pull request's status stays the same.
pub proof fn law_initial_comment_is_stable(status: FastForwardStatus)
    ensures
        spec_push_update(status, spec_initial_comment(status).spec_text()) is None,
        spec_comment_reaction(status, spec_initial_comment(status).spec_text()) == CommentReaction::Keep,
{
    lemma_messages_distinct(spec_initial_comment(status), BotMessage::Checked);
}

/// What one handler writes, the other leaves as it is: a comment rewritten after a push
/// is kept by the edit handler, and one rewritten after an edit is kept by the push handler.
pub proof fn law_handlers_agree(status: FastForwardStatus, body: Seq<char>, m: BotMessage)
    ensures
        spec_push_update(status, body) == Some(m) ==> spec_comment_reaction(status, m.spec_text())
            == CommentReaction::Keep,
        spec_comment_reaction(status, body) == CommentReaction::Rewrite(m) ==> spec_push_update(
            status,
            m.spec_text(),
        ) is None,
{
    lemma_messages_distinct(m, BotMessage::Checked);
}

/// A merged pull request is left alone: no edit and no push changes its comment.
pub proof fn law_merged_is_left_alone(body: Seq<char>, repo_id: u64, bot_user_id: u64, comments: Seq<CommentInfo>)
    ensures
        spec_comment_reaction(FastForwardStatus::Merged, body) == CommentReaction::Keep,
        spec_comment_updates(repo_id, bot_user_id, FastForwardStatus::Merged, comments).len() == 0,
    decreases comments.len(),
{
    if comments.len() > 0 {
        law_merged_is_left_alone(body, repo_id, bot_user_id, comments.drop_last());
    }
}

/// A push rewrites only the app's own comments, to the message that the status calls for,
/// and each at most once per comment that lists it.
pub proof fn law_push_touches_only_bot_comments(
    repo_id: u64,
    bot_user_id: u64,
    status: FastForwardStatus,
    comments: Seq<CommentInfo>,
)
    ensures
        forall|k: int|
            0 <= k < spec_comment_updates(repo_id, bot_user_id, status, comments).len() ==> {
                let u = #[trigger] spec_comment_updates(repo_id, bot_user_id, status, comments)[k];
                &&& u.repo_id == repo_id
                &&& exists|i: int|
                    0 <= i < comments.len() && (#[trigger] comments[i]).id == u.comment_id
                        && comments[i].user_id == bot_user_id && comments[i].body is Some
                        && spec_push_update(status, comments[i].body->0@) == Some(u.body)
            },
    decreases comments.len(),
{
    if comments.len() > 0 {
        let earlier = comments.drop_last();
        law_push_touches_only_bot_comments(repo_id, bot_user_id, status, earlier);
        let updates = spec_comment_updates(repo_id, bot_user_id, status, comments);
        let before = spec_comment_updates(repo_id, bot_user_id, status, earlier);
        assert forall|k: int| 0 <= k < updates.len() implies {
            let u = #[trigger] updates[k];
            &&& u.repo_id == repo_id
            &&& exists|i: int|
                0 <= i < comments.len() && (#[trigger] comments[i]).id == u.comment_id
                    && comments[i].user_id == bot_user_id && comments[i].body is Some
                    && spec_push_update(status, comments[i].body->0@) == Some(u.body)
        } by {
            if k < before.len() {
                let u = before[k];
                let i = choose|i: int|
                    0 <= i < earlier.len() && (#[trigger] earlier[i]).id == u.comment_id
                        && earlier[i].user_id == bot_user_id && earlier[i].body is Some
                        && spec_push_update(status, earlier[i].body->0@) == Some(u.body);
                assert(comments[i] == earlier[i]);
            } else {
                let last = comments.len() - 1;
                assert(comments[last] == comments.last());
            }
        }
    }
}

/// Ticking the box of the app's comment on an open pull request merges it when the
/// branch can be fast-forward merged, turns the comment into the warning when it cannot,
/// and changes nothing when the pull request is already merged.
pub proof fn law_ticked_box(event: Option<WebhookEventInfo>, bot_user_id: u64, r: Flow<CommentJob>, compared: CompareStatus)
    requires
        issue_comment_start_result(event, bot_user_id, r),
        is_bot_edit_on_open_pr(event, bot_user_id, Some(BotMessage::Checked.spec_text())),
        has_repository_owner(event),
    ensures
        r matches Flow::Continue(job) && spec_comment_reaction(spec_fast_forward_status(compared), job.body@)
            == match compared {
                CompareStatus::Ahead => CommentReaction::Merge,
                CompareStatus::Diverged => CommentReaction::Rewrite(BotMessage::NotMergeable),
                CompareStatus::Behind | CompareStatus::Identical => CommentReaction::Keep,
            },
{
    lemma_messages_distinct(BotMessage::Checked, BotMessage::NotMergeable);
}

/// After a push, every comment of the app on a pull request that can no longer be
/// fast-forward merged is turned into the warning, unless it already shows it.
pub proof fn law_push_warns_when_not_mergeable(
    repo_id: u64,
    bot_user_id: u64,
    comments: Seq<CommentInfo>,
    i: int,
)
    requires
        0 <= i < comments.len(),
        comments[i].user_id == bot_user_id,
        comments[i].body matches Some(b) && b@ != BotMessage::NotMergeable.spec_text(),
    ensures
        spec_comment_updates(repo_id, bot_user_id, FastForwardStatus::NotMergeable, comments).contains(
            CommentUpdate { repo_id, comment_id: comments[i].id, body: BotMessage::NotMergeable },
        ),
    decreases comments.len(),
{
    let updates = spec_comment_updates(repo_id, bot_user_id, FastForwardStatus::NotMergeable, comments);
    let u = CommentUpdate { repo_id, comment_id: comments[i].id, body: BotMessage::NotMergeable };
    if i == comments.len() - 1 {
        assert(updates.last() == u);
    } else {
        let earlier = comments.drop_last();
        assert(earlier[i] == comments[i]);
        law_push_warns_when_not_mergeable(repo_id, bot_user_id, earlier, i);
        let before = spec_comment_updates(repo_id, bot_user_id, FastForwardStatus::NotMergeable, earlier);
        let k = choose|k: int| 0 <= k < before.len() && before[k] == u;
        assert(updates[k] == u);
    }
}

/// The app merges only on an edit of its own comment on an open pull request whose body
/// is the ticked box, and only when the head is ahead of the base.
pub proof fn law_merge_needs_ticked_bot_comment(
    event: Option<WebhookEventInfo>,
    bot_user_id: u64,
    job: CommentJob,
    compared: CompareStatus,
)
    requires
        issue_comment_start_result(event, bot_user_id, Flow::Continue(job)),
        spec_comment_reaction(spec_fast_forward_status(compared), job.body@) == CommentReaction::Merge,
    ensures
        compared == CompareStatus::Ahead,
        is_bot_edit_on_open_pr(event, bot_user_id, Some(BotMessage::Checked.spec_text())),
{
    reveal_strlit("");
    lemma_messages_distinct(BotMessage::Checked, BotMessage::Unchecked);
    let e = event->0;
    let p = e.payload->IssueComment_0;
    if p.comment.body is None {
        assert(job.body@ == Seq::<char>::empty());
        assert(BotMessage::Checked.spec_text().len() > 0) by {
            reveal_strlit("### \u{23e9} PureFF\n\n- [x] Check this box to fast-forward merge this PR\n");
        }
    }
}

/// Opening a pull request posts the unticked box when the head is ahead of, behind or
/// level with the base, and the warning when they have diverged.
pub proof fn law_opened_pull_request_gets_comment(event: Option<WebhookEventInfo>, r: Flow<PullRequestJob>, compared: CompareStatus)
    requires
        pull_request_start_result(event, r),
        is_pull_request_opening(event),
        has_repository_owner(event),
    ensures
        r is Continue,
        spec_initial_comment(spec_fast_forward_status(compared)) == if compared == CompareStatus::Diverged {
            BotMessage::NotMergeable
        } else {
            BotMessage::Unchecked
        },
{
}

/// While the branch cannot be fast-forward merged, every edit of the app's comment that
/// does not leave it showing the warning turns it into the warning, whatever the body was
/// (the unticked box, the ticked box, the merged note or a hand-edited text); the warning
/// itself is kept.
pub proof fn law_not_mergeable_shows_warning(body: Seq<char>)
    ensures
        body != BotMessage::NotMergeable.spec_text() ==> spec_comment_reaction(FastForwardStatus::NotMergeable, body)
            == CommentReaction::Rewrite(BotMessage::NotMergeable),
        spec_comment_reaction(FastForwardStatus::NotMergeable, BotMessage::NotMergeable.spec_text())
            == CommentReaction::Keep,
{
}

/// While the branch can be fast-forward merged, the ticked box asks for the merge, the
/// unticked box is kept, and every other body (the warning, the merged note, a hand-edited
/// text) is turned back into the unticked box.
pub proof fn law_mergeable_restores_box(body: Seq<char>)
    ensures
        spec_comment_reaction(FastForwardStatus::Mergeable, BotMessage::Checked.spec_text())
            == CommentReaction::Merge,
        spec_comment_reaction(FastForwardStatus::Mergeable, BotMessage::Unchecked.spec_text())
            == CommentReaction::Keep,
        body != BotMessage::Checked.spec_text() && body != BotMessage::Unchecked.spec_text()
            ==> spec_comment_reaction(FastForwardStatus::Mergeable, body)
            == CommentReaction::Rewrite(BotMessage::Unchecked),
{
    lemma_messages_distinct(BotMessage::Checked, BotMessage::Unchecked);
}

/// Once the pull request is merged, no edit of the comment changes anything.
pub proof fn law_merged_keeps_comment(body: Seq<char>)
    ensures
        spec_comment_reaction(FastForwardStatus::Merged, body) == CommentReaction::Keep,
{
}

/// The reaction to an edit is the merge only for the ticked box on a mergeable pull request,
/// and a rewrite always writes the message that fits the status: the warning when the branch
/// cannot be fast-forward merged, the unticked box when it can.
pub proof fn law_reaction_fits_status(status: FastForwardStatus, body: Seq<char>, m: BotMessage)
    ensures
        spec_comment_reaction(status, body) == CommentReaction::Merge <==> status == FastForwardStatus::Mergeable
            && body == BotMessage::Checked.spec_text(),
        spec_comment_reaction(status, body) == CommentReaction::Rewrite(m) ==> (m == BotMessage::NotMergeable
            <==> status == FastForwardStatus::NotMergeable) && m != BotMessage::Checked && m != BotMessage::Merged
            && m.spec_text() != body,
{
    lemma_messages_distinct(BotMessage::Checked, BotMessage::Unchecked);
}

/// After a push, a comment of the app is rewritten exactly when it does not already show the
/// message that fits the status: the warning when the branch cannot be fast-forward merged,
/// the unticked box when it can; on a merged pull request it is left alone.
pub proof fn law_push_update_fits_status(status: FastForwardStatus, body: Seq<char>)
    ensures
        status == FastForwardStatus::NotMergeable ==> spec_push_update(status, body) == if body
            == BotMessage::NotMergeable.spec_text() {
            None
        } else {
            Some(BotMessage::NotMergeable)
        },
        status == FastForwardStatus::Mergeable ==> spec_push_update(status, body) == if body
            == BotMessage::Unchecked.spec_text() {
            None
        } else {
            Some(BotMessage::Unchecked)
        },
        status == FastForwardStatus::Merged ==> spec_push_update(status, body) is None,
{
}

/// After a push, every comment of the app on a pull request that can be fast-forward merged
/// is turned into the unticked box, unless it already shows it.
pub proof fn law_push_restores_box_when_mergeable(
    repo_id: u64,
    bot_user_id: u64,
    comments: Seq<CommentInfo>,
    i: int,
)
    requires
        0 <= i < comments.len(),
        comments[i].user_id == bot_user_id,
        comments[i].body matches Some(b) && b@ != BotMessage::Unchecked.spec_text(),
    ensures
        spec_comment_updates(repo_id, bot_user_id, FastForwardStatus::Mergeable, comments).contains(
            CommentUpdate { repo_id, comment_id: comments[i].id, body: BotMessage::Unchecked },
        ),
    decreases comments.len(),
{
    let updates = spec_comment_updates(repo_id, bot_user_id, FastForwardStatus::Mergeable, comments);
    let u = CommentUpdate { repo_id, comment_id: comments[i].id, body: BotMessage::Unchecked };
    if i == comments.len() - 1 {
        assert(updates.last() == u);
    } else {
        let earlier = comments.drop_last();
        assert(earlier[i] == comments[i]);
        law_push_restores_box_when_mergeable(repo_id, bot_user_id, earlier, i);
        let before = spec_comment_updates(repo_id, bot_user_id, FastForwardStatus::Mergeable, earlier);
        let k = choose|k: int| 0 <= k < before.len() && before[k] == u;
        assert(updates[k] == u);
    }
}

/// The edit handler goes on only with an edit of the bot's own comment on an open pull
/// request, whatever the comment says, and its job names the event's repository, comment and
/// pull request.
pub proof fn law_edit_handler_only_for_bot_comment(event: Option<WebhookEventInfo>, bot_user_id: u64, job: CommentJob)
    requires
        issue_comment_start_result(event, bot_user_id, Flow::Continue(job)),
    ensures
        event is Some,
        event->0.payload is IssueComment,
        event->0.payload->IssueComment_0.action == CommentAction::Edited,
        event->0.payload->IssueComment_0.comment.user_id == bot_user_id,
        event->0.payload->IssueComment_0.issue.is_pull_request,
        event->0.payload->IssueComment_0.issue.is_open,
        job.comment_id == event->0.payload->IssueComment_0.comment.id,
        job.pr_number == event->0.payload->IssueComment_0.issue.number,
        event->0.repository is Some,
        job.repository.id == event->0.repository->0.id,
        job.repository.name == event->0.repository->0.name,
        event->0.repository->0.owner_login == Some(job.repository.owner),
{
}

/// The opened-pull-request handler goes on only with the opening of a pull request, and its
/// job names the event's repository (by its `name`, not its full name), its owner and the
/// pull request's number and branches.
pub proof fn law_opened_job_names_event_repository(event: Option<WebhookEventInfo>, job: PullRequestJob)
    requires
        pull_request_start_result(event, Flow::Continue(job)),
    ensures
        event is Some,
        event->0.payload is PullRequest,
        event->0.payload->PullRequest_0.opened,
        event->0.repository is Some,
        job.repository.id == event->0.repository->0.id,
        job.repository.name == event->0.repository->0.name,
        event->0.repository->0.owner_login == Some(job.repository.owner),
        job.number == event->0.payload->PullRequest_0.pull_request.number,
        job.base_ref == event->0.payload->PullRequest_0.pull_request.base_ref,
        job.head_ref == event->0.payload->PullRequest_0.pull_request.head_ref,
{
}

/// The push handler goes on only with a push, and its job names the event's repository (by
/// its `name`, not its full name) and owner; a push to `refs/heads/B` looks at the pull
/// requests into `B` and from `owner:B`.
pub proof fn law_push_job_names_event_repository(event: Option<WebhookEventInfo>, job: PushJob, branch: Seq<char>)
    requires
        push_start_result(event, Flow::Continue(job)),
    ensures
        event is Some,
        event->0.payload is Push,
        event->0.repository is Some,
        job.repository.id == event->0.repository->0.id,
        job.repository.name == event->0.repository->0.name,
        event->0.repository->0.owner_login == Some(job.repository.owner),
        job.push_ref == event->0.payload->Push_git_ref,
        event->0.payload->Push_git_ref@ == "refs/heads/"@ + branch ==> job.branch@ == branch
            && job.head_filter@ == job.repository.owner@ + ":"@ + branch,
{
    let git_ref = event->0.payload->Push_git_ref@;
    if git_ref == "refs/heads/"@ + branch {
        assert("refs/heads/"@ =~= git_ref.subrange(0, "refs/heads/"@.len() as int));
        assert(git_ref.skip("refs/heads/"@.len() as int) =~= branch);
    }
}

} // verus!
