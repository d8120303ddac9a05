//! `push` events: after commits land on a branch, the app brings its comments on the
//! open pull requests from or into that branch in line with their new status.

use vstd::prelude::*;

use crate::events::{CommentInfo, EventPayload, PullInfo, WebhookEventInfo};
use crate::fast_forward::{fast_forward_status, spec_fast_forward_status, CompareStatus, FastForwardStatus};
use crate::handlers::{repository_target, CommentUpdate, Flow, HandlerError, Notice, Outcome, RepositoryTarget};
use crate::messages::BotMessage;

verus! {

/// The push that the handler goes on with.
pub struct PushJob {
    pub repository: RepositoryTarget,
    /// The reference that was pushed to, as the event names it (`refs/heads/B` for branch `B`).
    pub push_ref: String,
    /// The pushed branch `B`: open pull requests with this base branch are looked at.
    pub branch: String,
    /// `owner:B`: open pull requests with this head branch are looked at.
    pub head_filter: String,
}

/// The name of the branch that the reference `git_ref` denotes: what follows `refs/heads/`,
/// or the reference unchanged where it does not start so.
pub open spec fn spec_branch_name(git_ref: Seq<char>) -> Seq<char> {
    if "refs/heads/"@.is_prefix_of(git_ref) {
        git_ref.skip("refs/heads/"@.len() as int)
    } else {
        git_ref
    }
}

/// The name of the branch that the reference `git_ref` denotes.
pub fn branch_name(git_ref: &str) -> (r: String)
    ensures
        r@ == spec_branch_name(git_ref@),
{
    let prefix = "refs/heads/";
    let n = git_ref.unicode_len();
    let m = prefix.unicode_len();
    if n < m {
        assert(!"refs/heads/"@.is_prefix_of(git_ref@));
        return String::from_str(git_ref);
    }
    let mut i: usize = 0;
    while i < m
        invariant
            i <= m,
            prefix@ == "refs/heads/"@,
            m == prefix@.len(),
            n == git_ref@.len(),
            m <= n,
            forall|j: int| 0 <= j < i ==> git_ref@[j] == prefix@[j],
        decreases m - i,
    {
        if git_ref.get_char(i) != prefix.get_char(i) {
            proof {
                assert(git_ref@.subrange(0, m as int)[i as int] != prefix@[i as int]);
                assert(!"refs/heads/"@.is_prefix_of(git_ref@));
            }
            return String::from_str(git_ref);
        }
        i = i + 1;
    }
    proof {
        assert(prefix@ =~= git_ref@.subrange(0, m as int));
        assert(git_ref@.subrange(m as int, n as int) =~= git_ref@.skip(m as int));
    }
    String::from_str(git_ref.substring_char(m, n))
}

/// What the first decision makes of a `push` event: it needs a repository with an owner;
/// the pull requests looked at are those into or from the pushed branch.
pub open spec fn push_start_result(event: Option<WebhookEventInfo>, r: Flow<PushJob>) -> bool {
    match event {
        None => r == Flow::<PushJob>::Done(Outcome::Ignored(Notice::NoEvent)),
        Some(e) => match e.payload {
            EventPayload::Push { git_ref } => match e.repository {
                None => r == Flow::<PushJob>::Done(Outcome::Failed(HandlerError::RepositoryMissing)),
                Some(repo) => match repo.owner_login {
                    None => r == Flow::<PushJob>::Done(Outcome::Failed(HandlerError::OwnerMissing)),
                    Some(owner) => r matches Flow::Continue(job)
                        && job.repository.id == repo.id && job.repository.name == repo.name
                        && job.repository.owner == owner
                        && job.push_ref == git_ref
                        && job.branch@ == spec_branch_name(git_ref@)
                        && job.head_filter@ == owner@ + ":"@ + spec_branch_name(git_ref@),
                },
            },
            _ => r == Flow::<PushJob>::Done(Outcome::Ignored(Notice::OtherEvent)),
        },
    }
}

/// Takes the first decision on a `push` event, as `push_start_result` describes it.
pub fn push_start(event: Option<WebhookEventInfo>) -> (r: Flow<PushJob>)
    ensures
        push_start_result(event, r),
        r matches Flow::Continue(job) ==> {
            &&& event is Some
            &&& event->0.payload is Push
            &&& event->0.repository is Some
            &&& job.repository.id == event->0.repository->0.id
            &&& job.repository.name == event->0.repository->0.name
            &&& event->0.repository->0.owner_login == Some(job.repository.owner)
            &&& job.push_ref == event->0.payload->Push_git_ref
        },
{
    let e = match event {
        None => return Flow::Done(Outcome::Ignored(Notice::NoEvent)),
        Some(e) => e,
    };
    let push_ref = match e.payload {
        EventPayload::Push { git_ref } => git_ref,
        _ => return Flow::Done(Outcome::Ignored(Notice::OtherEvent)),
    };
    let repository = match repository_target(e.repository) {
        Ok(t) => t,
        Err(err) => return Flow::Done(Outcome::Failed(err)),
    };
    let branch = branch_name(push_ref.as_str());
    let mut head_filter = String::from_str(repository.owner.as_str());
    head_filter.append(":");
    head_filter.append(branch.as_str());
    Flow::Continue(PushJob { repository, push_ref, branch, head_filter })
}

/// The pull requests to look at: those with the pushed reference as base, then those with it as head.
pub fn push_pull_requests(base: Vec<PullInfo>, head: Vec<PullInfo>) -> (r: Vec<PullInfo>)
    ensures
        r@ == base@ + head@,
{
    let mut all = base;
    let mut rest = head;
    all.append(&mut rest);
    all
}

/// The message that an app comment with body `body` must be rewritten to after a push,
/// or `None` where it stays: a pull request that cannot be fast-forward merged shows the
/// warning, a mergeable one the unticked box; a merged one is left alone.
pub open spec fn spec_push_update(status: FastForwardStatus, body: Seq<char>) -> Option<BotMessage> {
    match status {
        FastForwardStatus::NotMergeable => if body == BotMessage::NotMergeable.spec_text() {
            None
        } else {
            Some(BotMessage::NotMergeable)
        },
        FastForwardStatus::Mergeable => if body == BotMessage::Unchecked.spec_text() {
            None
        } else {
            Some(BotMessage::Unchecked)
        },
        FastForwardStatus::Merged => None,
    }
}

/// The message that an app comment with body `body` must be rewritten to after a push, if any.
pub fn push_update(status: FastForwardStatus, body: &String) -> (r: Option<BotMessage>)
    ensures
        r == spec_push_update(status, body@),
{
    let needs_update = match status {
        FastForwardStatus::NotMergeable => *body != String::from_str(BotMessage::NotMergeable.text()),
        FastForwardStatus::Mergeable => *body != String::from_str(BotMessage::Unchecked.text()),
        FastForwardStatus::Merged => false,
    };
    if needs_update {
        match status {
            FastForwardStatus::NotMergeable => Some(BotMessage::NotMergeable),
            _ => Some(BotMessage::Unchecked),
        }
    } else {
        None
    }
}

/// The rewrite, if any, of comment `c` on a pull request with status `status`:
/// only the bot's own comments with a body are touched.
pub open spec fn spec_comment_update(
    repo_id: u64,
    bot_user_id: u64,
    status: FastForwardStatus,
    c: CommentInfo,
) -> Option<CommentUpdate> {
    if c.user_id == bot_user_id && c.body is Some {
        match spec_push_update(status, c.body->0@) {
            Some(m) => Some(CommentUpdate { repo_id, comment_id: c.id, body: m }),
            None => None,
        }
    } else {
        None
    }
}

/// The rewrites of the comments `comments`, in their order.
pub open spec fn spec_comment_updates(
    repo_id: u64,
    bot_user_id: u64,
    status: FastForwardStatus,
    comments: Seq<CommentInfo>,
) -> Seq<CommentUpdate>
    decreases comments.len(),
{
    if comments.len() == 0 {
        Seq::empty()
    } else {
        let earlier = spec_comment_updates(repo_id, bot_user_id, status, comments.drop_last());
        match spec_comment_update(repo_id, bot_user_id, status, comments.last()) {
            Some(u) => earlier.push(u),
            None => earlier,
        }
    }
}

/// The rewrites that a push calls for among the comments `comments` of a pull request in the
/// repository with id `repo_id`, whose head compares with its base as `compared`.
pub fn plan_comment_updates(
    repo_id: u64,
    bot_user_id: u64,
    compared: CompareStatus,
    comments: &Vec<CommentInfo>,
) -> (r: Vec<CommentUpdate>)
    ensures
        r@ == spec_comment_updates(repo_id, bot_user_id, spec_fast_forward_status(compared), comments@),
{
    let status = fast_forward_status(compared);
    let mut updates: Vec<CommentUpdate> = Vec::new();
    let n = comments.len();
    for i in 0..n
        invariant
            n == comments@.len(),
            updates@ == spec_comment_updates(repo_id, bot_user_id, status, comments@.take(i as int)),
    {
        let c = &comments[i];
        proof {
            assert(comments@.take(i + 1).drop_last() =~= comments@.take(i as int));
            assert(comments@.take(i + 1).last() == comments@[i as int]);
        }
        if c.user_id == bot_user_id {
            match &c.body {
                Some(body) => match push_update(status, body) {
                    Some(m) => updates.push(CommentUpdate { repo_id, comment_id: c.id, body: m }),
                    None => {},
                },
                None => {},
            }
        }
    }
    proof {
        assert(comments@.take(n as int) =~= comments@);
    }
    updates
}


/// The branch of `refs/heads/B` is `B`, for every `B`; a reference that does not start with
/// `refs/heads/` is its own branch name.
pub proof fn law_branch_name(branch: Seq<char>, git_ref: Seq<char>)
    ensures
        spec_branch_name("refs/heads/"@ + branch) == branch,
        !"refs/heads/"@.is_prefix_of(git_ref) ==> spec_branch_name(git_ref) == git_ref,
{
    let r = "refs/heads/"@ + branch;
    assert("refs/heads/"@ =~= r.subrange(0, "refs/heads/"@.len() as int));
    assert(r.skip("refs/heads/"@.len() as int) =~= branch);
}

} // verus!
