use pureff::events::{
    CommentAction, CommentInfo, EventPayload, IssueCommentPayload, IssueInfo, PullInfo,
    PullRequestPayload, RepositoryInfo, WebhookEventInfo,
};
use pureff::fast_forward::{CompareStatus, FastForwardStatus};
use pureff::handlers::github_app_authorization::{github_app_authorization_report, AuthorizationReport};
use pureff::handlers::installation::{installation_report, InstallationReport};
use pureff::handlers::installation_repositories::{
    installation_repositories_report, InstallationRepositoriesReport,
};
use pureff::handlers::issue_comment::{
    comment_reaction, is_bot_comment_on_open_pr, issue_comment_plan, issue_comment_start, CommentPlan,
    CommentReaction,
};
use pureff::handlers::pull_request::{initial_comment, pull_request_comment, pull_request_start, NewComment};
use pureff::handlers::push::{branch_name, plan_comment_updates, push_pull_requests, push_start, push_update};
use pureff::handlers::{repository_target, CommentUpdate, ErrorNote, Flow, HandlerError, Notice, Outcome};
use pureff::messages::{BotMessage, CHECKED, MERGED, NOT_MERGEABLE, UNCHECKED};

const BOT: u64 = 4242;

fn repo(owner: Option<&str>) -> RepositoryInfo {
    RepositoryInfo {
        id: 77,
        name: "hello".to_string(),
        full_name: Some("octo/hello".to_string()),
        owner_login: owner.map(|o| o.to_string()),
    }
}

fn pull(number: u64) -> PullInfo {
    PullInfo {
        number,
        title: Some("Add feature".to_string()),
        base_ref: "main".to_string(),
        head_ref: "feature".to_string(),
        head_sha: "deadbeef".to_string(),
    }
}

fn comment_event(action: CommentAction, user: u64, is_pr: bool, open: bool, body: Option<&str>) -> WebhookEventInfo {
    WebhookEventInfo {
        repository: Some(repo(Some("octo"))),
        payload: EventPayload::IssueComment(IssueCommentPayload {
            action,
            comment: CommentInfo { id: 9, user_id: user, body: body.map(|b| b.to_string()) },
            issue: IssueInfo {
                number: 5,
                is_pull_request: is_pr,
                is_open: open,
                html_url: "https://github.com/octo/hello/pull/5".to_string(),
            },
        }),
    }
}

fn outcome<T>(flow: Flow<T>) -> Option<Outcome> {
    match flow {
        Flow::Continue(_) => None,
        Flow::Done(o) => Some(o),
    }
}

#[test]
fn authorization_reports() {
    assert!(matches!(github_app_authorization_report(None), AuthorizationReport::NoEvent));
    let no_repo = WebhookEventInfo { repository: None, payload: EventPayload::Other };
    assert!(matches!(github_app_authorization_report(Some(no_repo)), AuthorizationReport::NoRepository));
    let mut r = repo(Some("octo"));
    r.full_name = None;
    let no_name = WebhookEventInfo { repository: Some(r), payload: EventPayload::Other };
    assert!(matches!(github_app_authorization_report(Some(no_name)), AuthorizationReport::NoFullName));
    let full = WebhookEventInfo { repository: Some(repo(Some("octo"))), payload: EventPayload::Other };
    match github_app_authorization_report(Some(full)) {
        AuthorizationReport::Revoked { full_name } => assert_eq!(full_name, "octo/hello"),
        _ => panic!("expected a revocation"),
    }
}

#[test]
fn installation_reports() {
    assert!(matches!(installation_report(None), InstallationReport::NoEvent));
    let other = WebhookEventInfo { repository: None, payload: EventPayload::Other };
    assert!(matches!(installation_report(Some(other)), InstallationReport::OtherEvent));
    let none = WebhookEventInfo { repository: None, payload: EventPayload::Installation { repositories: None } };
    assert!(matches!(installation_report(Some(none)), InstallationReport::NoRepositories));
    let some = WebhookEventInfo {
        repository: None,
        payload: EventPayload::Installation { repositories: Some(vec!["a/b".to_string(), "c/d".to_string()]) },
    };
    match installation_report(Some(some)) {
        InstallationReport::Installed { repositories } => assert_eq!(repositories, vec!["a/b", "c/d"]),
        _ => panic!("expected an installation"),
    }
}

#[test]
fn installation_repositories_reports() {
    assert!(matches!(installation_repositories_report(None), InstallationRepositoriesReport::NoEvent));
    let other = WebhookEventInfo { repository: None, payload: EventPayload::Push { git_ref: "x".to_string() } };
    assert!(matches!(installation_repositories_report(Some(other)), InstallationRepositoriesReport::OtherEvent));
    let changed = WebhookEventInfo {
        repository: None,
        payload: EventPayload::InstallationRepositories {
            added: vec!["a/b".to_string()],
            removed: vec!["c/d".to_string(), "e/f".to_string()],
        },
    };
    match installation_repositories_report(Some(changed)) {
        InstallationRepositoriesReport::Changed { added, removed } => {
            assert_eq!(added, vec!["a/b"]);
            assert_eq!(removed, vec!["c/d", "e/f"]);
        },
        _ => panic!("expected a change"),
    }
}

#[test]
fn repository_target_needs_repository_and_owner() {
    assert!(matches!(repository_target(None), Err(HandlerError::RepositoryMissing)));
    assert!(matches!(repository_target(Some(repo(None))), Err(HandlerError::OwnerMissing)));
    let t = repository_target(Some(repo(Some("octo")))).ok().unwrap();
    assert_eq!((t.id, t.name.as_str(), t.owner.as_str()), (77, "hello", "octo"));
    assert_eq!(HandlerError::RepositoryMissing.message(), "Repository information missing from event");
    assert_eq!(HandlerError::OwnerMissing.message(), "Owner information missing from repository");
}

#[test]
fn error_notes() {
    assert_eq!(ErrorNote::FetchPullRequest.text(), "Failed to fetch pull request");
    assert_eq!(ErrorNote::CheckMergeable.text(), "Failed to check if PR is mergeable");
    assert_eq!(ErrorNote::MergePullRequest.text(), "Failed to fast-forward merge PR");
    assert_eq!(ErrorNote::UpdateComment.text(), "Failed to update comment");
}

#[test]
fn bot_comment_on_open_pr() {
    assert!(is_bot_comment_on_open_pr(BOT, true, true, BOT));
    assert!(!is_bot_comment_on_open_pr(BOT + 1, true, true, BOT));
    assert!(!is_bot_comment_on_open_pr(BOT, false, true, BOT));
    assert!(!is_bot_comment_on_open_pr(BOT, true, false, BOT));
}

#[test]
fn issue_comment_start_filters() {
    assert_eq!(outcome(issue_comment_start(None, BOT)), Some(Outcome::Ignored(Notice::NoEvent)));
    let other = WebhookEventInfo { repository: None, payload: EventPayload::Other };
    assert_eq!(outcome(issue_comment_start(Some(other), BOT)), Some(Outcome::Ignored(Notice::OtherEvent)));
    let created = comment_event(CommentAction::Created, BOT, true, true, Some(CHECKED));
    assert_eq!(outcome(issue_comment_start(Some(created), BOT)), Some(Outcome::Ignored(Notice::NotEdited)));
    let by_user = comment_event(CommentAction::Edited, 1, true, true, Some(CHECKED));
    assert_eq!(
        outcome(issue_comment_start(Some(by_user), BOT)),
        Some(Outcome::Ignored(Notice::NotBotCommentOnOpenPullRequest))
    );
    let on_issue = comment_event(CommentAction::Edited, BOT, false, true, Some(CHECKED));
    assert_eq!(
        outcome(issue_comment_start(Some(on_issue), BOT)),
        Some(Outcome::Ignored(Notice::NotBotCommentOnOpenPullRequest))
    );
    let closed = comment_event(CommentAction::Edited, BOT, true, false, Some(CHECKED));
    assert_eq!(
        outcome(issue_comment_start(Some(closed), BOT)),
        Some(Outcome::Ignored(Notice::NotBotCommentOnOpenPullRequest))
    );
    let mut no_repo = comment_event(CommentAction::Edited, BOT, true, true, Some(CHECKED));
    no_repo.repository = None;
    assert_eq!(
        outcome(issue_comment_start(Some(no_repo), BOT)),
        Some(Outcome::Failed(HandlerError::RepositoryMissing))
    );
    let mut no_owner = comment_event(CommentAction::Edited, BOT, true, true, Some(CHECKED));
    no_owner.repository = Some(repo(None));
    assert_eq!(
        outcome(issue_comment_start(Some(no_owner), BOT)),
        Some(Outcome::Failed(HandlerError::OwnerMissing))
    );
}

#[test]
fn issue_comment_start_goes_on() {
    let event = comment_event(CommentAction::Edited, BOT, true, true, Some(CHECKED));
    match issue_comment_start(Some(event), BOT) {
        Flow::Continue(job) => {
            assert_eq!(job.repository.id, 77);
            assert_eq!(job.repository.owner, "octo");
            assert_eq!(job.repository.name, "hello");
            assert_eq!(job.comment_id, 9);
            assert_eq!(job.pr_number, 5);
            assert_eq!(job.pr_url, "https://github.com/octo/hello/pull/5");
            assert_eq!(job.body, CHECKED);
        },
        Flow::Done(_) => panic!("expected the handler to go on"),
    }
    let empty = comment_event(CommentAction::Edited, BOT, true, true, None);
    match issue_comment_start(Some(empty), BOT) {
        Flow::Continue(job) => assert_eq!(job.body, ""),
        Flow::Done(_) => panic!("expected the handler to go on"),
    }
}

#[test]
fn comment_reactions() {
    let s = |t: &str| t.to_string();
    assert_eq!(comment_reaction(FastForwardStatus::NotMergeable, &s(NOT_MERGEABLE)), CommentReaction::Keep);
    assert_eq!(
        comment_reaction(FastForwardStatus::NotMergeable, &s(CHECKED)),
        CommentReaction::Rewrite(BotMessage::NotMergeable)
    );
    assert_eq!(comment_reaction(FastForwardStatus::Mergeable, &s(CHECKED)), CommentReaction::Merge);
    assert_eq!(comment_reaction(FastForwardStatus::Mergeable, &s(UNCHECKED)), CommentReaction::Keep);
    assert_eq!(
        comment_reaction(FastForwardStatus::Mergeable, &s("hand-edited")),
        CommentReaction::Rewrite(BotMessage::Unchecked)
    );
    assert_eq!(
        comment_reaction(FastForwardStatus::Mergeable, &s(MERGED)),
        CommentReaction::Rewrite(BotMessage::Unchecked)
    );
    assert_eq!(comment_reaction(FastForwardStatus::Merged, &s(CHECKED)), CommentReaction::Keep);
    assert_eq!(comment_reaction(FastForwardStatus::Merged, &s("anything")), CommentReaction::Keep);
}

#[test]
fn issue_comment_plans() {
    let event = comment_event(CommentAction::Edited, BOT, true, true, Some(CHECKED));
    let job = match issue_comment_start(Some(event), BOT) {
        Flow::Continue(job) => job,
        Flow::Done(_) => panic!("expected the handler to go on"),
    };
    let pr = pull(5);
    match issue_comment_plan(&job, &pr, CompareStatus::Ahead) {
        CommentPlan::Merge { update, mark } => {
            assert_eq!(update.endpoint, "/repos/octo/hello/git/refs/heads/main");
            assert_eq!(update.sha, "deadbeef");
            assert!(!update.force);
            assert_eq!(mark, CommentUpdate { repo_id: 77, comment_id: 9, body: BotMessage::Merged });
        },
        _ => panic!("expected a merge"),
    }
    match issue_comment_plan(&job, &pr, CompareStatus::Diverged) {
        CommentPlan::Rewrite(u) => {
            assert_eq!(u, CommentUpdate { repo_id: 77, comment_id: 9, body: BotMessage::NotMergeable })
        },
        _ => panic!("expected a rewrite"),
    }
    assert!(matches!(issue_comment_plan(&job, &pr, CompareStatus::Identical), CommentPlan::Keep));
    assert!(matches!(issue_comment_plan(&job, &pr, CompareStatus::Behind), CommentPlan::Keep));
}

#[test]
fn rewritten_comment_is_kept() {
    for status in [FastForwardStatus::Mergeable, FastForwardStatus::NotMergeable, FastForwardStatus::Merged] {
        for body in ["edited by hand", UNCHECKED, CHECKED, MERGED, NOT_MERGEABLE, ""] {
            if let CommentReaction::Rewrite(m) = comment_reaction(status, &body.to_string()) {
                assert_eq!(comment_reaction(status, &m.text().to_string()), CommentReaction::Keep);
                assert_eq!(push_update(status, &m.text().to_string()), None);
            }
            if let Some(m) = push_update(status, &body.to_string()) {
                assert_eq!(push_update(status, &m.text().to_string()), None);
                assert_eq!(comment_reaction(status, &m.text().to_string()), CommentReaction::Keep);
            }
        }
    }
}

fn pr_event(opened: bool, repository: Option<RepositoryInfo>) -> WebhookEventInfo {
    WebhookEventInfo {
        repository,
        payload: EventPayload::PullRequest(PullRequestPayload { opened, pull_request: pull(12) }),
    }
}

#[test]
fn pull_request_start_filters() {
    assert_eq!(outcome(pull_request_start(None)), Some(Outcome::Ignored(Notice::NoEvent)));
    let other = WebhookEventInfo { repository: Some(repo(Some("octo"))), payload: EventPayload::Other };
    assert_eq!(outcome(pull_request_start(Some(other))), Some(Outcome::Ignored(Notice::OtherEvent)));
    assert_eq!(
        outcome(pull_request_start(Some(pr_event(false, None)))),
        Some(Outcome::Failed(HandlerError::RepositoryMissing))
    );
    assert_eq!(
        outcome(pull_request_start(Some(pr_event(true, Some(repo(None)))))),
        Some(Outcome::Failed(HandlerError::OwnerMissing))
    );
    assert_eq!(
        outcome(pull_request_start(Some(pr_event(false, Some(repo(Some("octo"))))))),
        Some(Outcome::Ignored(Notice::NotOpened))
    );
}

#[test]
fn opened_pull_request_gets_comment() {
    let job = match pull_request_start(Some(pr_event(true, Some(repo(Some("octo")))))) {
        Flow::Continue(job) => job,
        Flow::Done(_) => panic!("expected the handler to go on"),
    };
    assert_eq!((job.number, job.base_ref.as_str(), job.head_ref.as_str()), (12, "main", "feature"));
    assert_eq!(job.repository.owner, "octo");
    assert_eq!(
        pull_request_comment(&job, CompareStatus::Ahead),
        NewComment { repo_id: 77, issue_number: 12, body: BotMessage::Unchecked }
    );
    assert_eq!(pull_request_comment(&job, CompareStatus::Identical).body, BotMessage::Unchecked);
    assert_eq!(pull_request_comment(&job, CompareStatus::Behind).body, BotMessage::Unchecked);
    assert_eq!(pull_request_comment(&job, CompareStatus::Diverged).body, BotMessage::NotMergeable);
    assert_eq!(initial_comment(FastForwardStatus::Merged), BotMessage::Unchecked);
    for status in [FastForwardStatus::Mergeable, FastForwardStatus::NotMergeable, FastForwardStatus::Merged] {
        let text = initial_comment(status).text().to_string();
        assert_eq!(push_update(status, &text), None);
        assert_eq!(comment_reaction(status, &text), CommentReaction::Keep);
    }
}

#[test]
fn push_start_builds_head_filter() {
    assert_eq!(outcome(push_start(None)), Some(Outcome::Ignored(Notice::NoEvent)));
    let other = WebhookEventInfo { repository: None, payload: EventPayload::Other };
    assert_eq!(outcome(push_start(Some(other))), Some(Outcome::Ignored(Notice::OtherEvent)));
    let no_repo = WebhookEventInfo { repository: None, payload: EventPayload::Push { git_ref: "main".to_string() } };
    assert_eq!(outcome(push_start(Some(no_repo))), Some(Outcome::Failed(HandlerError::RepositoryMissing)));
    let no_owner =
        WebhookEventInfo { repository: Some(repo(None)), payload: EventPayload::Push { git_ref: "main".to_string() } };
    assert_eq!(outcome(push_start(Some(no_owner))), Some(Outcome::Failed(HandlerError::OwnerMissing)));
    let push = WebhookEventInfo {
        repository: Some(repo(Some("octo"))),
        payload: EventPayload::Push { git_ref: "refs/heads/main".to_string() },
    };
    match push_start(Some(push)) {
        Flow::Continue(job) => {
            assert_eq!(job.push_ref, "refs/heads/main");
            assert_eq!(job.branch, "main");
            assert_eq!(job.head_filter, "octo:main");
            assert_eq!(job.repository.id, 77);
        },
        Flow::Done(_) => panic!("expected the handler to go on"),
    }
}

#[test]
fn push_looks_at_base_then_head_pull_requests() {
    let all = push_pull_requests(vec![pull(1), pull(2)], vec![pull(3)]);
    assert_eq!(all.iter().map(|p| p.number).collect::<Vec<_>>(), vec![1, 2, 3]);
    assert!(push_pull_requests(vec![], vec![]).is_empty());
}

#[test]
fn push_updates() {
    let s = |t: &str| t.to_string();
    assert_eq!(push_update(FastForwardStatus::NotMergeable, &s(UNCHECKED)), Some(BotMessage::NotMergeable));
    assert_eq!(push_update(FastForwardStatus::NotMergeable, &s(NOT_MERGEABLE)), None);
    assert_eq!(push_update(FastForwardStatus::Mergeable, &s(NOT_MERGEABLE)), Some(BotMessage::Unchecked));
    assert_eq!(push_update(FastForwardStatus::Mergeable, &s(CHECKED)), Some(BotMessage::Unchecked));
    assert_eq!(push_update(FastForwardStatus::Mergeable, &s(MERGED)), Some(BotMessage::Unchecked));
    assert_eq!(push_update(FastForwardStatus::Mergeable, &s(UNCHECKED)), None);
    assert_eq!(push_update(FastForwardStatus::Merged, &s(NOT_MERGEABLE)), None);
}

#[test]
fn push_plans_only_bot_comments() {
    let comments = vec![
        CommentInfo { id: 1, user_id: BOT, body: Some(UNCHECKED.to_string()) },
        CommentInfo { id: 2, user_id: 7, body: Some("looks good".to_string()) },
        CommentInfo { id: 3, user_id: BOT, body: None },
        CommentInfo { id: 4, user_id: BOT, body: Some(NOT_MERGEABLE.to_string()) },
        CommentInfo { id: 5, user_id: BOT, body: Some("edited".to_string()) },
    ];
    assert_eq!(
        plan_comment_updates(77, BOT, CompareStatus::Diverged, &comments),
        vec![
            CommentUpdate { repo_id: 77, comment_id: 1, body: BotMessage::NotMergeable },
            CommentUpdate { repo_id: 77, comment_id: 5, body: BotMessage::NotMergeable },
        ]
    );
    assert_eq!(
        plan_comment_updates(77, BOT, CompareStatus::Ahead, &comments),
        vec![
            CommentUpdate { repo_id: 77, comment_id: 4, body: BotMessage::Unchecked },
            CommentUpdate { repo_id: 77, comment_id: 5, body: BotMessage::Unchecked },
        ]
    );
    assert!(plan_comment_updates(77, BOT, CompareStatus::Identical, &comments).is_empty());
    assert!(plan_comment_updates(77, BOT, CompareStatus::Ahead, &vec![]).is_empty());
}

#[test]
fn branch_name_strips_heads_prefix() {
    assert_eq!(branch_name("refs/heads/main"), "main");
    assert_eq!(branch_name("refs/heads/feature/x"), "feature/x");
    assert_eq!(branch_name("refs/heads/"), "");
    assert_eq!(branch_name("refs/tags/v1"), "refs/tags/v1");
    assert_eq!(branch_name("main"), "main");
    assert_eq!(branch_name("refs/head"), "refs/head");
    assert_eq!(branch_name(""), "");
}

#[test]
fn push_to_tag_keeps_the_reference() {
    let push = WebhookEventInfo {
        repository: Some(repo(Some("octo"))),
        payload: EventPayload::Push { git_ref: "refs/tags/v1".to_string() },
    };
    match push_start(Some(push)) {
        Flow::Continue(job) => {
            assert_eq!(job.branch, "refs/tags/v1");
            assert_eq!(job.head_filter, "octo:refs/tags/v1");
        },
        Flow::Done(_) => panic!("expected the handler to go on"),
    }
}
