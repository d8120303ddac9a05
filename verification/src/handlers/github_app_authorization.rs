//! `github_app_authorization` events: a user revoked the app's authorization.

use vstd::prelude::*;

use crate::events::WebhookEventInfo;

verus! {

/// What a `github_app_authorization` event reports.
pub enum AuthorizationReport {
    /// The delivery carried no event.
    NoEvent,
    /// The event names no repository.
    NoRepository,
    /// The event's repository has no full name.
    NoFullName,
    /// The authorization was revoked from the repository with this full name.
    Revoked { full_name: String },
}

/// What a `github_app_authorization` event reports. The handler succeeds in every case.
pub fn github_app_authorization_report(event: Option<WebhookEventInfo>) -> (r: AuthorizationReport)
    ensures
        match event {
            None => r is NoEvent,
            Some(e) => match e.repository {
                None => r is NoRepository,
                Some(repo) => match repo.full_name {
                    None => r is NoFullName,
                    Some(name) => r == AuthorizationReport::Revoked { full_name: name },
                },
            },
        },
{
    match event {
        None => AuthorizationReport::NoEvent,
        Some(e) => match e.repository {
            None => AuthorizationReport::NoRepository,
            Some(repo) => match repo.full_name {
                None => AuthorizationReport::NoFullName,
                Some(full_name) => AuthorizationReport::Revoked { full_name },
            },
        },
    }
}

} // verus!
