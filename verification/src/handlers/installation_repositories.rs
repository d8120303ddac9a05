//! `installation_repositories` events: repositories were added to or removed from the app's installation.

use vstd::prelude::*;

use crate::events::{EventPayload, WebhookEventInfo};

verus! {

/// What an `installation_repositories` event reports.
pub enum InstallationRepositoriesReport {
    /// The delivery carried no event.
    NoEvent,
    /// The event is not an `installation_repositories` event.
    OtherEvent,
    /// These repositories (full names) were added, then these removed, in the event's order.
    Changed { added: Vec<String>, removed: Vec<String> },
}

/// What an `installation_repositories` event reports. The handler succeeds in every case.
pub fn installation_repositories_report(event: Option<WebhookEventInfo>) -> (r: InstallationRepositoriesReport)
    ensures
        match event {
            None => r is NoEvent,
            Some(e) => match e.payload {
                EventPayload::InstallationRepositories { added, removed } =>
                    r matches InstallationRepositoriesReport::Changed { added: a, removed: b }
                        && a@ == added@ && b@ == removed@,
                _ => r is OtherEvent,
            },
        },
{
    match event {
        None => InstallationRepositoriesReport::NoEvent,
        Some(e) => match e.payload {
            EventPayload::InstallationRepositories { added, removed } =>
                InstallationRepositoriesReport::Changed { added, removed },
            _ => InstallationRepositoriesReport::OtherEvent,
        },
    }
}

} // verus!
