//! `installation` events: the app was installed.

use vstd::prelude::*;

use crate::events::{EventPayload, WebhookEventInfo};

verus! {

/// What an `installation` event reports.
pub enum InstallationReport {
    /// The delivery carried no event.
    NoEvent,
    /// The event is not an installation event.
    OtherEvent,
    /// The installation event lists no repositories.
    NoRepositories,
    /// The app was installed in the repositories with these full names, in the event's order.
    Installed { repositories: Vec<String> },
}

/// What an `installation` event reports. The handler succeeds in every case.
pub fn installation_report(event: Option<WebhookEventInfo>) -> (r: InstallationReport)
    ensures
        match event {
            None => r is NoEvent,
            Some(e) => match e.payload {
                EventPayload::Installation { repositories } => match repositories {
                    None => r is NoRepositories,
                    Some(names) => r matches InstallationReport::Installed { repositories }
                        && repositories@ == names@,
                },
                _ => r is OtherEvent,
            },
        },
{
    match event {
        None => InstallationReport::NoEvent,
        Some(e) => match e.payload {
            EventPayload::Installation { repositories } => match repositories {
                None => InstallationReport::NoRepositories,
                Some(names) => InstallationReport::Installed { repositories: names },
            },
            _ => InstallationReport::OtherEvent,
        },
    }
}

} // verus!
