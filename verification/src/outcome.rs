//! What is said about background work once it has ended: the status text of a
//! write that went through, the status text of work that failed, and how the
//! listing behind a command reports.
//!
//! Every piece of background work ends with one report. Where it failed, the
//! report is a status text, except for a preload, whose failures are logged
//! and never shown.

use crate::listing::ListingMode;
use crate::model::{text_view, Command, CommandView};
use crate::text::{join3, owned};
use vstd::prelude::*;

verus! {

/// Where a piece of background work failed.
#[derive(Debug, Clone, Copy, PartialEq, Eq, Structural)]
pub enum Stage {
    /// Before the request was made: it could not be put together.
    Prepare,
    /// The request itself: the client could not be made or the call failed.
    Call,
    /// After the request: the response could not be read.
    Read,
}

/// How the listing that carries out a command reports: in batches for a
/// listing that the screen waits for, once in full after a write, and for the
/// cache alone in a preload. Other commands list nothing.
pub open spec fn listing_mode_of(command: CommandView) -> Option<ListingMode> {
    match command {
        CommandView::ListIncremental { .. } => Some(ListingMode::Incremental),
        CommandView::ListFull { .. } => Some(ListingMode::Full),
        CommandView::PreloadVaults { .. } => Some(ListingMode::Silent),
        _ => None,
    }
}

/// The words that open the status text of a command that failed at `stage`;
/// `None` for a command whose failure is not shown.
pub open spec fn failure_lead(command: CommandView, stage: Stage) -> Option<Seq<char>> {
    match command {
        CommandView::Quit => None,
        CommandView::CopyToClipboard { .. } => None,
        CommandView::PreloadVaults { .. } => None,
        CommandView::RefreshToken => Some("Failed to refresh token: "@),
        CommandView::DiscoverVaults => Some("Vault discovery failed: "@),
        CommandView::ListIncremental { refresh, .. } => if refresh {
            Some("Refresh error: "@)
        } else {
            Some("Failed to list secrets: "@)
        },
        CommandView::ListFull { .. } => Some("Failed to list secrets: "@),
        CommandView::SetSecret { created, .. } => if stage == Stage::Prepare {
            Some("Failed to prepare secret params: "@)
        } else if created {
            Some("Failed to set secret: "@)
        } else {
            Some("Failed to update secret: "@)
        },
        CommandView::DeleteSecret { .. } => Some("Failed to delete: "@),
        CommandView::FetchForEdit { .. } => if stage == Stage::Read {
            Some("Failed to parse secret for edit: "@)
        } else {
            Some("Failed to get secret for edit: "@)
        },
        CommandView::FetchValue { .. } => if stage == Stage::Read {
            Some("Failed to read secret value: "@)
        } else {
            Some("Failed to get secret: "@)
        },
    }
}

/// The status text of a command that failed at `stage` with `error`: its
/// lead followed by the error; `None` for a command whose failure is not
/// shown.
pub open spec fn failure_text_of(command: CommandView, stage: Stage, error: Seq<char>) -> Option<
    Seq<char>,
> {
    match failure_lead(command, stage) {
        Some(lead) => Some(lead + error),
        None => None,
    }
}

/// The status text of a write that went through; `None` for a command that
/// writes nothing.
pub open spec fn success_text_of(command: CommandView) -> Option<Seq<char>> {
    match command {
        CommandView::SetSecret { name, created, .. } => if created {
            Some("Secret '"@ + name + "' created/updated"@)
        } else {
            Some("Secret '"@ + name + "' updated"@)
        },
        CommandView::DeleteSecret { name, .. } => Some("Deleted '"@ + name + "'. (soft-delete)"@),
        _ => None,
    }
}

/// How the listing that carries out a command reports.
pub fn listing_mode(command: &Command) -> (mode: Option<ListingMode>)
    ensures
        mode == listing_mode_of(command@),
{
    match command {
        Command::ListIncremental { .. } => Some(ListingMode::Incremental),
        Command::ListFull { .. } => Some(ListingMode::Full),
        Command::PreloadVaults { .. } => Some(ListingMode::Silent),
        _ => None,
    }
}

/// The words that open the status text of a failed command.
fn lead_of(command: &Command, stage: Stage) -> (lead: Option<String>)
    ensures
        text_view(lead) == failure_lead(command@, stage),
{
    match command {
        Command::Quit => None,
        Command::CopyToClipboard { .. } => None,
        Command::PreloadVaults { .. } => None,
        Command::RefreshToken => Some(owned("Failed to refresh token: ")),
        Command::DiscoverVaults => Some(owned("Vault discovery failed: ")),
        Command::ListIncremental { refresh, .. } => {
            if *refresh {
                Some(owned("Refresh error: "))
            } else {
                Some(owned("Failed to list secrets: "))
            }
        },
        Command::ListFull { .. } => Some(owned("Failed to list secrets: ")),
        Command::SetSecret { created, .. } => {
            match stage {
                Stage::Prepare => Some(owned("Failed to prepare secret params: ")),
                _ => {
                    if *created {
                        Some(owned("Failed to set secret: "))
                    } else {
                        Some(owned("Failed to update secret: "))
                    }
                },
            }
        },
        Command::DeleteSecret { .. } => Some(owned("Failed to delete: ")),
        Command::FetchForEdit { .. } => {
            match stage {
                Stage::Read => Some(owned("Failed to parse secret for edit: ")),
                _ => Some(owned("Failed to get secret for edit: ")),
            }
        },
        Command::FetchValue { .. } => {
            match stage {
                Stage::Read => Some(owned("Failed to read secret value: ")),
                _ => Some(owned("Failed to get secret: ")),
            }
        },
    }
}

/// The status text to report for a command that failed at `stage` with
/// `error`, or `None` where the failure is not to be shown.
pub fn failure_text(command: &Command, stage: Stage, error: &str) -> (text: Option<String>)
    ensures
        text_view(text) == failure_text_of(command@, stage, error@),
{
    match lead_of(command, stage) {
        Some(lead) => {
            let mut text = lead;
            text.append(error);
            Some(text)
        },
        None => None,
    }
}

/// The status text to report for a write that went through, or `None` for a
/// command that writes nothing.
pub fn success_text(command: &Command) -> (text: Option<String>)
    ensures
        text_view(text) == success_text_of(command@),
{
    match command {
        Command::SetSecret { name, created, .. } => {
            if *created {
                Some(join3("Secret '", name.as_str(), "' created/updated"))
            } else {
                Some(join3("Secret '", name.as_str(), "' updated"))
            }
        },
        Command::DeleteSecret { name, .. } => Some(
            join3("Deleted '", name.as_str(), "'. (soft-delete)"),
        ),
        _ => None,
    }
}

} // verus!
