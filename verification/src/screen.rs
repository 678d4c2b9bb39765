//! What the screens show, as plain values: the texts, the list items, the
//! selection, and where the overlays go. Drawing them is left to the program.

use crate::app::{App, AppView};
use crate::model::{text_view, AddInputMode, Modal, ModalView};
use crate::text::{names_view, owned};
use vstd::prelude::*;
use vstd::string::*;

verus! {

/// A rectangle of terminal cells.
#[derive(Debug, Clone, Copy, PartialEq, Eq, Structural)]
pub struct Area {
    pub x: u16,
    pub y: u16,
    pub width: u16,
    pub height: u16,
}

/// `a + b`, or the largest value where the sum does not fit.
pub open spec fn capped_sum(a: u16, b: u16) -> u16 {
    if a + b > u16::MAX {
        u16::MAX
    } else {
        (a + b) as u16
    }
}

/// `a - b`, or zero where `b` is larger.
pub open spec fn floored_difference(a: u16, b: u16) -> u16 {
    if a < b {
        0
    } else {
        (a - b) as u16
    }
}

/// The first row below an area.
pub open spec fn bottom_of(area: Area) -> u16 {
    capped_sum(area.y, area.height)
}

/// The overlay of a dialog on a terminal of the given size: three quarters of
/// the width and two thirds of the height, an eighth in and a sixth down.
pub open spec fn modal_area_of(width: u16, height: u16) -> Area {
    Area {
        x: (width / 8) as u16,
        y: (height / 6) as u16,
        width: (width * 3 / 4) as u16,
        height: (height * 2 / 3) as u16,
    }
}

/// An area without its border of one cell on every side.
pub open spec fn inner_of(area: Area) -> Area {
    Area {
        x: capped_sum(area.x, 1),
        y: capped_sum(area.y, 1),
        width: floored_difference(area.width, 2),
        height: floored_difference(area.height, 2),
    }
}

/// The message box: the last three rows of an area.
pub open spec fn footer_of(area: Area) -> Area {
    Area { x: area.x, y: floored_difference(bottom_of(area), 3), width: area.width, height: 3 }
}

/// The place of the busy animation on the vault screen: one row near the
/// bottom of the inner area.
pub open spec fn spinner_of(inner: Area) -> Area {
    Area {
        x: capped_sum(inner.x, 2),
        y: floored_difference(bottom_of(inner), 2),
        width: 28,
        height: 1,
    }
}

/// The header of the secrets screen: the query while a search is typed, else
/// the name of the selected vault and the keys.
pub open spec fn header_text(s: AppView) -> Seq<char> {
    if s.search_mode {
        "🔍 Search: "@ + s.search_query + "_"@
    } else {
        "🔑 Azure Key Vault TUI"@ + (match s.current_vault {
            Some(vault) => " (Vault: "@ + vault.0 + ")"@,
            None => Seq::empty(),
        })
            + " — [q: quit] [v: vault] [/: search] [a: add] [e: edit] [d: delete] [r: refresh] [Enter: copy]"@
    }
}

/// The title of the vault screen: the query while a search is typed.
pub open spec fn vaults_title(s: AppView) -> Seq<char> {
    if s.vault_search_mode {
        "🔍 Search vaults: "@ + s.vault_search_query + "_"@
    } else {
        "🔐 Select an Azure Key Vault"@
    }
}

/// The text of a dialog.
pub open spec fn modal_text(modal: ModalView) -> Seq<char> {
    match modal {
        ModalView::Add { name, value, input_mode } => "Add Secret "@ + (match input_mode {
            AddInputMode::Name => "(typing name)"@,
            AddInputMode::Value => "(typing value)"@,
        }) + "\n\nName: "@ + name + "\nValue: "@ + value
            + "\n\nPress Enter to submit, Esc to cancel"@,
        ModalView::Edit { name, value } => "Edit Secret\n\nName: "@ + name + "\nValue: "@ + value
            + "\n\nPress Enter to save, Esc to cancel"@,
        ModalView::ConfirmDelete { name } => "Delete secret '"@ + name
            + "' ?\n\nPress 'y' to confirm, Esc to cancel"@,
    }
}

/// The title of a dialog.
pub open spec fn modal_title(modal: ModalView) -> Seq<char> {
    match modal {
        ModalView::Add { .. } => "Add Secret"@,
        ModalView::Edit { .. } => "Edit Secret"@,
        ModalView::ConfirmDelete { .. } => "Confirm Delete"@,
    }
}

/// The rows of the vault list: the names of the displayed vaults, or one row
/// that says that there are none.
pub open spec fn vault_rows(s: AppView) -> Seq<Seq<char>> {
    if s.displayed_vaults.len() == 0 {
        seq!["No vaults found yet..."@]
    } else {
        Seq::new(s.displayed_vaults.len(), |i: int| s.displayed_vaults[i].0)
    }
}

/// The highlighted row of the secrets list: the cursor, or none where the
/// list is empty.
pub open spec fn secret_selection(s: AppView) -> Option<usize> {
    if s.displayed_secrets.len() == 0 {
        None
    } else {
        Some(s.selected)
    }
}

/// The text of the message box: the message, or nothing.
pub open spec fn message_text(s: AppView) -> Seq<char> {
    match s.message {
        Some(text) => text,
        None => Seq::empty(),
    }
}

fn add_capped(a: u16, b: u16) -> (sum: u16)
    ensures
        sum == capped_sum(a, b),
{
    if a > u16::MAX - b {
        u16::MAX
    } else {
        a + b
    }
}

fn subtract_floored(a: u16, b: u16) -> (difference: u16)
    ensures
        difference == floored_difference(a, b),
{
    if a < b {
        0
    } else {
        a - b
    }
}

/// Where the overlay of a dialog goes on a terminal of the given size.
pub fn modal_area(width: u16, height: u16) -> (area: Area)
    ensures
        area == modal_area_of(width, height),
{
    let wide: u32 = width as u32 * 3 / 4;
    let high: u32 = height as u32 * 2 / 3;
    Area { x: width / 8, y: height / 6, width: wide as u16, height: high as u16 }
}

/// An area without its border.
pub fn inner_area(area: Area) -> (inner: Area)
    ensures
        inner == inner_of(area),
{
    Area {
        x: add_capped(area.x, 1),
        y: add_capped(area.y, 1),
        width: subtract_floored(area.width, 2),
        height: subtract_floored(area.height, 2),
    }
}

/// Where the message box goes in an area.
pub fn footer_area(area: Area) -> (footer: Area)
    ensures
        footer == footer_of(area),
{
    let bottom = add_capped(area.y, area.height);
    Area { x: area.x, y: subtract_floored(bottom, 3), width: area.width, height: 3 }
}

/// Where the busy animation goes on the vault screen.
pub fn spinner_area(inner: Area) -> (spinner: Area)
    ensures
        spinner == spinner_of(inner),
{
    let bottom = add_capped(inner.y, inner.height);
    Area { x: add_capped(inner.x, 2), y: subtract_floored(bottom, 2), width: 28, height: 1 }
}

/// The header of the secrets screen.
pub fn secrets_header(app: &App) -> (text: String)
    ensures
        text@ == header_text(app@),
{
    if app.search_mode {
        let mut text = owned("🔍 Search: ");
        text.append(app.search_query.as_str());
        text.append("_");
        text
    } else {
        let mut text = owned("🔑 Azure Key Vault TUI");
        match &app.current_vault {
            Some(vault) => {
                let ghost before = text@;
                text.append(" (Vault: ");
                text.append(vault.0.as_str());
                text.append(")");
                assert(text@ =~= before + (" (Vault: "@ + vault.0@ + ")"@));
            },
            None => {
                assert(text@ =~= text@ + Seq::<char>::empty());
            },
        }
        text.append(
            " — [q: quit] [v: vault] [/: search] [a: add] [e: edit] [d: delete] [r: refresh] [Enter: copy]",
        );
        text
    }
}

/// The title of the vault screen.
pub fn vault_screen_title(app: &App) -> (text: String)
    ensures
        text@ == vaults_title(app@),
{
    if app.vault_search_mode {
        let mut text = owned("🔍 Search vaults: ");
        text.append(app.vault_search_query.as_str());
        text.append("_");
        text
    } else {
        owned("🔐 Select an Azure Key Vault")
    }
}

/// The text of a dialog.
pub fn dialog_text(modal: &Modal) -> (text: String)
    ensures
        text@ == modal_text(modal@),
{
    match modal {
        Modal::Add { name, value, input_mode } => {
            let mut text = owned("Add Secret ");
            match input_mode {
                AddInputMode::Name => {
                    text.append("(typing name)");
                },
                AddInputMode::Value => {
                    text.append("(typing value)");
                },
            }
            text.append("\n\nName: ");
            text.append(name.as_str());
            text.append("\nValue: ");
            text.append(value.as_str());
            text.append("\n\nPress Enter to submit, Esc to cancel");
            text
        },
        Modal::Edit { name, value } => {
            let mut text = owned("Edit Secret\n\nName: ");
            text.append(name.as_str());
            text.append("\nValue: ");
            text.append(value.as_str());
            text.append("\n\nPress Enter to save, Esc to cancel");
            text
        },
        Modal::ConfirmDelete { name } => {
            let mut text = owned("Delete secret '");
            text.append(name.as_str());
            text.append("' ?\n\nPress 'y' to confirm, Esc to cancel");
            text
        },
    }
}

/// The title of a dialog.
pub fn dialog_title(modal: &Modal) -> (text: String)
    ensures
        text@ == modal_title(modal@),
{
    match modal {
        Modal::Add { .. } => owned("Add Secret"),
        Modal::Edit { .. } => owned("Edit Secret"),
        Modal::ConfirmDelete { .. } => owned("Confirm Delete"),
    }
}

/// The rows of the vault list.
pub fn vault_list_rows(app: &App) -> (rows: Vec<String>)
    ensures
        names_view(rows@) == vault_rows(app@),
{
    let mut rows: Vec<String> = Vec::new();
    if app.displayed_vaults.len() == 0 {
        rows.push(owned("No vaults found yet..."));
        assert(names_view(rows@) =~= vault_rows(app@));
    } else {
        let mut i: usize = 0;
        while i < app.displayed_vaults.len()
            invariant
                i <= app.displayed_vaults.len(),
                rows@.len() == i,
                forall|k: int| 0 <= k < i ==> (#[trigger] rows@[k])@ == app.displayed_vaults@[k].0@,
            decreases app.displayed_vaults.len() - i,
        {
            rows.push(app.displayed_vaults[i].0.clone());
            i += 1;
        }
        assert(names_view(rows@) =~= vault_rows(app@));
    }
    rows
}

/// The highlighted row of the secrets list.
pub fn selected_row(app: &App) -> (row: Option<usize>)
    ensures
        row == secret_selection(app@),
{
    assert(app@.displayed_secrets.len() == app.displayed_secrets@.len());
    if app.displayed_secrets.len() == 0 {
        None
    } else {
        Some(app.selected)
    }
}

/// The text of the message box.
pub fn footer_text(app: &App) -> (text: String)
    ensures
        text@ == message_text(app@),
        text_view(app.message).is_none() ==> text@.len() == 0,
{
    match &app.message {
        Some(message) => message.clone(),
        None => String::new(),
    }
}

} // verus!
