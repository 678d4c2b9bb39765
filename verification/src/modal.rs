//! Key handling while a dialog is open. An open dialog takes every key press
//! before the screen below it sees any.

use crate::app::{App, AppView};
use crate::model::{vault_view, AddInputMode, Command, CommandView, Key, Modal, ModalView};
use crate::text::{owned, pop_char, push_char};
use vstd::prelude::*;

verus! {

/// The view of a command that may be absent.
pub open spec fn command_view(command: Option<Command>) -> Option<CommandView> {
    match command {
        Some(c) => Some(c@),
        None => None,
    }
}

/// A text without its last character; the empty text stays empty.
pub open spec fn without_last(text: Seq<char>) -> Seq<char> {
    if text.len() > 0 {
        text.drop_last()
    } else {
        text
    }
}

/// The other field of the add dialog.
pub open spec fn other_field(mode: AddInputMode) -> AddInputMode {
    match mode {
        AddInputMode::Name => AddInputMode::Value,
        AddInputMode::Value => AddInputMode::Name,
    }
}

/// The state with the given add dialog open.
pub open spec fn with_add(s: AppView, name: Seq<char>, value: Seq<char>, mode: AddInputMode) -> AppView {
    AppView { modal: Some(ModalView::Add { name, value, input_mode: mode }), ..s }
}

/// The state with the given edit dialog open.
pub open spec fn with_edit(s: AppView, name: Seq<char>, value: Seq<char>) -> AppView {
    AppView { modal: Some(ModalView::Edit { name, value }), ..s }
}

/// The state with the dialog closed, busy, and a progress text shown.
pub open spec fn dispatched(s: AppView, progress: Seq<char>) -> AppView {
    AppView { modal: None, loading: true, message: Some(progress), ..s }
}

/// A key press in the add dialog. Tab changes the field, characters and
/// Backspace edit the field in focus, Esc closes the dialog. Enter asks for a
/// name and for a selected vault, and then closes the dialog and has the secret
/// written.
pub open spec fn add_step(
    s: AppView,
    name: Seq<char>,
    value: Seq<char>,
    mode: AddInputMode,
    key: Key,
) -> (AppView, Option<CommandView>) {
    match key {
        Key::Esc => (AppView { modal: None, ..s }, None),
        Key::Tab => (with_add(s, name, value, other_field(mode)), None),
        Key::Backspace => match mode {
            AddInputMode::Name => (with_add(s, without_last(name), value, mode), None),
            AddInputMode::Value => (with_add(s, name, without_last(value), mode), None),
        },
        Key::Char(c) => match mode {
            AddInputMode::Name => (with_add(s, name.push(c), value, mode), None),
            AddInputMode::Value => (with_add(s, name, value.push(c), mode), None),
        },
        Key::Enter => if name.len() == 0 {
            (AppView { message: Some("Name cannot be empty"@), ..with_add(s, name, value, mode) }, None)
        } else {
            match s.current_vault {
                None => (
                    AppView { message: Some("No vault selected"@), ..with_add(s, name, value, mode) },
                    None,
                ),
                Some(vault) => (
                    dispatched(s, "Creating secret..."@),
                    Some(
                        CommandView::SetSecret {
                            vault_name: vault.0,
                            vault_uri: vault.1,
                            name,
                            value,
                            created: true,
                        },
                    ),
                ),
            }
        },
        _ => (with_add(s, name, value, mode), None),
    }
}

/// A key press in the edit dialog. Characters and Backspace edit the value,
/// Esc closes the dialog. Enter asks for a selected vault, and then closes the
/// dialog and has the secret written.
pub open spec fn edit_step(s: AppView, name: Seq<char>, value: Seq<char>, key: Key) -> (
    AppView,
    Option<CommandView>,
) {
    match key {
        Key::Esc => (AppView { modal: None, ..s }, None),
        Key::Backspace => (with_edit(s, name, without_last(value)), None),
        Key::Char(c) => (with_edit(s, name, value.push(c)), None),
        Key::Enter => match s.current_vault {
            None => (AppView { message: Some("No vault selected"@), ..with_edit(s, name, value) }, None),
            Some(vault) => (
                dispatched(s, "Updating secret..."@),
                Some(
                    CommandView::SetSecret {
                        vault_name: vault.0,
                        vault_uri: vault.1,
                        name,
                        value,
                        created: false,
                    },
                ),
            ),
        },
        _ => (with_edit(s, name, value), None),
    }
}

/// A key press in the delete confirmation. `y` or `Y` closes the dialog and,
/// with a vault selected, has the secret deleted; `n` or Esc closes it;
/// every other key leaves it open.
pub open spec fn confirm_step(s: AppView, name: Seq<char>, key: Key) -> (
    AppView,
    Option<CommandView>,
) {
    let open = AppView { modal: Some(ModalView::ConfirmDelete { name }), ..s };
    match key {
        Key::Char(c) => if c == 'y' || c == 'Y' {
            match s.current_vault {
                None => (AppView { modal: None, message: Some("No vault selected"@), ..s }, None),
                Some(vault) => (
                    dispatched(s, "Deleting secret..."@),
                    Some(
                        CommandView::DeleteSecret { vault_name: vault.0, vault_uri: vault.1, name },
                    ),
                ),
            }
        } else if c == 'n' {
            (AppView { modal: None, ..s }, None)
        } else {
            (open, None)
        },
        Key::Esc => (AppView { modal: None, ..s }, None),
        _ => (open, None),
    }
}

/// A key press while a dialog may be open: the step of the open dialog, or
/// nothing where none is open.
pub open spec fn modal_step(s: AppView, key: Key) -> (AppView, Option<CommandView>) {
    match s.modal {
        None => (s, None),
        Some(ModalView::Add { name, value, input_mode }) => add_step(
            s,
            name,
            value,
            input_mode,
            key,
        ),
        Some(ModalView::Edit { name, value }) => edit_step(s, name, value, key),
        Some(ModalView::ConfirmDelete { name }) => confirm_step(s, name, key),
    }
}

/// A copy of the selected vault.
pub fn current_vault_of(app: &App) -> (vault: Option<(String, String)>)
    ensures
        vault_view(vault) == app@.current_vault,
{
    match &app.current_vault {
        Some(vault) => Some((vault.0.clone(), vault.1.clone())),
        None => None,
    }
}

fn add_key(app: &mut App, name: String, value: String, mode: AddInputMode, key: Key) -> (command:
    Option<Command>)
    ensures
        (final(app)@, command_view(command)) == add_step(old(app)@, name@, value@, mode, key),
        final(app).vault_secret_cache == old(app).vault_secret_cache,
        final(app).secret_value_cache == old(app).secret_value_cache,
{
    let mut name = name;
    let mut value = value;
    match key {
        Key::Esc => {
            app.modal = None;
            None
        },
        Key::Tab => {
            let next = match mode {
                AddInputMode::Name => AddInputMode::Value,
                AddInputMode::Value => AddInputMode::Name,
            };
            app.modal = Some(Modal::Add { name, value, input_mode: next });
            None
        },
        Key::Backspace => {
            match mode {
                AddInputMode::Name => {
                    let _ = pop_char(&mut name);
                },
                AddInputMode::Value => {
                    let _ = pop_char(&mut value);
                },
            }
            app.modal = Some(Modal::Add { name, value, input_mode: mode });
            None
        },
        Key::Char(c) => {
            match mode {
                AddInputMode::Name => {
                    push_char(&mut name, c);
                },
                AddInputMode::Value => {
                    push_char(&mut value, c);
                },
            }
            app.modal = Some(Modal::Add { name, value, input_mode: mode });
            None
        },
        Key::Enter => {
            if name.as_str().is_empty() {
                app.message = Some(owned("Name cannot be empty"));
                app.modal = Some(Modal::Add { name, value, input_mode: mode });
                None
            } else {
                match current_vault_of(app) {
                    None => {
                        app.message = Some(owned("No vault selected"));
                        app.modal = Some(Modal::Add { name, value, input_mode: mode });
                        None
                    },
                    Some(vault) => {
                        app.modal = None;
                        app.loading = true;
                        app.message = Some(owned("Creating secret..."));
                        Some(
                            Command::SetSecret {
                                vault_name: vault.0,
                                vault_uri: vault.1,
                                name,
                                value,
                                created: true,
                            },
                        )
                    },
                }
            }
        },
        _ => {
            app.modal = Some(Modal::Add { name, value, input_mode: mode });
            None
        },
    }
}

fn edit_key(app: &mut App, name: String, value: String, key: Key) -> (command: Option<Command>)
    ensures
        (final(app)@, command_view(command)) == edit_step(old(app)@, name@, value@, key),
        final(app).vault_secret_cache == old(app).vault_secret_cache,
        final(app).secret_value_cache == old(app).secret_value_cache,
{
    let mut value = value;
    match key {
        Key::Esc => {
            app.modal = None;
            None
        },
        Key::Backspace => {
            let _ = pop_char(&mut value);
            app.modal = Some(Modal::Edit { name, value });
            None
        },
        Key::Char(c) => {
            push_char(&mut value, c);
            app.modal = Some(Modal::Edit { name, value });
            None
        },
        Key::Enter => {
            match current_vault_of(app) {
                None => {
                    app.message = Some(owned("No vault selected"));
                    app.modal = Some(Modal::Edit { name, value });
                    None
                },
                Some(vault) => {
                    app.modal = None;
                    app.loading = true;
                    app.message = Some(owned("Updating secret..."));
                    Some(
                        Command::SetSecret {
                            vault_name: vault.0,
                            vault_uri: vault.1,
                            name,
                            value,
                            created: false,
                        },
                    )
                },
            }
        },
        _ => {
            app.modal = Some(Modal::Edit { name, value });
            None
        },
    }
}

fn confirm_key(app: &mut App, name: String, key: Key) -> (command: Option<Command>)
    ensures
        (final(app)@, command_view(command)) == confirm_step(old(app)@, name@, key),
        final(app).vault_secret_cache == old(app).vault_secret_cache,
        final(app).secret_value_cache == old(app).secret_value_cache,
{
    match key {
        Key::Char(c) => {
            if c == 'y' || c == 'Y' {
                match current_vault_of(app) {
                    None => {
                        app.message = Some(owned("No vault selected"));
                        app.modal = None;
                        None
                    },
                    Some(vault) => {
                        app.modal = None;
                        app.loading = true;
                        app.message = Some(owned("Deleting secret..."));
                        Some(
                            Command::DeleteSecret {
                                vault_name: vault.0,
                                vault_uri: vault.1,
                                name,
                            },
                        )
                    },
                }
            } else if c == 'n' {
                app.modal = None;
                None
            } else {
                app.modal = Some(Modal::ConfirmDelete { name });
                None
            }
        },
        Key::Esc => {
            app.modal = None;
            None
        },
        _ => {
            app.modal = Some(Modal::ConfirmDelete { name });
            None
        },
    }
}

/// Handles a key press while a dialog may be open. Returns whether a dialog
/// was open and so took the key, and the work to carry out, if any.
pub fn handle_modal_key(app: &mut App, code: Key) -> (out: (bool, Option<Command>))
    requires
        old(app).wf(),
    ensures
        final(app).wf(),
        out.0 == old(app)@.modal.is_some(),
        (final(app)@, command_view(out.1)) == modal_step(old(app)@, code),
{
    let modal = app.modal.take();
    match modal {
        None => {
            (false, None)
        },
        Some(Modal::Add { name, value, input_mode }) => {
            let command = add_key(app, name, value, input_mode, code);
            (true, command)
        },
        Some(Modal::Edit { name, value }) => {
            let command = edit_key(app, name, value, code);
            (true, command)
        },
        Some(Modal::ConfirmDelete { name }) => {
            let command = confirm_key(app, name, code);
            (true, command)
        },
    }
}

} // verus!
