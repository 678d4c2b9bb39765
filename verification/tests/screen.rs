use keyvault_tui::app::App;
use keyvault_tui::events::apply_event;
use keyvault_tui::keys::handle_key;
use keyvault_tui::model::{AddInputMode, AppEvent, Key, Modal};
use keyvault_tui::screen::{
    dialog_text, dialog_title, footer_area, footer_text, inner_area, modal_area, secrets_header,
    selected_row, spinner_area, vault_list_rows, vault_screen_title, Area,
};

fn area(x: u16, y: u16, width: u16, height: u16) -> Area {
    Area { x, y, width, height }
}

fn on_secrets_screen() -> App {
    let mut app = App::new(0);
    handle_key(&mut app, Key::Enter, 1);
    let vaults = vec![("v1".to_string(), "https://v1/".to_string())];
    apply_event(&mut app, AppEvent::VaultsLoaded(vaults), 2);
    handle_key(&mut app, Key::Enter, 3);
    let names = vec!["b".to_string(), "a".to_string()];
    apply_event(&mut app, AppEvent::SecretsUpdated("v1".to_string(), names), 4);
    app
}

#[test]
fn dialog_overlay_takes_three_quarters_by_two_thirds() {
    assert_eq!(modal_area(80, 24), area(10, 4, 60, 16));
    assert_eq!(modal_area(0, 0), area(0, 0, 0, 0));
    assert_eq!(modal_area(7, 5), area(0, 0, 5, 3));
    assert_eq!(modal_area(u16::MAX, u16::MAX), area(8191, 10922, 49151, 43690));
}

#[test]
fn inner_area_drops_the_border() {
    assert_eq!(inner_area(area(0, 0, 80, 24)), area(1, 1, 78, 22));
    assert_eq!(inner_area(area(5, 6, 1, 0)), area(6, 7, 0, 0));
    assert_eq!(inner_area(area(u16::MAX, u16::MAX, 2, 3)), area(u16::MAX, u16::MAX, 0, 1));
}

#[test]
fn message_box_is_the_last_three_rows() {
    assert_eq!(footer_area(area(0, 0, 80, 24)), area(0, 21, 80, 3));
    assert_eq!(footer_area(area(2, 1, 10, 1)), area(2, 0, 10, 3));
    assert_eq!(footer_area(area(0, u16::MAX, 10, 9)), area(0, u16::MAX - 3, 10, 3));
}

#[test]
fn spinner_sits_near_the_bottom_of_the_vault_list() {
    assert_eq!(spinner_area(area(1, 1, 78, 22)), area(3, 21, 28, 1));
    assert_eq!(spinner_area(area(0, 0, 0, 0)), area(2, 0, 28, 1));
}

#[test]
fn header_names_the_vault_or_shows_the_query() {
    let mut app = on_secrets_screen();
    assert_eq!(
        secrets_header(&app),
        "🔑 Azure Key Vault TUI (Vault: v1) — [q: quit] [v: vault] [/: search] [a: add] [e: edit] [d: delete] [r: refresh] [Enter: copy]"
    );
    handle_key(&mut app, Key::Char('/'), 5);
    handle_key(&mut app, Key::Char('a'), 5);
    assert_eq!(secrets_header(&app), "🔍 Search: a_");
    let fresh = App::new(0);
    assert_eq!(
        secrets_header(&fresh),
        "🔑 Azure Key Vault TUI — [q: quit] [v: vault] [/: search] [a: add] [e: edit] [d: delete] [r: refresh] [Enter: copy]"
    );
}

#[test]
fn vault_screen_lists_names_or_says_there_are_none() {
    let mut app = App::new(0);
    assert_eq!(vault_list_rows(&app), vec!["No vaults found yet..."]);
    assert_eq!(vault_screen_title(&app), "🔐 Select an Azure Key Vault");
    handle_key(&mut app, Key::Enter, 1);
    let vaults = vec![
        ("prod".to_string(), "https://prod/".to_string()),
        ("test".to_string(), "https://test/".to_string()),
    ];
    apply_event(&mut app, AppEvent::TokenCached(String::new(), 1, 3_600_000), 1);
    apply_event(&mut app, AppEvent::VaultsLoaded(vaults), 2);
    assert_eq!(vault_list_rows(&app), vec!["prod", "test"]);
    handle_key(&mut app, Key::Char('/'), 3);
    handle_key(&mut app, Key::Char('t'), 3);
    handle_key(&mut app, Key::Char('e'), 3);
    assert_eq!(vault_screen_title(&app), "🔍 Search vaults: te_");
    assert_eq!(vault_list_rows(&app), vec!["test"]);
}

#[test]
fn dialogs_show_their_fields() {
    let add = Modal::Add {
        name: "n".to_string(),
        value: "v".to_string(),
        input_mode: AddInputMode::Value,
    };
    assert_eq!(
        dialog_text(&add),
        "Add Secret (typing value)\n\nName: n\nValue: v\n\nPress Enter to submit, Esc to cancel"
    );
    assert_eq!(dialog_title(&add), "Add Secret");
    let add = Modal::Add { name: String::new(), value: String::new(), input_mode: AddInputMode::Name };
    assert_eq!(
        dialog_text(&add),
        "Add Secret (typing name)\n\nName: \nValue: \n\nPress Enter to submit, Esc to cancel"
    );
    let edit = Modal::Edit { name: "n".to_string(), value: "v".to_string() };
    assert_eq!(
        dialog_text(&edit),
        "Edit Secret\n\nName: n\nValue: v\n\nPress Enter to save, Esc to cancel"
    );
    assert_eq!(dialog_title(&edit), "Edit Secret");
    let confirm = Modal::ConfirmDelete { name: "n".to_string() };
    assert_eq!(dialog_text(&confirm), "Delete secret 'n' ?\n\nPress 'y' to confirm, Esc to cancel");
    assert_eq!(dialog_title(&confirm), "Confirm Delete");
}

#[test]
fn empty_list_has_no_highlighted_row() {
    let mut app = on_secrets_screen();
    assert_eq!(selected_row(&app), Some(0));
    handle_key(&mut app, Key::Down, 5);
    assert_eq!(selected_row(&app), Some(1));
    apply_event(&mut app, AppEvent::SecretsUpdated("v1".to_string(), Vec::new()), 6);
    assert_eq!(selected_row(&app), None);
    assert_eq!(footer_text(&app), "Loaded 0 secrets (from v1)");
    assert_eq!(footer_text(&App::new(0)), "");
}
