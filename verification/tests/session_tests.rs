use try_rs::entry::{Created, EntryProbe, TryEntry};
use try_rs::session::{
    deletion_method, elapsed_dhm, join_path, App, AppMode, ConfigLocation, DeleteMethod, Effect,
    Key, KeyPress, SelectionResult,
};
use try_rs::themes::Theme;

fn probe(name: &str, modified: u64) -> EntryProbe {
    EntryProbe {
        name: name.to_string(),
        modified,
        created: modified,
        is_git: false,
        is_worktree: false,
        is_worktree_locked: false,
        is_gitmodules: false,
        is_mise: false,
        is_cargo: false,
        is_maven: false,
        is_flutter: false,
        is_go: false,
        is_python: false,
    }
}

fn new_app(probes: Vec<EntryProbe>, query: Option<&str>) -> App {
    App::new(
        &probes,
        "/ws/tries".to_string(),
        Theme::default(),
        None,
        None,
        None,
        false,
        query.map(|q| q.to_string()),
        None,
    )
}

fn press(key: Key) -> KeyPress {
    KeyPress {
        key,
        ctrl: false,
        shift: false,
        alt: false,
    }
}

fn ctrl(c: char) -> KeyPress {
    KeyPress {
        key: Key::Char(c),
        ctrl: true,
        shift: false,
        alt: false,
    }
}

#[test]
fn try_entry_default_values() {
    let entry = TryEntry {
        name: "test".to_string(),
        display_name: "test".to_string(),
        modified: 0,
        created: Created::Stamp(0),
        score: 0,
        is_git: false,
        is_worktree: false,
        is_worktree_locked: false,
        is_gitmodules: false,
        is_mise: false,
        is_cargo: false,
        is_maven: false,
        is_flutter: false,
        is_go: false,
        is_python: false,
    };

    assert_eq!(entry.name, "test");
    assert_eq!(entry.display_name, "test");
    assert_eq!(entry.score, 0);
    assert!(!entry.is_git);
    assert!(!entry.is_worktree);
}

#[test]
fn try_entry_clone() {
    let entry = TryEntry {
        name: "project".to_string(),
        display_name: "My Project".to_string(),
        modified: 0,
        created: Created::Stamp(0),
        score: 100,
        is_git: true,
        is_worktree: false,
        is_worktree_locked: false,
        is_gitmodules: true,
        is_mise: false,
        is_cargo: true,
        is_maven: false,
        is_flutter: false,
        is_go: false,
        is_python: false,
    };

    let cloned = entry.clone();
    assert_eq!(cloned.name, entry.name);
    assert_eq!(cloned.score, entry.score);
    assert_eq!(cloned.is_git, entry.is_git);
    assert_eq!(cloned.is_cargo, entry.is_cargo);
}

#[test]
fn try_entry_with_flags() {
    let entry = TryEntry {
        name: "rust-project".to_string(),
        display_name: "rust-project".to_string(),
        modified: 1700000000,
        created: Created::Stamp(1700000000),
        score: 50,
        is_git: true,
        is_worktree: false,
        is_worktree_locked: false,
        is_gitmodules: false,
        is_mise: true,
        is_cargo: true,
        is_maven: false,
        is_flutter: false,
        is_go: false,
        is_python: false,
    };

    assert!(entry.is_git);
    assert!(entry.is_cargo);
    assert!(entry.is_mise);
    assert!(!entry.is_maven);
}

#[test]
fn app_new_with_empty_directory() {
    let app = new_app(vec![], None);
    assert!(app.all_entries.is_empty());
    assert!(app.filtered_entries.is_empty());
    assert_eq!(app.selected_index, 0);
}

#[test]
fn app_new_with_folders() {
    let app = new_app(vec![probe("folder1", 10), probe("folder2", 20)], None);
    assert_eq!(app.all_entries.len(), 2);
    assert_eq!(app.filtered_entries.len(), 2);
}

#[test]
fn app_new_detects_git() {
    let mut p = probe("git-project", 10);
    p.is_git = true;
    let app = new_app(vec![p], None);
    assert_eq!(app.all_entries.len(), 1);
    assert!(app.all_entries[0].is_git);
}

#[test]
fn app_new_detects_cargo() {
    let mut p = probe("rust-project", 10);
    p.is_cargo = true;
    let app = new_app(vec![p], None);
    assert_eq!(app.all_entries.len(), 1);
    assert!(app.all_entries[0].is_cargo);
}

#[test]
fn app_new_with_date_prefix() {
    let app = new_app(vec![probe("2024-01-15 my-project", 10)], None);
    assert_eq!(app.all_entries.len(), 1);
    assert_eq!(app.all_entries[0].display_name, "my-project");
    assert_eq!(app.all_entries[0].name, "2024-01-15 my-project");
}

#[test]
fn app_new_with_query() {
    let app = new_app(vec![probe("alpha", 10), probe("beta", 20)], Some("alpha"));
    assert_eq!(app.query, "alpha");
    assert_eq!(app.filtered_entries.len(), 1);
    assert_eq!(app.filtered_entries[0].name, "alpha");
}

#[test]
fn app_has_all_themes() {
    let app = new_app(vec![], None);
    assert_eq!(app.available_themes.len(), 16);
}

#[test]
fn app_sorted_by_modified() {
    let app = new_app(vec![probe("older", 100), probe("newer", 200)], None);
    assert_eq!(app.all_entries[0].name, "newer");
    assert_eq!(app.all_entries[1].name, "older");
}

#[test]
fn app_update_search_empty_query() {
    let mut app = new_app(
        vec![probe("folder1", 10), probe("folder2", 20)],
        Some("test"),
    );
    app.query.clear();
    app.update_search();
    assert_eq!(app.filtered_entries.len(), 2);
}

#[test]
fn app_update_search_with_match() {
    let mut app = new_app(vec![probe("alpha-test", 10), probe("beta", 20)], None);
    app.query = "alpha".to_string();
    app.update_search();
    assert_eq!(app.filtered_entries.len(), 1);
    assert_eq!(app.filtered_entries[0].name, "alpha-test");
}

#[test]
fn app_update_search_no_match() {
    let mut app = new_app(vec![probe("folder1", 10)], None);
    app.query = "nonexistent".to_string();
    app.update_search();
    assert!(app.filtered_entries.is_empty());
}

#[test]
fn app_update_search_resets_index() {
    let mut app = new_app(vec![probe("a", 30), probe("b", 20), probe("c", 10)], None);
    app.selected_index = 2;
    app.query = "a".to_string();
    app.update_search();
    assert_eq!(app.selected_index, 0);
}

#[test]
fn filtered_results_all_match_query() {
    let mut app = new_app(
        vec![probe("alpha", 30), probe("beta", 20), probe("alloy", 10)],
        None,
    );
    app.query = "al".to_string();
    app.update_search();
    assert_eq!(app.filtered_entries.len(), 2);
    for e in &app.filtered_entries {
        assert!(e.name.contains('a') && e.name.contains('l'));
    }
}

#[test]
fn empty_query_returns_catalog_in_order() {
    let mut app = new_app(vec![probe("a", 30), probe("b", 20), probe("c", 10)], None);
    app.query = String::new();
    app.update_search();
    let names: Vec<&str> = app.filtered_entries.iter().map(|e| e.name.as_str()).collect();
    assert_eq!(names, ["a", "b", "c"]);
}

#[test]
fn typing_and_backspace_edit_query() {
    let mut app = new_app(vec![probe("alpha", 10)], None);
    app.handle_key(press(Key::Char('a')));
    app.handle_key(press(Key::Char('l')));
    assert_eq!(app.query, "al");
    app.handle_key(press(Key::Backspace));
    assert_eq!(app.query, "a");
    app.handle_key(ctrl('u'));
    assert_eq!(app.query, "");
    assert_eq!(app.filtered_entries.len(), 1);
}

#[test]
fn selection_moves_are_clamped() {
    let mut app = new_app(vec![probe("a", 30), probe("b", 20)], None);
    app.handle_key(press(Key::Up));
    assert_eq!(app.selected_index, 0);
    app.handle_key(press(Key::Down));
    assert_eq!(app.selected_index, 1);
    app.handle_key(press(Key::Down));
    assert_eq!(app.selected_index, 1);
    app.handle_key(ctrl('k'));
    assert_eq!(app.selected_index, 0);
    app.handle_key(ctrl('j'));
    assert_eq!(app.selected_index, 1);
}

#[test]
fn enter_with_empty_list_and_query_is_no_op() {
    let mut app = new_app(vec![], None);
    app.handle_key(press(Key::Enter));
    assert!(!app.should_quit);
    assert!(matches!(app.final_selection, SelectionResult::NoSelection));
}

#[test]
fn enter_with_query_and_no_match_requests_new_folder() {
    let mut app = new_app(vec![probe("alpha", 10)], None);
    for c in ['z', 'z', 'z'] {
        app.handle_key(press(Key::Char(c)));
    }
    assert!(app.filtered_entries.is_empty());
    app.handle_key(press(Key::Enter));
    assert!(app.should_quit);
    match &app.final_selection {
        SelectionResult::New(n) => assert_eq!(n, "zzz"),
        _ => panic!("expected a new-folder selection"),
    }
}

#[test]
fn escape_quits_without_selection() {
    let mut app = new_app(vec![probe("alpha", 10)], None);
    app.handle_key(press(Key::Esc));
    assert!(app.should_quit);
    assert!(matches!(app.final_selection, SelectionResult::NoSelection));
}

#[test]
fn delete_combo_needs_entries() {
    let mut app = new_app(vec![], None);
    app.handle_key(ctrl('d'));
    assert_eq!(app.mode, AppMode::Normal);

    let mut app = new_app(vec![probe("alpha", 10)], None);
    app.handle_key(ctrl('d'));
    assert_eq!(app.mode, AppMode::DeleteConfirm);
}

#[test]
fn delete_confirm_no_returns_to_normal() {
    let mut app = new_app(vec![probe("alpha", 10)], None);
    app.handle_key(ctrl('d'));
    let eff = app.handle_key(press(Key::Char('n')));
    assert!(matches!(eff, Effect::Nothing));
    assert_eq!(app.mode, AppMode::Normal);
    assert_eq!(app.all_entries.len(), 1);
}

#[test]
fn delete_confirm_yes_requests_deletion() {
    let mut app = new_app(vec![probe("alpha", 10)], None);
    app.handle_key(ctrl('d'));
    let eff = app.handle_key(press(Key::Char('y')));
    match eff {
        Effect::DeleteEntry { name } => assert_eq!(name, "alpha"),
        _ => panic!("expected a deletion request"),
    }
}

#[test]
fn worktree_entries_use_worktree_removal() {
    let mut p = probe("linked", 10);
    p.is_worktree = true;
    let mut app = new_app(vec![p], None);
    app.handle_key(ctrl('d'));
    let eff = app.handle_key(press(Key::Char('y')));
    let name = match eff {
        Effect::DeleteEntry { name } => name,
        _ => panic!("expected a deletion request"),
    };
    let target = app
        .all_entries
        .iter()
        .find(|e| e.name == name)
        .expect("requested entry is in the catalog");
    let method = deletion_method(target.is_worktree);
    assert_eq!(method, DeleteMethod::WorktreeRemove);
    assert!(!matches!(method, DeleteMethod::RecursiveRemove));
    assert_eq!(deletion_method(false), DeleteMethod::RecursiveRemove);
}

#[test]
fn app_delete_selected_removes_entry() {
    let mut app = new_app(vec![probe("to-delete", 10)], None);
    assert_eq!(app.all_entries.len(), 1);
    app.apply_delete_result(
        &"to-delete".to_string(),
        DeleteMethod::RecursiveRemove,
        Ok(()),
    );
    assert!(app.all_entries.is_empty());
    assert!(app.filtered_entries.is_empty());
    assert_eq!(app.mode, AppMode::Normal);
}

#[test]
fn app_delete_selected_sets_status() {
    let mut app = new_app(vec![probe("deleted", 10)], None);
    app.apply_delete_result(&"deleted".to_string(), DeleteMethod::RecursiveRemove, Ok(()));
    assert!(app.status_message.is_some());
    assert!(app.status_message.as_ref().unwrap().contains("Deleted"));
}

#[test]
fn deleting_one_entry_keeps_the_others_in_order() {
    let mut app = new_app(vec![probe("a", 30), probe("b", 20), probe("c", 10)], None);
    app.apply_delete_result(&"b".to_string(), DeleteMethod::RecursiveRemove, Ok(()));
    let names: Vec<&str> = app.all_entries.iter().map(|e| e.name.as_str()).collect();
    assert_eq!(names, ["a", "c"]);
    let filtered: Vec<&str> = app
        .filtered_entries
        .iter()
        .map(|e| e.name.as_str())
        .collect();
    assert_eq!(filtered, ["a", "c"]);
    assert_eq!(
        app.status_message.as_deref(),
        Some("Deleted: /ws/tries/b")
    );
}

#[test]
fn failed_deletion_keeps_catalog_and_reports_first_line() {
    let mut app = new_app(vec![probe("a", 30), probe("b", 20)], None);
    app.apply_delete_result(
        &"a".to_string(),
        DeleteMethod::WorktreeRemove,
        Err("fatal: not a worktree\nmore detail".to_string()),
    );
    assert_eq!(app.all_entries.len(), 2);
    assert_eq!(
        app.status_message.as_deref(),
        Some("Error deleting: fatal: not a worktree")
    );
    assert_eq!(app.mode, AppMode::Normal);
}

#[test]
fn worktree_removal_status_names_the_path() {
    let mut app = new_app(vec![probe("linked", 10)], None);
    app.apply_delete_result(&"linked".to_string(), DeleteMethod::WorktreeRemove, Ok(()));
    assert_eq!(
        app.status_message.as_deref(),
        Some("Worktree removed: /ws/tries/linked")
    );
}

#[test]
fn theme_combo_opens_selector_on_active_theme() {
    let mut app = App::new(
        &vec![],
        "/ws".to_string(),
        Theme::dracula(),
        None,
        None,
        None,
        false,
        None,
        None,
    );
    app.handle_key(ctrl('t'));
    assert_eq!(app.mode, AppMode::ThemeSelect);
    assert_eq!(app.available_themes[app.theme_list_index].name, "Dracula");
}

#[test]
fn theme_preview_escape_restores() {
    let mut app = App::new(
        &vec![],
        "/ws".to_string(),
        Theme::dracula(),
        None,
        None,
        None,
        false,
        None,
        None,
    );
    app.handle_key(ctrl('t'));
    app.handle_key(press(Key::Down));
    assert_ne!(app.theme.name, "Dracula");
    app.handle_key(press(Key::Char(' ')));
    assert!(app.transparent_background);
    app.handle_key(press(Key::Esc));
    assert_eq!(app.mode, AppMode::Normal);
    assert_eq!(app.theme.name, "Dracula");
    assert!(!app.transparent_background);
    assert!(app.original_theme.is_none());
    assert!(app.original_transparent_background.is_none());
}

#[test]
fn theme_commit_without_config_path_asks_to_save() {
    let mut app = new_app(vec![], None);
    app.handle_key(ctrl('t'));
    app.handle_key(press(Key::Down));
    let eff = app.handle_key(press(Key::Enter));
    assert!(matches!(eff, Effect::Nothing));
    assert_eq!(app.mode, AppMode::ConfigSavePrompt);
    assert!(app.original_theme.is_none());
}

#[test]
fn theme_commit_with_config_path_saves_immediately() {
    let mut app = App::new(
        &vec![],
        "/ws".to_string(),
        Theme::default(),
        None,
        Some("/home/user/.config/try-rs/config.toml".to_string()),
        None,
        false,
        None,
        None,
    );
    app.handle_key(ctrl('t'));
    let eff = app.handle_key(press(Key::Enter));
    match eff {
        Effect::SaveTheme { path } => {
            assert_eq!(path, "/home/user/.config/try-rs/config.toml")
        },
        _ => panic!("expected a save request"),
    }
    assert_eq!(app.mode, AppMode::Normal);
    app.apply_theme_save_result(Ok(()));
    assert_eq!(app.status_message.as_deref(), Some("Theme saved."));
}

#[test]
fn save_prompt_flow_reaches_location_select() {
    let mut app = new_app(vec![], None);
    app.handle_key(ctrl('t'));
    app.handle_key(press(Key::Enter));
    assert_eq!(app.mode, AppMode::ConfigSavePrompt);
    app.handle_key(press(Key::Char('y')));
    assert_eq!(app.mode, AppMode::ConfigSaveLocationSelect);
    assert_eq!(app.config_location_index, 0);
    app.handle_key(press(Key::Down));
    assert_eq!(app.config_location_index, 1);
    let eff = app.handle_key(press(Key::Enter));
    match eff {
        Effect::SaveThemeAt { location } => {
            assert_eq!(location, ConfigLocation::HomeDirectory)
        },
        _ => panic!("expected a located save request"),
    }
    assert_eq!(app.mode, AppMode::Normal);
    app.apply_location_save_result("/home/user/config.toml".to_string(), Ok(()));
    assert_eq!(app.config_path.as_deref(), Some("/home/user/config.toml"));
    assert_eq!(app.status_message.as_deref(), Some("Theme saved!"));
}

#[test]
fn save_prompt_no_keeps_theme_unpersisted() {
    let mut app = new_app(vec![], None);
    app.handle_key(ctrl('t'));
    app.handle_key(press(Key::Down));
    app.handle_key(press(Key::Enter));
    app.handle_key(press(Key::Char('n')));
    assert_eq!(app.mode, AppMode::Normal);
    assert!(app.config_path.is_none());
    assert_ne!(app.theme.name, "Default");
}

#[test]
fn failed_save_is_surfaced() {
    let mut app = new_app(vec![], None);
    app.apply_theme_save_result(Err("disk full".to_string()));
    assert_eq!(
        app.status_message.as_deref(),
        Some("Error saving: disk full")
    );
    app.apply_location_save_result("/p".to_string(), Err("denied".to_string()));
    assert_eq!(
        app.status_message.as_deref(),
        Some("Error saving config: denied")
    );
    assert!(app.config_path.is_none());
}

#[test]
fn missing_editor_sets_status_message() {
    let mut app = new_app(vec![probe("alpha", 10)], None);
    app.handle_key(ctrl('e'));
    assert_eq!(
        app.status_message.as_deref(),
        Some("No editor configured in config.toml")
    );
    assert!(!app.should_quit);
}

#[test]
fn editor_combo_selects_and_quits() {
    let mut app = App::new(
        &vec![probe("alpha", 10)],
        "/ws".to_string(),
        Theme::default(),
        Some("nvim".to_string()),
        None,
        None,
        false,
        None,
        None,
    );
    app.handle_key(ctrl('e'));
    assert!(app.should_quit);
    assert!(app.wants_editor);
    match &app.final_selection {
        SelectionResult::Folder(n) => assert_eq!(n, "alpha"),
        _ => panic!("expected a folder selection"),
    }
}

#[test]
fn about_overlay_opens_and_dismisses() {
    let mut app = new_app(vec![], None);
    app.handle_key(ctrl('a'));
    assert_eq!(app.mode, AppMode::About);
    app.handle_key(press(Key::Char('x')));
    assert_eq!(app.mode, AppMode::About);
    app.handle_key(press(Key::Char('q')));
    assert_eq!(app.mode, AppMode::Normal);
}

#[test]
fn status_message_clears_on_next_key() {
    let mut app = new_app(vec![probe("alpha", 10)], None);
    app.handle_key(ctrl('e'));
    assert!(app.status_message.is_some());
    app.handle_key(press(Key::Other));
    assert!(app.status_message.is_none());
}

#[test]
fn selection_result_variants() {
    let folder = SelectionResult::Folder("test".to_string());
    let new = SelectionResult::New("new-folder".to_string());
    let none = SelectionResult::NoSelection;

    match folder {
        SelectionResult::Folder(name) => assert_eq!(name, "test"),
        _ => panic!("Expected Folder variant"),
    }

    match new {
        SelectionResult::New(name) => assert_eq!(name, "new-folder"),
        _ => panic!("Expected New variant"),
    }

    match none {
        SelectionResult::NoSelection => (),
        _ => panic!("Expected NoSelection variant"),
    }
}

#[test]
fn join_path_inserts_separator() {
    assert_eq!(join_path("/ws/tries", "proj"), "/ws/tries/proj");
}

#[test]
fn elapsed_dhm_splits_duration() {
    assert_eq!(elapsed_dhm(0), (0, 0, 0));
    assert_eq!(elapsed_dhm(86400 + 3600 + 60), (1, 1, 1));
    assert_eq!(elapsed_dhm(2 * 86400 + 23 * 3600 + 59 * 60 + 59), (2, 23, 59));
}

#[test]
fn session_selects_dated_entry_end_to_end() {
    let probes = vec![probe("2024-01-01 alpha", 100), probe("beta", 200)];
    let mut app = new_app(probes, None);
    assert_eq!(app.filtered_entries.len(), 2);
    assert_eq!(app.filtered_entries[0].name, "beta");
    assert_eq!(app.filtered_entries[1].display_name, "alpha");
    for c in ['a', 'l', 'p'] {
        app.handle_key(press(Key::Char(c)));
    }
    assert_eq!(app.filtered_entries.len(), 1);
    assert_eq!(app.filtered_entries[0].display_name, "alpha");
    assert_eq!(app.selected_index, 0);
    app.handle_key(press(Key::Enter));
    assert!(app.should_quit);
    match &app.final_selection {
        SelectionResult::Folder(n) => assert_eq!(n, "2024-01-01 alpha"),
        _ => panic!("expected the existing dated folder"),
    }
}
