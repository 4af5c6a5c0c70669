use pacseen::aur::{packages_from_aur, AurRaw};
use pacseen::input::{KeyCode, KeyEvent};
use pacseen::stat::{ItemRepo, Package};
use pacseen::state::{Action, App};

fn pkg(name: &str, repo: ItemRepo, installed: bool) -> Package {
    Package::new(
        installed,
        repo,
        0,
        String::from("None"),
        String::from(name),
        String::from("1.0"),
    )
}

fn press(code: KeyCode) -> KeyEvent {
    KeyEvent { code, is_press: true }
}

fn startup() -> App {
    App::new(vec![
        pkg("alsa-utils", ItemRepo::Core, false),
        pkg("bash", ItemRepo::Core, false),
        pkg("vim", ItemRepo::Extra, false),
    ])
}

fn type_chars(app: &mut App, text: &str) -> Action {
    let mut last = Action::Idle;
    for c in text.chars() {
        last = app.handle_key(press(KeyCode::Char(c)));
    }
    last
}

#[test]
fn startup_shows_whole_snapshot() {
    let app = startup();
    let names: Vec<&str> = app.filtered.iter().map(|p| p.name.as_str()).collect();
    assert_eq!(names, vec!["alsa-utils", "bash", "vim"]);
    assert_eq!(app.selected_pack, Some(0));
    assert!(!app.exit);
    assert!(app.aur_inflight.is_none());
    assert_eq!(app.notice, "");
    let info = app.render_selected_item();
    assert!(info.starts_with("name:\talsa-utils\n"));
}

#[test]
fn typing_filters_locally_and_schedules_one_query() {
    let mut app = startup();
    app.handle_key(press(KeyCode::Char('i')));
    assert!(app.insert_mode.enabled);
    let act = type_chars(&mut app, "v");
    let names: Vec<&str> = app.filtered.iter().map(|p| p.name.as_str()).collect();
    assert_eq!(names, vec!["vim"]);
    assert!(matches!(act, Action::SpawnAur(ref k) if k == "v"));
    assert_eq!(app.aur_inflight.as_deref(), Some("v"));
}

#[test]
fn latest_keyword_wins() {
    let mut app = startup();
    app.handle_key(press(KeyCode::Char('i')));
    let act = type_chars(&mut app, "vim");
    assert_eq!(app.search, "vim");
    assert!(matches!(act, Action::SpawnAur(ref k) if k == "vim"));
    assert_eq!(app.aur_inflight.as_deref(), Some("vim"));
}

#[test]
fn empty_search_issues_no_query() {
    let mut app = startup();
    app.handle_key(press(KeyCode::Char('i')));
    type_chars(&mut app, "v");
    let act = app.handle_key(press(KeyCode::Backspace));
    assert_eq!(app.search, "");
    assert!(matches!(act, Action::CancelAur));
    assert!(app.aur_inflight.is_none());
}

#[test]
fn leaving_insert_mode_touches_nothing_else() {
    let mut app = startup();
    app.handle_key(press(KeyCode::Char('i')));
    type_chars(&mut app, "vim");
    let act = app.handle_key(press(KeyCode::Enter));
    assert!(!app.insert_mode.enabled);
    assert!(matches!(act, Action::Idle));
    assert_eq!(app.aur_inflight.as_deref(), Some("vim"));
    assert_eq!(app.search, "vim");
}

#[test]
fn cursor_moves_do_not_reschedule_the_query() {
    let mut app = startup();
    app.handle_key(press(KeyCode::Char('i')));
    type_chars(&mut app, "vim");
    let rows = vec![AurRaw {
        name: String::from("vim-plug"),
        version: String::from("0.11"),
        description: None,
        num_votes: None,
    }];
    let remote = packages_from_aur(&rows);
    app.on_aur_delivery(&String::from("vim"), remote);
    assert_eq!(app.filtered.len(), 2);
    assert!(app.aur_inflight.is_none());
    let act = app.handle_key(press(KeyCode::Left));
    assert!(matches!(act, Action::Idle));
    let act = app.handle_key(press(KeyCode::Right));
    assert!(matches!(act, Action::Idle));
    assert_eq!(app.filtered.len(), 2);
    assert!(app.aur_inflight.is_none());
}

#[test]
fn unmapped_keys_in_insert_mode_are_silent() {
    let mut app = startup();
    app.handle_key(press(KeyCode::Char('i')));
    type_chars(&mut app, "vim");
    app.on_aur_delivery(&String::from("vim"), Vec::new());
    assert!(app.aur_inflight.is_none());
    let notice_before = app.notice.clone();
    let act = app.handle_key(press(KeyCode::Up));
    assert!(matches!(act, Action::Idle));
    let act = app.handle_key(press(KeyCode::Other));
    assert!(matches!(act, Action::Idle));
    assert!(app.aur_inflight.is_none());
    assert_eq!(app.search, "vim");
    assert_eq!(app.notice, notice_before);
}

#[test]
fn matching_delivery_is_appended_and_clears_notice() {
    let mut app = startup();
    app.handle_key(press(KeyCode::Char('i')));
    type_chars(&mut app, "vim");
    let rows = vec![AurRaw {
        name: String::from("vim-plug"),
        version: String::from("0.11"),
        description: Some(String::from("plugin manager")),
        num_votes: Some(1200),
    }];
    let remote = packages_from_aur(&rows);
    app.on_aur_delivery(&String::from("vim"), remote);
    let names: Vec<&str> = app.filtered.iter().map(|p| p.name.as_str()).collect();
    assert_eq!(names, vec!["vim", "vim-plug"]);
    assert_eq!(app.notice, "");
    assert!(app.aur_inflight.is_none());
}

#[test]
fn empty_delivery_sets_notice() {
    let mut app = startup();
    app.handle_key(press(KeyCode::Char('i')));
    type_chars(&mut app, "zzz");
    app.on_aur_delivery(&String::from("zzz"), Vec::new());
    assert!(app.filtered.is_empty());
    assert_eq!(
        app.notice,
        "aur searching error or the result is totally empty"
    );
}

#[test]
fn stale_delivery_is_dropped() {
    let mut app = startup();
    app.handle_key(press(KeyCode::Char('i')));
    type_chars(&mut app, "vim");
    let rows = vec![AurRaw {
        name: String::from("very-old"),
        version: String::from("0.1"),
        description: None,
        num_votes: None,
    }];
    let remote = packages_from_aur(&rows);
    app.on_aur_delivery(&String::from("vi"), remote);
    let names: Vec<&str> = app.filtered.iter().map(|p| p.name.as_str()).collect();
    assert_eq!(names, vec!["vim"]);
    assert_eq!(app.aur_inflight.as_deref(), Some("vim"));
}

#[test]
fn filter_is_idempotent_on_the_local_prefix() {
    let mut app = startup();
    app.handle_key(press(KeyCode::Char('i')));
    type_chars(&mut app, "a");
    let first: Vec<String> = app.filtered.iter().map(|p| p.name.clone()).collect();
    app.update_filter_local();
    let second: Vec<String> = app.filtered.iter().map(|p| p.name.clone()).collect();
    assert_eq!(first, second);
}

#[test]
fn insert_then_backspace_restores_buffer_and_cursor() {
    let mut app = startup();
    app.handle_key(press(KeyCode::Char('i')));
    type_chars(&mut app, "ba");
    app.handle_key(press(KeyCode::Left));
    assert_eq!(app.insert_mode.index, 1);
    app.handle_key(press(KeyCode::Char('x')));
    assert_eq!(app.search, "bxa");
    assert_eq!(app.insert_mode.index, 2);
    app.handle_key(press(KeyCode::Backspace));
    assert_eq!(app.search, "ba");
    assert_eq!(app.insert_mode.index, 1);
}

#[test]
fn cursor_is_clamped_at_both_ends() {
    let mut app = startup();
    app.handle_key(press(KeyCode::Char('i')));
    app.handle_key(press(KeyCode::Left));
    assert_eq!(app.insert_mode.index, 0);
    type_chars(&mut app, "ab");
    app.handle_key(press(KeyCode::Right));
    assert_eq!(app.insert_mode.index, 2);
    app.handle_key(press(KeyCode::Backspace));
    app.handle_key(press(KeyCode::Backspace));
    app.handle_key(press(KeyCode::Backspace));
    assert_eq!(app.search, "");
    assert_eq!(app.insert_mode.index, 0);
}

#[test]
fn selection_navigation_stays_in_bounds() {
    let mut app = startup();
    app.handle_key(press(KeyCode::Char('j')));
    assert_eq!(app.selected_pack, Some(1));
    app.handle_key(press(KeyCode::Char('G')));
    assert_eq!(app.selected_pack, Some(2));
    app.handle_key(press(KeyCode::Char('j')));
    assert_eq!(app.selected_pack, Some(2));
    app.handle_key(press(KeyCode::Char('k')));
    assert_eq!(app.selected_pack, Some(1));
    app.handle_key(press(KeyCode::Char('g')));
    assert_eq!(app.selected_pack, Some(0));
    app.handle_key(press(KeyCode::Char('k')));
    assert_eq!(app.selected_pack, Some(0));
    app.handle_key(press(KeyCode::Char('h')));
    assert_eq!(app.selected_pack, None);
    app.handle_key(press(KeyCode::Down));
    assert_eq!(app.selected_pack, Some(0));
}

#[test]
fn selection_is_repaired_after_a_narrowing_filter() {
    let mut app = startup();
    app.handle_key(press(KeyCode::Char('G')));
    assert_eq!(app.selected_pack, Some(2));
    app.handle_key(press(KeyCode::Char('i')));
    type_chars(&mut app, "bash");
    assert_eq!(app.filtered.len(), 1);
    assert_eq!(app.selected_pack, Some(0));
    type_chars(&mut app, "x");
    assert!(app.filtered.is_empty());
    assert_eq!(app.selected_pack, None);
}

#[test]
fn enter_requests_install_of_the_selection() {
    let mut app = startup();
    app.handle_key(press(KeyCode::Char('G')));
    let act = app.handle_key(press(KeyCode::Enter));
    assert!(matches!(act, Action::Install(ref name, false) if name == "vim"));
}

#[test]
fn install_success_toggles_snapshot_and_view() {
    let mut app = startup();
    app.apply_install_result(&String::from("vim"), true);
    assert!(app.items.iter().find(|p| p.name == "vim").unwrap().is_installed);
    assert!(app.filtered.iter().find(|p| p.name == "vim").unwrap().is_installed);
    assert!(!app.items.iter().find(|p| p.name == "bash").unwrap().is_installed);
    app.apply_install_result(&String::from("vim"), true);
    assert!(!app.items.iter().find(|p| p.name == "vim").unwrap().is_installed);
}

#[test]
fn install_failure_leaves_state_and_sets_notice() {
    let mut app = startup();
    app.apply_install_result(&String::from("vim"), false);
    assert!(!app.items.iter().find(|p| p.name == "vim").unwrap().is_installed);
    assert_eq!(app.notice, "install helper failed");
}

#[test]
fn remove_request_for_installed_package() {
    let mut app = App::new(vec![pkg("bash", ItemRepo::Core, true)]);
    let act = app.handle_key(press(KeyCode::Enter));
    assert!(matches!(act, Action::Install(ref name, true) if name == "bash"));
}

#[test]
fn esc_in_normal_mode_exits() {
    let mut app = startup();
    let act = app.handle_key(press(KeyCode::Esc));
    assert!(app.exit);
    assert!(matches!(act, Action::Idle));
}

#[test]
fn q_exits_and_releases_are_ignored() {
    let mut app = startup();
    let act = app.handle_key(KeyEvent { code: KeyCode::Char('q'), is_press: false });
    assert!(!app.exit);
    assert!(matches!(act, Action::Idle));
    app.handle_key(press(KeyCode::Char('q')));
    assert!(app.exit);
}

#[test]
fn unmapped_keys_are_silently_ignored() {
    let mut app = startup();
    let act = app.handle_key(press(KeyCode::Other));
    assert!(matches!(act, Action::Idle));
    let act = app.handle_key(press(KeyCode::Char('z')));
    assert!(matches!(act, Action::Idle));
    assert_eq!(app.selected_pack, Some(0));
    assert_eq!(app.search, "");
    assert!(!app.exit);
    assert!(!app.insert_mode.enabled);
}

#[test]
fn aur_rows_map_missing_fields_to_defaults() {
    let rows = vec![AurRaw {
        name: String::from("mystery"),
        version: String::from("2"),
        description: None,
        num_votes: None,
    }];
    let out = packages_from_aur(&rows);
    assert_eq!(out.len(), 1);
    let p = &out[0];
    assert!(!p.is_installed);
    assert_eq!(p.size, 0);
    assert_eq!(p.descipt, "");
    assert_eq!(p.name, "mystery");
    assert!(matches!(p.repo, ItemRepo::AUR(0)));
}
