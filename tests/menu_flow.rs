use yorihime::app::{App, AppMenu, AppReturn, AppStatus, Cheat, InputMode, MemoryWrite};
use yorihime::config::Config;
use yorihime::errors::ErrorKind;
use yorihime::events::InputEvent;
use yorihime::game::Game;
use yorihime::key::Key;

fn sample_config() -> Config {
    let mut config = Config::new();
    config.insert(
        "th07.exe".to_string(),
        Game::new("Perfect Cherry Blossom", "th07.exe", vec!["PCB".to_string()], 0x1234, 0x2345, 0x3456),
    );
    config.insert(
        "th08.exe".to_string(),
        Game::new("Imperishable Night", "th08.exe", vec![], 0x10, 0x20, 0x30),
    );
    config
}

fn running(names: &[&str]) -> Vec<String> {
    names.iter().map(|n| n.to_string()).collect()
}

/// Down to select "Select Game", then Enter with the given processes running.
fn enter_games(app: &mut App, names: &[&str]) {
    app.execute_with(Key::Down, &running(names)).unwrap();
    app.execute_with(Key::Enter, &running(names)).unwrap();
}

#[test]
fn new_app_starts_on_main_menu() {
    let app = App::new(sample_config());
    assert!(matches!(app.current_menu, AppMenu::Main));
    assert_eq!(app.items, vec!["Select Game".to_string()]);
    assert_eq!(app.selected, None);
    assert!(matches!(app.status, AppStatus::Running));
    assert_eq!(app.input_mode, InputMode::Selecting);
    assert!(matches!(app.get_current_menu(), Ok(AppMenu::Main)));
}

#[test]
fn zero_games_detected_reports_no_game_found() {
    let mut app = App::new(sample_config());
    app.execute_with(Key::Down, &vec![]).unwrap();
    let r = app.execute_with(Key::Enter, &vec![]).unwrap();
    assert_eq!(r, AppReturn::Continue);
    assert!(matches!(app.status, AppStatus::Error(ErrorKind::NoGameFound)));
    assert_eq!(app.current_menu, AppMenu::Main);
    assert!(matches!(app.get_current_menu(), Ok(AppMenu::Main)));
    assert_eq!(app.items, vec!["Select Game".to_string()]);
}

#[test]
fn unknown_running_process_is_not_a_game() {
    let mut app = App::new(sample_config());
    enter_games(&mut app, &["th12.exe"]);
    assert!(matches!(app.status, AppStatus::Error(ErrorKind::NoGameFound)));
    assert_eq!(app.current_menu, AppMenu::Main);
}

#[test]
fn select_game_lists_detected_titles() {
    let mut app = App::new(sample_config());
    enter_games(&mut app, &["th08.exe", "th12.exe", "th07.exe"]);
    assert_eq!(app.current_menu, AppMenu::GameSelection);
    assert_eq!(
        app.items,
        vec!["Touhou 08 - Imperishable Night".to_string(), "Touhou 07 - Perfect Cherry Blossom".to_string()]
    );
    assert_eq!(app.available_games.len(), 2);
    assert_eq!(app.available_games[0].process_name, "th08.exe");
    assert_eq!(app.available_games[1].score_mem_addr, 0x1234);
    assert_eq!(app.selected, Some(0));
}

#[test]
fn score_cheat_writes_typed_value_at_score_offset() {
    let mut app = App::new(sample_config());
    enter_games(&mut app, &["th07.exe"]);
    app.execute_with(Key::Enter, &vec![]).unwrap();
    assert_eq!(app.current_menu, AppMenu::CheatSelection);
    assert_eq!(app.current_game.as_ref().unwrap().process_name, "th07.exe");
    assert_eq!(app.items, vec!["Score", "Lives", "Bombs", "Power"]);
    app.execute_with(Key::Enter, &vec![]).unwrap();
    assert_eq!(app.selected_cheat, Some(Cheat::Score));
    assert_eq!(app.input_mode, InputMode::Editing);
    for c in "12345".chars() {
        app.edit_input(Key::Char(c));
    }
    assert_eq!(app.input, "12345");
    let plan = app.plan_write(Some(4242)).unwrap();
    assert_eq!(plan, Some(MemoryWrite { pid: 4242, address: 0x1234, value: 12345 }));
    let r = app.finish_commit(Ok(()));
    assert!(matches!(r, Ok(AppReturn::Continue)));
    match &app.status {
        AppStatus::Success(m) => assert_eq!(m, "Score updated!"),
        _ => panic!("expected a success notification"),
    }
    assert_eq!(app.input_mode, InputMode::Selecting);
    assert_eq!(app.current_menu, AppMenu::CheatSelection);
    assert_eq!(app.selected_cheat, Some(Cheat::Score));
}

#[test]
fn failed_write_returns_its_error_and_changes_nothing() {
    let mut app = App::new(sample_config());
    enter_games(&mut app, &["th07.exe"]);
    app.execute_with(Key::Enter, &vec![]).unwrap();
    app.execute_with(Key::Enter, &vec![]).unwrap();
    app.edit_input(Key::Char('5'));
    let r = app.finish_commit(Err(ErrorKind::Error("denied".to_string())));
    assert!(matches!(r, Err(ErrorKind::Error(m)) if m == "denied"));
    assert!(matches!(app.status, AppStatus::Running));
    assert_eq!(app.input_mode, InputMode::Editing);
    assert_eq!(app.input, "5");
}

#[test]
fn prev_while_editing_returns_to_selecting() {
    let mut app = App::new(sample_config());
    enter_games(&mut app, &["th07.exe"]);
    app.execute_with(Key::Enter, &vec![]).unwrap();
    app.execute_with(Key::Enter, &vec![]).unwrap();
    assert_eq!(app.input_mode, InputMode::Editing);
    app.execute_with(Key::Left, &running(&["th07.exe"])).unwrap();
    assert_eq!(app.current_menu, AppMenu::GameSelection);
    assert_eq!(app.input_mode, InputMode::Selecting);
}

#[test]
fn lives_and_bombs_use_their_offsets() {
    let mut app = App::new(sample_config());
    enter_games(&mut app, &["th07.exe"]);
    app.execute_with(Key::Enter, &vec![]).unwrap();
    app.execute_with(Key::Down, &vec![]).unwrap();
    app.execute_with(Key::Enter, &vec![]).unwrap();
    assert_eq!(app.selected_cheat, Some(Cheat::Lives));
    app.edit_input(Key::Char('-'));
    app.edit_input(Key::Char('3'));
    assert_eq!(app.plan_write(Some(1)).unwrap(), Some(MemoryWrite { pid: 1, address: 0x2345, value: -3 }));
    app.record_write();
    assert!(matches!(&app.status, AppStatus::Success(m) if m == "Lives updated!"));
    app.execute_with(Key::Down, &vec![]).unwrap();
    app.execute_with(Key::Enter, &vec![]).unwrap();
    assert_eq!(app.selected_cheat, Some(Cheat::Bombs));
    assert_eq!(app.input, "");
    app.edit_input(Key::Char('9'));
    assert_eq!(app.plan_write(Some(1)).unwrap(), Some(MemoryWrite { pid: 1, address: 0x3456, value: 9 }));
    app.record_write();
    assert!(matches!(&app.status, AppStatus::Success(m) if m == "Bombs updated!"));
}

#[test]
fn power_cheat_is_not_supported() {
    let mut app = App::new(sample_config());
    enter_games(&mut app, &["th07.exe"]);
    app.execute_with(Key::Enter, &vec![]).unwrap();
    app.execute_with(Key::Up, &vec![]).unwrap();
    assert_eq!(app.selected, Some(3));
    let r = app.execute_with(Key::Enter, &vec![]);
    assert!(matches!(r, Err(ErrorKind::NotSupported)));
    assert_eq!(app.input_mode, InputMode::Selecting);
    assert_eq!(app.selected_cheat, None);
}

#[test]
fn power_cheat_through_event_shows_error() {
    let mut app = App::new(sample_config());
    enter_games(&mut app, &["th07.exe"]);
    app.execute_with(Key::Enter, &vec![]).unwrap();
    app.execute_with(Key::Up, &vec![]).unwrap();
    let r = app.handle_event(InputEvent::Input(Key::Enter));
    assert_eq!(r, AppReturn::Continue);
    assert!(matches!(app.status, AppStatus::Error(ErrorKind::NotSupported)));
    assert_eq!(app.input_mode, InputMode::Selecting);
    // the next key only dismisses the notification
    app.handle_event(InputEvent::Input(Key::Down));
    assert!(matches!(app.status, AppStatus::Running));
    assert_eq!(app.selected, Some(3));
}

#[test]
fn malformed_value_is_invalid_input_and_stays_editing() {
    let mut app = App::new(sample_config());
    enter_games(&mut app, &["th07.exe"]);
    app.execute_with(Key::Enter, &vec![]).unwrap();
    app.execute_with(Key::Enter, &vec![]).unwrap();
    for c in "12a3".chars() {
        app.edit_input(Key::Char(c));
    }
    assert!(matches!(app.plan_write(Some(7)), Err(ErrorKind::InvalidInput)));
    assert_eq!(app.input_mode, InputMode::Editing);
    assert_eq!(app.input, "12a3");
}

#[test]
fn missing_process_is_not_found() {
    let mut app = App::new(sample_config());
    enter_games(&mut app, &["th07.exe"]);
    app.execute_with(Key::Enter, &vec![]).unwrap();
    app.execute_with(Key::Enter, &vec![]).unwrap();
    app.edit_input(Key::Char('1'));
    assert!(matches!(app.plan_write(None), Err(ErrorKind::NotFound)));
}

#[test]
fn nothing_to_commit_without_a_cheat() {
    let mut app = App::new(sample_config());
    assert_eq!(app.plan_write(Some(1)).unwrap(), None);
    assert!(matches!(app.execute_input(), Ok(AppReturn::Continue)));
    assert!(matches!(app.status, AppStatus::Running));
}

#[test]
fn editing_keys_change_the_buffer() {
    let mut app = App::new(sample_config());
    enter_games(&mut app, &["th07.exe"]);
    app.execute_with(Key::Enter, &vec![]).unwrap();
    app.execute_with(Key::Enter, &vec![]).unwrap();
    app.handle_event(InputEvent::Input(Key::Char('4')));
    app.handle_event(InputEvent::Input(Key::Char('2')));
    assert_eq!(app.input, "42");
    app.handle_event(InputEvent::Input(Key::Backspace));
    assert_eq!(app.input, "4");
    app.edit_input(Key::Backspace);
    app.edit_input(Key::Backspace);
    assert_eq!(app.input, "");
    app.handle_event(InputEvent::Input(Key::Esc));
    assert_eq!(app.input_mode, InputMode::Selecting);
}

#[test]
fn down_wraps_from_last_to_first() {
    let mut app = App::new(sample_config());
    enter_games(&mut app, &["th07.exe"]);
    app.execute_with(Key::Enter, &vec![]).unwrap();
    app.selected = Some(3);
    app.execute_with(Key::Down, &vec![]).unwrap();
    assert_eq!(app.selected, Some(0));
}

#[test]
fn up_wraps_from_first_to_last() {
    let mut app = App::new(sample_config());
    enter_games(&mut app, &["th07.exe"]);
    app.execute_with(Key::Enter, &vec![]).unwrap();
    assert_eq!(app.selected, Some(0));
    app.execute_with(Key::Up, &vec![]).unwrap();
    assert_eq!(app.selected, Some(3));
}

#[test]
fn up_down_sequence_stays_in_range() {
    let mut app = App::new(sample_config());
    enter_games(&mut app, &["th07.exe", "th08.exe"]);
    let keys = [Key::Down, Key::Down, Key::Down, Key::Up, Key::Up, Key::Up, Key::Up, Key::Down];
    for k in keys.iter() {
        app.execute_with(*k, &vec![]).unwrap();
        let i = app.selected.unwrap();
        assert!(i < app.items.len());
    }
    app.next();
    app.previous();
    assert!(app.selected.unwrap() < app.items.len());
}

#[test]
fn selection_on_empty_list_is_none() {
    let mut app = App::new(sample_config());
    app.items = vec![];
    app.next();
    assert_eq!(app.selected, None);
    app.previous();
    assert_eq!(app.selected, None);
}

#[test]
fn main_menu_ignores_prev_and_quits() {
    let mut app = App::new(sample_config());
    assert_eq!(app.execute_with(Key::Left, &vec![]).unwrap(), AppReturn::Continue);
    assert_eq!(app.current_menu, AppMenu::Main);
    assert_eq!(app.execute_with(Key::Char('q'), &vec![]).unwrap(), AppReturn::Exit);
    assert_eq!(app.execute_with(Key::Ctrl('c'), &vec![]).unwrap(), AppReturn::Exit);
    assert_eq!(app.execute_with(Key::Tab, &vec![]).unwrap(), AppReturn::Continue);
}

#[test]
fn enter_then_prev_restores_main_items() {
    let mut app = App::new(sample_config());
    let before = app.items.clone();
    enter_games(&mut app, &["th07.exe", "th08.exe"]);
    assert_eq!(app.current_menu, AppMenu::GameSelection);
    app.execute_with(Key::Left, &vec![]).unwrap();
    assert_eq!(app.current_menu, AppMenu::Main);
    assert_eq!(app.items, before);
    assert!(matches!(app.get_current_menu(), Ok(AppMenu::Main)));
}

#[test]
fn prev_from_cheats_lists_games_again() {
    let mut app = App::new(sample_config());
    enter_games(&mut app, &["th07.exe"]);
    app.execute_with(Key::Enter, &vec![]).unwrap();
    app.execute_with(Key::Left, &running(&["th08.exe", "th07.exe"])).unwrap();
    assert_eq!(app.current_menu, AppMenu::GameSelection);
    assert!(matches!(app.get_current_menu(), Ok(AppMenu::GameSelection)));
    assert_eq!(app.items.len(), 2);
    assert_eq!(app.items[0], "Touhou 08 - Imperishable Night");
}

#[test]
fn game_enter_without_selection_fails() {
    let mut app = App::new(sample_config());
    enter_games(&mut app, &["th07.exe"]);
    app.selected = None;
    assert!(matches!(app.execute_with(Key::Enter, &vec![]), Err(ErrorKind::NoGameFound)));
    assert_eq!(app.current_menu, AppMenu::GameSelection);
}

#[test]
fn dismissing_success_keeps_games_and_selection() {
    let mut app = App::new(sample_config());
    enter_games(&mut app, &["th07.exe", "th08.exe"]);
    app.execute_with(Key::Down, &vec![]).unwrap();
    app.status = AppStatus::Success("Score updated!".to_string());
    app.dismiss_status(&running(&["th18.exe"]));
    assert!(matches!(app.status, AppStatus::Running));
    assert_eq!(app.available_games.len(), 2);
    assert_eq!(app.selected, Some(1));
}

#[test]
fn dismissing_other_error_keeps_games_and_selection() {
    let mut app = App::new(sample_config());
    enter_games(&mut app, &["th07.exe"]);
    app.status = AppStatus::Error(ErrorKind::InvalidInput);
    app.dismiss_status(&vec![]);
    assert!(matches!(app.status, AppStatus::Running));
    assert_eq!(app.available_games.len(), 1);
    assert_eq!(app.selected, Some(0));
}

#[test]
fn dismissing_no_game_found_refreshes_games() {
    let mut app = App::new(sample_config());
    enter_games(&mut app, &[]);
    assert!(matches!(app.status, AppStatus::Error(ErrorKind::NoGameFound)));
    assert_eq!(app.available_games.len(), 0);
    app.dismiss_status(&running(&["th08.exe"]));
    assert!(matches!(app.status, AppStatus::Running));
    assert_eq!(app.available_games.len(), 1);
    assert_eq!(app.current_menu, AppMenu::Main);
}

#[test]
fn ctrl_c_quits_while_editing_and_q_is_typed() {
    let mut app = App::new(sample_config());
    enter_games(&mut app, &["th07.exe"]);
    app.execute_with(Key::Enter, &vec![]).unwrap();
    app.execute_with(Key::Enter, &vec![]).unwrap();
    assert_eq!(app.handle_event(InputEvent::Input(Key::Char('q'))), AppReturn::Continue);
    assert_eq!(app.input, "q");
    assert_eq!(app.handle_event(InputEvent::Input(Key::Ctrl('c'))), AppReturn::Exit);
}

#[test]
fn tick_changes_nothing() {
    let mut app = App::new(sample_config());
    assert!(matches!(app.tick(), Ok(AppReturn::Continue)));
    assert_eq!(app.handle_event(InputEvent::Tick), AppReturn::Continue);
    assert_eq!(app.selected, None);
    assert_eq!(app.current_menu, AppMenu::Main);
}

#[test]
fn history_push_and_pop() {
    let mut app = App::new(sample_config());
    app.add_history(AppMenu::GameSelection);
    assert!(matches!(app.get_current_menu(), Ok(AppMenu::GameSelection)));
    assert_eq!(app.pop_history(), Some(AppMenu::GameSelection));
    assert_eq!(app.pop_history(), Some(AppMenu::Main));
    assert_eq!(app.pop_history(), None);
    assert!(matches!(app.get_current_menu(), Err(ErrorKind::NoMenuInHistory)));
}

#[test]
fn status_accessors() {
    let ok = AppStatus::Success("done".to_string());
    assert_eq!(ok.success(), Some(&"done".to_string()));
    assert!(ok.error().is_none());
    let err = AppStatus::Error(ErrorKind::NotFound);
    assert!(matches!(err.error(), Some(ErrorKind::NotFound)));
    assert!(err.success().is_none());
    assert!(AppStatus::Running.success().is_none());
    assert!(AppStatus::Running.error().is_none());
}

#[test]
fn quit_from_every_menu() {
    let mut app = App::new(sample_config());
    enter_games(&mut app, &["th07.exe"]);
    assert_eq!(app.execute_with(Key::Char('q'), &vec![]).unwrap(), AppReturn::Exit);
    app.execute_with(Key::Enter, &vec![]).unwrap();
    assert_eq!(app.execute_with(Key::Ctrl('c'), &vec![]).unwrap(), AppReturn::Exit);
    assert_eq!(app.current_menu, AppMenu::CheatSelection);
}
