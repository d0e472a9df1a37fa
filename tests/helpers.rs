use yorihime::actions::{Action, Actions};
use yorihime::config::Config;
use yorihime::errors::ErrorKind;
use yorihime::game::{parse_hex_offset, Game};
use yorihime::key::Key;
use yorihime::readers::{memory_result, write_mem_value};
use yorihime::utils::{get_running_games, get_touhou_game_name, parse_i32, running_of};

#[test]
fn hex_offsets_decode() {
    assert_eq!(parse_hex_offset("0x1A2b"), Some(0x1a2b));
    assert_eq!(parse_hex_offset("0x0"), Some(0));
    assert_eq!(parse_hex_offset("0x004B0C44"), Some(0x004b0c44));
    assert_eq!(parse_hex_offset("0x"), None);
    assert_eq!(parse_hex_offset("1234"), None);
    assert_eq!(parse_hex_offset("0X12"), None);
    assert_eq!(parse_hex_offset("0x12g"), None);
    assert_eq!(parse_hex_offset(""), None);
    assert_eq!(parse_hex_offset("0xffffffffffffffff"), Some(usize::MAX));
    assert_eq!(parse_hex_offset("0x10000000000000000"), None);
}

#[test]
fn decimal_values_parse() {
    assert_eq!(parse_i32("12345"), Some(12345));
    assert_eq!(parse_i32("-5"), Some(-5));
    assert_eq!(parse_i32("+7"), Some(7));
    assert_eq!(parse_i32("007"), Some(7));
    assert_eq!(parse_i32("2147483647"), Some(i32::MAX));
    assert_eq!(parse_i32("-2147483648"), Some(i32::MIN));
    assert_eq!(parse_i32("2147483648"), None);
    assert_eq!(parse_i32("-2147483649"), None);
    assert_eq!(parse_i32("99999999999999999999"), None);
    assert_eq!(parse_i32(""), None);
    assert_eq!(parse_i32("-"), None);
    assert_eq!(parse_i32("+"), None);
    assert_eq!(parse_i32("12a3"), None);
    assert_eq!(parse_i32(" 1"), None);
}

#[test]
fn parse_agrees_with_std() {
    for s in ["0", "-0", "+0", "42", "-42", "x", "1 ", "--1", "+-1", "2147483647", "-2147483648", "4294967296"] {
        assert_eq!(parse_i32(s), s.parse::<i32>().ok(), "{}", s);
    }
}

#[test]
fn titles_by_process_name() {
    assert_eq!(get_touhou_game_name("th10.exe"), "Touhou 10 - Mountain of Faith");
    assert_eq!(get_touhou_game_name("東方紅魔郷"), "Touhou 06 - Embodiment of Scarlet Devil");
    assert_eq!(get_touhou_game_name("th18.exe"), "Touhou 18 - Unconnected Marketeers");
    assert_eq!(get_touhou_game_name("notepad.exe"), "Unknown");
    assert_eq!(get_touhou_game_name(""), "Unknown");
}

#[test]
fn running_games_are_known_names() {
    let known = [
        "東方紅魔郷", "th07.exe", "th08.exe", "th09.exe", "th10.exe", "th11.exe", "th12.exe", "th13.exe",
        "th14.exe", "th15.exe", "th16.exe", "th17.exe", "th18.exe",
    ];
    for name in get_running_games() {
        assert!(known.contains(&name.as_str()));
    }
}

#[test]
fn write_to_missing_process_fails() {
    let r = write_mem_value(i32::MAX, 0x1000, 1);
    assert!(matches!(r, Err(ErrorKind::Error(_))));
}

#[test]
fn actions_find_first_bound() {
    let actions = Actions::from(vec![Action::Enter, Action::Up, Action::Down, Action::Quit, Action::Prev, Action::Next]);
    assert_eq!(actions.find(Key::Enter), Some(&Action::Enter));
    assert_eq!(actions.find(Key::Char('q')), Some(&Action::Quit));
    assert_eq!(actions.find(Key::Ctrl('c')), Some(&Action::Quit));
    assert_eq!(actions.find(Key::Left), Some(&Action::Prev));
    assert_eq!(actions.find(Key::Right), Some(&Action::Next));
    assert_eq!(actions.find(Key::Char('x')), None);
    assert_eq!(actions.find(Key::Tab), None);
    assert_eq!(actions.actions().len(), 6);
    let few = Actions::from(vec![Action::Up]);
    assert_eq!(few.find(Key::Down), None);
}

#[test]
fn action_keys_and_names() {
    assert_eq!(Action::Quit.keys(), vec![Key::Ctrl('c'), Key::Char('q')]);
    assert_eq!(Action::Enter.keys(), vec![Key::Enter]);
    assert_eq!(Action::Next.keys(), vec![Key::Right]);
    assert_eq!(
        Action::iterator(),
        vec![Action::Quit, Action::Enter, Action::Up, Action::Down, Action::Prev, Action::Next]
    );
    assert_eq!(Action::Prev.name(), "Prev");
    assert!(Action::Quit.is_bound(Key::Char('q')));
    assert!(!Action::Quit.is_bound(Key::Char('x')));
}

#[test]
fn config_lookup_and_replace() {
    let mut config = Config::new();
    assert!(config.get_game("th07.exe").is_none());
    config.insert("th07.exe".to_string(), Game::new("A", "th07.exe", vec![], 1, 2, 3));
    config.insert("th08.exe".to_string(), Game::new("B", "th08.exe", vec![], 4, 5, 6));
    assert_eq!(config.get_game("th07.exe").unwrap().name, "A");
    config.insert("th07.exe".to_string(), Game::new("C", "th07.exe", vec![], 7, 8, 9));
    let g = config.get_game("th07.exe").unwrap();
    assert_eq!(g.name, "C");
    assert_eq!(g.score_mem_addr, 7);
    assert_eq!(config.get_game("th08.exe").unwrap().bomb_mem_addr, 6);
    assert!(config.get_game("th09.exe").is_none());
}

#[test]
fn game_copy_keeps_fields() {
    let g = Game::new("A", "th07.exe", vec!["x".to_string(), "y".to_string()], 1, 2, 3);
    let c = g.duplicate();
    assert_eq!(c.name, "A");
    assert_eq!(c.process_name, "th07.exe");
    assert_eq!(c.alternate_names, vec!["x".to_string(), "y".to_string()]);
    assert_eq!((c.score_mem_addr, c.live_mem_addr, c.bomb_mem_addr), (1, 2, 3));
}

#[test]
fn error_messages() {
    assert_eq!(ErrorKind::NoGameFound.message(), "No games are found! Please run the game first!");
    assert_eq!(ErrorKind::InvalidInput.message(), "Invalid input");
    assert_eq!(ErrorKind::NotSupported.message(), "Not supported");
    assert_eq!(ErrorKind::Error("boom".to_string()).message(), "boom");
}

#[test]
fn memory_result_maps_failure_message() {
    assert!(matches!(memory_result(Ok(())), Ok(())));
    assert!(matches!(memory_result(Err("no such process".to_string())), Err(ErrorKind::Error(m)) if m == "no such process"));
}

#[test]
fn running_of_keeps_flagged_names_in_table_order() {
    let mut found = vec![false; 13];
    found[0] = true;
    found[4] = true;
    found[12] = true;
    assert_eq!(running_of(&found), vec!["東方紅魔郷".to_string(), "th10.exe".to_string(), "th18.exe".to_string()]);
    assert_eq!(running_of(&vec![false; 13]), Vec::<String>::new());
    assert_eq!(running_of(&vec![true; 13]).len(), 13);
}

#[test]
fn running_games_have_no_duplicates() {
    let r = get_running_games();
    for i in 0..r.len() {
        for j in (i + 1)..r.len() {
            assert_ne!(r[i], r[j]);
        }
    }
}
