use vstd::prelude::*;
use vstd::string::*;

use crate::actions::{first_bound, Action, Actions};
use crate::config::Config;
use crate::errors::ErrorKind;
use crate::events::InputEvent;
use crate::game::{texts, Game, GameView};
use crate::key::Key;
use crate::readers::{get_pid_by_name, write_mem_value};
use crate::utils::{
    get_running_games, get_touhou_game_name, known_processes, lemma_picked_none, picked, running_list, i32_of_text, parse_i32, pop_char, push_char, str_eq, touhou_title,
};

verus! {

#[derive(Debug, Clone, Copy, PartialEq, Eq, Structural)]
pub enum InputMode {
    Selecting,
    Editing,
}

#[derive(Debug, Clone, Copy, PartialEq, Eq, Structural)]
pub enum RunningState {
    NotRunning,
    Running,
}

/// A game variable that can be overwritten.
#[derive(Debug, Clone, Copy, PartialEq, Eq, Structural)]
pub enum Cheat {
    Score,
    Lives,
    Bombs,
    Power,
}

/// One screen of the interactive flow.
#[derive(Debug, Clone, Copy, PartialEq, Eq, Structural)]
pub enum AppMenu {
    Main,
    GameSelection,
    CheatSelection,
}

/// Whether the driving loop goes on.
#[derive(Debug, Clone, Copy, PartialEq, Eq, Structural)]
pub enum AppReturn {
    Exit,
    Continue,
}

/// The notification shown over the menus, if any.
#[derive(Debug)]
pub enum AppStatus {
    Success(String),
    Error(ErrorKind),
    Running,
}

/// What an `AppStatus` holds, as plain values.
pub enum StatusView {
    Success(Seq<char>),
    Error(ErrorKind),
    Running,
}

pub open spec fn status_view(s: AppStatus) -> StatusView {
    match s {
        AppStatus::Success(m) => StatusView::Success(m@),
        AppStatus::Error(e) => StatusView::Error(e),
        AppStatus::Running => StatusView::Running,
    }
}

impl AppStatus {
    pub fn success(&self) -> (r: Option<&String>)
        ensures
            r matches Some(m) ==> *self == AppStatus::Success(*m),
            r is None <==> !(*self is Success),
    {
        match self {
            AppStatus::Success(msg) => Some(msg),
            _ => None,
        }
    }

    pub fn error(&self) -> (r: Option<&ErrorKind>)
        ensures
            r matches Some(e) ==> *self == AppStatus::Error(*e),
            r is None <==> !(*self is Error),
    {
        match self {
            AppStatus::Error(err) => Some(err),
            _ => None,
        }
    }
}

/// A write into the game's memory that a committed value asks for.
#[derive(Debug, Clone, Copy, PartialEq, Eq, Structural)]
pub struct MemoryWrite {
    pub pid: i32,
    pub address: usize,
    pub value: i32,
}

/// The whole application state, as plain values.
pub struct AppView {
    pub history: Seq<AppMenu>,
    pub config: Map<Seq<char>, GameView>,
    pub current_game: Option<GameView>,
    pub available_games: Seq<GameView>,
    pub selected_cheat: Option<Cheat>,
    pub selected: Option<usize>,
    pub input: Seq<char>,
    pub input_mode: InputMode,
    pub items: Seq<Seq<char>>,
    pub current_menu: AppMenu,
    pub status: StatusView,
}

/// The actions the application listens to, in the order they are tried.
pub open spec fn app_actions() -> Seq<Action> {
    seq![Action::Enter, Action::Up, Action::Down, Action::Quit, Action::Prev, Action::Next]
}

/// The action a key press means to the menus.
pub open spec fn action_for(key: Key) -> Option<Action> {
    first_bound(app_actions(), key)
}

/// The history that leads to a menu.
pub open spec fn menu_path(m: AppMenu) -> Seq<AppMenu> {
    match m {
        AppMenu::Main => seq![AppMenu::Main],
        AppMenu::GameSelection => seq![AppMenu::Main, AppMenu::GameSelection],
        AppMenu::CheatSelection => seq![AppMenu::Main, AppMenu::GameSelection, AppMenu::CheatSelection],
    }
}

pub open spec fn main_labels() -> Seq<Seq<char>> {
    seq!["Select Game"@]
}

pub open spec fn cheat_labels() -> Seq<Seq<char>> {
    seq!["Score"@, "Lives"@, "Bombs"@, "Power"@]
}

/// The cheat that a label of the cheat menu names.
pub open spec fn cheat_of_label(l: Seq<char>) -> Option<Cheat> {
    if l == "Score"@ {
        Some(Cheat::Score)
    } else if l == "Lives"@ {
        Some(Cheat::Lives)
    } else if l == "Bombs"@ {
        Some(Cheat::Bombs)
    } else if l == "Power"@ {
        Some(Cheat::Power)
    } else {
        None
    }
}

/// The notification shown after a successful write; Power has none, since
/// it is never written.
pub open spec fn cheat_message(c: Cheat) -> Option<Seq<char>> {
    match c {
        Cheat::Score => Some("Score updated!"@),
        Cheat::Lives => Some("Lives updated!"@),
        Cheat::Bombs => Some("Bombs updated!"@),
        Cheat::Power => None,
    }
}

/// Whether a cheat names a value that can be written.
pub open spec fn writable(c: Option<Cheat>) -> bool {
    c matches Some(k) && k != Cheat::Power
}

/// The running process names that the database knows, in the order given.
pub open spec fn detected_keys(cfg: Map<Seq<char>, GameView>, running: Seq<Seq<char>>) -> Seq<Seq<char>>
    decreases running.len(),
{
    if running.len() == 0 {
        seq![]
    } else if cfg.contains_key(running.last()) {
        detected_keys(cfg, running.drop_last()).push(running.last())
    } else {
        detected_keys(cfg, running.drop_last())
    }
}

pub open spec fn games_of(cfg: Map<Seq<char>, GameView>, keys: Seq<Seq<char>>) -> Seq<GameView> {
    keys.map_values(|k: Seq<char>| cfg[k])
}

pub open spec fn titles_of(keys: Seq<Seq<char>>) -> Seq<Seq<char>> {
    keys.map_values(|k: Seq<char>| touhou_title(k))
}

/// The selection after moving down: past the last item back to the first.
pub open spec fn next_index(sel: Option<usize>, len: nat) -> Option<usize> {
    if len == 0 {
        None
    } else {
        match sel {
            Some(i) => if i + 1 >= len {
                Some(0usize)
            } else {
                Some((i + 1) as usize)
            },
            None => Some(0usize),
        }
    }
}

/// The selection after moving up: before the first item to the last.
pub open spec fn prev_index(sel: Option<usize>, len: nat) -> Option<usize> {
    if len == 0 {
        None
    } else {
        match sel {
            Some(i) => if i == 0 {
                Some((len - 1) as usize)
            } else {
                Some((i - 1) as usize)
            },
            None => Some(0usize),
        }
    }
}

/// The selection kept across a change of item list: kept while in range.
pub open spec fn kept_selection(sel: Option<usize>, len: nat) -> Option<usize> {
    match sel {
        Some(i) => if i < len {
            Some(i)
        } else {
            None
        },
        None => None,
    }
}

/// The invariant of every reachable state.
pub open spec fn valid(v: AppView) -> bool {
    &&& v.history == menu_path(v.current_menu)
    &&& v.selected matches Some(i) ==> i < v.items.len()
    &&& v.current_menu == AppMenu::Main ==> v.items == main_labels()
    &&& v.current_menu == AppMenu::GameSelection ==> v.items.len() == v.available_games.len()
    &&& v.current_menu == AppMenu::CheatSelection ==> v.items == cheat_labels() && v.current_game is Some
    &&& v.input_mode == InputMode::Editing ==> v.current_menu == AppMenu::CheatSelection && writable(v.selected_cheat)
}

/// The state after the detected games are looked up again; the game menu,
/// when shown, lists them.
pub open spec fn refreshed(v: AppView, running: Seq<Seq<char>>) -> AppView {
    let keys = detected_keys(v.config, running);
    if v.current_menu == AppMenu::GameSelection {
        AppView {
            available_games: games_of(v.config, keys),
            items: titles_of(keys),
            selected: kept_selection(v.selected, keys.len()),
            ..v
        }
    } else {
        AppView { available_games: games_of(v.config, keys), ..v }
    }
}

/// A key press on the main menu.
pub open spec fn main_step(v: AppView, key: Key, running: Seq<Seq<char>>) -> (AppView, Result<AppReturn, ErrorKind>) {
    match action_for(key) {
        Some(Action::Enter) => {
            if v.selected matches Some(i) && i < v.items.len() && v.items[i as int] == "Select Game"@ {
                let keys = detected_keys(v.config, running);
                if keys.len() == 0 {
                    (AppView {
                        available_games: seq![],
                        status: StatusView::Error(ErrorKind::NoGameFound),
                        ..v
                    }, Ok(AppReturn::Continue))
                } else {
                    (AppView {
                        history: v.history.push(AppMenu::GameSelection),
                        current_menu: AppMenu::GameSelection,
                        available_games: games_of(v.config, keys),
                        items: titles_of(keys),
                        selected: kept_selection(v.selected, keys.len()),
                        ..v
                    }, Ok(AppReturn::Continue))
                }
            } else {
                (v, Ok(AppReturn::Continue))
            }
        },
        Some(Action::Up) => (AppView { selected: prev_index(v.selected, v.items.len()), ..v }, Ok(AppReturn::Continue)),
        Some(Action::Down) => (AppView { selected: next_index(v.selected, v.items.len()), ..v }, Ok(AppReturn::Continue)),
        Some(Action::Quit) => (v, Ok(AppReturn::Exit)),
        _ => (v, Ok(AppReturn::Continue)),
    }
}

/// A key press on the game menu.
pub open spec fn game_step(v: AppView, key: Key) -> (AppView, Result<AppReturn, ErrorKind>) {
    match action_for(key) {
        Some(Action::Enter) => match v.selected {
            Some(i) => if i < v.available_games.len() {
                (AppView {
                    current_game: Some(v.available_games[i as int]),
                    history: v.history.push(AppMenu::CheatSelection),
                    current_menu: AppMenu::CheatSelection,
                    items: cheat_labels(),
                    selected: kept_selection(v.selected, 4),
                    ..v
                }, Ok(AppReturn::Continue))
            } else {
                (v, Err(ErrorKind::NoGameFound))
            },
            None => (v, Err(ErrorKind::NoGameFound)),
        },
        Some(Action::Up) => (AppView { selected: prev_index(v.selected, v.items.len()), ..v }, Ok(AppReturn::Continue)),
        Some(Action::Down) => (AppView { selected: next_index(v.selected, v.items.len()), ..v }, Ok(AppReturn::Continue)),
        Some(Action::Quit) => (v, Ok(AppReturn::Exit)),
        Some(Action::Prev) => (AppView {
            history: v.history.drop_last(),
            current_menu: AppMenu::Main,
            items: main_labels(),
            selected: kept_selection(v.selected, 1),
            ..v
        }, Ok(AppReturn::Continue)),
        _ => (v, Ok(AppReturn::Continue)),
    }
}

/// A key press on the cheat menu.
pub open spec fn cheat_step(v: AppView, key: Key, running: Seq<Seq<char>>) -> (AppView, Result<AppReturn, ErrorKind>) {
    match action_for(key) {
        Some(Action::Enter) => match v.selected {
            Some(i) => if v.input_mode == InputMode::Selecting && i < v.items.len() {
                match cheat_of_label(v.items[i as int]) {
                    Some(Cheat::Power) => (v, Err(ErrorKind::NotSupported)),
                    Some(c) => (AppView {
                        selected_cheat: Some(c),
                        input_mode: InputMode::Editing,
                        input: seq![],
                        ..v
                    }, Ok(AppReturn::Continue)),
                    None => (v, Ok(AppReturn::Continue)),
                }
            } else {
                (v, Ok(AppReturn::Continue))
            },
            None => (v, Ok(AppReturn::Continue)),
        },
        Some(Action::Up) => (AppView { selected: prev_index(v.selected, v.items.len()), ..v }, Ok(AppReturn::Continue)),
        Some(Action::Down) => (AppView { selected: next_index(v.selected, v.items.len()), ..v }, Ok(AppReturn::Continue)),
        Some(Action::Quit) => (v, Ok(AppReturn::Exit)),
        Some(Action::Prev) => {
            let keys = detected_keys(v.config, running);
            (AppView {
                history: v.history.drop_last(),
                current_menu: AppMenu::GameSelection,
                input_mode: InputMode::Selecting,
                available_games: games_of(v.config, keys),
                items: titles_of(keys),
                selected: kept_selection(v.selected, keys.len()),
                ..v
            }, Ok(AppReturn::Continue))
        },
        _ => (v, Ok(AppReturn::Continue)),
    }
}

/// A key press routed by the menu on top of the history.
pub open spec fn menu_step(v: AppView, key: Key, running: Seq<Seq<char>>) -> (AppView, Result<AppReturn, ErrorKind>) {
    match v.current_menu {
        AppMenu::Main => main_step(v, key, running),
        AppMenu::GameSelection => game_step(v, key),
        AppMenu::CheatSelection => cheat_step(v, key, running),
    }
}

/// What committing the typed value asks for, given the id found for the
/// current game's process.
pub open spec fn write_plan(v: AppView, pid: Option<i32>) -> Result<Option<MemoryWrite>, ErrorKind> {
    match v.selected_cheat {
        None => Ok(None),
        Some(Cheat::Power) => Err(ErrorKind::NotSupported),
        Some(c) => match v.current_game {
            None => Err(ErrorKind::NoGameFound),
            Some(g) => match pid {
                None => Err(ErrorKind::NotFound),
                Some(p) => match i32_of_text(v.input) {
                    None => Err(ErrorKind::InvalidInput),
                    Some(value) => Ok(Some(MemoryWrite {
                        pid: p,
                        address: match c {
                            Cheat::Score => g.score_mem_addr,
                            Cheat::Lives => g.live_mem_addr,
                            _ => g.bomb_mem_addr,
                        },
                        value,
                    })),
                },
            },
        },
    }
}

/// A key typed while a value is being entered (other than Enter).
pub open spec fn edit_step(v: AppView, key: Key) -> AppView {
    match key {
        Key::Char(c) => AppView { input: v.input.push(c), ..v },
        Key::Backspace => if v.input.len() > 0 {
            AppView { input: v.input.drop_last(), ..v }
        } else {
            v
        },
        Key::Esc => AppView { input_mode: InputMode::Selecting, ..v },
        _ => v,
    }
}

/// The state after a notification is dismissed; dismissing "no game found"
/// also looks up the running games again.
pub open spec fn dismissed(v: AppView, running: Seq<Seq<char>>) -> AppView {
    if v.status == StatusView::Error(ErrorKind::NoGameFound) {
        AppView { status: StatusView::Running, ..refreshed(v, running) }
    } else {
        AppView { status: StatusView::Running, ..v }
    }
}

/// A key press routed to the menus while no notification is shown; a failure
/// becomes the notification.
pub open spec fn routed(v: AppView, key: Key, running: Seq<Seq<char>>) -> (AppView, AppReturn) {
    let (w, res) = menu_step(v, key, running);
    match res {
        Ok(a) => (w, a),
        Err(e) => (AppView { status: StatusView::Error(e), ..w }, AppReturn::Continue),
    }
}

/// The state after a write that committing the value asked for went through.
pub open spec fn written(v: AppView) -> AppView {
    AppView {
        status: StatusView::Success(cheat_message(v.selected_cheat.unwrap()).unwrap()),
        input_mode: InputMode::Selecting,
        ..v
    }
}

/// The state and result once the write for a writable cheat has returned
/// `write`: on success the cheat's notification and selecting again; on
/// failure that error, with nothing changed.
pub open spec fn finished(v: AppView, write: Result<(), ErrorKind>) -> (AppView, Result<AppReturn, ErrorKind>) {
    match write {
        Ok(()) => (written(v), Ok(AppReturn::Continue)),
        Err(e) => (v, Err(e)),
    }
}

/// What committing the typed value gives, given the process id found for the
/// current game and what the write returned when one was made.
pub open spec fn commit_outcome(
    v: AppView,
    pid: Option<i32>,
    write: Result<(), ErrorKind>,
    w: AppView,
    r: Result<AppReturn, ErrorKind>,
) -> bool {
    match write_plan(v, pid) {
        Err(e) => r == Err::<AppReturn, ErrorKind>(e) && w == v,
        Ok(None) => r == Ok::<AppReturn, ErrorKind>(AppReturn::Continue) && w == v,
        Ok(Some(_)) => (w, r) == finished(v, write),
    }
}

/// The notification a failed commit leaves.
pub open spec fn failed_commit(w: AppView, r: Result<AppReturn, ErrorKind>) -> AppView {
    match r {
        Err(e) => AppView { status: StatusView::Error(e), ..w },
        Ok(_) => w,
    }
}

/// The interactive application: menus, selection, typed value and status.
pub struct App {
    history: Vec<AppMenu>,
    actions: Actions,
    config: Config,
    pub current_game: Option<Game>,
    pub available_games: Vec<Game>,
    pub selected_cheat: Option<Cheat>,
    pub selected: Option<usize>,
    pub input: String,
    pub input_mode: InputMode,
    pub items: Vec<String>,
    pub current_menu: AppMenu,
    pub status: AppStatus,
}

pub open spec fn game_views(v: Seq<Game>) -> Seq<GameView> {
    v.map_values(|g: Game| g@)
}

pub open spec fn opt_game_view(g: Option<Game>) -> Option<GameView> {
    match g {
        Some(g) => Some(g@),
        None => None,
    }
}

impl View for App {
    type V = AppView;

    closed spec fn view(&self) -> AppView {
        AppView {
            history: self.history@,
            config: self.config@,
            current_game: opt_game_view(self.current_game),
            available_games: game_views(self.available_games@),
            selected_cheat: self.selected_cheat,
            selected: self.selected,
            input: self.input@,
            input_mode: self.input_mode,
            items: texts(self.items@),
            current_menu: self.current_menu,
            status: status_view(self.status),
        }
    }
}

fn main_items() -> (r: Vec<String>)
    ensures
        texts(r@) == main_labels(),
{
    let r = vec![String::from_str("Select Game")];
    assert(texts(r@) =~= main_labels());
    r
}

fn cheat_items() -> (r: Vec<String>)
    ensures
        texts(r@) == cheat_labels(),
{
    let r = vec![
        String::from_str("Score"),
        String::from_str("Lives"),
        String::from_str("Bombs"),
        String::from_str("Power"),
    ];
    assert(texts(r@) =~= cheat_labels());
    r
}

/// The cheat that a label of the cheat menu names.
fn cheat_for_label(l: &str) -> (r: Option<Cheat>)
    ensures
        r == cheat_of_label(l@),
{
    if str_eq(l, "Score") {
        Some(Cheat::Score)
    } else if str_eq(l, "Lives") {
        Some(Cheat::Lives)
    } else if str_eq(l, "Bombs") {
        Some(Cheat::Bombs)
    } else if str_eq(l, "Power") {
        Some(Cheat::Power)
    } else {
        None
    }
}

/// The running games when `needed`, else an empty list; either is a list a
/// lookup could give.
fn running_games_if(needed: bool) -> (r: Vec<String>)
    ensures
        running_list(texts(r@)),
{
    if needed {
        get_running_games()
    } else {
        let r: Vec<String> = Vec::new();
        proof {
            let none = Seq::new(known_processes().len(), |i: int| false);
            lemma_picked_none(known_processes(), none);
            assert(texts(r@) =~= picked(known_processes(), none));
        }
        r
    }
}

fn keep_selection(sel: Option<usize>, len: usize) -> (r: Option<usize>)
    ensures
        r == kept_selection(sel, len as nat),
{
    match sel {
        Some(i) => if i < len {
            Some(i)
        } else {
            None
        },
        None => None,
    }
}

impl App {
    /// The state's invariant.
    pub closed spec fn wf(&self) -> bool {
        &&& valid(self@)
        &&& self.actions@ == app_actions()
        &&& self.config.wf()
    }

    /// A well-formed application is in a valid state: the history leads to
    /// the current menu, the selection is on an item, the items match the
    /// menu, and a value is typed only for a writable cheat of the cheat menu.
    pub proof fn lemma_wf_valid(&self)
        requires
            self.wf(),
        ensures
            valid(self@),
    {
    }

    /// A fresh application on the main menu, over the given address database.
    pub fn new(config: Config) -> (r: App)
        requires
            config.wf(),
        ensures
            r.wf(),
            r@ == (AppView {
                history: seq![AppMenu::Main],
                config: config@,
                current_game: None,
                available_games: seq![],
                selected_cheat: None,
                selected: None,
                input: seq![],
                input_mode: InputMode::Selecting,
                items: main_labels(),
                current_menu: AppMenu::Main,
                status: StatusView::Running,
            }),
    {
        let actions = Actions::from(
            vec![Action::Enter, Action::Up, Action::Down, Action::Quit, Action::Prev, Action::Next],
        );
        let r = App {
            history: vec![AppMenu::Main],
            actions,
            config,
            input: String::new(),
            input_mode: InputMode::Selecting,
            items: main_items(),
            current_menu: AppMenu::Main,
            selected_cheat: None,
            selected: None,
            current_game: None,
            available_games: Vec::new(),
            status: AppStatus::Running,
        };
        assert(r.actions@ =~= app_actions());
        assert(r.history@ =~= seq![AppMenu::Main]);
        assert(game_views(r.available_games@) =~= seq![]);
        r
    }

    /// The menus visited, the current one last.
    pub closed spec fn history_view(&self) -> Seq<AppMenu> {
        self.history@
    }

    /// The address database in use.
    pub closed spec fn config_view(&self) -> Map<Seq<char>, GameView> {
        self.config@
    }

    pub fn add_history(&mut self, menu: AppMenu)
        ensures
            final(self)@ == (AppView { history: old(self)@.history.push(menu), ..old(self)@ }),
    {
        self.history.push(menu);
    }

    pub fn pop_history(&mut self) -> (r: Option<AppMenu>)
        ensures
            old(self)@.history.len() == 0 ==> r is None && final(self)@ == old(self)@,
            old(self)@.history.len() > 0 ==> r == Some(old(self)@.history.last())
                && final(self)@ == (AppView { history: old(self)@.history.drop_last(), ..old(self)@ }),
    {
        self.history.pop()
    }

    /// The menu on top of the history.
    pub fn get_current_menu(&self) -> (r: Result<&AppMenu, ErrorKind>)
        ensures
            self@.history.len() == 0 <==> r == Err::<&AppMenu, ErrorKind>(ErrorKind::NoMenuInHistory),
            self@.history.len() > 0 ==> r == Ok::<&AppMenu, ErrorKind>(&self@.history.last()),
            self.wf() ==> r == Ok::<&AppMenu, ErrorKind>(&self@.current_menu),
    {
        let n = self.history.len();
        if n == 0 {
            Err(ErrorKind::NoMenuInHistory)
        } else {
            Ok(&self.history[n - 1])
        }
    }

    /// Moves the selection down, from the last item back to the first.
    pub fn next(&mut self)
        ensures
            final(self)@ == (AppView { selected: next_index(old(self)@.selected, old(self)@.items.len()), ..old(self)@ }),
            old(self).wf() ==> final(self).wf(),
    {
        let len = self.items.len();
        if len == 0 {
            self.selected = None;
            return;
        }
        let i: usize = match self.selected {
            Some(i) => if i >= len - 1 {
                0
            } else {
                i + 1
            },
            None => 0,
        };
        self.selected = Some(i);
    }

    /// Moves the selection up, from the first item round to the last.
    pub fn previous(&mut self)
        ensures
            final(self)@ == (AppView { selected: prev_index(old(self)@.selected, old(self)@.items.len()), ..old(self)@ }),
            old(self).wf() ==> final(self).wf(),
    {
        let len = self.items.len();
        if len == 0 {
            self.selected = None;
            return;
        }
        let i: usize = match self.selected {
            Some(i) => if i == 0 {
                len - 1
            } else {
                i - 1
            },
            None => 0,
        };
        self.selected = Some(i);
    }

    /// The games of the database among `running`, with the titles to list.
    fn detect(&self, running: &Vec<String>) -> (r: (Vec<Game>, Vec<String>))
        requires
            self.config.wf(),
        ensures
            game_views(r.0@) == games_of(self.config@, detected_keys(self.config@, texts(running@))),
            texts(r.1@) == titles_of(detected_keys(self.config@, texts(running@))),
    {
        let ghost cfg = self.config@;
        let mut games: Vec<Game> = Vec::new();
        let mut titles: Vec<String> = Vec::new();
        let mut i: usize = 0;
        while i < running.len()
            invariant
                i <= running@.len(),
                self.config.wf(),
                cfg == self.config@,
                game_views(games@) == games_of(cfg, detected_keys(cfg, texts(running@).subrange(0, i as int))),
                texts(titles@) == titles_of(detected_keys(cfg, texts(running@).subrange(0, i as int))),
            decreases running@.len() - i,
        {
            let ghost prev = texts(running@).subrange(0, i as int);
            let ghost next = texts(running@).subrange(0, i + 1);
            assert(next.drop_last() =~= prev);
            assert(next.last() == running@[i as int]@);
            match self.config.get_game(running[i].as_str()) {
                Some(g) => {
                    let ghost keys = detected_keys(cfg, prev);
                    let ghost k = next.last();
                    assert(detected_keys(cfg, next) == keys.push(k));
                    assert(g@ == cfg[k]);
                    let ghost gv0 = game_views(games@);
                    let ghost tv0 = texts(titles@);
                    games.push(g.duplicate());
                    titles.push(get_touhou_game_name(running[i].as_str()).to_owned());
                    assert(game_views(games@) =~= gv0.push(g@));
                    assert(texts(titles@) =~= tv0.push(touhou_title(k)));
                    assert(games_of(cfg, keys.push(k)) =~= games_of(cfg, keys).push(cfg[k]));
                    assert(titles_of(keys.push(k)) =~= titles_of(keys).push(touhou_title(k)));
                },
                None => {},
            }
            i = i + 1;
        }
        assert(texts(running@).subrange(0, running@.len() as int) =~= texts(running@));
        (games, titles)
    }

    /// Handles a key press on the main menu; `running` lists the process
    /// names found running, which "Select Game" looks up in the database.
    pub fn execute_main_menu(&mut self, key: Key, running: &Vec<String>) -> (r: Result<AppReturn, ErrorKind>)
        requires
            old(self).wf(),
            old(self)@.current_menu == AppMenu::Main,
        ensures
            final(self).wf(),
            (final(self)@, r) == main_step(old(self)@, key, texts(running@)),
    {
        match self.action_of(key) {
            Some(Action::Enter) => {
                match self.selected {
                    Some(i) => {
                        if i < self.items.len() && str_eq(self.items[i].as_str(), "Select Game") {
                            let (games, titles) = self.detect(running);
                            let ghost keys = detected_keys(self.config@, texts(running@));
                            assert(games@.len() == keys.len()) by {
                                assert(game_views(games@).len() == games@.len());
                            }
                            assert(titles@.len() == keys.len()) by {
                                assert(texts(titles@).len() == titles@.len());
                            }
                            if games.len() == 0 {
                                self.available_games = games;
                                self.status = AppStatus::Error(ErrorKind::NoGameFound);
                                assert(game_views(self.available_games@) =~= seq![]);
                            } else {
                                self.history.push(AppMenu::GameSelection);
                                self.current_menu = AppMenu::GameSelection;
                                self.available_games = games;
                                self.selected = keep_selection(self.selected, titles.len());
                                self.items = titles;
                                assert(self.history@ =~= menu_path(AppMenu::GameSelection));
                            }
                        }
                    },
                    None => {},
                }
                Ok(AppReturn::Continue)
            },
            Some(Action::Up) => {
                self.previous();
                Ok(AppReturn::Continue)
            },
            Some(Action::Down) => {
                self.next();
                Ok(AppReturn::Continue)
            },
            Some(Action::Quit) => Ok(AppReturn::Exit),
            _ => Ok(AppReturn::Continue),
        }
    }

    /// Handles a key press on the game menu.
    pub fn execute_game_selection(&mut self, key: Key) -> (r: Result<AppReturn, ErrorKind>)
        requires
            old(self).wf(),
            old(self)@.current_menu == AppMenu::GameSelection,
        ensures
            final(self).wf(),
            (final(self)@, r) == game_step(old(self)@, key),
    {
        match self.action_of(key) {
            Some(Action::Enter) => {
                match self.selected {
                    Some(i) => {
                        if i < self.available_games.len() {
                            self.current_game = Some(self.available_games[i].duplicate());
                            self.history.push(AppMenu::CheatSelection);
                            self.current_menu = AppMenu::CheatSelection;
                            self.items = cheat_items();
                            self.selected = keep_selection(self.selected, 4);
                            assert(self.history@ =~= menu_path(AppMenu::CheatSelection));
                            Ok(AppReturn::Continue)
                        } else {
                            Err(ErrorKind::NoGameFound)
                        }
                    },
                    None => Err(ErrorKind::NoGameFound),
                }
            },
            Some(Action::Up) => {
                self.previous();
                Ok(AppReturn::Continue)
            },
            Some(Action::Down) => {
                self.next();
                Ok(AppReturn::Continue)
            },
            Some(Action::Quit) => Ok(AppReturn::Exit),
            Some(Action::Prev) => {
                self.history.pop();
                self.current_menu = AppMenu::Main;
                self.items = main_items();
                self.selected = keep_selection(self.selected, 1);
                assert(self.history@ =~= menu_path(AppMenu::Main));
                Ok(AppReturn::Continue)
            },
            _ => Ok(AppReturn::Continue),
        }
    }

    /// Handles a key press on the cheat menu; `running` lists the process
    /// names found running, which going back to the game menu lists anew.
    pub fn execute_cheat_selection(&mut self, key: Key, running: &Vec<String>) -> (r: Result<AppReturn, ErrorKind>)
        requires
            old(self).wf(),
            old(self)@.current_menu == AppMenu::CheatSelection,
        ensures
            final(self).wf(),
            (final(self)@, r) == cheat_step(old(self)@, key, texts(running@)),
    {
        match self.action_of(key) {
            Some(Action::Enter) => {
                match self.selected {
                    Some(i) => {
                        if self.input_mode == InputMode::Selecting && i < self.items.len() {
                            match cheat_for_label(self.items[i].as_str()) {
                                Some(Cheat::Power) => Err(ErrorKind::NotSupported),
                                Some(c) => {
                                    self.selected_cheat = Some(c);
                                    self.input_mode = InputMode::Editing;
                                    self.input = String::new();
                                    Ok(AppReturn::Continue)
                                },
                                None => Ok(AppReturn::Continue),
                            }
                        } else {
                            Ok(AppReturn::Continue)
                        }
                    },
                    None => Ok(AppReturn::Continue),
                }
            },
            Some(Action::Up) => {
                self.previous();
                Ok(AppReturn::Continue)
            },
            Some(Action::Down) => {
                self.next();
                Ok(AppReturn::Continue)
            },
            Some(Action::Quit) => Ok(AppReturn::Exit),
            Some(Action::Prev) => {
                let (games, titles) = self.detect(running);
                let ghost keys = detected_keys(self.config@, texts(running@));
                assert(titles@.len() == keys.len()) by {
                    assert(texts(titles@).len() == titles@.len());
                }
                self.history.pop();
                self.current_menu = AppMenu::GameSelection;
                self.input_mode = InputMode::Selecting;
                self.available_games = games;
                self.selected = keep_selection(self.selected, titles.len());
                self.items = titles;
                assert(self.history@ =~= menu_path(AppMenu::GameSelection));
                Ok(AppReturn::Continue)
            },
            _ => Ok(AppReturn::Continue),
        }
    }

    /// Handles a key press on whichever menu is on top of the history.
    pub fn execute_with(&mut self, key: Key, running: &Vec<String>) -> (r: Result<AppReturn, ErrorKind>)
        requires
            old(self).wf(),
        ensures
            final(self).wf(),
            (final(self)@, r) == menu_step(old(self)@, key, texts(running@)),
    {
        let menu = match self.get_current_menu() {
            Ok(m) => *m,
            Err(e) => return Err(e),
        };
        match menu {
            AppMenu::Main => self.execute_main_menu(key, running),
            AppMenu::GameSelection => self.execute_game_selection(key),
            AppMenu::CheatSelection => self.execute_cheat_selection(key, running),
        }
    }

    /// Handles a key press on the current menu, looking up the running games
    /// where the menu needs them.
    pub fn execute(&mut self, key: Key) -> (r: Result<AppReturn, ErrorKind>)
        requires
            old(self).wf(),
        ensures
            final(self).wf(),
            exists|running: Seq<Seq<char>>|
                running_list(running) && (final(self)@, r) == menu_step(old(self)@, key, running),
    {
        let action = self.action_of(key);
        let needs_games = match (self.current_menu, action) {
            (AppMenu::Main, Some(Action::Enter)) => true,
            (AppMenu::CheatSelection, Some(Action::Prev)) => true,
            _ => false,
        };
        let running = running_games_if(needs_games);
        let r = self.execute_with(key, &running);
        assert((final(self)@, r) == menu_step(old(self)@, key, texts(running@)));
        r
    }

    /// Handles a tick of the redraw clock: nothing changes.
    pub fn tick(&mut self) -> (r: Result<AppReturn, ErrorKind>)
        ensures
            r == Ok::<AppReturn, ErrorKind>(AppReturn::Continue),
            final(self)@ == old(self)@,
            old(self).wf() ==> final(self).wf(),
    {
        Ok(AppReturn::Continue)
    }

    /// The write that committing the typed value asks for, given the id
    /// found for the current game's process, or why there is none.
    pub fn plan_write(&self, pid: Option<i32>) -> (r: Result<Option<MemoryWrite>, ErrorKind>)
        ensures
            r == write_plan(self@, pid),
    {
        match self.selected_cheat {
            None => Ok(None),
            Some(Cheat::Power) => Err(ErrorKind::NotSupported),
            Some(c) => match &self.current_game {
                None => Err(ErrorKind::NoGameFound),
                Some(g) => match pid {
                    None => Err(ErrorKind::NotFound),
                    Some(p) => match parse_i32(self.input.as_str()) {
                        None => Err(ErrorKind::InvalidInput),
                        Some(value) => {
                            let address = match c {
                                Cheat::Score => g.score_mem_addr,
                                Cheat::Lives => g.live_mem_addr,
                                _ => g.bomb_mem_addr,
                            };
                            Ok(Some(MemoryWrite { pid: p, address, value }))
                        },
                    },
                },
            },
        }
    }

    /// Records that the write for the selected cheat went through.
    pub fn record_write(&mut self)
        requires
            writable(old(self)@.selected_cheat),
        ensures
            final(self)@ == written(old(self)@),
            old(self).wf() ==> final(self).wf(),
    {
        let msg = match self.selected_cheat {
            Some(Cheat::Score) => String::from_str("Score updated!"),
            Some(Cheat::Lives) => String::from_str("Lives updated!"),
            _ => String::from_str("Bombs updated!"),
        };
        self.status = AppStatus::Success(msg);
        self.input_mode = InputMode::Selecting;
    }

    /// Finishes committing a writable cheat once its write returned `write`.
    pub fn finish_commit(&mut self, write: Result<(), ErrorKind>) -> (r: Result<AppReturn, ErrorKind>)
        requires
            writable(old(self)@.selected_cheat),
        ensures
            (final(self)@, r) == finished(old(self)@, write),
            old(self).wf() ==> final(self).wf(),
    {
        match write {
            Ok(()) => {
                self.record_write();
                Ok(AppReturn::Continue)
            },
            Err(e) => Err(e),
        }
    }

    /// Commits the typed value: finds the current game's process, reads the
    /// value and writes it where the selected cheat lives.
    pub fn execute_input(&mut self) -> (r: Result<AppReturn, ErrorKind>)
        requires
            old(self).wf(),
        ensures
            final(self).wf(),
            exists|pid: Option<i32>, write: Result<(), ErrorKind>|
                (write matches Err(e) ==> e is Error) && commit_outcome(old(self)@, pid, write, final(self)@, r),
    {
        let pid = match &self.current_game {
            Some(g) => get_pid_by_name(g.process_name.as_str()),
            None => None,
        };
        match self.plan_write(pid) {
            Err(e) => {
                assert(commit_outcome(old(self)@, pid, Ok(()), self@, Err(e)));
                Err(e)
            },
            Ok(None) => {
                assert(commit_outcome(old(self)@, pid, Ok(()), self@, Ok(AppReturn::Continue)));
                Ok(AppReturn::Continue)
            },
            Ok(Some(w)) => {
                let write = write_mem_value(w.pid, w.address, w.value);
                let ghost wr = write;
                let r = self.finish_commit(write);
                assert(commit_outcome(old(self)@, pid, wr, self@, r));
                r
            },
        }
    }

    /// Handles a key typed while a value is being entered, Enter aside:
    /// characters are appended, Backspace removes the last one, Esc goes
    /// back to selecting.
    pub fn edit_input(&mut self, key: Key)
        ensures
            final(self)@ == edit_step(old(self)@, key),
            old(self).wf() ==> final(self).wf(),
    {
        match key {
            Key::Char(c) => push_char(&mut self.input, c),
            Key::Backspace => {
                pop_char(&mut self.input);
            },
            Key::Esc => {
                self.input_mode = InputMode::Selecting;
            },
            _ => {},
        }
    }

    /// Clears the notification; `running` lists the process names found
    /// running, which dismissing "no game found" looks up anew.
    pub fn dismiss_status(&mut self, running: &Vec<String>)
        requires
            old(self).wf(),
        ensures
            final(self).wf(),
            final(self)@ == dismissed(old(self)@, texts(running@)),
    {
        let refresh = match &self.status {
            AppStatus::Error(ErrorKind::NoGameFound) => true,
            _ => false,
        };
        if refresh {
            let (games, titles) = self.detect(running);
            let ghost keys = detected_keys(self.config@, texts(running@));
            assert(titles@.len() == keys.len()) by {
                assert(texts(titles@).len() == titles@.len());
            }
            assert(games@.len() == keys.len()) by {
                assert(game_views(games@).len() == games@.len());
            }
            self.available_games = games;
            if self.current_menu == AppMenu::GameSelection {
                self.selected = keep_selection(self.selected, titles.len());
                self.items = titles;
            }
        }
        self.status = AppStatus::Running;
    }

    /// Handles one event of the event source: a tick changes nothing; a key
    /// first dismisses a notification if one is shown, else goes to the
    /// value being typed (where Ctrl+C still quits) or to the menus.
    pub fn handle_event(&mut self, event: InputEvent) -> (r: AppReturn)
        requires
            old(self).wf(),
        ensures
            final(self).wf(),
            event is Tick ==> final(self)@ == old(self)@ && r == AppReturn::Continue,
            event matches InputEvent::Input(key) ==> {
                if old(self)@.status != StatusView::Running {
                    r == AppReturn::Continue && exists|running: Seq<Seq<char>>|
                        running_list(running) && final(self)@ == dismissed(old(self)@, running)
                } else if old(self)@.input_mode == InputMode::Selecting {
                    exists|running: Seq<Seq<char>>|
                        running_list(running) && (final(self)@, r) == routed(old(self)@, key, running)
                } else if key == Key::Ctrl('c') {
                    r == AppReturn::Exit && final(self)@ == old(self)@
                } else if key != Key::Enter {
                    r == AppReturn::Continue && final(self)@ == edit_step(old(self)@, key)
                } else {
                    r == AppReturn::Continue && exists|
                        pid: Option<i32>,
                        write: Result<(), ErrorKind>,
                        w: AppView,
                        res: Result<AppReturn, ErrorKind>,
                    |
                        (write matches Err(e) ==> e is Error) && commit_outcome(old(self)@, pid, write, w, res)
                            && final(self)@ == failed_commit(w, res)
                }
            },
    {
        let key = match event {
            InputEvent::Tick => return AppReturn::Continue,
            InputEvent::Input(key) => key,
        };
        let shown = match &self.status {
            AppStatus::Running => false,
            _ => true,
        };
        if shown {
            let refresh = match &self.status {
                AppStatus::Error(ErrorKind::NoGameFound) => true,
                _ => false,
            };
            let running = running_games_if(refresh);
            self.dismiss_status(&running);
            assert(self@ == dismissed(old(self)@, texts(running@)));
            return AppReturn::Continue;
        }
        match self.input_mode {
            InputMode::Selecting => {
                let action = self.action_of(key);
                let needs_games = match (self.current_menu, action) {
                    (AppMenu::Main, Some(Action::Enter)) => true,
                    (AppMenu::CheatSelection, Some(Action::Prev)) => true,
                    _ => false,
                };
                let running = running_games_if(needs_games);
                let ghost before = self@;
                let res = self.execute_with(key, &running);
                let r = match res {
                    Ok(a) => a,
                    Err(e) => {
                        self.status = AppStatus::Error(e);
                        AppReturn::Continue
                    },
                };
                assert((self@, r) == routed(before, key, texts(running@)));
                r
            },
            InputMode::Editing => {
                if key == Key::Ctrl('c') {
                    AppReturn::Exit
                } else if key == Key::Enter {
                    let res = self.execute_input();
                    let ghost w = self@;
                    match res {
                        Err(e) => {
                            self.status = AppStatus::Error(e);
                        },
                        Ok(_) => {},
                    }
                    assert(self@ == failed_commit(w, res));
                    AppReturn::Continue
                } else {
                    self.edit_input(key);
                    AppReturn::Continue
                }
            },
        }
    }

    /// The action that the application's key table gives `key`.
    fn action_of(&self, key: Key) -> (r: Option<Action>)
        requires
            self.actions@ == app_actions(),
        ensures
            r == action_for(key),
    {
        match self.actions.find(key) {
            Some(a) => Some(*a),
            None => None,
        }
    }
}

} // verus!
