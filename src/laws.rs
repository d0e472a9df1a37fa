use vstd::prelude::*;

use crate::actions::{first_bound, keys_of, Action};
use crate::app::{
    action_for, app_actions, detected_keys, dismissed, edit_step, games_of, menu_path, menu_step, next_index,
    prev_index, routed, titles_of, valid, writable, written, AppMenu, AppReturn, AppView, StatusView,
};
use crate::errors::ErrorKind;
use crate::key::Key;

verus! {

/// The keys of the menus: Enter, the arrows, Left for back and Right for
/// forward each mean their action.
pub proof fn lemma_key_table()
    ensures
        action_for(Key::Enter) == Some(Action::Enter),
        action_for(Key::Up) == Some(Action::Up),
        action_for(Key::Down) == Some(Action::Down),
        action_for(Key::Left) == Some(Action::Prev),
        action_for(Key::Right) == Some(Action::Next),
        action_for(Key::Char('q')) == Some(Action::Quit),
        action_for(Key::Ctrl('c')) == Some(Action::Quit),
{
    reveal_with_fuel(first_bound, 7);
    let a = app_actions();
    assert(a.drop_first() =~= seq![Action::Up, Action::Down, Action::Quit, Action::Prev, Action::Next]);
    assert(a.drop_first().drop_first() =~= seq![Action::Down, Action::Quit, Action::Prev, Action::Next]);
    assert(a.drop_first().drop_first().drop_first() =~= seq![Action::Quit, Action::Prev, Action::Next]);
    assert(a.drop_first().drop_first().drop_first().drop_first() =~= seq![Action::Prev, Action::Next]);
    assert(a.drop_first().drop_first().drop_first().drop_first().drop_first() =~= seq![Action::Next]);
    assert(keys_of(Action::Enter)[0] == Key::Enter);
    assert(keys_of(Action::Up)[0] == Key::Up);
    assert(keys_of(Action::Down)[0] == Key::Down);
    assert(keys_of(Action::Quit)[0] == Key::Ctrl('c'));
    assert(keys_of(Action::Quit)[1] == Key::Char('q'));
    assert(keys_of(Action::Prev)[0] == Key::Left);
    assert(keys_of(Action::Next)[0] == Key::Right);
}

/// One step of the application, with what the outside world handed it.
pub enum Step {
    /// A key routed to the menus, with the process names found running.
    Menu(Key, Seq<Seq<char>>),
    /// A notification dismissed, with the process names found running.
    Dismiss(Seq<Seq<char>>),
    /// A key typed into the value being entered.
    Edit(Key),
    /// A committed value written into the game.
    Written,
    /// A failure shown as a notification.
    Failed(ErrorKind),
}

pub open spec fn apply(v: AppView, s: Step) -> AppView {
    match s {
        Step::Menu(k, running) => routed(v, k, running).0,
        Step::Dismiss(running) => dismissed(v, running),
        Step::Edit(k) => edit_step(v, k),
        Step::Written => if writable(v.selected_cheat) {
            written(v)
        } else {
            v
        },
        Step::Failed(e) => AppView { status: StatusView::Error(e), ..v },
    }
}

pub open spec fn apply_all(v: AppView, steps: Seq<Step>) -> AppView
    decreases steps.len(),
{
    if steps.len() == 0 {
        v
    } else {
        apply(apply_all(v, steps.drop_last()), steps.last())
    }
}

/// The state after a run of Up (false) and Down (true) presses.
pub open spec fn after_moves(v: AppView, downs: Seq<bool>) -> AppView
    decreases downs.len(),
{
    if downs.len() == 0 {
        v
    } else {
        menu_step(after_moves(v, downs.drop_last()), if downs.last() { Key::Down } else { Key::Up }, seq![]).0
    }
}

proof fn lemma_move(v: AppView, down: bool, running: Seq<Seq<char>>)
    ensures
        menu_step(v, if down { Key::Down } else { Key::Up }, running) == (AppView {
            selected: if down { next_index(v.selected, v.items.len()) } else { prev_index(v.selected, v.items.len()) },
            ..v
        }, Ok::<AppReturn, ErrorKind>(AppReturn::Continue)),
{
    lemma_key_table();
}

proof fn lemma_lengths(v: AppView, running: Seq<Seq<char>>)
    ensures
        games_of(v.config, detected_keys(v.config, running)).len()
            == detected_keys(v.config, running).len(),
        titles_of(detected_keys(v.config, running)).len()
            == detected_keys(v.config, running).len(),
        menu_path(AppMenu::Main).push(AppMenu::GameSelection) == menu_path(AppMenu::GameSelection),
        menu_path(AppMenu::GameSelection).push(AppMenu::CheatSelection) == menu_path(AppMenu::CheatSelection),
        menu_path(AppMenu::GameSelection).drop_last() == menu_path(AppMenu::Main),
        menu_path(AppMenu::CheatSelection).drop_last() == menu_path(AppMenu::GameSelection),
{
    assert(menu_path(AppMenu::Main).push(AppMenu::GameSelection) =~= menu_path(AppMenu::GameSelection));
    assert(menu_path(AppMenu::GameSelection).push(AppMenu::CheatSelection) =~= menu_path(AppMenu::CheatSelection));
    assert(menu_path(AppMenu::GameSelection).drop_last() =~= menu_path(AppMenu::Main));
    assert(menu_path(AppMenu::CheatSelection).drop_last() =~= menu_path(AppMenu::GameSelection));
}

/// Any run of Up and Down presses leaves the item list as it was and the
/// selection on one of its items, when it has any.
pub proof fn lemma_moves_stay_in_range(v: AppView, downs: Seq<bool>)
    requires
        valid(v),
        v.items.len() > 0,
        downs.len() > 0,
    ensures
        valid(after_moves(v, downs)),
        after_moves(v, downs).items == v.items,
        after_moves(v, downs).selected matches Some(i) && i < v.items.len(),
    decreases downs.len(),
{
    if downs.len() > 1 {
        lemma_moves_stay_in_range(v, downs.drop_last());
    }
    let w = after_moves(v, downs.drop_last());
    lemma_move(w, downs.last(), seq![]);
}

/// Down on the last item selects the first; Up on the first selects the last.
pub proof fn lemma_moves_wrap(v: AppView, running: Seq<Seq<char>>)
    requires
        valid(v),
        0 < v.items.len() <= usize::MAX,
    ensures
        (v.selected matches Some(i) && i + 1 == v.items.len()) ==> menu_step(v, Key::Down, running).0.selected
            == Some(0usize),
        v.selected == Some(0usize) ==> (menu_step(v, Key::Up, running).0.selected matches Some(j) && j + 1
            == v.items.len()),
{
    lemma_move(v, true, running);
    lemma_move(v, false, running);
}

/// One step keeps every part of the invariant.
pub proof fn lemma_step_valid(v: AppView, s: Step)
    requires
        valid(v),
    ensures
        valid(apply(v, s)),
{
    lemma_key_table();
    match s {
        Step::Menu(k, running) => {
            lemma_lengths(v, running);
        },
        Step::Dismiss(running) => {
            lemma_lengths(v, running);
        },
        _ => {},
    }
}

/// Along any run of steps from a valid state (such as a new application),
/// the history is never empty and its top is the current menu.
pub proof fn lemma_history_tracks_menu(v: AppView, steps: Seq<Step>)
    requires
        valid(v),
    ensures
        valid(apply_all(v, steps)),
        apply_all(v, steps).history.len() > 0,
        apply_all(v, steps).history.last() == apply_all(v, steps).current_menu,
    decreases steps.len(),
{
    if steps.len() > 0 {
        lemma_history_tracks_menu(v, steps.drop_last());
        lemma_step_valid(apply_all(v, steps.drop_last()), steps.last());
    }
    let w = apply_all(v, steps);
    assert(w.history == menu_path(w.current_menu));
}

/// Dismissing a success or an error other than "no game found" shows the
/// menus again and leaves the detected games and the selection as they were.
pub proof fn lemma_dismiss_keeps_games(v: AppView, running: Seq<Seq<char>>)
    requires
        v.status is Success || (v.status is Error && v.status != StatusView::Error(ErrorKind::NoGameFound)),
    ensures
        dismissed(v, running).status == StatusView::Running,
        dismissed(v, running).available_games == v.available_games,
        dismissed(v, running).selected == v.selected,
        dismissed(v, running) == (AppView { status: StatusView::Running, ..v }),
{
}

/// Entering the game menu from the main menu and going back restores the
/// main menu's items, history and menu.
pub proof fn lemma_enter_then_back(v: AppView, running: Seq<Seq<char>>, again: Seq<Seq<char>>)
    requires
        valid(v),
        v.current_menu == AppMenu::Main,
        menu_step(v, Key::Enter, running).0.current_menu == AppMenu::GameSelection,
    ensures
        menu_step(menu_step(v, Key::Enter, running).0, Key::Left, again).0.items == v.items,
        menu_step(menu_step(v, Key::Enter, running).0, Key::Left, again).0.current_menu == AppMenu::Main,
        menu_step(menu_step(v, Key::Enter, running).0, Key::Left, again).0.history == v.history,
{
    lemma_key_table();
    lemma_lengths(v, running);
}

} // verus!
