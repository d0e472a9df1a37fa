use vstd::prelude::*;
use vstd::string::*;

use crate::key::Key;

verus! {

/// What a key press means to the menus.
#[derive(Debug, Clone, Copy, PartialEq, Eq, Structural)]
pub enum Action {
    Enter,
    Up,
    Down,
    Quit,
    Prev,
    Next,
}

/// The keys bound to each action.
pub open spec fn keys_of(a: Action) -> Seq<Key> {
    match a {
        Action::Enter => seq![Key::Enter],
        Action::Up => seq![Key::Up],
        Action::Down => seq![Key::Down],
        Action::Quit => seq![Key::Ctrl('c'), Key::Char('q')],
        Action::Prev => seq![Key::Left],
        Action::Next => seq![Key::Right],
    }
}

/// Every action, in the order in which they are listed to the user.
pub open spec fn all_actions() -> Seq<Action> {
    seq![Action::Quit, Action::Enter, Action::Up, Action::Down, Action::Prev, Action::Next]
}

/// The action that a list of actions gives a key: the first one bound to it.
pub open spec fn first_bound(acts: Seq<Action>, key: Key) -> Option<Action>
    decreases acts.len(),
{
    if acts.len() == 0 {
        None
    } else if keys_of(acts[0]).contains(key) {
        Some(acts[0])
    } else {
        first_bound(acts.drop_first(), key)
    }
}

impl Action {
    /// Every action, in the order of `all_actions`.
    pub fn iterator() -> (r: Vec<Action>)
        ensures
            r@ == all_actions(),
    {
        let r = vec![Action::Quit, Action::Enter, Action::Up, Action::Down, Action::Prev, Action::Next];
        assert(r@ =~= all_actions());
        r
    }

    /// The keys bound to this action.
    pub fn keys(&self) -> (r: Vec<Key>)
        ensures
            r@ == keys_of(*self),
    {
        let r = match self {
            Action::Enter => vec![Key::Enter],
            Action::Up => vec![Key::Up],
            Action::Down => vec![Key::Down],
            Action::Quit => vec![Key::Ctrl('c'), Key::Char('q')],
            Action::Prev => vec![Key::Left],
            Action::Next => vec![Key::Right],
        };
        assert(r@ =~= keys_of(*self));
        r
    }

    /// Whether `key` is bound to this action.
    pub fn is_bound(&self, key: Key) -> (r: bool)
        ensures
            r == keys_of(*self).contains(key),
    {
        let keys = self.keys();
        let mut i: usize = 0;
        while i < keys.len()
            invariant
                keys@ == keys_of(*self),
                i <= keys@.len(),
                forall|j: int| 0 <= j < i ==> keys@[j] != key,
            decreases keys@.len() - i,
        {
            if keys[i] == key {
                assert(keys@[i as int] == key);
                return true;
            }
            i = i + 1;
        }
        false
    }

    /// The name of the action as shown to the user.
    pub fn name(&self) -> (r: String)
        ensures
            *self == Action::Enter ==> r@ == "Enter"@,
            *self == Action::Up ==> r@ == "Up"@,
            *self == Action::Down ==> r@ == "Down"@,
            *self == Action::Quit ==> r@ == "Quit"@,
            *self == Action::Prev ==> r@ == "Prev"@,
            *self == Action::Next ==> r@ == "Next"@,
    {
        match self {
            Action::Enter => String::from_str("Enter"),
            Action::Up => String::from_str("Up"),
            Action::Down => String::from_str("Down"),
            Action::Quit => String::from_str("Quit"),
            Action::Prev => String::from_str("Prev"),
            Action::Next => String::from_str("Next"),
        }
    }
}

/// An ordered list of the actions that the application listens to.
#[derive(Debug, Clone, Default)]
pub struct Actions(pub Vec<Action>);

impl View for Actions {
    type V = Seq<Action>;

    open spec fn view(&self) -> Seq<Action> {
        self.0@
    }
}

impl Actions {
    /// The first action of the list that `key` is bound to, if any.
    pub fn find(&self, key: Key) -> (r: Option<&Action>)
        ensures
            r matches Some(a) ==> Some(*a) == first_bound(self@, key),
            r is None ==> first_bound(self@, key) is None,
    {
        let mut i: usize = 0;
        assert(self@.subrange(0, self@.len() as int) =~= self@);
        while i < self.0.len()
            invariant
                i <= self@.len(),
                first_bound(self@, key) == first_bound(self@.subrange(i as int, self@.len() as int), key),
            decreases self@.len() - i,
        {
            let a = &self.0[i];
            assert(self@.subrange(i as int, self@.len() as int).drop_first()
                =~= self@.subrange(i + 1, self@.len() as int));
            if a.is_bound(key) {
                return Some(a);
            }
            i = i + 1;
        }
        assert(self@.subrange(i as int, self@.len() as int) =~= Seq::<Action>::empty());
        None
    }

    /// The actions, in order.
    pub fn actions(&self) -> (r: &[Action])
        ensures
            r@ == self@,
    {
        self.0.as_slice()
    }
}

impl From<Vec<Action>> for Actions {
    fn from(actions: Vec<Action>) -> (r: Actions) {
        Actions(actions)
    }
}

impl vstd::std_specs::convert::FromSpecImpl<Vec<Action>> for Actions {
    open spec fn obeys_from_spec() -> bool {
        true
    }

    open spec fn from_spec(v: Vec<Action>) -> Actions {
        Actions(v)
    }
}

} // verus!
