use vstd::prelude::*;

use crate::game::{Game, GameView};

verus! {

/// The address database: games keyed by the name of their process.
pub struct Config {
    games: Vec<(String, Game)>,
}

/// The map that a list of entries describes, a later entry winning over an
/// earlier one with the same key.
pub open spec fn entries_map(s: Seq<(String, Game)>) -> Map<Seq<char>, GameView>
    decreases s.len(),
{
    if s.len() == 0 {
        Map::empty()
    } else {
        entries_map(s.drop_last()).insert(s.last().0@, s.last().1@)
    }
}

/// No two entries share a key.
pub open spec fn keys_unique(s: Seq<(String, Game)>) -> bool {
    forall|i: int, j: int| 0 <= i < s.len() && 0 <= j < s.len() && i != j ==> s[i].0@ != s[j].0@
}

proof fn lemma_entries_map_at(s: Seq<(String, Game)>, i: int)
    requires
        keys_unique(s),
        0 <= i < s.len(),
    ensures
        entries_map(s).contains_key(s[i].0@),
        entries_map(s)[s[i].0@] == s[i].1@,
    decreases s.len(),
{
    if i < s.len() - 1 {
        lemma_entries_map_at(s.drop_last(), i);
    }
}

proof fn lemma_entries_map_absent(s: Seq<(String, Game)>, k: Seq<char>)
    requires
        forall|i: int| 0 <= i < s.len() ==> (#[trigger] s[i]).0@ != k,
    ensures
        !entries_map(s).contains_key(k),
    decreases s.len(),
{
    if s.len() > 0 {
        lemma_entries_map_absent(s.drop_last(), k);
    }
}

proof fn lemma_entries_map_update(s: Seq<(String, Game)>, i: int, e: (String, Game))
    requires
        keys_unique(s),
        0 <= i < s.len(),
        e.0@ == s[i].0@,
    ensures
        entries_map(s.update(i, e)) == entries_map(s).insert(e.0@, e.1@),
    decreases s.len(),
{
    let t = s.update(i, e);
    if i == s.len() - 1 {
        assert(t.drop_last() =~= s.drop_last());
        assert(entries_map(t) =~= entries_map(s).insert(e.0@, e.1@));
    } else {
        assert(t.drop_last() =~= s.drop_last().update(i, e));
        lemma_entries_map_update(s.drop_last(), i, e);
        assert(entries_map(t) =~= entries_map(s).insert(e.0@, e.1@));
    }
}

impl View for Config {
    type V = Map<Seq<char>, GameView>;

    closed spec fn view(&self) -> Map<Seq<char>, GameView> {
        entries_map(self.games@)
    }
}

impl Config {
    /// Internal consistency: keys are unique.
    pub closed spec fn wf(&self) -> bool {
        keys_unique(self.games@)
    }

    /// An empty database.
    pub fn new() -> (r: Config)
        ensures
            r.wf(),
            r@ == Map::<Seq<char>, GameView>::empty(),
    {
        Config { games: Vec::new() }
    }

    /// Adds `game` under `key`, replacing an entry with the same key.
    pub fn insert(&mut self, key: String, game: Game)
        requires
            old(self).wf(),
        ensures
            final(self).wf(),
            final(self)@ == old(self)@.insert(key@, game@),
    {
        let mut i: usize = 0;
        while i < self.games.len()
            invariant
                i <= self.games@.len(),
                keys_unique(self.games@),
                self.games@ == old(self).games@,
                forall|j: int| 0 <= j < i ==> (#[trigger] self.games@[j]).0@ != key@,
            decreases self.games@.len() - i,
        {
            if self.games[i].0 == key {
                proof {
                    lemma_entries_map_update(self.games@, i as int, (key, game));
                }
                self.games.set(i, (key, game));
                return;
            }
            i = i + 1;
        }
        proof {
            lemma_entries_map_absent(self.games@, key@);
        }
        self.games.push((key, game));
        assert(self.games@.drop_last() =~= old(self).games@);
    }

    /// The game stored under `name`, if any.
    pub fn get_game(&self, name: &str) -> (r: Option<&Game>)
        requires
            self.wf(),
        ensures
            r is None <==> !self@.contains_key(name@),
            r matches Some(g) ==> g@ == self@[name@],
    {
        let key = name.to_owned();
        let mut i: usize = 0;
        while i < self.games.len()
            invariant
                i <= self.games@.len(),
                keys_unique(self.games@),
                key@ == name@,
                forall|j: int| 0 <= j < i ==> (#[trigger] self.games@[j]).0@ != key@,
            decreases self.games@.len() - i,
        {
            if self.games[i].0 == key {
                proof {
                    lemma_entries_map_at(self.games@, i as int);
                }
                return Some(&self.games[i].1);
            }
            i = i + 1;
        }
        proof {
            lemma_entries_map_absent(self.games@, key@);
        }
        None
    }
}

} // verus!
