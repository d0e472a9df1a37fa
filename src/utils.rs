use vstd::prelude::*;

use crate::game::texts;
use crate::readers::{first_pid, process_snapshot};

verus! {

/// Each known game: the name of its process and its title.
pub open spec fn title_table() -> Seq<(Seq<char>, Seq<char>)> {
    seq![
        ("東方紅魔郷"@, "Touhou 06 - Embodiment of Scarlet Devil"@),
        ("th07.exe"@, "Touhou 07 - Perfect Cherry Blossom"@),
        ("th08.exe"@, "Touhou 08 - Imperishable Night"@),
        ("th09.exe"@, "Touhou 09 - Phantasmagoria of Flower View"@),
        ("th10.exe"@, "Touhou 10 - Mountain of Faith"@),
        ("th11.exe"@, "Touhou 11 - Subterranean Animism"@),
        ("th12.exe"@, "Touhou 12 - Undefined Fantastic Object"@),
        ("th13.exe"@, "Touhou 13 - Ten Desires"@),
        ("th14.exe"@, "Touhou 14 - Double Dealing Character"@),
        ("th15.exe"@, "Touhou 15 - Legacy of Lunatic Kingdom"@),
        ("th16.exe"@, "Touhou 16 - Hidden Star in Four Seasons"@),
        ("th17.exe"@, "Touhou 17 - Wily Beast and Weakest Creature"@),
        ("th18.exe"@, "Touhou 18 - Unconnected Marketeers"@),
    ]
}

/// The process names of the known games, in table order.
pub open spec fn known_processes() -> Seq<Seq<char>> {
    title_table().map_values(|e: (Seq<char>, Seq<char>)| e.0)
}

/// The title of the first entry of `t` for process `p`, or "Unknown".
pub open spec fn title_in(t: Seq<(Seq<char>, Seq<char>)>, p: Seq<char>) -> Seq<char>
    decreases t.len(),
{
    if t.len() == 0 {
        "Unknown"@
    } else if t[0].0 == p {
        t[0].1
    } else {
        title_in(t.drop_first(), p)
    }
}

/// The title shown for a game's process name.
pub open spec fn touhou_title(p: Seq<char>) -> Seq<char> {
    title_in(title_table(), p)
}

/// The views of a list of string pairs.
pub open spec fn pair_texts(v: Seq<(&str, &str)>) -> Seq<(Seq<char>, Seq<char>)> {
    v.map_values(|e: (&str, &str)| (e.0@, e.1@))
}

fn title_entries() -> (r: Vec<(&'static str, &'static str)>)
    ensures
        pair_texts(r@) == title_table(),
{
    let r = vec![
        ("東方紅魔郷", "Touhou 06 - Embodiment of Scarlet Devil"),
        ("th07.exe", "Touhou 07 - Perfect Cherry Blossom"),
        ("th08.exe", "Touhou 08 - Imperishable Night"),
        ("th09.exe", "Touhou 09 - Phantasmagoria of Flower View"),
        ("th10.exe", "Touhou 10 - Mountain of Faith"),
        ("th11.exe", "Touhou 11 - Subterranean Animism"),
        ("th12.exe", "Touhou 12 - Undefined Fantastic Object"),
        ("th13.exe", "Touhou 13 - Ten Desires"),
        ("th14.exe", "Touhou 14 - Double Dealing Character"),
        ("th15.exe", "Touhou 15 - Legacy of Lunatic Kingdom"),
        ("th16.exe", "Touhou 16 - Hidden Star in Four Seasons"),
        ("th17.exe", "Touhou 17 - Wily Beast and Weakest Creature"),
        ("th18.exe", "Touhou 18 - Unconnected Marketeers"),
    ];
    assert(pair_texts(r@) =~= title_table());
    r
}

/// Whether two strings hold the same characters.
pub fn str_eq(a: &str, b: &str) -> (r: bool)
    ensures
        r == (a@ == b@),
{
    a.to_owned() == b.to_owned()
}

/// The title of the game that runs as `process_name`, or "Unknown".
pub fn get_touhou_game_name(process_name: &str) -> (r: &'static str)
    ensures
        r@ == touhou_title(process_name@),
{
    let table = title_entries();
    let mut i: usize = 0;
    assert(pair_texts(table@).subrange(0, table@.len() as int) =~= pair_texts(table@));
    while i < table.len()
        invariant
            i <= table@.len(),
            pair_texts(table@) == title_table(),
            touhou_title(process_name@) == title_in(pair_texts(table@).subrange(i as int, table@.len() as int), process_name@),
        decreases table@.len() - i,
    {
        let ghost rest = pair_texts(table@).subrange(i as int, table@.len() as int);
        assert(rest.drop_first() =~= pair_texts(table@).subrange(i + 1, table@.len() as int));
        assert(rest[0] == pair_texts(table@)[i as int]);
        if str_eq(table[i].0, process_name) {
            return table[i].1;
        }
        i = i + 1;
    }
    assert(pair_texts(table@).subrange(i as int, table@.len() as int).len() == 0);
    "Unknown"
}

/// The names whose flag is set, in order.
pub open spec fn picked(names: Seq<Seq<char>>, flags: Seq<bool>) -> Seq<Seq<char>>
    decreases flags.len(),
{
    if flags.len() == 0 || names.len() == 0 {
        seq![]
    } else if flags.last() {
        picked(names.drop_last(), flags.drop_last()).push(names.last())
    } else {
        picked(names.drop_last(), flags.drop_last())
    }
}

/// Whether a list of names could be what a lookup of the running games gave:
/// the known process names of some of the games, in table order.
pub open spec fn running_list(s: Seq<Seq<char>>) -> bool {
    exists|found: Seq<bool>| found.len() == known_processes().len() && s == picked(known_processes(), found)
}

/// No name is picked when no flag is set.
pub proof fn lemma_picked_none(names: Seq<Seq<char>>, flags: Seq<bool>)
    requires
        forall|i: int| 0 <= i < flags.len() ==> !flags[i],
    ensures
        picked(names, flags) == Seq::<Seq<char>>::empty(),
    decreases flags.len(),
{
    if flags.len() > 0 && names.len() > 0 {
        lemma_picked_none(names.drop_last(), flags.drop_last());
    }
}

/// The process names of the known games whose flag in `found` is set, in
/// table order.
pub fn running_of(found: &Vec<bool>) -> (r: Vec<String>)
    requires
        found@.len() == known_processes().len(),
    ensures
        texts(r@) == picked(known_processes(), found@),
{
    let table = title_entries();
    let ghost known = known_processes();
    let mut running: Vec<String> = Vec::new();
    let mut i: usize = 0;
    while i < table.len()
        invariant
            i <= table@.len(),
            table@.len() == found@.len(),
            pair_texts(table@) == title_table(),
            known == known_processes(),
            texts(running@) == picked(known.subrange(0, i as int), found@.subrange(0, i as int)),
        decreases table@.len() - i,
    {
        let ghost prev = texts(running@);
        assert(known.subrange(0, i + 1).drop_last() =~= known.subrange(0, i as int));
        assert(found@.subrange(0, i + 1).drop_last() =~= found@.subrange(0, i as int));
        assert(pair_texts(table@)[i as int].0 == table@[i as int].0@);
        assert(known[i as int] == table@[i as int].0@);
        if found[i] {
            running.push(table[i].0.to_owned());
            assert(texts(running@) =~= prev.push(known[i as int]));
        }
        i = i + 1;
    }
    assert(known.subrange(0, i as int) =~= known);
    assert(found@.subrange(0, i as int) =~= found@);
    running
}

/// The known process names are distinct.
pub proof fn lemma_known_distinct()
    ensures
        known_processes().no_duplicates(),
{
    reveal_strlit("東方紅魔郷");
    reveal_strlit("th07.exe");
    reveal_strlit("th08.exe");
    reveal_strlit("th09.exe");
    reveal_strlit("th10.exe");
    reveal_strlit("th11.exe");
    reveal_strlit("th12.exe");
    reveal_strlit("th13.exe");
    reveal_strlit("th14.exe");
    reveal_strlit("th15.exe");
    reveal_strlit("th16.exe");
    reveal_strlit("th17.exe");
    reveal_strlit("th18.exe");
    let k = known_processes();
    assert forall|i: int, j: int| 0 <= i < k.len() && 0 <= j < k.len() && i != j implies k[i] != k[j] by {
        assert(k[i].len() > 3 && k[j].len() > 3);
        assert(k[i][2] != k[j][2] || k[i][3] != k[j][3]);
    }
}

/// Every picked name is one of the names.
pub proof fn lemma_picked_from(names: Seq<Seq<char>>, flags: Seq<bool>, x: Seq<char>)
    requires
        picked(names, flags).contains(x),
    ensures
        names.contains(x),
    decreases flags.len(),
{
    let prev = picked(names.drop_last(), flags.drop_last());
    if flags.last() && x == names.last() {
        assert(names[names.len() - 1] == x);
    } else {
        if flags.last() {
            let i = choose|i: int| 0 <= i < picked(names, flags).len() && picked(names, flags)[i] == x;
            assert(prev[i] == x);
        }
        lemma_picked_from(names.drop_last(), flags.drop_last(), x);
        let j = choose|j: int| 0 <= j < names.drop_last().len() && names.drop_last()[j] == x;
        assert(names[j] == x);
    }
}

/// Picking from distinct names gives distinct names.
pub proof fn lemma_picked_distinct(names: Seq<Seq<char>>, flags: Seq<bool>)
    requires
        names.no_duplicates(),
        names.len() == flags.len(),
    ensures
        picked(names, flags).no_duplicates(),
    decreases flags.len(),
{
    if flags.len() > 0 {
        let rest = names.drop_last();
        assert(rest.no_duplicates()) by {
            assert forall|i: int, j: int| 0 <= i < rest.len() && 0 <= j < rest.len() && i != j implies rest[i] != rest[j] by {
                assert(rest[i] == names[i] && rest[j] == names[j]);
            }
        }
        lemma_picked_distinct(rest, flags.drop_last());
        let prev = picked(rest, flags.drop_last());
        if flags.last() {
            let last = names.last();
            if prev.contains(last) {
                lemma_picked_from(rest, flags.drop_last(), last);
                let j = choose|j: int| 0 <= j < rest.len() && rest[j] == last;
                assert(names[j] == names[names.len() - 1]);
            }
            let p = prev.push(last);
            assert forall|i: int, j: int| 0 <= i < p.len() && 0 <= j < p.len() && i != j implies p[i] != p[j] by {
                if i == p.len() - 1 {
                    assert(prev[j] == p[j]);
                } else if j == p.len() - 1 {
                    assert(prev[i] == p[i]);
                }
            }
        }
    }
}

/// The process names of the known games that are running now, in table order.
pub fn get_running_games() -> (r: Vec<String>)
    ensures
        running_list(texts(r@)),
        texts(r@).no_duplicates(),
{
    let system = process_snapshot();
    let table = title_entries();
    let mut found: Vec<bool> = Vec::new();
    let mut i: usize = 0;
    while i < table.len()
        invariant
            i <= table@.len(),
            pair_texts(table@) == title_table(),
            found@.len() == i,
        decreases table@.len() - i,
    {
        found.push(first_pid(&system, table[i].0).is_some());
        i = i + 1;
    }
    assert(table@.len() == known_processes().len()) by {
        assert(pair_texts(table@).len() == table@.len());
    }
    let r = running_of(&found);
    proof {
        lemma_known_distinct();
        lemma_picked_distinct(known_processes(), found@);
        assert(found@.len() == known_processes().len() && texts(r@) == picked(known_processes(), found@));
    }
    r
}

/// The value of a decimal digit.
pub open spec fn dec_digit(c: char) -> Option<nat> {
    if '0' <= c && c <= '9' {
        Some((c as nat - '0' as nat) as nat)
    } else {
        None
    }
}

/// Whether every character is a decimal digit, and there is at least one.
pub open spec fn all_dec(d: Seq<char>) -> bool {
    d.len() > 0 && forall|i: int| 0 <= i < d.len() ==> (#[trigger] dec_digit(d[i])) is Some
}

/// The number that a run of decimal digits writes, most significant first.
pub open spec fn dec_value(d: Seq<char>) -> nat
    decreases d.len(),
{
    if d.len() == 0 {
        0
    } else {
        dec_value(d.drop_last()) * 10 + dec_digit(d.last()).unwrap_or(0)
    }
}

/// The integer that a text writes as an optional sign followed by decimal digits.
pub open spec fn int_of_text(s: Seq<char>) -> Option<int> {
    if s.len() > 0 && s[0] == '-' && all_dec(s.drop_first()) {
        Some(-(dec_value(s.drop_first()) as int))
    } else if s.len() > 0 && s[0] == '+' && all_dec(s.drop_first()) {
        Some(dec_value(s.drop_first()) as int)
    } else if all_dec(s) {
        Some(dec_value(s) as int)
    } else {
        None
    }
}

/// The 32-bit integer that a text writes, when it writes one in range.
pub open spec fn i32_of_text(s: Seq<char>) -> Option<i32> {
    match int_of_text(s) {
        Some(v) => if i32::MIN <= v <= i32::MAX {
            Some(v as i32)
        } else {
            None
        },
        None => None,
    }
}

proof fn lemma_dec_prefix_le(d: Seq<char>, j: int)
    requires
        0 <= j <= d.len(),
    ensures
        dec_value(d.subrange(0, j)) <= dec_value(d),
    decreases d.len(),
{
    if j < d.len() {
        lemma_dec_prefix_le(d.drop_last(), j);
        assert(d.drop_last().subrange(0, j) =~= d.subrange(0, j));
    } else {
        assert(d.subrange(0, j) =~= d);
    }
}

/// Reads a signed 32-bit integer written in decimal, with an optional sign.
pub fn parse_i32(s: &str) -> (r: Option<i32>)
    ensures
        r == i32_of_text(s@),
{
    let n = s.unicode_len();
    if n == 0 {
        return None;
    }
    let first = s.get_char(0);
    let negative = first == '-';
    let start: usize = if first == '-' || first == '+' { 1 } else { 0 };
    let ghost d = s@.subrange(start as int, n as int);
    assert(start == 1 ==> d =~= s@.drop_first());
    assert(start == 0 ==> d =~= s@);
    assert(start == 1 ==> !all_dec(s@)) by {
        if start == 1 {
            assert(dec_digit(s@[0]) is None);
        }
    }
    let mut acc: u64 = 0;
    let mut i: usize = start;
    while i < n
        invariant
            n == s@.len(),
            start <= i <= n,
            start <= 1,
            d == s@.subrange(start as int, n as int),
            start == 1 ==> d == s@.drop_first() && !all_dec(s@),
            start == 0 ==> d == s@,
            start == 1 <==> (s@[0] == '-' || s@[0] == '+'),
            negative == (s@[0] == '-'),
            forall|k: int| 0 <= k < i - start ==> (#[trigger] dec_digit(d[k])) is Some,
            acc as nat == dec_value(d.subrange(0, i - start)),
            acc <= 2147483648,
        decreases n - i,
    {
        let c = s.get_char(i);
        if !('0' <= c && c <= '9') {
            assert(!all_dec(d)) by {
                assert(dec_digit(d[i - start]) is None);
            }
            return None;
        }
        let v: u64 = (c as u32 - '0' as u32) as u64;
        assert(d.subrange(0, i - start + 1).drop_last() =~= d.subrange(0, i - start));
        assert(d[i - start] == c);
        assert(d.subrange(0, i - start + 1).last() == c);
        assert(dec_digit(c) == Some(v as nat));
        assert(acc * 10 + v <= 21474836489) by (nonlinear_arith)
            requires
                acc <= 2147483648,
                v <= 9,
        ;
        acc = acc * 10 + v;
        if acc > 2147483648 {
            proof {
                lemma_dec_prefix_le(d, i - start + 1);
            }
            return None;
        }
        i = i + 1;
    }
    assert(d.subrange(0, n - start) =~= d);
    if n == start {
        return None;
    }
    if negative {
        Some((0 - acc as i64) as i32)
    } else if acc <= 2147483647 {
        Some(acc as i32)
    } else {
        None
    }
}

/// Relies on `String::push`: appends one character.
#[verifier::external_body]
pub(crate) fn push_char(s: &mut String, c: char)
    ensures
        final(s)@ == old(s)@.push(c),
{
    s.push(c)
}

/// Relies on `String::pop`: removes and returns the last character, if any.
#[verifier::external_body]
pub(crate) fn pop_char(s: &mut String) -> (r: Option<char>)
    ensures
        old(s)@.len() == 0 ==> r is None && final(s)@ == old(s)@,
        old(s)@.len() > 0 ==> r == Some(old(s)@.last()) && final(s)@ == old(s)@.drop_last(),
{
    s.pop()
}

} // verus!
