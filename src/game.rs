use vstd::prelude::*;
use vstd::string::*;

verus! {

/// One entry of the address database: a game and where its counters live.
#[derive(Debug)]
pub struct Game {
    pub name: String,
    pub process_name: String,
    pub alternate_names: Vec<String>,
    pub score_mem_addr: usize,
    pub live_mem_addr: usize,
    pub bomb_mem_addr: usize,
}

/// What a `Game` holds, as plain values.
pub struct GameView {
    pub name: Seq<char>,
    pub process_name: Seq<char>,
    pub alternate_names: Seq<Seq<char>>,
    pub score_mem_addr: usize,
    pub live_mem_addr: usize,
    pub bomb_mem_addr: usize,
}

/// The texts of a list of strings.
pub open spec fn texts(v: Seq<String>) -> Seq<Seq<char>> {
    v.map_values(|s: String| s@)
}

impl View for Game {
    type V = GameView;

    open spec fn view(&self) -> GameView {
        GameView {
            name: self.name@,
            process_name: self.process_name@,
            alternate_names: texts(self.alternate_names@),
            score_mem_addr: self.score_mem_addr,
            live_mem_addr: self.live_mem_addr,
            bomb_mem_addr: self.bomb_mem_addr,
        }
    }
}

/// A copy of a list of strings.
pub fn copy_strings(v: &Vec<String>) -> (r: Vec<String>)
    ensures
        texts(r@) == texts(v@),
{
    let mut r: Vec<String> = Vec::new();
    let mut i: usize = 0;
    while i < v.len()
        invariant
            i <= v@.len(),
            r@.len() == i,
            forall|k: int| 0 <= k < i ==> (#[trigger] r@[k])@ == v@[k]@,
        decreases v@.len() - i,
    {
        let c = v[i].clone();
        r.push(c);
        i = i + 1;
    }
    assert(texts(r@) =~= texts(v@));
    r
}

impl Game {
    pub fn new(
        name: &str,
        process_name: &str,
        alternate_names: Vec<String>,
        score_mem_addr: usize,
        live_mem_addr: usize,
        bomb_mem_addr: usize,
    ) -> (r: Game)
        ensures
            r@ == (GameView {
                name: name@,
                process_name: process_name@,
                alternate_names: texts(alternate_names@),
                score_mem_addr,
                live_mem_addr,
                bomb_mem_addr,
            }),
    {
        Game {
            name: name.to_owned(),
            process_name: process_name.to_owned(),
            alternate_names,
            score_mem_addr,
            live_mem_addr,
            bomb_mem_addr,
        }
    }

    /// A copy of this record.
    pub fn duplicate(&self) -> (r: Game)
        ensures
            r@ == self@,
    {
        Game {
            name: self.name.clone(),
            process_name: self.process_name.clone(),
            alternate_names: copy_strings(&self.alternate_names),
            score_mem_addr: self.score_mem_addr,
            live_mem_addr: self.live_mem_addr,
            bomb_mem_addr: self.bomb_mem_addr,
        }
    }
}

/// The value of a hexadecimal digit, either case.
pub open spec fn hex_digit(c: char) -> Option<nat> {
    if '0' <= c && c <= '9' {
        Some((c as nat - '0' as nat) as nat)
    } else if 'a' <= c && c <= 'f' {
        Some((c as nat - 'a' as nat + 10) as nat)
    } else if 'A' <= c && c <= 'F' {
        Some((c as nat - 'A' as nat + 10) as nat)
    } else {
        None
    }
}

/// Whether every character is a hexadecimal digit, and there is at least one.
pub open spec fn all_hex(d: Seq<char>) -> bool {
    d.len() > 0 && forall|i: int| 0 <= i < d.len() ==> (#[trigger] hex_digit(d[i])) is Some
}

/// The number that a run of hexadecimal digits writes, most significant first.
pub open spec fn hex_value(d: Seq<char>) -> nat
    decreases d.len(),
{
    if d.len() == 0 {
        0
    } else {
        hex_value(d.drop_last()) * 16 + hex_digit(d.last()).unwrap_or(0)
    }
}

/// The address that a database entry writes as `0x` followed by hexadecimal
/// digits, when the text has that shape and the address fits a `usize`.
pub open spec fn offset_of_text(s: Seq<char>) -> Option<usize> {
    if s.len() >= 2 && s[0] == '0' && s[1] == 'x' && all_hex(s.subrange(2, s.len() as int))
        && hex_value(s.subrange(2, s.len() as int)) <= usize::MAX {
        Some(hex_value(s.subrange(2, s.len() as int)) as usize)
    } else {
        None
    }
}

proof fn lemma_hex_prefix_le(d: Seq<char>, j: int)
    requires
        0 <= j <= d.len(),
    ensures
        hex_value(d.subrange(0, j)) <= hex_value(d),
    decreases d.len(),
{
    if j < d.len() {
        lemma_hex_prefix_le(d.drop_last(), j);
        assert(d.drop_last().subrange(0, j) =~= d.subrange(0, j));
    } else {
        assert(d.subrange(0, j) =~= d);
    }
}

/// Decodes an address written as `0x` followed by hexadecimal digits.
pub fn parse_hex_offset(s: &str) -> (r: Option<usize>)
    ensures
        r == offset_of_text(s@),
{
    let n = s.unicode_len();
    if n < 2 || s.get_char(0) != '0' || s.get_char(1) != 'x' {
        return None;
    }
    let ghost d = s@.subrange(2, n as int);
    let mut acc: usize = 0;
    let mut i: usize = 2;
    while i < n
        invariant
            n == s@.len(),
            2 <= i <= n,
            d == s@.subrange(2, n as int),
            forall|k: int| 0 <= k < i - 2 ==> (#[trigger] hex_digit(d[k])) is Some,
            acc as nat == hex_value(d.subrange(0, i - 2)),
        decreases n - i,
    {
        let c = s.get_char(i);
        let v: usize = if '0' <= c && c <= '9' {
            (c as u32 - '0' as u32) as usize
        } else if 'a' <= c && c <= 'f' {
            (c as u32 - 'a' as u32 + 10) as usize
        } else if 'A' <= c && c <= 'F' {
            (c as u32 - 'A' as u32 + 10) as usize
        } else {
            assert(!all_hex(d)) by {
                assert(hex_digit(d[i - 2]) is None);
            }
            return None;
        };
        assert(d.subrange(0, i - 1).drop_last() =~= d.subrange(0, i - 2));
        assert(hex_digit(c) == Some(v as nat));
        if acc > (usize::MAX - v) / 16 {
            proof {
                assert(hex_value(d.subrange(0, i - 1)) == acc * 16 + v);
                assert(acc * 16 + v > usize::MAX) by (nonlinear_arith)
                    requires
                        acc > (usize::MAX - v) / 16,
                        v <= 15,
                ;
                lemma_hex_prefix_le(d, i - 1);
            }
            return None;
        }
        assert(acc * 16 + v <= usize::MAX) by (nonlinear_arith)
            requires
                acc <= (usize::MAX - v) / 16,
                v <= 15,
        ;
        acc = acc * 16 + v;
        i = i + 1;
    }
    assert(d.subrange(0, n - 2) =~= d);
    if n == 2 {
        return None;
    }
    Some(acc)
}

} // verus!
