//! The library's own move representation: source and destination squares
//! as indices 0..64 (rank times eight plus file, a1 = 0, h8 = 63) and an
//! optional promotion piece.  The move generator's opaque move values are
//! converted to and from this type at the trusted boundary, so move
//! equality, ordering and rendering are all plain verified code.

use vstd::prelude::*;

use crate::score::{spec_score_mark, Score, MATE};

verus! {

/// The piece a pawn promotes to, if any.
#[derive(Clone, Copy, PartialEq, Eq, Structural, Debug)]
pub enum Promotion {
    Empty,
    Knight,
    Bishop,
    Rook,
    Queen,
}

/// A chess move in coordinate form.
#[derive(Clone, Copy, PartialEq, Eq, Structural, Debug)]
pub struct Move {
    pub source: u8,
    pub dest: u8,
    pub promotion: Promotion,
}

impl Move {
    /// Both squares are on the board.
    pub open spec fn wf(self) -> bool {
        self.source < 64 && self.dest < 64
    }

    pub fn new(source: u8, dest: u8, promotion: Promotion) -> (r: Move)
        requires
            source < 64,
            dest < 64,
        ensures
            r == (Move { source, dest, promotion }),
            r.wf(),
    {
        Move { source, dest, promotion }
    }

    pub fn get_source(&self) -> (r: u8)
        ensures
            r == self.source,
    {
        self.source
    }

    pub fn get_dest(&self) -> (r: u8)
        ensures
            r == self.dest,
    {
        self.dest
    }

    pub fn get_promotion(&self) -> (r: Promotion)
        ensures
            r == self.promotion,
    {
        self.promotion
    }

}

/// The file letters a..h.
pub open spec fn spec_file_char(f: int) -> char {
    if f == 0 {
        'a'
    } else if f == 1 {
        'b'
    } else if f == 2 {
        'c'
    } else if f == 3 {
        'd'
    } else if f == 4 {
        'e'
    } else if f == 5 {
        'f'
    } else if f == 6 {
        'g'
    } else {
        'h'
    }
}

/// The rank digits 1..8.
pub open spec fn spec_rank_char(r: int) -> char {
    if r == 0 {
        '1'
    } else if r == 1 {
        '2'
    } else if r == 2 {
        '3'
    } else if r == 3 {
        '4'
    } else if r == 4 {
        '5'
    } else if r == 5 {
        '6'
    } else if r == 6 {
        '7'
    } else {
        '8'
    }
}

/// A square index in long-algebraic form: file letter then rank digit.
pub open spec fn spec_square_str(sq: int) -> Seq<char> {
    seq![spec_file_char(sq % 8), spec_rank_char(sq / 8)]
}

/// The promotion suffix of a move in long-algebraic form.
pub open spec fn spec_promotion_str(p: Promotion) -> Seq<char> {
    match p {
        Promotion::Empty => Seq::<char>::empty(),
        Promotion::Knight => seq!['n'],
        Promotion::Bishop => seq!['b'],
        Promotion::Rook => seq!['r'],
        Promotion::Queen => seq!['q'],
    }
}

/// The long-algebraic (UCI) rendering of a move.
pub open spec fn spec_move_str(m: Move) -> Seq<char> {
    spec_square_str(m.source as int) + spec_square_str(m.dest as int) + spec_promotion_str(
        m.promotion,
    )
}

fn file_str(f: u8) -> (s: &'static str)
    requires
        f < 8,
    ensures
        s@ == seq![spec_file_char(f as int)],
{
    proof {
        reveal_strlit("a");
        reveal_strlit("b");
        reveal_strlit("c");
        reveal_strlit("d");
        reveal_strlit("e");
        reveal_strlit("f");
        reveal_strlit("g");
        reveal_strlit("h");
    }
    let s = match f {
        0 => "a",
        1 => "b",
        2 => "c",
        3 => "d",
        4 => "e",
        5 => "f",
        6 => "g",
        _ => "h",
    };
    proof {
        assert(s@ =~= seq![spec_file_char(f as int)]);
    }
    s
}

fn rank_str(r: u8) -> (s: &'static str)
    requires
        r < 8,
    ensures
        s@ == seq![spec_rank_char(r as int)],
{
    proof {
        reveal_strlit("1");
        reveal_strlit("2");
        reveal_strlit("3");
        reveal_strlit("4");
        reveal_strlit("5");
        reveal_strlit("6");
        reveal_strlit("7");
        reveal_strlit("8");
    }
    let s = match r {
        0 => "1",
        1 => "2",
        2 => "3",
        3 => "4",
        4 => "5",
        5 => "6",
        6 => "7",
        _ => "8",
    };
    proof {
        assert(s@ =~= seq![spec_rank_char(r as int)]);
    }
    s
}

fn promotion_str(p: Promotion) -> (s: &'static str)
    ensures
        s@ == spec_promotion_str(p),
{
    proof {
        reveal_strlit("");
        reveal_strlit("n");
        reveal_strlit("b");
        reveal_strlit("r");
        reveal_strlit("q");
    }
    let s = match p {
        Promotion::Empty => "",
        Promotion::Knight => "n",
        Promotion::Bishop => "b",
        Promotion::Rook => "r",
        Promotion::Queen => "q",
    };
    proof {
        assert(s@ =~= spec_promotion_str(p));
    }
    s
}

impl Move {
    /// The move in long-algebraic form, "e2e4" or "e7e8q".
    pub fn uci_string(&self) -> (s: String)
        requires
            self.wf(),
        ensures
            s@ == spec_move_str(*self),
    {
        let mut s = String::from_str(file_str(self.source % 8));
        s.append(rank_str(self.source / 8));
        s.append(file_str(self.dest % 8));
        s.append(rank_str(self.dest / 8));
        s.append(promotion_str(self.promotion));
        proof {
            assert(s@ =~= spec_move_str(*self));
        }
        s
    }
}

/// The file index a letter denotes, eight for anything else.
pub open spec fn spec_file_val(c: char) -> int {
    if c == 'a' {
        0
    } else if c == 'b' {
        1
    } else if c == 'c' {
        2
    } else if c == 'd' {
        3
    } else if c == 'e' {
        4
    } else if c == 'f' {
        5
    } else if c == 'g' {
        6
    } else if c == 'h' {
        7
    } else {
        8
    }
}

/// The rank index a digit denotes, eight for anything else.
pub open spec fn spec_rank_val(c: char) -> int {
    if c == '1' {
        0
    } else if c == '2' {
        1
    } else if c == '3' {
        2
    } else if c == '4' {
        3
    } else if c == '5' {
        4
    } else if c == '6' {
        5
    } else if c == '7' {
        6
    } else if c == '8' {
        7
    } else {
        8
    }
}

/// The promotion a trailing letter denotes.
pub open spec fn spec_promo_val(c: char) -> Promotion {
    if c == 'n' {
        Promotion::Knight
    } else if c == 'b' {
        Promotion::Bishop
    } else if c == 'r' {
        Promotion::Rook
    } else if c == 'q' {
        Promotion::Queen
    } else {
        Promotion::Empty
    }
}

/// The move a well-formed long-algebraic string denotes.
pub open spec fn spec_move_of_uci(s: Seq<char>) -> Move {
    Move {
        source: (spec_rank_val(s[1]) * 8 + spec_file_val(s[0])) as u8,
        dest: (spec_rank_val(s[3]) * 8 + spec_file_val(s[2])) as u8,
        promotion: if s.len() == 5 {
            spec_promo_val(s[4])
        } else {
            Promotion::Empty
        },
    }
}

/// Whether a character sequence is a well-formed long-algebraic move:
/// two squares, then at most one promotion letter.
pub open spec fn spec_is_uci_move(s: Seq<char>) -> bool {
    &&& (s.len() == 4 || s.len() == 5)
    &&& 'a' <= s[0] <= 'h'
    &&& '1' <= s[1] <= '8'
    &&& 'a' <= s[2] <= 'h'
    &&& '1' <= s[3] <= '8'
    &&& (s.len() == 5 ==> (s[4] == 'n' || s[4] == 'b' || s[4] == 'r' || s[4] == 'q'))
}

fn parse_promotion(c: char) -> (r: Option<Promotion>)
    ensures
        r matches Some(p) ==> p != Promotion::Empty && spec_promotion_str(p) == seq![c],
        r is Some <==> (c == 'n' || c == 'b' || c == 'r' || c == 'q'),
{
    if c == 'n' {
        Some(Promotion::Knight)
    } else if c == 'b' {
        Some(Promotion::Bishop)
    } else if c == 'r' {
        Some(Promotion::Rook)
    } else if c == 'q' {
        Some(Promotion::Queen)
    } else {
        None
    }
}

impl Move {
    /// Parses a long-algebraic move; accepts exactly the strings that
    /// `uci_string` produces.
    pub fn from_uci(s: &str) -> (r: Option<Move>)
        ensures
            r == if spec_is_uci_move(s@) {
                Some(spec_move_of_uci(s@))
            } else {
                None::<Move>
            },
            r matches Some(m) ==> m.wf() && spec_move_str(m) == s@,
    {
        let len = s.unicode_len();
        if len != 4 && len != 5 {
            return None;
        }
        let c0 = s.get_char(0);
        let c1 = s.get_char(1);
        let c2 = s.get_char(2);
        let c3 = s.get_char(3);
        if !(('a' <= c0 && c0 <= 'h') && ('1' <= c1 && c1 <= '8') && ('a' <= c2 && c2 <= 'h') && (
        '1' <= c3 && c3 <= '8')) {
            return None;
        }
        let sf: u8 = (c0 as u32 - 'a' as u32) as u8;
        let sr: u8 = (c1 as u32 - '1' as u32) as u8;
        let df: u8 = (c2 as u32 - 'a' as u32) as u8;
        let dr: u8 = (c3 as u32 - '1' as u32) as u8;
        let promotion = if len == 5 {
            match parse_promotion(s.get_char(4)) {
                Some(p) => p,
                None => {
                    return None;
                },
            }
        } else {
            Promotion::Empty
        };
        let m = Move { source: sr * 8 + sf, dest: dr * 8 + df, promotion };
        proof {
            assert(spec_file_char(m.source as int % 8) == c0 && spec_rank_char(
                m.source as int / 8,
            ) == c1) by {
                assert(m.source as int % 8 == sf as int && m.source as int / 8 == sr as int);
            }
            assert(spec_file_char(m.dest as int % 8) == c2 && spec_rank_char(m.dest as int / 8)
                == c3) by {
                assert(m.dest as int % 8 == df as int && m.dest as int / 8 == dr as int);
            }
            assert(spec_move_str(m) =~= s@);
        }
        Some(m)
    }
}

/// A move together with the score the search assigned to it.
#[derive(Clone, Copy, PartialEq, Eq, Structural, Debug)]
pub struct RatedMove {
    pub score: Score,
    pub mv: Move,
}

impl RatedMove {
    /// The move is on the board and the score is in the representable
    /// score range.
    pub open spec fn wf(self) -> bool {
        self.mv.wf() && -MATE <= self.score <= MATE
    }

    pub fn new(score: Score, mv: Move) -> (r: RatedMove)
        ensures
            r == (RatedMove { score, mv }),
    {
        RatedMove { score, mv }
    }

    /// The same move with its score marked one ply further from a mate.
    pub fn mark(&self) -> (r: RatedMove)
        ensures
            r.score == spec_score_mark(self.score as int),
            r.mv == self.mv,
    {
        RatedMove { score: crate::score::score_mark(self.score), mv: self.mv }
    }
}

} // verus!
