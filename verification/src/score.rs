//! Scores: signed integers with a mate-distance encoding.
//!
//! A centipawn is a large composite constant, so that dividing a score by
//! common small factors stays exact.  Scores with an absolute value of at
//! least `MATE_CUTOFF` encode "mate in N": every return up the search stack
//! moves such a score one `MATE_MOVE` step closer to zero, so the distance
//! to the mate grows by one ply per return.

use vstd::prelude::*;

verus! {

pub type Score = i64;

/// One centipawn.  Divisible by every factor up to eight, so centipawn
/// display (division by 100) is exact.
pub const CENTIPAWN: Score = 720720;

/// Mate sentinel: the score of a side that is being mated right now.
/// One sixteenth of the widest representable score, leaving headroom for
/// window arithmetic.
pub const MATE: Score = 576460752303423487;

/// One step of mate distance.
pub const MATE_MOVE: Score = CENTIPAWN;

/// Scores at or beyond this magnitude are mate-distance encodings.
pub const MATE_CUTOFF: Score = MATE - 1024 * MATE_MOVE;

/// The score of a drawn position.
pub const DRAW: Score = 0;

/// What `score_mark` computes: mate scores step one `MATE_MOVE` toward
/// zero, other scores pass through unchanged.
pub open spec fn spec_score_mark(score: int) -> int {
    if score >= MATE_CUTOFF {
        score - MATE_MOVE
    } else if score <= -MATE_CUTOFF {
        score + MATE_MOVE
    } else {
        score
    }
}

/// Applied on every return up the search stack: a mate score loses one
/// `MATE_MOVE` of magnitude, recording that the mate is one ply further
/// from the node that reports it.
pub fn score_mark(score: Score) -> (r: Score)
    ensures
        r == spec_score_mark(score as int),
{
    if score >= MATE_CUTOFF {
        score - MATE_MOVE
    } else if score <= -MATE_CUTOFF {
        score + MATE_MOVE
    } else {
        score
    }
}

/// Division rounding toward zero, as Rust's `/` computes it.
pub open spec fn spec_div_trunc(a: int, b: int) -> int {
    if a >= 0 {
        a / b
    } else {
        -((-a) / b)
    }
}

/// Truncating division of a score by `CENTIPAWN`, as a spec.
pub open spec fn spec_score_to_cp(score: int) -> int {
    spec_div_trunc(score, CENTIPAWN as int)
}

/// A score reduced to whole centipawns (rounded toward zero).
pub fn score_to_cp(score: Score) -> (r: Score)
    requires
        score > i64::MIN,
    ensures
        r == spec_score_to_cp(score as int),
{
    score / CENTIPAWN
}

/// The decimal digit characters.
pub open spec fn spec_digit_char(d: int) -> char {
    if d == 0 {
        '0'
    } else if d == 1 {
        '1'
    } else if d == 2 {
        '2'
    } else if d == 3 {
        '3'
    } else if d == 4 {
        '4'
    } else if d == 5 {
        '5'
    } else if d == 6 {
        '6'
    } else if d == 7 {
        '7'
    } else if d == 8 {
        '8'
    } else {
        '9'
    }
}

/// The decimal rendering of a non-negative integer, most significant
/// digit first.
pub open spec fn spec_dec_str(n: nat) -> Seq<char>
    decreases n,
{
    if n < 10 {
        seq![spec_digit_char(n as int)]
    } else {
        spec_dec_str(n / 10).push(spec_digit_char((n % 10) as int))
    }
}

fn digit_str(d: u64) -> (s: &'static str)
    requires
        d < 10,
    ensures
        s@ == seq![spec_digit_char(d as int)],
{
    proof {
        reveal_strlit("0");
        reveal_strlit("1");
        reveal_strlit("2");
        reveal_strlit("3");
        reveal_strlit("4");
        reveal_strlit("5");
        reveal_strlit("6");
        reveal_strlit("7");
        reveal_strlit("8");
        reveal_strlit("9");
    }
    let s = match d {
        0 => "0",
        1 => "1",
        2 => "2",
        3 => "3",
        4 => "4",
        5 => "5",
        6 => "6",
        7 => "7",
        8 => "8",
        _ => "9",
    };
    proof {
        assert(s@ =~= seq![spec_digit_char(d as int)]);
    }
    s
}

/// Renders a non-negative number in decimal.
pub fn dec_string(n: u64) -> (s: String)
    ensures
        s@ == spec_dec_str(n as nat),
    decreases n,
{
    if n < 10 {
        String::from_str(digit_str(n))
    } else {
        let mut s = dec_string(n / 10);
        s.append(digit_str(n % 10));
        proof {
            assert(s@ =~= spec_dec_str((n / 10) as nat).push(spec_digit_char((n % 10) as int)));
        }
        s
    }
}

/// The number of full moves to mate that a mate score encodes, rounded to
/// the nearest move: two marks (one move by each side) step it by one.
pub open spec fn spec_mate_moves(a: int) -> int {
    (MATE - a + 3 * (MATE_MOVE as int) / 2) / (2 * (MATE_MOVE as int))
}

/// What `score_to_str` renders: "mate N" for mate-encoded scores,
/// "cp V" otherwise, each with a leading minus for the losing side.
pub open spec fn spec_score_str(score: int) -> Seq<char> {
    let a = if score < 0 {
        -score
    } else {
        score
    };
    let sign = if score < 0 {
        seq!['-']
    } else {
        Seq::<char>::empty()
    };
    if a >= MATE_CUTOFF {
        "mate "@ + sign + spec_dec_str(spec_mate_moves(a) as nat)
    } else {
        "cp "@ + sign + spec_dec_str((a / (CENTIPAWN as int)) as nat)
    }
}

/// The display form of a score: mate scores as "mate N", others as whole
/// centipawns, negative for the side to move being worse off.
pub fn score_to_str(score: Score) -> (s: String)
    requires
        -MATE <= score <= MATE,
    ensures
        s@ == spec_score_str(score as int),
{
    proof {
        reveal_strlit("mate ");
        reveal_strlit("cp ");
        reveal_strlit("-");
    }
    let neg = score < 0;
    let a: i64 = if neg {
        -score
    } else {
        score
    };
    let mut s: String;
    if a >= MATE_CUTOFF {
        let diff = MATE - a;
        let moves = (diff + 3 * MATE_MOVE / 2) / (2 * MATE_MOVE);
        s = String::from_str("mate ");
        if neg {
            s.append("-");
        }
        let digits = dec_string(moves as u64);
        s.append(digits.as_str());
        proof {
            assert(s@ =~= spec_score_str(score as int));
        }
    } else {
        let cp = a / CENTIPAWN;
        s = String::from_str("cp ");
        if neg {
            s.append("-");
        }
        let digits = dec_string(cp as u64);
        s.append(digits.as_str());
        proof {
            assert(s@ =~= spec_score_str(score as int));
        }
    }
    s
}

/// One mark moves a winning mate score strictly toward zero while leaving
/// it a mate score, as long as one step of headroom remains: the mate is
/// reported from one ply further away.
pub proof fn lemma_mark_moves_mate_away(s: int)
    requires
        MATE_CUTOFF + MATE_MOVE <= s <= MATE,
    ensures
        spec_score_mark(s) < s,
        MATE_CUTOFF <= spec_score_mark(s) < MATE,
{
}

/// Marking a winning mate score twice (one full move further from the
/// mate) raises the reported "mate in N" by exactly one: nodes nearer the
/// mate report strictly smaller N.
pub proof fn lemma_mate_distance_monotone(s: int)
    requires
        MATE_CUTOFF + 2 * MATE_MOVE <= s <= MATE,
    ensures
        MATE_CUTOFF <= spec_score_mark(spec_score_mark(s)),
        spec_mate_moves(spec_score_mark(spec_score_mark(s))) == spec_mate_moves(s) + 1,
{
    let mm = MATE_MOVE as int;
    let s2 = spec_score_mark(spec_score_mark(s));
    assert(s2 == s - 2 * mm);
    let x = MATE - s + 3 * mm / 2;
    assert(MATE - s2 + 3 * mm / 2 == x + 2 * mm);
    assert((x + 2 * mm) / (2 * mm) == x / (2 * mm) + 1) by {
        vstd::arithmetic::div_mod::lemma_div_plus_one(x, 2 * mm);
    }
}

} // verus!
