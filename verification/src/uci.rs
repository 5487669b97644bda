//! The UCI wire vocabulary: tokenizing command lines, the `go` option
//! grammar, and the time budget a `go` command allots.  All of it is
//! plain string and integer logic, verified against character-level
//! specifications; the front end only reads lines and prints replies.

use vstd::prelude::*;

use crate::board::{board_piece_mask, board_side_white, PieceKind};
use crate::deadline::Deadline;
use crate::depth::Depth;
use crate::evaluate::popcnt64;
use crate::moves::{spec_is_uci_move, spec_move_of_uci, Move};

verus! {

/// The whitespace the tokenizer skips between words.
pub open spec fn spec_is_space(c: char) -> bool {
    c == ' ' || c == '\t' || c == '\n' || c == '\u{000C}'
}

fn is_space(c: char) -> (r: bool)
    ensures
        r == spec_is_space(c),
{
    c == ' ' || c == '\t' || c == '\n' || c == '\u{000C}'
}

/// The first non-space position at or after `pos`, or the end.
pub open spec fn spec_skip_spaces(s: Seq<char>, pos: int) -> int
    decreases s.len() - pos,
{
    if pos < 0 || pos >= s.len() {
        s.len() as int
    } else if spec_is_space(s[pos]) {
        spec_skip_spaces(s, pos + 1)
    } else {
        pos
    }
}

/// The first space position at or after `pos`, or the end.
pub open spec fn spec_word_end(s: Seq<char>, pos: int) -> int
    decreases s.len() - pos,
{
    if pos < 0 || pos >= s.len() {
        s.len() as int
    } else if spec_is_space(s[pos]) {
        pos
    } else {
        spec_word_end(s, pos + 1)
    }
}

/// The first whitespace-delimited word at or after `pos`; empty when
/// only spaces remain.
pub open spec fn spec_word_at(s: Seq<char>, pos: int) -> Seq<char> {
    s.subrange(spec_skip_spaces(s, pos), spec_word_end(s, spec_skip_spaces(s, pos)))
}

/// The next whitespace-delimited word of `s` at or after `pos`: the
/// first non-space position, and the position just past the word.  An
/// empty result means only spaces remained.
pub fn next_word(s: &str, pos: usize) -> (r: (usize, usize))
    requires
        pos <= s@.len(),
    ensures
        pos <= r.0 <= r.1 <= s@.len(),
        r.0 == spec_skip_spaces(s@, pos as int),
        r.1 == spec_word_end(s@, r.0 as int),
        forall|i: int| pos <= i < r.0 ==> spec_is_space(s@[i]),
        forall|i: int| r.0 <= i < r.1 ==> !spec_is_space(s@[i]),
        r.0 == r.1 ==> r.0 == s@.len(),
        r.0 < r.1 ==> (r.1 == s@.len() || spec_is_space(s@[r.1 as int])),
{
    let len = s.unicode_len();
    let mut start: usize = pos;
    while start < len && is_space(s.get_char(start))
        invariant
            pos <= start <= len,
            len == s@.len(),
            spec_skip_spaces(s@, pos as int) == spec_skip_spaces(s@, start as int),
            forall|i: int| pos <= i < start ==> spec_is_space(s@[i]),
        decreases len - start,
    {
        start = start + 1;
    }
    let mut end: usize = start;
    while end < len && !is_space(s.get_char(end))
        invariant
            start <= end <= len,
            len == s@.len(),
            spec_word_end(s@, start as int) == spec_word_end(s@, end as int),
            forall|i: int| start <= i < end ==> !spec_is_space(s@[i]),
        decreases len - end,
    {
        end = end + 1;
    }
    (start, end)
}

/// Whether two strings hold the same characters.
pub fn str_eq(a: &str, b: &str) -> (r: bool)
    ensures
        r == (a@ == b@),
{
    let la = a.unicode_len();
    let lb = b.unicode_len();
    if la != lb {
        return false;
    }
    let mut i: usize = 0;
    while i < la
        invariant
            0 <= i <= la,
            la == a@.len(),
            la == b@.len(),
            forall|j: int| 0 <= j < i ==> a@[j] == b@[j],
        decreases la - i,
    {
        if a.get_char(i) != b.get_char(i) {
            return false;
        }
        i = i + 1;
    }
    proof {
        assert(a@ =~= b@);
    }
    true
}

/// The value of a decimal digit character, ten for anything else.
pub open spec fn spec_digit_val(c: char) -> int {
    if c == '0' {
        0
    } else if c == '1' {
        1
    } else if c == '2' {
        2
    } else if c == '3' {
        3
    } else if c == '4' {
        4
    } else if c == '5' {
        5
    } else if c == '6' {
        6
    } else if c == '7' {
        7
    } else if c == '8' {
        8
    } else if c == '9' {
        9
    } else {
        10
    }
}

/// All characters are decimal digits.
pub open spec fn spec_all_digits(s: Seq<char>) -> bool {
    forall|i: int| 0 <= i < s.len() ==> spec_digit_val(s[i]) < 10
}

/// The number the first `n` digit characters denote.
pub open spec fn spec_digits_val_upto(s: Seq<char>, n: int) -> int
    decreases n,
{
    if n <= 0 {
        0
    } else {
        spec_digits_val_upto(s, n - 1) * 10 + spec_digit_val(s[n - 1])
    }
}

/// The number a digit string denotes.
pub open spec fn spec_digits_val(s: Seq<char>) -> int {
    spec_digits_val_upto(s, s.len() as int)
}

/// A longer digit prefix never denotes a smaller number.
proof fn lemma_digits_val_grows(s: Seq<char>, i: int, j: int)
    requires
        0 <= i <= j <= s.len(),
    ensures
        spec_digits_val_upto(s, i) <= spec_digits_val_upto(s, j)
            || spec_digits_val_upto(s, i) < 0,
    decreases j - i,
{
    if i < j {
        lemma_digits_val_grows(s, i, j - 1);
        let v = spec_digits_val_upto(s, j - 1);
        assert(v >= 0 ==> spec_digits_val_upto(s, j) >= v) by (nonlinear_arith)
            requires
                spec_digits_val_upto(s, j) == v * 10 + spec_digit_val(s[j - 1]),
                spec_digit_val(s[j - 1]) >= 0,
        ;
    }
}

fn digit_of(c: char) -> (r: u32)
    ensures
        r == spec_digit_val(c),
{
    if c == '0' {
        0
    } else if c == '1' {
        1
    } else if c == '2' {
        2
    } else if c == '3' {
        3
    } else if c == '4' {
        4
    } else if c == '5' {
        5
    } else if c == '6' {
        6
    } else if c == '7' {
        7
    } else if c == '8' {
        8
    } else if c == '9' {
        9
    } else {
        10
    }
}

/// Parses a non-empty decimal numeral that fits the word size; refuses
/// anything else.
pub fn parse_u64(s: &str) -> (r: Option<u64>)
    ensures
        r matches Some(v) ==> s@.len() > 0 && spec_all_digits(s@) && v == spec_digits_val(s@),
        r is None ==> (s@.len() == 0 || !spec_all_digits(s@) || spec_digits_val(s@)
            > u64::MAX),
{
    let len = s.unicode_len();
    if len == 0 {
        return None;
    }
    let mut acc: u64 = 0;
    let mut i: usize = 0;
    while i < len
        invariant
            0 <= i <= len,
            len == s@.len(),
            forall|j: int| 0 <= j < i ==> spec_digit_val(s@[j]) < 10,
            acc == spec_digits_val_upto(s@, i as int),
        decreases len - i,
    {
        let d = digit_of(s.get_char(i));
        if d >= 10 {
            return None;
        }
        let grown = match acc.checked_mul(10) {
            Some(g) => g,
            None => {
                proof {
                    assert(spec_digits_val_upto(s@, i as int + 1) > u64::MAX)
                        by (nonlinear_arith)
                        requires
                            spec_digits_val_upto(s@, i as int + 1) == (acc as int) * 10
                                + spec_digit_val(s@[i as int]),
                            (acc as int) * 10 > u64::MAX,
                            spec_digit_val(s@[i as int]) >= 0,
                    ;
                    assert((acc as int) * 10 > u64::MAX) by (nonlinear_arith)
                        requires
                            acc as int >= (u64::MAX as int + 1) / 10 + 1 || (acc as int) * 10
                                > u64::MAX,
                    ;
                    lemma_digits_val_grows(s@, i as int + 1, len as int);
                }
                return None;
            },
        };
        let next = match grown.checked_add(d as u64) {
            Some(n) => n,
            None => {
                proof {
                    lemma_digits_val_grows(s@, i as int + 1, len as int);
                }
                return None;
            },
        };
        acc = next;
        i = i + 1;
    }
    Some(acc)
}

/// The engine-control words of the UCI protocol, plus the engine's own
/// self-test word.
#[derive(Clone, Copy, PartialEq, Eq, Structural, Debug)]
pub enum UCIToken {
    FlyingDutchmanTest,
    UCI,
    NewGame,
    IsReady,
    Position,
    SetOption,
    Go,
    Stop,
    Quit,
}

/// Which command word a token is, if any.
pub open spec fn spec_uci_token(s: Seq<char>) -> Option<UCIToken> {
    if s == "fd_test"@ {
        Some(UCIToken::FlyingDutchmanTest)
    } else if s == "uci"@ {
        Some(UCIToken::UCI)
    } else if s == "ucinewgame"@ {
        Some(UCIToken::NewGame)
    } else if s == "isready"@ {
        Some(UCIToken::IsReady)
    } else if s == "position"@ {
        Some(UCIToken::Position)
    } else if s == "setoption"@ {
        Some(UCIToken::SetOption)
    } else if s == "go"@ {
        Some(UCIToken::Go)
    } else if s == "stop"@ {
        Some(UCIToken::Stop)
    } else if s == "quit"@ {
        Some(UCIToken::Quit)
    } else {
        None
    }
}

impl UCIToken {
    /// Classifies one word of a command line.
    pub fn parse(word: &str) -> (r: Option<UCIToken>)
        ensures
            r == spec_uci_token(word@),
    {
        if str_eq(word, "fd_test") {
            Some(UCIToken::FlyingDutchmanTest)
        } else if str_eq(word, "uci") {
            Some(UCIToken::UCI)
        } else if str_eq(word, "ucinewgame") {
            Some(UCIToken::NewGame)
        } else if str_eq(word, "isready") {
            Some(UCIToken::IsReady)
        } else if str_eq(word, "position") {
            Some(UCIToken::Position)
        } else if str_eq(word, "setoption") {
            Some(UCIToken::SetOption)
        } else if str_eq(word, "go") {
            Some(UCIToken::Go)
        } else if str_eq(word, "stop") {
            Some(UCIToken::Stop)
        } else if str_eq(word, "quit") {
            Some(UCIToken::Quit)
        } else {
            None
        }
    }
}

/// The words and values that may follow `go`.
#[derive(Clone, Copy, PartialEq, Eq, Structural, Debug)]
pub enum UCIGoToken {
    Number(u64),
    MoveWord(Move),
    SearchMoves,
    Ponder,
    WhiteTime,
    BlackTime,
    WhiteTimeInc,
    BlackTimeInc,
    MovesToGo,
    DepthWord,
    Nodes,
    Mate,
    MoveTime,
    Infinite,
    Unknown,
}

/// Which `go` token a word is: a keyword, a numeral, a move, or an
/// unknown word holding a place in the stream.
pub open spec fn spec_token_of(s: Seq<char>) -> UCIGoToken {
    if s == "searchmoves"@ {
        UCIGoToken::SearchMoves
    } else if s == "ponder"@ {
        UCIGoToken::Ponder
    } else if s == "wtime"@ {
        UCIGoToken::WhiteTime
    } else if s == "btime"@ {
        UCIGoToken::BlackTime
    } else if s == "winc"@ {
        UCIGoToken::WhiteTimeInc
    } else if s == "binc"@ {
        UCIGoToken::BlackTimeInc
    } else if s == "movestogo"@ {
        UCIGoToken::MovesToGo
    } else if s == "depth"@ {
        UCIGoToken::DepthWord
    } else if s == "nodes"@ {
        UCIGoToken::Nodes
    } else if s == "mate"@ {
        UCIGoToken::Mate
    } else if s == "movetime"@ {
        UCIGoToken::MoveTime
    } else if s == "infinite"@ {
        UCIGoToken::Infinite
    } else if s.len() > 0 && spec_all_digits(s) && spec_digits_val(s) <= u64::MAX {
        UCIGoToken::Number(spec_digits_val(s) as u64)
    } else if spec_is_uci_move(s) {
        UCIGoToken::MoveWord(spec_move_of_uci(s))
    } else {
        UCIGoToken::Unknown
    }
}

/// Classifies one word after `go`: a keyword, a numeral, or a move in
/// long-algebraic form; anything else takes its place as an unknown.
pub fn parse_go_token(word: &str) -> (r: UCIGoToken)
    ensures
        r == spec_token_of(word@),
{
    if str_eq(word, "searchmoves") {
        UCIGoToken::SearchMoves
    } else if str_eq(word, "ponder") {
        UCIGoToken::Ponder
    } else if str_eq(word, "wtime") {
        UCIGoToken::WhiteTime
    } else if str_eq(word, "btime") {
        UCIGoToken::BlackTime
    } else if str_eq(word, "winc") {
        UCIGoToken::WhiteTimeInc
    } else if str_eq(word, "binc") {
        UCIGoToken::BlackTimeInc
    } else if str_eq(word, "movestogo") {
        UCIGoToken::MovesToGo
    } else if str_eq(word, "depth") {
        UCIGoToken::DepthWord
    } else if str_eq(word, "nodes") {
        UCIGoToken::Nodes
    } else if str_eq(word, "mate") {
        UCIGoToken::Mate
    } else if str_eq(word, "movetime") {
        UCIGoToken::MoveTime
    } else if str_eq(word, "infinite") {
        UCIGoToken::Infinite
    } else if let Some(v) = parse_u64(word) {
        UCIGoToken::Number(v)
    } else if let Some(m) = Move::from_uci(word) {
        UCIGoToken::MoveWord(m)
    } else {
        UCIGoToken::Unknown
    }
}

/// The token stream of a line, reading one character at a time: a space
/// closes the word gathered so far, anything else extends it.
pub open spec fn spec_tokens_from(s: Seq<char>, pos: int, cur: Seq<char>) -> Seq<UCIGoToken>
    decreases s.len() - pos,
{
    if pos < 0 || pos >= s.len() {
        if cur.len() == 0 {
            Seq::empty()
        } else {
            seq![spec_token_of(cur)]
        }
    } else if spec_is_space(s[pos]) {
        (if cur.len() == 0 {
            Seq::empty()
        } else {
            seq![spec_token_of(cur)]
        }) + spec_tokens_from(s, pos + 1, Seq::empty())
    } else {
        spec_tokens_from(s, pos + 1, cur.push(s[pos]))
    }
}

/// The tokens of the text after `go`.
pub open spec fn spec_go_tokens(s: Seq<char>) -> Seq<UCIGoToken> {
    spec_tokens_from(s, 0, Seq::empty())
}

/// A tail of spaces yields no further token.
proof fn lemma_tokens_spaces(s: Seq<char>, pos: int)
    requires
        0 <= pos <= s.len(),
        forall|i: int| pos <= i < s.len() ==> spec_is_space(s[i]),
    ensures
        spec_tokens_from(s, pos, Seq::empty()) == Seq::<UCIGoToken>::empty(),
    decreases s.len() - pos,
{
    if pos < s.len() {
        lemma_tokens_spaces(s, pos + 1);
    }
}

/// Skipping spaces before a word changes nothing.
proof fn lemma_tokens_skip_spaces(s: Seq<char>, pos: int, start: int)
    requires
        0 <= pos <= start <= s.len(),
        forall|i: int| pos <= i < start ==> spec_is_space(s[i]),
    ensures
        spec_tokens_from(s, pos, Seq::empty()) == spec_tokens_from(s, start, Seq::empty()),
    decreases start - pos,
{
    if pos < start {
        lemma_tokens_skip_spaces(s, pos + 1, start);
    }
}

/// Reading a maximal word emits exactly its token.
proof fn lemma_tokens_word(s: Seq<char>, start: int, i: int, end: int)
    requires
        0 <= start <= i <= end <= s.len(),
        start < end,
        forall|j: int| start <= j < end ==> !spec_is_space(s[j]),
        end == s.len() || spec_is_space(s[end]),
    ensures
        spec_tokens_from(s, i, s.subrange(start, i)) == seq![spec_token_of(s.subrange(start, end))]
            + spec_tokens_from(s, end, Seq::empty()),
    decreases end - i,
{
    if i == end {
        assert(s.subrange(start, end).len() > 0);
        if end == s.len() {
            assert(spec_tokens_from(s, end, Seq::empty()) =~= Seq::<UCIGoToken>::empty());
        }
    } else {
        assert(s.subrange(start, i).push(s[i]) =~= s.subrange(start, i + 1));
        lemma_tokens_word(s, start, i + 1, end);
    }
}

/// Splits the text after `go` into tokens, in order.  A word that is
/// no keyword, numeral or move still takes a place in the stream, so a
/// control word can swallow it in place of its missing numeral.
pub fn tokenize_go(options: &str) -> (r: Vec<UCIGoToken>)
    ensures
        r@ == spec_go_tokens(options@),
{
    let mut tokens: Vec<UCIGoToken> = Vec::new();
    let len = options.unicode_len();
    let mut pos: usize = 0;
    loop
        invariant
            pos <= len,
            len == options@.len(),
            spec_go_tokens(options@) == tokens@ + spec_tokens_from(
                options@,
                pos as int,
                Seq::empty(),
            ),
        ensures
            tokens@ == spec_go_tokens(options@),
        decreases len - pos,
    {
        let (start, end) = next_word(options, pos);
        proof {
            lemma_tokens_skip_spaces(options@, pos as int, start as int);
        }
        if start == end {
            proof {
                lemma_tokens_spaces(options@, pos as int);
                assert(tokens@ + Seq::<UCIGoToken>::empty() =~= tokens@);
            }
            break ;
        }
        let word = options.substring_char(start, end);
        proof {
            assert(options@.subrange(start as int, start as int) =~= Seq::<char>::empty());
            lemma_tokens_word(options@, start as int, start as int, end as int);
        }
        let tok = parse_go_token(word);
        tokens.push(tok);
        proof {
            assert(spec_go_tokens(options@) == tokens@ + spec_tokens_from(
                options@,
                end as int,
                Seq::empty(),
            ));
        }
        pos = end;
    }
    tokens
}

/// What a `go` command asked for: endless analysis, a depth target, a
/// fixed time for this move, or a clock to budget from.  Times are in
/// milliseconds.
#[derive(Clone, Copy, PartialEq, Eq, Structural, Debug)]
pub enum GoOptions {
    Infinite,
    ToDepth(Depth),
    MoveTime(u64),
    TimeLimit { white_time: u64, black_time: u64, white_inc: u64, black_inc: u64 },
}

/// A numeral too wide for a depth falls back to zero.
pub open spec fn spec_depth_of_u64(v: u64) -> Depth {
    if v > i64::MAX as u64 {
        0
    } else {
        v as Depth
    }
}

/// The `go` option grammar over a token stream: the first `infinite`
/// wins outright; `movetime` and `depth` return with their numeral; the
/// clock words collect their numerals; a control word whose numeral is
/// missing swallows the following token.  With clock times collected
/// and no earlier return, the clock rules; with nothing, analysis is
/// endless.
pub open spec fn spec_build_go(
    toks: Seq<UCIGoToken>,
    i: int,
    wt: Option<u64>,
    bt: Option<u64>,
    wi: Option<u64>,
    bi: Option<u64>,
) -> GoOptions
    decreases toks.len() - i,
{
    if i < 0 || i >= toks.len() {
        if wt is Some || bt is Some {
            GoOptions::TimeLimit {
                white_time: wt.unwrap_or(0),
                black_time: bt.unwrap_or(0),
                white_inc: wi.unwrap_or(0),
                black_inc: bi.unwrap_or(0),
            }
        } else {
            GoOptions::Infinite
        }
    } else {
        match toks[i] {
            UCIGoToken::Infinite => GoOptions::Infinite,
            UCIGoToken::MoveTime => if i + 1 < toks.len() {
                match toks[i + 1] {
                    UCIGoToken::Number(ms) => GoOptions::MoveTime(ms),
                    _ => spec_build_go(toks, i + 2, wt, bt, wi, bi),
                }
            } else {
                spec_build_go(toks, i + 1, wt, bt, wi, bi)
            },
            UCIGoToken::DepthWord => if i + 1 < toks.len() {
                match toks[i + 1] {
                    UCIGoToken::Number(d) => GoOptions::ToDepth(spec_depth_of_u64(d)),
                    _ => spec_build_go(toks, i + 2, wt, bt, wi, bi),
                }
            } else {
                spec_build_go(toks, i + 1, wt, bt, wi, bi)
            },
            UCIGoToken::WhiteTime => if i + 1 < toks.len() {
                match toks[i + 1] {
                    UCIGoToken::Number(ms) => spec_build_go(toks, i + 2, Some(ms), bt, wi, bi),
                    _ => spec_build_go(toks, i + 2, wt, bt, wi, bi),
                }
            } else {
                spec_build_go(toks, i + 1, wt, bt, wi, bi)
            },
            UCIGoToken::BlackTime => if i + 1 < toks.len() {
                match toks[i + 1] {
                    UCIGoToken::Number(ms) => spec_build_go(toks, i + 2, wt, Some(ms), wi, bi),
                    _ => spec_build_go(toks, i + 2, wt, bt, wi, bi),
                }
            } else {
                spec_build_go(toks, i + 1, wt, bt, wi, bi)
            },
            UCIGoToken::WhiteTimeInc => if i + 1 < toks.len() {
                match toks[i + 1] {
                    UCIGoToken::Number(ms) => spec_build_go(toks, i + 2, wt, bt, Some(ms), bi),
                    _ => spec_build_go(toks, i + 2, wt, bt, wi, bi),
                }
            } else {
                spec_build_go(toks, i + 1, wt, bt, wi, bi)
            },
            UCIGoToken::BlackTimeInc => if i + 1 < toks.len() {
                match toks[i + 1] {
                    UCIGoToken::Number(ms) => spec_build_go(toks, i + 2, wt, bt, wi, Some(ms)),
                    _ => spec_build_go(toks, i + 2, wt, bt, wi, bi),
                }
            } else {
                spec_build_go(toks, i + 1, wt, bt, wi, bi)
            },
            _ => spec_build_go(toks, i + 1, wt, bt, wi, bi),
        }
    }
}

impl GoOptions {
    /// Decides the options a recognized token stream asks for, exactly
    /// by the `go` grammar.
    pub fn build_from_tokens(tokens: &Vec<UCIGoToken>) -> (r: GoOptions)
        ensures
            r == spec_build_go(tokens@, 0, None, None, None, None),
    {
        let ghost toks = tokens@;
        let mut wt: Option<u64> = None;
        let mut bt: Option<u64> = None;
        let mut wi: Option<u64> = None;
        let mut bi: Option<u64> = None;
        let mut i: usize = 0;
        let len = tokens.len();
        while i < len
            invariant
                0 <= i <= len,
                len == toks.len(),
                toks == tokens@,
                spec_build_go(toks, 0, None, None, None, None) == spec_build_go(
                    toks,
                    i as int,
                    wt,
                    bt,
                    wi,
                    bi,
                ),
            decreases len - i,
        {
            let tok = tokens[i];
            match tok {
                UCIGoToken::Infinite => {
                    return GoOptions::Infinite;
                },
                UCIGoToken::MoveTime => {
                    if i + 1 < len {
                        if let UCIGoToken::Number(ms) = tokens[i + 1] {
                            return GoOptions::MoveTime(ms);
                        }
                        i = i + 2;
                    } else {
                        i = i + 1;
                    }
                },
                UCIGoToken::DepthWord => {
                    if i + 1 < len {
                        if let UCIGoToken::Number(d) = tokens[i + 1] {
                            let depth: Depth = if d > 9223372036854775807u64 {
                                0
                            } else {
                                d as Depth
                            };
                            return GoOptions::ToDepth(depth);
                        }
                        i = i + 2;
                    } else {
                        i = i + 1;
                    }
                },
                UCIGoToken::WhiteTime => {
                    if i + 1 < len {
                        if let UCIGoToken::Number(ms) = tokens[i + 1] {
                            wt = Some(ms);
                        }
                        i = i + 2;
                    } else {
                        i = i + 1;
                    }
                },
                UCIGoToken::BlackTime => {
                    if i + 1 < len {
                        if let UCIGoToken::Number(ms) = tokens[i + 1] {
                            bt = Some(ms);
                        }
                        i = i + 2;
                    } else {
                        i = i + 1;
                    }
                },
                UCIGoToken::WhiteTimeInc => {
                    if i + 1 < len {
                        if let UCIGoToken::Number(ms) = tokens[i + 1] {
                            wi = Some(ms);
                        }
                        i = i + 2;
                    } else {
                        i = i + 1;
                    }
                },
                UCIGoToken::BlackTimeInc => {
                    if i + 1 < len {
                        if let UCIGoToken::Number(ms) = tokens[i + 1] {
                            bi = Some(ms);
                        }
                        i = i + 2;
                    } else {
                        i = i + 1;
                    }
                },
                _ => {
                    i = i + 1;
                },
            }
        }
        if wt.is_some() || bt.is_some() {
            GoOptions::TimeLimit {
                white_time: wt.unwrap_or(0),
                black_time: bt.unwrap_or(0),
                white_inc: wi.unwrap_or(0),
                black_inc: bi.unwrap_or(0),
            }
        } else {
            GoOptions::Infinite
        }
    }

    /// Tokenizes the text after `go` and decides what it asks for,
    /// exactly by the lexer and the option grammar.
    pub fn build(options: &str) -> (r: GoOptions)
        ensures
            r == spec_build_go(spec_go_tokens(options@), 0, None, None, None, None),
    {
        let tokens = tokenize_go(options);
        GoOptions::build_from_tokens(&tokens)
    }
}

/// The position just past the `k`-th word at or after `pos`.
pub open spec fn spec_after_words(s: Seq<char>, pos: int, k: nat) -> int
    decreases k,
{
    if k == 0 {
        pos
    } else {
        spec_after_words(
            s,
            spec_word_end(s, spec_skip_spaces(s, pos)),
            (k - 1) as nat,
        )
    }
}

/// Whether at least `k` words stand at or after `pos`.
pub open spec fn spec_has_words(s: Seq<char>, pos: int, k: nat) -> bool
    decreases k,
{
    if k == 0 {
        true
    } else {
        spec_skip_spaces(s, pos) < s.len() && spec_has_words(
            s,
            spec_word_end(s, spec_skip_spaces(s, pos)),
            (k - 1) as nat,
        )
    }
}

/// Having many words means having fewer.
proof fn lemma_has_words_mono(s: Seq<char>, pos: int, a: nat, b: nat)
    requires
        b <= a,
        spec_has_words(s, pos, a),
    ensures
        spec_has_words(s, pos, b),
    decreases a,
{
    if b > 0 {
        lemma_has_words_mono(
            s,
            spec_word_end(s, spec_skip_spaces(s, pos)),
            (a - 1) as nat,
            (b - 1) as nat,
        );
    }
}

/// One more word stands exactly when a word starts after the last one,
/// and reading it lands just past it.
proof fn lemma_words_extend(s: Seq<char>, pos: int, k: nat)
    requires
        spec_has_words(s, pos, k),
    ensures
        spec_has_words(s, pos, (k + 1) as nat) <==> spec_skip_spaces(
            s,
            spec_after_words(s, pos, k),
        ) < s.len(),
        spec_after_words(s, pos, (k + 1) as nat) == spec_word_end(
            s,
            spec_skip_spaces(s, spec_after_words(s, pos, k)),
        ),
    decreases k,
{
    if k == 0 {
        assert(spec_after_words(s, pos, 1nat) == spec_after_words(
            s,
            spec_word_end(s, spec_skip_spaces(s, pos)),
            0nat,
        ));
        assert(spec_has_words(s, spec_word_end(s, spec_skip_spaces(s, pos)), 0nat));
    } else {
        lemma_words_extend(s, spec_word_end(s, spec_skip_spaces(s, pos)), (k - 1) as nat);
    }
}

/// Where a `position` command starts from: the initial position or a
/// position given in Forsyth-Edwards notation.
#[derive(Clone, PartialEq, Eq, Debug)]
pub enum PositionBase {
    StartPos,
    Fen(String),
}

/// Parses the text after `position`: the base position, then an
/// optional `moves` word followed by moves in long-algebraic form.
/// Reading stops at the first token that is not a move; what was read
/// before it stands.  A FEN base is the next six whitespace-separated
/// fields, rejoined with single spaces.
pub fn parse_position(rest: &str) -> (r: Option<(PositionBase, Vec<Move>)>)
    ensures
        r matches Some(p) ==> forall|i: int| 0 <= i < p.1@.len() ==> (#[trigger] p.1@[i]).wf(),
        r is Some <==> (spec_word_at(rest@, 0) == "startpos"@ || (spec_word_at(rest@, 0)
            == "fen"@ && spec_has_words(rest@, 0, 7))),
        r matches Some(p) ==> (p.0 is StartPos <==> spec_word_at(rest@, 0) == "startpos"@),
{
    proof {
        reveal_strlit(" ");
        reveal_strlit("startpos");
        reveal_strlit("fen");
    }
    let len = rest.unicode_len();
    let (s0, e0) = next_word(rest, 0);
    if s0 == e0 {
        proof {
            assert(spec_word_at(rest@, 0).len() == 0);
        }
        return None;
    }
    let w0 = rest.substring_char(s0, e0);
    let mut pos: usize = e0;
    let base: PositionBase;
    if str_eq(w0, "startpos") {
        base = PositionBase::StartPos;
    } else if str_eq(w0, "fen") {
        proof {
            assert(spec_after_words(rest@, 0, 1nat) == spec_after_words(
                rest@,
                spec_word_end(rest@, spec_skip_spaces(rest@, 0)),
                0nat,
            ));
            assert(spec_has_words(rest@, spec_word_end(rest@, spec_skip_spaces(rest@, 0)), 0nat));
        }
        let mut fen = String::new();
        let mut k: usize = 0;
        while k < 6
            invariant
                pos <= len,
                len == rest@.len(),
                k <= 6,
                spec_word_at(rest@, 0) == "fen"@,
                spec_has_words(rest@, 0, (k + 1) as nat),
                pos as int == spec_after_words(rest@, 0, (k + 1) as nat),
            decreases 6 - k,
        {
            let (s, e) = next_word(rest, pos);
            proof {
                lemma_words_extend(rest@, 0, (k + 1) as nat);
            }
            if s == e {
                proof {
                    if spec_has_words(rest@, 0, 7nat) {
                        lemma_has_words_mono(rest@, 0, 7nat, (k + 2) as nat);
                    }
                    reveal_strlit("startpos");
                    reveal_strlit("fen");
                    assert("startpos"@.len() == 8);
                    assert("fen"@.len() == 3);
                }
                return None;
            }
            let field = rest.substring_char(s, e);
            if k > 0 {
                fen.append(" ");
            }
            fen.append(field);
            pos = e;
            k = k + 1;
        }
        base = PositionBase::Fen(fen);
    } else {
        return None;
    }
    let mut moves: Vec<Move> = Vec::new();
    let (sm, em) = next_word(rest, pos);
    if sm == em {
        return Some((base, moves));
    }
    let wm = rest.substring_char(sm, em);
    if !str_eq(wm, "moves") {
        return Some((base, moves));
    }
    pos = em;
    loop
        invariant
            pos <= len,
            len == rest@.len(),
            forall|i: int| 0 <= i < moves@.len() ==> (#[trigger] moves@[i]).wf(),
        decreases len - pos,
    {
        let (s, e) = next_word(rest, pos);
        if s == e {
            break ;
        }
        let word = rest.substring_char(s, e);
        match Move::from_uci(word) {
            Some(m) => moves.push(m),
            None => {
                break ;
            },
        }
        pos = e;
    }
    Some((base, moves))
}

/// The safety margin held back from the clock, in milliseconds.
pub const BUFFER_MS: u64 = 250;

/// The milliseconds to spend on this move: a quarter of the increment,
/// plus the clock divided by an estimate of the moves left, less the
/// safety margin.  The estimate grows with remaining material and never
/// falls below twelve.
pub fn allocate_time(
    time: u64,
    inc: u64,
    pawns: u32,
    knights: u32,
    bishops: u32,
    rooks: u32,
    queens: u32,
) -> (r: u64)
    requires
        pawns <= 64,
        knights <= 64,
        bishops <= 64,
        rooks <= 64,
        queens <= 64,
    ensures
        ({
            let moves_left = (48 + pawns + 4 * knights + 4 * bishops + 8 * rooks + 16 * queens)
                / 4;
            let share = time as int / moves_left;
            let held = if share >= BUFFER_MS {
                share - BUFFER_MS
            } else {
                0
            };
            r == inc / 4 + held
        }),
{
    let moves_left: u64 = ((48 + pawns + 4 * knights + 4 * bishops + 8 * rooks + 16 * queens)
        / 4) as u64;
    let share = time / moves_left;
    let held = if share >= BUFFER_MS {
        share - BUFFER_MS
    } else {
        0
    };
    proof {
        vstd::arithmetic::div_mod::lemma_div_is_ordered_by_denominator(
            time as int,
            12,
            moves_left as int,
        );
        vstd::arithmetic::div_mod::lemma_div_is_ordered(time as int, u64::MAX as int, 12);
    }
    inc / 4 + held
}

impl GoOptions {
    /// The deadline a `go` command imposes: none for endless analysis,
    /// a depth cap, the stated move time, or a budget computed from the
    /// side to move's clock and the material still on the board.
    pub fn to_deadline(self, board: &chess::Board) -> (r: Deadline)
        ensures
            self matches GoOptions::ToDepth(d) ==> r.spec_max_depth() == Some(d),
            !(self is ToDepth) ==> r.spec_max_depth() is None,
    {
        match self {
            GoOptions::Infinite => Deadline::none(),
            GoOptions::ToDepth(depth) => Deadline::depth(depth),
            GoOptions::MoveTime(ms) => Deadline::timeout(ms),
            GoOptions::TimeLimit { white_time, black_time, white_inc, black_inc } => {
                let white = board_side_white(board);
                let time = if white {
                    white_time
                } else {
                    black_time
                };
                let inc = if white {
                    white_inc
                } else {
                    black_inc
                };
                let pawns = popcnt64(board_piece_mask(board, PieceKind::Pawn));
                let knights = popcnt64(board_piece_mask(board, PieceKind::Knight));
                let bishops = popcnt64(board_piece_mask(board, PieceKind::Bishop));
                let rooks = popcnt64(board_piece_mask(board, PieceKind::Rook));
                let queens = popcnt64(board_piece_mask(board, PieceKind::Queen));
                Deadline::timeout(allocate_time(time, inc, pawns, knights, bishops, rooks, queens))
            },
        }
    }
}

} // verus!
