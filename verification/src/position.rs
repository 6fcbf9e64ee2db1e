//! Which texts the server accepts as a position.
//!
//! A position is kept as text in Forsyth-Edwards notation.  Before such a
//! text is handed to the chess engine it must have the shape described here:
//! six fields, a full board with one king a side, castling rights only where
//! king and rook still stand on their squares, and move counters with room
//! to grow.

use crate::text::{digit_value, is_digit, parse_u64, parsed_u64, same_text, split, split_text,
    texts};
use vstd::prelude::*;
use vstd::string::*;

verus! {

/// Whether `c` is the letter of a piece, upper case for white and lower case
/// for black.
pub open spec fn is_piece_letter(c: char) -> bool {
    ||| c == 'p'
    ||| c == 'n'
    ||| c == 'b'
    ||| c == 'r'
    ||| c == 'q'
    ||| c == 'k'
    ||| c == 'P'
    ||| c == 'N'
    ||| c == 'B'
    ||| c == 'R'
    ||| c == 'Q'
    ||| c == 'K'
}

/// Whether `c` may stand in the text of a rank: a piece letter, or a count
/// of empty squares from 1 to 8.
pub open spec fn is_rank_symbol(c: char) -> bool {
    is_piece_letter(c) || ('1' <= c && c <= '8')
}

/// The squares that one symbol of a rank covers: a piece letter covers one
/// square and holds that piece; a digit covers as many empty squares, each
/// written `.`.
pub open spec fn symbol_cells(c: char) -> Seq<char> {
    if is_digit(c) {
        Seq::new(digit_value(c), |i: int| '.')
    } else {
        seq![c]
    }
}

/// The squares of a rank from file `a` on, as its text describes them.
pub open spec fn rank_cells(r: Seq<char>) -> Seq<char>
    decreases r.len(),
{
    if r.len() == 0 {
        Seq::<char>::empty()
    } else {
        rank_cells(r.drop_last()) + symbol_cells(r.last())
    }
}

/// Whether `r` describes a rank: rank symbols only, covering eight squares.
pub open spec fn rank_shape(r: Seq<char>) -> bool {
    &&& forall|i: int| 0 <= i < r.len() ==> is_rank_symbol(#[trigger] r[i])
    &&& rank_cells(r).len() == 8
}

/// How often `c` occurs in `s`.
pub open spec fn occurrences(s: Seq<char>, c: char) -> nat
    decreases s.len(),
{
    if s.len() == 0 {
        0
    } else {
        occurrences(s.drop_last(), c) + if s.last() == c {
            1nat
        } else {
            0nat
        }
    }
}

/// Whether `p` describes a board: eight ranks between slashes, from the
/// eighth down to the first, with one king of each colour.
pub open spec fn placement_shape(p: Seq<char>) -> bool {
    let ranks = split(p, '/');
    &&& ranks.len() == 8
    &&& forall|i: int| 0 <= i < 8 ==> rank_shape(#[trigger] ranks[i])
    &&& occurrences(p, 'K') == 1
    &&& occurrences(p, 'k') == 1
}

/// Whether the board `p` still allows the castling right `right`: the king
/// of that colour stands on file `e` of its home rank, and a rook of that
/// colour in the corner on the side in question.
pub open spec fn castling_backed(p: Seq<char>, right: char) -> bool {
    let ranks = split(p, '/');
    let first = rank_cells(ranks[7]);
    let eighth = rank_cells(ranks[0]);
    if right == 'K' {
        first[4] == 'K' && first[7] == 'R'
    } else if right == 'Q' {
        first[4] == 'K' && first[0] == 'R'
    } else if right == 'k' {
        eighth[4] == 'k' && eighth[7] == 'r'
    } else if right == 'q' {
        eighth[4] == 'k' && eighth[0] == 'r'
    } else {
        false
    }
}

/// Whether `c` is a castling field that the board `p` backs: a dash, or up
/// to four of the letters `K`, `Q`, `k`, `q`.
pub open spec fn castling_shape(c: Seq<char>, p: Seq<char>) -> bool {
    c == "-"@ || (1 <= c.len() <= 4 && forall|i: int|
        0 <= i < c.len() ==> castling_backed(p, #[trigger] c[i]))
}

/// Whether `e` is an en-passant field: a dash, or a square on the third or
/// the sixth rank.
pub open spec fn en_passant_shape(e: Seq<char>) -> bool {
    e == "-"@ || (e.len() == 2 && 'a' <= e[0] && e[0] <= 'h' && (e[1] == '3' || e[1] == '6'))
}

/// What stands on the square `sq` of the board `p`: the letter of a piece,
/// or `.` on an empty square.  Square 0 is `a1`, square 63 is `h8`.
pub open spec fn board_cell(p: Seq<char>, sq: int) -> char {
    rank_cells(split(p, '/')[7 - sq / 8])[sq % 8]
}

/// The square that an en-passant field other than the dash names.
pub open spec fn passing_square(e: Seq<char>) -> int {
    ((e[1] as u32) - 49) * 8 + ((e[0] as u32) - 97)
}

/// Whether the board `p` backs the en-passant field `e`: the square that a
/// capture in passing would reach is empty.
pub open spec fn en_passant_backed(e: Seq<char>, p: Seq<char>) -> bool {
    e == "-"@ || board_cell(p, passing_square(e)) == '.'
}

/// The most moves that generating the moves of a position may yield.
pub open spec fn move_limit() -> nat {
    248
}

/// A bound on the number of moves that the side to move has on the board
/// `p`: no queen has more than 27 moves, no rook more than 14, no bishop
/// more than 13, no knight more than 8, no pawn more than 12, counting each
/// promotion, and the king no more than 10, counting castling.
pub open spec fn move_budget(p: Seq<char>, white_to_move: bool) -> nat {
    if white_to_move {
        27 * occurrences(p, 'Q') + 14 * occurrences(p, 'R') + 13 * occurrences(p, 'B') + 8
            * occurrences(p, 'N') + 12 * occurrences(p, 'P') + 10
    } else {
        27 * occurrences(p, 'q') + 14 * occurrences(p, 'r') + 13 * occurrences(p, 'b') + 8
            * occurrences(p, 'n') + 12 * occurrences(p, 'p') + 10
    }
}

/// Whether `t` is a move counter: one to four digits that denote at least
/// `least`.
pub open spec fn counter_shape(t: Seq<char>, least: nat) -> bool {
    &&& 1 <= t.len() <= 4
    &&& parsed_u64(t) matches Some(v) && v >= least
}

/// Whether `s` has the shape of a position in Forsyth-Edwards notation: six
/// fields between single spaces, which are the board, the side to move, the
/// castling rights, the en-passant square, the half-move clock and the
/// number of the move.  The side to move has no more pieces than the move
/// limit allows for, and the en-passant square, if one is named, is empty.
#[verifier::opaque]
pub open spec fn fen_shape(s: Seq<char>) -> bool {
    let f = split(s, ' ');
    &&& f.len() == 6
    &&& placement_shape(f[0])
    &&& (f[1] == "w"@ || f[1] == "b"@)
    &&& move_budget(f[0], f[1] == "w"@) <= move_limit()
    &&& castling_shape(f[2], f[0])
    &&& en_passant_shape(f[3])
    &&& en_passant_backed(f[3], f[0])
    &&& counter_shape(f[4], 0)
    &&& counter_shape(f[5], 1)
}

/// Counts how often `c` occurs in `s`.
pub fn count_char(s: &str, c: char) -> (r: usize)
    ensures
        r == occurrences(s@, c),
{
    let n = s.unicode_len();
    let mut k: usize = 0;
    let mut i: usize = 0;
    proof {
        assert(s@.subrange(0, 0) =~= Seq::<char>::empty());
    }
    while i < n
        invariant
            i <= n,
            n == s@.len(),
            k <= i,
            k == occurrences(s@.subrange(0, i as int), c),
        decreases n - i,
    {
        let x = s.get_char(i);
        proof {
            let next = s@.subrange(0, i + 1);
            assert(next.drop_last() =~= s@.subrange(0, i as int));
            assert(next.last() == x);
        }
        if x == c {
            k = k + 1;
        }
        i = i + 1;
    }
    proof {
        assert(s@.subrange(0, n as int) =~= s@);
    }
    k
}

/// Tells whether a character is the letter of a piece.
fn piece_letter(c: char) -> (r: bool)
    ensures
        r == is_piece_letter(c),
{
    c == 'p' || c == 'n' || c == 'b' || c == 'r' || c == 'q' || c == 'k' || c == 'P' || c == 'N'
        || c == 'B' || c == 'R' || c == 'Q' || c == 'K'
}

/// Lays out the squares of a rank, if `r` describes one.
pub fn rank_squares(r: &str) -> (cells: Option<Vec<char>>)
    ensures
        cells is Some <==> rank_shape(r@),
        cells matches Some(v) ==> v@ == rank_cells(r@),
{
    let n = r.unicode_len();
    let mut cells: Vec<char> = Vec::new();
    let mut i: usize = 0;
    proof {
        assert(r@.subrange(0, 0) =~= Seq::<char>::empty());
    }
    while i < n
        invariant
            i <= n,
            n == r@.len(),
            cells@ == rank_cells(r@.subrange(0, i as int)),
            forall|j: int| 0 <= j < i ==> is_rank_symbol(#[trigger] r@[j]),
        decreases n - i,
    {
        let c = r.get_char(i);
        let ghost before = cells@;
        proof {
            let next = r@.subrange(0, i + 1);
            assert(next.drop_last() =~= r@.subrange(0, i as int));
            assert(next.last() == c);
        }
        if piece_letter(c) {
            cells.push(c);
            proof {
                assert(cells@ =~= before + symbol_cells(c));
            }
        } else if c >= '1' && c <= '8' {
            let d: u32 = (c as u32) - 48;
            let mut k: u32 = 0;
            while k < d
                invariant
                    k <= d,
                    cells@ == before + Seq::new(k as nat, |i: int| '.'),
                decreases d - k,
            {
                cells.push('.');
                k = k + 1;
                proof {
                    assert(cells@ =~= before + Seq::new(k as nat, |i: int| '.'));
                }
            }
        } else {
            assert(!is_rank_symbol(r@[i as int]));
            return None;
        }
        i = i + 1;
    }
    proof {
        assert(r@.subrange(0, n as int) =~= r@);
    }
    if cells.len() == 8 {
        Some(cells)
    } else {
        None
    }
}

/// Tells whether the home ranks back a castling right.
fn right_backed(first: &Vec<char>, eighth: &Vec<char>, right: char) -> (r: bool)
    requires
        first@.len() == 8,
        eighth@.len() == 8,
    ensures
        r == if right == 'K' {
            first@[4] == 'K' && first@[7] == 'R'
        } else if right == 'Q' {
            first@[4] == 'K' && first@[0] == 'R'
        } else if right == 'k' {
            eighth@[4] == 'k' && eighth@[7] == 'r'
        } else if right == 'q' {
            eighth@[4] == 'k' && eighth@[0] == 'r'
        } else {
            false
        },
{
    if right == 'K' {
        first[4] == 'K' && first[7] == 'R'
    } else if right == 'Q' {
        first[4] == 'K' && first[0] == 'R'
    } else if right == 'k' {
        eighth[4] == 'k' && eighth[7] == 'r'
    } else if right == 'q' {
        eighth[4] == 'k' && eighth[0] == 'r'
    } else {
        false
    }
}

/// Tells whether `c` is a castling field that the board `p` backs.
fn has_castling_shape(c: &str, p: &str) -> (r: bool)
    requires
        placement_shape(p@),
    ensures
        r == castling_shape(c@, p@),
{
    if same_text(c, "-") {
        return true;
    }
    let n = c.unicode_len();
    if n < 1 || n > 4 {
        return false;
    }
    let ranks = split_text(p, '/');
    assert(texts(ranks@)[7] == ranks@[7]@);
    assert(texts(ranks@)[0] == ranks@[0]@);
    let first = match rank_squares(ranks[7].as_str()) {
        Some(v) => v,
        None => {
            return false;
        },
    };
    let eighth = match rank_squares(ranks[0].as_str()) {
        Some(v) => v,
        None => {
            return false;
        },
    };
    let mut i: usize = 0;
    while i < n
        invariant
            i <= n,
            n == c@.len(),
            1 <= n <= 4,
            c@ != "-"@,
            placement_shape(p@),
            first@ == rank_cells(split(p@, '/')[7]),
            eighth@ == rank_cells(split(p@, '/')[0]),
            first@.len() == 8,
            eighth@.len() == 8,
            forall|j: int| 0 <= j < i ==> castling_backed(p@, #[trigger] c@[j]),
        decreases n - i,
    {
        if !right_backed(&first, &eighth, c.get_char(i)) {
            assert(!castling_backed(p@, c@[i as int]));
            return false;
        }
        i = i + 1;
    }
    true
}

/// Tells whether `p` describes a board.
fn has_placement_shape(p: &str) -> (r: bool)
    ensures
        r == placement_shape(p@),
{
    let ranks = split_text(p, '/');
    if ranks.len() != 8 {
        return false;
    }
    let mut i: usize = 0;
    while i < 8
        invariant
            i <= 8,
            ranks@.len() == 8,
            texts(ranks@) == split(p@, '/'),
            forall|j: int| 0 <= j < i ==> rank_shape(#[trigger] split(p@, '/')[j]),
        decreases 8 - i,
    {
        assert(texts(ranks@)[i as int] == ranks@[i as int]@);
        if rank_squares(ranks[i].as_str()).is_none() {
            return false;
        }
        i = i + 1;
    }
    count_char(p, 'K') == 1 && count_char(p, 'k') == 1
}

/// Tells whether `e` is an en-passant field.
fn has_en_passant_shape(e: &str) -> (r: bool)
    ensures
        r == en_passant_shape(e@),
{
    if same_text(e, "-") {
        return true;
    }
    proof {
        reveal_strlit("-");
    }
    if e.unicode_len() != 2 {
        return false;
    }
    let file = e.get_char(0);
    let rank = e.get_char(1);
    file >= 'a' && file <= 'h' && (rank == '3' || rank == '6')
}

/// Tells whether `t` is a move counter of at least `least`.
fn has_counter_shape(t: &str, least: u64) -> (r: bool)
    ensures
        r == counter_shape(t@, least as nat),
{
    let n = t.unicode_len();
    if n < 1 || n > 4 {
        return false;
    }
    match parse_u64(t) {
        Some(v) => v >= least,
        None => false,
    }
}

/// Tells what stands on a square of a board.
fn cell_at(p: &str, sq: u8) -> (r: char)
    requires
        placement_shape(p@),
        sq < 64,
    ensures
        r == board_cell(p@, sq as int),
{
    let ranks = split_text(p, '/');
    let at: usize = 7 - (sq / 8) as usize;
    assert(texts(ranks@)[at as int] == ranks@[at as int]@);
    assert(rank_shape(split(p@, '/')[at as int]));
    match rank_squares(ranks[at].as_str()) {
        Some(cells) => cells[(sq % 8) as usize],
        None => '.',
    }
}

/// Tells whether the board `p` backs the en-passant field `e`.
fn has_en_passant_backed(e: &str, p: &str) -> (r: bool)
    requires
        placement_shape(p@),
        en_passant_shape(e@),
    ensures
        r == en_passant_backed(e@, p@),
{
    if same_text(e, "-") {
        return true;
    }
    let file = e.get_char(0);
    let rank = e.get_char(1);
    let sq: u8 = (((rank as u32) - 49) * 8 + ((file as u32) - 97)) as u8;
    cell_at(p, sq) == '.'
}

/// One term of the move budget: `weight` moves for each `letter` on the
/// board, or nothing if the term alone is above the limit.
fn budget_term(p: &str, letter: char, weight: u64) -> (r: Option<u64>)
    requires
        8 <= weight <= 27,
    ensures
        match r {
            Some(v) => v == weight * occurrences(p@, letter) && v <= 27 * 64,
            None => weight * occurrences(p@, letter) > move_limit(),
        },
{
    let n = count_char(p, letter);
    if n > 64 {
        assert(weight * occurrences(p@, letter) > move_limit()) by (nonlinear_arith)
            requires
                weight >= 8,
                occurrences(p@, letter) > 64,
        ;
        None
    } else {
        assert(weight * n <= 27 * 64) by (nonlinear_arith)
            requires
                weight <= 27,
                n <= 64,
        ;
        Some(weight * (n as u64))
    }
}

/// Tells whether the side to move has no more pieces on the board `p` than
/// the move limit allows for.
fn within_budget(p: &str, white_to_move: bool) -> (r: bool)
    ensures
        r == (move_budget(p@, white_to_move) <= move_limit()),
{
    let (queen, rook, bishop, knight, pawn) = if white_to_move {
        ('Q', 'R', 'B', 'N', 'P')
    } else {
        ('q', 'r', 'b', 'n', 'p')
    };
    let q = budget_term(p, queen, 27);
    let r = budget_term(p, rook, 14);
    let b = budget_term(p, bishop, 13);
    let n = budget_term(p, knight, 8);
    let w = budget_term(p, pawn, 12);
    match (q, r, b, n, w) {
        (Some(q), Some(r), Some(b), Some(n), Some(w)) => q + r + b + n + w + 10 <= 248,
        _ => false,
    }
}

/// Tells whether `s` has the shape of a position.
pub fn has_fen_shape(s: &str) -> (r: bool)
    ensures
        r == fen_shape(s@),
{
    proof {
        reveal(fen_shape);
    }
    let f = split_text(s, ' ');
    if f.len() != 6 {
        return false;
    }
    assert(texts(f@)[0] == f@[0]@);
    assert(texts(f@)[1] == f@[1]@);
    assert(texts(f@)[2] == f@[2]@);
    assert(texts(f@)[3] == f@[3]@);
    assert(texts(f@)[4] == f@[4]@);
    assert(texts(f@)[5] == f@[5]@);
    if !has_placement_shape(f[0].as_str()) {
        return false;
    }
    let white_to_move = same_text(f[1].as_str(), "w");
    if !(white_to_move || same_text(f[1].as_str(), "b")) {
        return false;
    }
    if !within_budget(f[0].as_str(), white_to_move) {
        return false;
    }
    if !has_castling_shape(f[2].as_str(), f[0].as_str()) {
        return false;
    }
    if !has_en_passant_shape(f[3].as_str()) {
        return false;
    }
    has_en_passant_backed(f[3].as_str(), f[0].as_str()) && has_counter_shape(f[4].as_str(), 0)
        && has_counter_shape(f[5].as_str(), 1)
}

/// What stands on the square `sq` of the board that the position `fen`
/// describes: the letter of a piece, or `.` on an empty square.
pub open spec fn piece_on(fen: Seq<char>, sq: int) -> char {
    board_cell(split(fen, ' ')[0], sq)
}

/// Whether a king stands on the square `sq` of the position `fen`.
pub open spec fn king_on(fen: Seq<char>, sq: int) -> bool {
    piece_on(fen, sq) == 'K' || piece_on(fen, sq) == 'k'
}

/// Tells what stands on a square of a position.
pub fn piece_at(fen: &str, sq: u8) -> (r: Option<char>)
    ensures
        r == if fen_shape(fen@) && sq < 64 {
            Some(piece_on(fen@, sq as int))
        } else {
            None
        },
{
    if sq >= 64 || !has_fen_shape(fen) {
        return None;
    }
    proof {
        reveal(fen_shape);
    }
    let f = split_text(fen, ' ');
    assert(texts(f@)[0] == f@[0]@);
    Some(cell_at(f[0].as_str(), sq))
}

} // verus!
