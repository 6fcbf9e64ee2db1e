//! What the server knows of chess itself: how squares, pieces and move flags
//! are written, and how a move that a client asks for becomes a move of the
//! chess engine.  Legality and the effect of a move on a position are
//! decided by the `pleco` engine.

use crate::model::{ErrorKind, Move, MoveView};
use crate::position::{has_fen_shape, king_on, piece_at};
use crate::rules::{legal_codes, legal_moves_in, make_code, move_code, target_of,
    usable_position};
use crate::text::{decimal_digits, digit_char, format_u64, same_text};
use vstd::prelude::*;
use vstd::string::*;

verus! {

/// The index of the square that `s` names: file `a` to `h`, then rank `1` to
/// `8`; `a1` is 0, `b1` is 1, `a2` is 8 and `h8` is 63.
pub open spec fn square_index(s: Seq<char>) -> Option<u8> {
    if s.len() == 2 && 'a' <= s[0] && s[0] <= 'h' && '1' <= s[1] && s[1] <= '8' {
        Some((((s[1] as u32) - 49) * 8 + ((s[0] as u32) - 97)) as u8)
    } else {
        None
    }
}

/// The name of the square with index `idx`, for `idx` below 64.
pub open spec fn square_text(idx: u8) -> Seq<char> {
    seq![((idx % 8 + 97) as u8) as char, ((idx / 8 + 49) as u8) as char]
}

/// Reads the name of a square.
pub fn square_to_index(square: &str) -> (r: Option<u8>)
    ensures
        r == square_index(square@),
        r matches Some(idx) ==> idx < 64,
{
    if square.unicode_len() != 2 {
        return None;
    }
    let file = square.get_char(0);
    let rank = square.get_char(1);
    if file >= 'a' && file <= 'h' && rank >= '1' && rank <= '8' {
        let file_index: u8 = ((file as u32) - 97) as u8;
        let rank_index: u8 = ((rank as u32) - 49) as u8;
        Some(rank_index * 8 + file_index)
    } else {
        None
    }
}

/// The one-character text of a file, `a` for 0 up to `h` for 7.
fn file_text(file: u8) -> (r: &'static str)
    requires
        file < 8,
    ensures
        r@ == seq![((file + 97) as u8) as char],
{
    proof {
        reveal_strlit("a");
        reveal_strlit("b");
        reveal_strlit("c");
        reveal_strlit("d");
        reveal_strlit("e");
        reveal_strlit("f");
        reveal_strlit("g");
        reveal_strlit("h");
    }
    let r = if file == 0 {
        "a"
    } else if file == 1 {
        "b"
    } else if file == 2 {
        "c"
    } else if file == 3 {
        "d"
    } else if file == 4 {
        "e"
    } else if file == 5 {
        "f"
    } else if file == 6 {
        "g"
    } else {
        "h"
    };
    assert(r@ =~= seq![((file + 97) as u8) as char]);
    r
}

/// Writes the name of the square with index `idx`, if `idx` is the index of
/// a square.
pub fn square_name(idx: u8) -> (r: Option<String>)
    ensures
        match r {
            Some(name) => idx < 64 && name@ == square_text(idx) && square_index(name@) == Some(
                idx,
            ),
            None => idx >= 64,
        },
{
    if idx >= 64 {
        return None;
    }
    let rank = format_u64((idx / 8 + 1) as u64);
    let r = String::from_str(file_text(idx % 8)).concat(rank.as_str());
    proof {
        let d = (idx / 8 + 1) as nat;
        assert(decimal_digits(d) =~= seq![digit_char(d)]);
        assert(r@ =~= square_text(idx));
    }
    Some(r)
}

/// Naming a square and reading the name gives the square back; reading a
/// name and naming the square read gives the name back.
pub proof fn lemma_square_round_trip(idx: u8, name: Seq<char>)
    ensures
        idx < 64 ==> square_index(square_text(idx)) == Some(idx),
        square_index(name) matches Some(i) ==> i < 64 && square_text(i) == name,
{
    if let Some(i) = square_index(name) {
        assert(square_text(i) =~= name);
    }
}

/// The kinds of chess piece, and `NoPiece` for a word that names no piece.
#[derive(Clone, Copy, Debug, PartialEq, Eq, Structural)]
pub enum PieceType {
    P,
    N,
    B,
    R,
    Q,
    K,
    NoPiece,
}

/// The piece that a word names.
pub open spec fn piece_of(s: Seq<char>) -> PieceType {
    if s == "p"@ {
        PieceType::P
    } else if s == "n"@ {
        PieceType::N
    } else if s == "b"@ {
        PieceType::B
    } else if s == "r"@ {
        PieceType::R
    } else if s == "q"@ {
        PieceType::Q
    } else if s == "k"@ {
        PieceType::K
    } else {
        PieceType::NoPiece
    }
}

/// Reads the kind of a piece from its one-letter name.
pub fn piece_type_from_str(piece_str: &str) -> (r: PieceType)
    ensures
        r == piece_of(piece_str@),
{
    if same_text(piece_str, "p") {
        PieceType::P
    } else if same_text(piece_str, "n") {
        PieceType::N
    } else if same_text(piece_str, "b") {
        PieceType::B
    } else if same_text(piece_str, "r") {
        PieceType::R
    } else if same_text(piece_str, "q") {
        PieceType::Q
    } else if same_text(piece_str, "k") {
        PieceType::K
    } else {
        PieceType::NoPiece
    }
}

/// What kind of move a move is, beyond its two squares.
#[derive(Clone, Copy, Debug, PartialEq, Eq, Structural)]
pub enum MoveFlag {
    /// A pawn reaches the last rank and becomes `prom`.
    Promotion { capture: bool, prom: PieceType },
    /// The king castles; the move names the king's square and the rook's.
    Castle { king_side: bool },
    /// A pawn advances two squares from its home rank.
    DoublePawnPush,
    /// A piece is captured, in passing if `ep_capture`.
    Capture { ep_capture: bool },
    /// None of the above.
    QuietMove,
}

/// The flag that a move's flag word stands for.  `np` is a promotion, which
/// captures if the move names a captured piece and needs the move to name
/// the piece promoted to; a word that is none of `n`, `c`, `b`, `np`, `k`,
/// `q`, `e` stands for a quiet move.
pub open spec fn flag_of(m: MoveView) -> Option<MoveFlag> {
    if m.flags == "n"@ {
        Some(MoveFlag::QuietMove)
    } else if m.flags == "c"@ {
        Some(MoveFlag::Capture { ep_capture: false })
    } else if m.flags == "b"@ {
        Some(MoveFlag::DoublePawnPush)
    } else if m.flags == "np"@ {
        match m.promotion {
            Some(p) => Some(MoveFlag::Promotion { capture: m.captured is Some, prom: piece_of(p) }),
            None => None,
        }
    } else if m.flags == "k"@ {
        Some(MoveFlag::Castle { king_side: true })
    } else if m.flags == "q"@ {
        Some(MoveFlag::Castle { king_side: false })
    } else if m.flags == "e"@ {
        Some(MoveFlag::Capture { ep_capture: true })
    } else {
        Some(MoveFlag::QuietMove)
    }
}

/// Reads the flag of a move from its flag word.
pub fn flag_from_str(m: &Move) -> (r: Option<MoveFlag>)
    ensures
        r == flag_of(m@),
{
    let word = m.flags.as_str();
    if same_text(word, "n") {
        Some(MoveFlag::QuietMove)
    } else if same_text(word, "c") {
        Some(MoveFlag::Capture { ep_capture: false })
    } else if same_text(word, "b") {
        Some(MoveFlag::DoublePawnPush)
    } else if same_text(word, "np") {
        match &m.promotion {
            Some(p) => Some(
                MoveFlag::Promotion {
                    capture: m.captured.is_some(),
                    prom: piece_type_from_str(p.as_str()),
                },
            ),
            None => None,
        }
    } else if same_text(word, "k") {
        Some(MoveFlag::Castle { king_side: true })
    } else if same_text(word, "q") {
        Some(MoveFlag::Castle { king_side: false })
    } else if same_text(word, "e") {
        Some(MoveFlag::Capture { ep_capture: true })
    } else {
        Some(MoveFlag::QuietMove)
    }
}

/// The four flag bits of a move: 0 quiet, 1 double pawn push, 2 and 3 castle
/// on the king's and the queen's side, 4 capture, 5 capture in passing, 8 to
/// 11 promotion to knight, bishop, rook, queen, and 12 to 15 the same with a
/// capture.  A promotion to anything but knight, bishop or rook counts as a
/// promotion to queen.
pub open spec fn flag_bits(flag: MoveFlag) -> nat {
    match flag {
        MoveFlag::Promotion { capture, prom } => {
            let piece: nat = match prom {
                PieceType::R => 2,
                PieceType::B => 1,
                PieceType::N => 0,
                _ => 3,
            };
            let cap: nat = if capture {
                4
            } else {
                0
            };
            piece + cap + 8
        },
        MoveFlag::Capture { ep_capture } => if ep_capture {
            5
        } else {
            4
        },
        MoveFlag::Castle { king_side } => if king_side {
            2
        } else {
            3
        },
        MoveFlag::DoublePawnPush => 1,
        MoveFlag::QuietMove => 0,
    }
}

/// Computes the flag bits of a move.
pub fn flag_to_bits(flag: MoveFlag) -> (r: u16)
    ensures
        r == flag_bits(flag),
        r < 16,
{
    match flag {
        MoveFlag::Promotion { capture, prom } => {
            let piece: u16 = match prom {
                PieceType::R => 2,
                PieceType::B => 1,
                PieceType::N => 0,
                _ => 3,
            };
            let cap: u16 = if capture {
                4
            } else {
                0
            };
            piece + cap + 8
        },
        MoveFlag::Capture { ep_capture } => if ep_capture {
            5
        } else {
            4
        },
        MoveFlag::Castle { king_side } => if king_side {
            2
        } else {
            3
        },
        MoveFlag::DoublePawnPush => 1,
        MoveFlag::QuietMove => 0,
    }
}

/// The engine's code of the move that `m` asks for, if `m` names two squares
/// and its flag word can be read.
pub open spec fn requested_code(m: MoveView) -> Option<u16> {
    match (square_index(m.from), square_index(m.to), flag_of(m)) {
        (Some(src), Some(dst), Some(flag)) => Some(
            move_code(src, dst, flag_bits(flag) as u16) as u16,
        ),
        _ => None,
    }
}

/// What becomes of a requested move when `legal` are the legal moves: a
/// request that cannot be read is a protocol error, one that is not among
/// the legal moves is illegal, any other is accepted with its code.
pub open spec fn chosen_move(m: MoveView, legal: Seq<u16>) -> Result<u16, ErrorKind> {
    match requested_code(m) {
        None => Err(ErrorKind::ProtocolError),
        Some(code) => if legal.contains(code) {
            Ok(code)
        } else {
            Err(ErrorKind::IllegalMoveError)
        },
    }
}

/// What becomes of a requested move in the position `fen`: a text that is no
/// usable position is a store error; otherwise the move is chosen among the
/// legal moves of the position.  A move onto the square of a king is never
/// accepted: no position of a game allows one.
pub open spec fn constructed_move(m: MoveView, fen: Seq<char>) -> Result<u16, ErrorKind> {
    if !usable_position(fen) {
        Err(ErrorKind::StoreError)
    } else {
        match chosen_move(m, legal_moves_in(fen)) {
            Err(e) => Err(e),
            Ok(code) => if king_on(fen, target_of(code)) {
                Err(ErrorKind::IllegalMoveError)
            } else {
                Ok(code)
            },
        }
    }
}

/// Computes the engine's code of the move that `m` asks for.
pub fn encode_move(m: &Move) -> (r: Option<u16>)
    ensures
        r == requested_code(m@),
{
    let src = match square_to_index(m.from.as_str()) {
        Some(i) => i,
        None => {
            return None;
        },
    };
    let dst = match square_to_index(m.to.as_str()) {
        Some(i) => i,
        None => {
            return None;
        },
    };
    match flag_from_str(m) {
        Some(flag) => Some(make_code(flag_to_bits(flag), src, dst)),
        None => None,
    }
}

/// Tells whether `code` is among `codes`.
pub fn contains_code(codes: &Vec<u16>, code: u16) -> (r: bool)
    ensures
        r == codes@.contains(code),
{
    let mut i: usize = 0;
    while i < codes.len()
        invariant
            i <= codes@.len(),
            forall|j: int| 0 <= j < i ==> codes@[j] != code,
        decreases codes@.len() - i,
    {
        if codes[i] == code {
            return true;
        }
        i = i + 1;
    }
    false
}

/// Chooses the requested move among the legal moves `legal`.
pub fn choose_move(m: &Move, legal: &Vec<u16>) -> (r: Result<u16, ErrorKind>)
    ensures
        r == chosen_move(m@, legal@),
{
    match encode_move(m) {
        None => Err(ErrorKind::ProtocolError),
        Some(code) => if contains_code(legal, code) {
            Ok(code)
        } else {
            Err(ErrorKind::IllegalMoveError)
        },
    }
}

/// Builds the engine's code of the move that `parsed_move` asks for in the
/// position `board_fen`, and confirms that the move is legal there.
pub fn construct_bit_move(parsed_move: &Move, board_fen: &str) -> (r: Result<u16, ErrorKind>)
    ensures
        r == constructed_move(parsed_move@, board_fen@),
{
    if !has_fen_shape(board_fen) {
        return Err(ErrorKind::StoreError);
    }
    match legal_codes(board_fen) {
        None => Err(ErrorKind::StoreError),
        Some(legal) => match choose_move(parsed_move, &legal) {
            Err(e) => Err(e),
            Ok(code) => {
                let target = ((code / 64) % 64) as u8;
                match piece_at(board_fen, target) {
                    Some(piece) => if piece == 'K' || piece == 'k' {
                        Err(ErrorKind::IllegalMoveError)
                    } else {
                        Ok(code)
                    },
                    None => Err(ErrorKind::StoreError),
                }
            },
        },
    }
}

} // verus!
