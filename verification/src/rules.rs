//! The rules of chess, as the `pleco` engine decides them.
//!
//! The server never inspects a position itself.  It asks the engine three
//! things: whether a text is a position, which moves are legal in it, and
//! which position a legal move leads to.  The answers are known here only by
//! name; everything the server concludes from them is proved.

use crate::position::{fen_shape, king_on};
use pleco::{BitMove, Board, SQ};
use vstd::prelude::*;

verus! {

/// Whether the engine accepts the text `fen` as a position.
pub uninterp spec fn position_loads(fen: Seq<char>) -> bool;

/// The legal moves in the position `fen`, each as the engine's 16-bit code.
pub uninterp spec fn legal_moves_in(fen: Seq<char>) -> Seq<u16>;

/// The position that the move `code` leads to from the position `fen`.
pub uninterp spec fn position_after(fen: Seq<char>, code: u16) -> Seq<char>;

/// The text that the engine writes for the position that it read from the
/// text `fen`.
pub uninterp spec fn position_rewritten(fen: Seq<char>) -> Seq<char>;

/// Whether the server works on the text `fen`: it has the shape of a
/// position and the engine accepts it.
pub open spec fn usable_position(fen: Seq<char>) -> bool {
    fen_shape(fen) && position_loads(fen)
}

/// Whether the text `fen` is a usable position that the engine, having read
/// it, writes back letter for letter.
pub open spec fn stable_position(fen: Seq<char>) -> bool {
    usable_position(fen) && position_rewritten(fen) == fen
}

/// The engine's code of a move: the square left in the low six bits, the
/// square reached in the next six, the flag bits on top.
pub open spec fn move_code(src: u8, dst: u8, bits: u16) -> int {
    bits * 4096 + dst * 64 + src
}

/// The square that the move `code` reaches.
pub open spec fn target_of(code: u16) -> int {
    ((code / 64) % 64) as int
}

/// The position in which every game starts.
pub open spec fn opening_fen() -> Seq<char> {
    "rnbqkbnr/pppppppp/8/8/8/8/PPPPPPPP/RNBQKBNR w KQkq - 0 1"@
}

/// Calls `pleco::BitMove::make` and reads the code back with `get_raw`.
/// The claim: for squares on the board and four flag bits, `make` shifts the
/// flag bits left by twelve and the square reached by six and joins them
/// with the square left, so the three never overlap.
#[verifier::external_body]
pub(crate) fn make_code(bits: u16, src: u8, dst: u8) -> (code: u16)
    requires
        bits < 16,
        src < 64,
        dst < 64,
    ensures
        code == move_code(src, dst, bits),
{
    BitMove::make(bits, SQ(src), SQ(dst)).get_raw()
}

/// Calls `pleco::Board::from_fen` and, on the board it gives,
/// `Board::generate_moves`.  The claim: on a text of the accepted shape
/// `from_fen` returns, with a board or with an error, and which of the two
/// depends on the text alone; the moves generated for a board are its legal
/// moves and depend on the text alone.  The shape keeps the pieces of the
/// side to move within the move limit, so that the list that
/// `generate_moves` fills has room for every move.
#[verifier::external_body]
pub(crate) fn legal_codes(fen: &str) -> (codes: Option<Vec<u16>>)
    requires
        fen_shape(fen@),
    ensures
        codes is Some <==> position_loads(fen@),
        codes matches Some(v) ==> v@ == legal_moves_in(fen@),
{
    match Board::from_fen(fen) {
        Ok(board) => Some(board.generate_moves().iter().map(|m| m.get_raw()).collect()),
        Err(_) => None,
    }
}

/// Calls `pleco::Board::apply_move` on the board that `Board::from_fen`
/// gives, and writes the result with `Board::fen`.  The claim: applying a
/// move that `generate_moves` lists for the board and that takes no king
/// returns, and the text written afterwards depends on the first text and
/// the move alone.  The shape keeps the square of a capture in passing
/// empty and a rook of the right colour on the square of each castling
/// right, which `apply_move` insists on.
#[verifier::external_body]
pub(crate) fn play(fen: &str, code: u16) -> (next: String)
    requires
        fen_shape(fen@),
        position_loads(fen@),
        legal_moves_in(fen@).contains(code),
        !king_on(fen@, target_of(code)),
    ensures
        next@ == position_after(fen@, code),
{
    match Board::from_fen(fen) {
        Ok(mut board) => {
            board.apply_move(BitMove::new(code));
            board.fen()
        },
        Err(_) => String::new(),
    }
}

/// Calls `pleco::Board::from_fen` and writes the board it gives with
/// `Board::fen`.  The claim: on a text of the accepted shape `from_fen`
/// returns, with a board exactly if the engine accepts the text, and the
/// text written for the board depends on the text read alone.
#[verifier::external_body]
pub(crate) fn rewrite(fen: &str) -> (r: Option<String>)
    requires
        fen_shape(fen@),
    ensures
        r is Some <==> position_loads(fen@),
        r matches Some(t) ==> t@ == position_rewritten(fen@),
{
    match Board::from_fen(fen) {
        Ok(board) => Some(board.fen()),
        Err(_) => None,
    }
}

/// Calls `pleco::Board::start_pos` and writes the board with `Board::fen`.
/// The claim: the text is the standard opening position.
#[verifier::external_body]
pub(crate) fn opening_position() -> (fen: String)
    ensures
        fen@ == opening_fen(),
{
    Board::start_pos().fen()
}

} // verus!
