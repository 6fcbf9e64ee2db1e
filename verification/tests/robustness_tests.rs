use chess_match::chess::{construct_bit_move, square_name};
use chess_match::engine::handle_move;
use chess_match::model::{ErrorKind, Move};
use chess_match::position::has_fen_shape;
use chess_match::session::new_game;

struct Dice(u64);

impl Dice {
    fn roll(&mut self, sides: u64) -> u64 {
        self.0 = self.0.wrapping_mul(6364136223846793005).wrapping_add(1442695040888963407);
        (self.0 >> 33) % sides
    }
}

fn random_position(dice: &mut Dice) -> String {
    let letters = [
        'p', 'p', 'p', 'n', 'n', 'b', 'b', 'r', 'r', 'q', 'P', 'P', 'P', 'N', 'N', 'B', 'B', 'R',
        'R', 'Q',
    ];
    let mut board = ['.'; 64];
    let crowd = dice.roll(4) + 1;
    for cell in board.iter_mut() {
        if dice.roll(10) < crowd {
            *cell = letters[dice.roll(20) as usize];
        }
    }
    let white_king = dice.roll(64) as usize;
    let mut black_king = dice.roll(64) as usize;
    if black_king == white_king {
        black_king = (black_king + 17) % 64;
    }
    board[white_king] = 'K';
    board[black_king] = 'k';
    let mut text = String::new();
    for rank in (0..8).rev() {
        let mut blanks = 0;
        for file in 0..8 {
            let c = board[rank * 8 + file];
            if c == '.' {
                blanks += 1;
            } else {
                if blanks > 0 {
                    text.push_str(&blanks.to_string());
                    blanks = 0;
                }
                text.push(c);
            }
        }
        if blanks > 0 {
            text.push_str(&blanks.to_string());
        }
        if rank > 0 {
            text.push('/');
        }
    }
    let mut rights = String::new();
    if board[4] == 'K' && board[7] == 'R' && dice.roll(2) == 0 {
        rights.push('K');
    }
    if board[4] == 'K' && board[0] == 'R' && dice.roll(2) == 0 {
        rights.push('Q');
    }
    if board[60] == 'k' && board[63] == 'r' && dice.roll(2) == 0 {
        rights.push('k');
    }
    if board[60] == 'k' && board[56] == 'r' && dice.roll(2) == 0 {
        rights.push('q');
    }
    if rights.is_empty() {
        rights.push('-');
    }
    let turn = if dice.roll(2) == 0 { "w" } else { "b" };
    let passing = match dice.roll(6) {
        0 => format!("{}3", (b'a' + dice.roll(8) as u8) as char),
        1 => format!("{}6", (b'a' + dice.roll(8) as u8) as char),
        _ => "-".to_string(),
    };
    format!("{} {} {} {} {} {}", text, turn, rights, passing, dice.roll(10000), dice.roll(9999) + 1)
}

fn mv(from: &str, to: &str, flags: &str) -> Move {
    Move {
        from: from.to_string(),
        to: to.to_string(),
        flags: flags.to_string(),
        captured: None,
        promotion: Some("q".to_string()),
    }
}

#[test]
fn the_engine_answers_on_every_text_of_the_accepted_shape() {
    let mut dice = Dice(2024);
    let mut accepted = 0;
    let mut shaped = 0;
    for _ in 0..6000 {
        let text = random_position(&mut dice);
        if !has_fen_shape(&text) {
            continue;
        }
        shaped += 1;
        match construct_bit_move(&mv("e2", "e4", "b"), &text) {
            Ok(_) | Err(ErrorKind::IllegalMoveError) => accepted += 1,
            Err(ErrorKind::StoreError) => {}
            Err(other) => panic!("{:?} for {}", other, text),
        }
    }
    assert!(shaped > 1000);
    assert!(accepted > 100);
}

fn play_every_move(seed: u64, wanted: usize) {
    let mut dice = Dice(seed);
    let mut played = 0;
    let mut positions = 0;
    while positions < wanted {
        let text = random_position(&mut dice);
        if construct_bit_move(&mv("a1", "a1", "n"), &text) == Err(ErrorKind::StoreError) {
            continue;
        }
        positions += 1;
        for flags in ["n", "c", "b", "k", "q", "e", "np"] {
            for src in 0u8..64 {
                for dst in 0u8..64 {
                    let m = mv(&square_name(src).unwrap(), &square_name(dst).unwrap(), flags);
                    if construct_bit_move(&m, &text).is_err() {
                        continue;
                    }
                    let mut game = new_game(1, 1, 2, 0);
                    game.board_state = text.clone();
                    match handle_move(&mut game, 1, &m, 5) {
                        Ok(_) => {
                            played += 1;
                            assert!(has_fen_shape(&game.board_state));
                            assert_eq!(game.last_moved, (1, 5));
                        }
                        Err(e) => {
                            assert_eq!(e, ErrorKind::StoreError);
                            assert_eq!(game.board_state, text);
                        }
                    }
                }
            }
        }
    }
    assert!(played > 0);
}

#[test]
fn every_legal_move_of_an_accepted_position_is_played() {
    play_every_move(7, 4);
}

#[test]
fn every_legal_move_is_played_in_crowded_positions() {
    play_every_move(99, 4);
}

#[test]
fn every_legal_move_is_played_in_more_positions() {
    play_every_move(123456789, 4);
}

#[test]
fn every_legal_move_is_played_in_yet_more_positions() {
    play_every_move(31337, 5);
}

#[test]
fn every_legal_move_is_played_in_sparse_and_dense_positions() {
    play_every_move(271828, 5);
}

#[test]
fn a_king_is_never_taken() {
    let text = "8/5q2/2N5/n1B5/2q2k2/P7/3r4/2K5 b - - 2650 9823";
    assert!(has_fen_shape(text));
    let mut game = new_game(1, 1, 2, 0);
    game.board_state = text.to_string();
    let mut m = mv("c4", "c1", "c");
    m.captured = Some("k".to_string());
    assert_eq!(handle_move(&mut game, 1, &m, 5), Err(ErrorKind::IllegalMoveError));
    assert_eq!(construct_bit_move(&m, text), Err(ErrorKind::IllegalMoveError));
    assert_eq!(game.board_state, text);
    assert!(handle_move(&mut game, 1, &mv("c4", "c2", "n"), 5).is_ok());
}
