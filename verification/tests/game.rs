use chess_core::game::{Board, Game};
use chess_core::pieces::{Color, Piece, PieceType};

/// The canonical starting occupant of square (r, c).
fn expected_start(r: usize, c: usize) -> Option<Piece> {
    let back_rank = |c: usize| match c {
        0 | 7 => PieceType::Rook,
        1 | 6 => PieceType::Knight,
        2 | 5 => PieceType::Bishop,
        3 => PieceType::Queen,
        _ => PieceType::King,
    };
    match r {
        6 => Some(Piece { color: Color::White, piece_type: PieceType::Pawn }),
        1 => Some(Piece { color: Color::Black, piece_type: PieceType::Pawn }),
        0 => Some(Piece { color: Color::Black, piece_type: back_rank(c) }),
        7 => Some(Piece { color: Color::White, piece_type: back_rank(c) }),
        _ => None,
    }
}

/// Every square of a board, copied out through the public lookup.
fn snapshot(board: &Board) -> Vec<Option<Piece>> {
    let mut squares = Vec::new();
    for r in 0..8 {
        for c in 0..8 {
            squares.push(board.get_piece_at((r, c)).copied());
        }
    }
    squares
}

#[test]
fn reset_lays_out_the_starting_position_everywhere() {
    let game = Game::new();
    for r in 0..8 {
        for c in 0..8 {
            assert_eq!(
                game.get_board().get_piece_at((r, c)).copied(),
                expected_start(r, c),
                "square ({}, {})",
                r,
                c
            );
        }
    }
    assert_eq!(
        game.get_board().get_piece_at((0, 0)),
        Some(&Piece { color: Color::Black, piece_type: PieceType::Rook })
    );
    assert_eq!(
        game.get_board().get_piece_at((7, 4)),
        Some(&Piece { color: Color::White, piece_type: PieceType::King })
    );
    assert_eq!(game.get_board().get_piece_at((3, 3)), None);
}

#[test]
fn starting_position_has_thirty_two_pieces() {
    let game = Game::new();
    let occupied = snapshot(game.get_board())
        .iter()
        .filter(|square| square.is_some())
        .count();
    assert_eq!(occupied, 32);
}

#[test]
fn reset_twice_leaves_an_identical_board() {
    let mut board = Board::default();
    board.new();
    let once = snapshot(&board);
    board.new();
    let twice = snapshot(&board);
    assert_eq!(once, twice);
}

#[test]
fn reset_overwrites_any_prior_contents() {
    let mut game = Game::new();
    game.make_move(Piece::w_queen(), (7, 3), (4, 4));
    let mut fresh = Board::default();
    fresh.new();
    let mut board = Board::default();
    board.new();
    assert_ne!(snapshot(game.get_board()), snapshot(&fresh));
    assert_eq!(snapshot(&board), snapshot(&fresh));
}

#[test]
fn default_board_is_empty() {
    let board = Board::default();
    for r in 0..8 {
        for c in 0..8 {
            assert_eq!(board.get_piece_at((r, c)), None);
        }
    }
}

#[test]
fn dimensions_are_eight_by_eight() {
    let game = Game::new();
    assert_eq!(game.get_board().dimensions(), (8, 8));
}

#[test]
fn out_of_range_lookup_is_empty_not_an_error() {
    let game = Game::new();
    assert_eq!(game.get_board().get_piece_at((8, 0)), None);
    assert_eq!(game.get_board().get_piece_at((0, 8)), None);
    assert_eq!(game.get_board().get_piece_at((100, 100)), None);
}

#[test]
fn fresh_game_is_white_to_move_with_empty_history() {
    let game = Game::new();
    assert_eq!(game.get_current_turn(), Color::White);
    assert!(!game.is_game_over());
    assert!(game.get_move_history().is_empty());
}

#[test]
fn make_move_writes_records_and_flips_the_turn() {
    let mut game = Game::new();
    let knight = Piece::w_knight();
    game.make_move(knight, (7, 1), (5, 2));

    assert_eq!(game.get_board().get_piece_at((5, 2)), Some(&knight));
    assert_eq!(game.get_board().get_piece_at((7, 1)), None);
    assert_eq!(game.get_move_history().len(), 1);
    assert_eq!(game.get_move_history()[0], (knight, (7, 1), (5, 2)));
    assert_eq!(game.get_current_turn(), Color::Black);
}

#[test]
fn make_move_validates_nothing() {
    // A Black piece moves while White is to move, from a square it never
    // occupied, to a square a pawn's geometry cannot reach; the primitive
    // still performs exactly the requested write.
    let mut game = Game::new();
    let pawn = Piece::b_pawn();
    game.make_move(pawn, (4, 4), (0, 0));
    assert_eq!(game.get_board().get_piece_at((0, 0)), Some(&pawn));
    assert_eq!(game.get_board().get_piece_at((4, 4)), None);
    assert_eq!(game.get_current_turn(), Color::Black);
    assert!(!game.is_game_over());
}

#[test]
fn two_moves_hand_the_turn_back() {
    let mut game = Game::new();
    game.make_move(Piece::w_pawn(), (6, 4), (5, 4));
    game.make_move(Piece::b_pawn(), (1, 4), (2, 4));
    assert_eq!(game.get_current_turn(), Color::White);
    assert_eq!(game.get_move_history().len(), 2);
    assert_eq!(game.get_move_history()[0], (Piece::w_pawn(), (6, 4), (5, 4)));
    assert_eq!(game.get_move_history()[1], (Piece::b_pawn(), (1, 4), (2, 4)));
}

#[test]
fn move_onto_its_own_square_clears_it() {
    // The destination is written first and the source cleared second, so a
    // move whose endpoints coincide empties the square.
    let mut game = Game::new();
    game.make_move(Piece::w_rook(), (7, 0), (7, 0));
    assert_eq!(game.get_board().get_piece_at((7, 0)), None);
    assert_eq!(game.get_move_history().len(), 1);
}
