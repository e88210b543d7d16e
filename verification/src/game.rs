//! The board grid and the game state around it.
//!
//! [`Board`] is an 8x8 grid of optional pieces, stored row-major. [`Game`]
//! owns one board, the side to move, a game-over flag, and the move history.
//! `make_move` is an unchecked mutation primitive: it performs exactly the
//! requested write, records it, and flips the turn, validating nothing —
//! legality checking is a caller's concern, by design.

use vstd::prelude::*;

use crate::pieces::{Color, Piece, PieceType};

verus! {

/// One recorded move: the piece, the source square, the destination square.
pub type Move = (Piece, (usize, usize), (usize, usize));

/// The chronological, append-only record of moves made so far.
pub type MoveHistory = Vec<Move>;

/// The contents of square (r, c) in a row-major grid sequence; `None` for any
/// coordinate off the board.
pub open spec fn square_at(b: Seq<Option<Piece>>, r: int, c: int) -> Option<Piece> {
    if 0 <= r < 8 && 0 <= c < 8 {
        b[r * 8 + c]
    } else {
        None
    }
}

/// The back-rank piece kind of column c in the starting layout:
/// Rook, Knight, Bishop, Queen, King, Bishop, Knight, Rook.
pub open spec fn starting_back_rank(c: int) -> PieceType {
    if c == 0 || c == 7 {
        PieceType::Rook
    } else if c == 1 || c == 6 {
        PieceType::Knight
    } else if c == 2 || c == 5 {
        PieceType::Bishop
    } else if c == 3 {
        PieceType::Queen
    } else {
        PieceType::King
    }
}

/// The canonical starting occupant of square (r, c): Black's back rank on
/// row 0 and pawns on row 1, White's pawns on row 6 and back rank on row 7,
/// everything else empty.
pub open spec fn starting_square(r: int, c: int) -> Option<Piece> {
    if r == 6 {
        Some(Piece { color: Color::White, piece_type: PieceType::Pawn })
    } else if r == 1 {
        Some(Piece { color: Color::Black, piece_type: PieceType::Pawn })
    } else if r == 0 {
        Some(Piece { color: Color::Black, piece_type: starting_back_rank(c) })
    } else if r == 7 {
        Some(Piece { color: Color::White, piece_type: starting_back_rank(c) })
    } else {
        None
    }
}

/// The whole starting position as a row-major grid sequence.
pub open spec fn starting_board() -> Seq<Option<Piece>> {
    Seq::new(64, |i: int| starting_square(i / 8, i % 8))
}

/// An 8x8 grid of optional pieces. The grid is a bare container: squares can
/// be written freely and no chess rule is enforced on its contents.
#[derive(Debug, Clone)]
pub struct Board {
    squares: Vec<Option<Piece>>,
}

impl View for Board {
    type V = Seq<Option<Piece>>;

    closed spec fn view(&self) -> Seq<Option<Piece>> {
        self.squares@
    }
}

impl Default for Board {
    /// An empty board: all 64 squares unoccupied.
    fn default() -> (b: Board)
        ensures
            b.wf(),
            forall|i: int| 0 <= i < 64 ==> b@[i] is None,
    {
        let mut squares: Vec<Option<Piece>> = Vec::new();
        let mut i: usize = 0;
        while i < 64
            invariant
                i <= 64,
                squares@.len() == i,
                forall|j: int| 0 <= j < i ==> squares@[j] is None,
            decreases 64 - i,
        {
            squares.push(None);
            i = i + 1;
        }
        Board { squares }
    }
}

/// The starting occupant of square (r, c), as an executable value.
fn starting_piece(r: usize, c: usize) -> (p: Option<Piece>)
    ensures
        p == starting_square(r as int, c as int),
{
    if r == 6 {
        Some(Piece { color: Color::White, piece_type: PieceType::Pawn })
    } else if r == 1 {
        Some(Piece { color: Color::Black, piece_type: PieceType::Pawn })
    } else if r == 0 || r == 7 {
        let color = if r == 0 {
            Color::Black
        } else {
            Color::White
        };
        let piece_type = if c == 0 || c == 7 {
            PieceType::Rook
        } else if c == 1 || c == 6 {
            PieceType::Knight
        } else if c == 2 || c == 5 {
            PieceType::Bishop
        } else if c == 3 {
            PieceType::Queen
        } else {
            PieceType::King
        };
        Some(Piece { color, piece_type })
    } else {
        None
    }
}

impl Board {
    /// The grid holds exactly its 64 squares.
    pub open spec fn wf(&self) -> bool {
        self@.len() == 64
    }

    /// Resets to the canonical starting position: every square is cleared and
    /// then repopulated, so the result does not depend on the prior contents
    /// and a second reset changes nothing.
    pub fn new(&mut self) -> (ret: &mut Board)
        ensures
            ret.wf(),
            ret@ == starting_board(),
            *final(ret) == *final(self),
    {
        let mut squares: Vec<Option<Piece>> = Vec::new();
        let mut i: usize = 0;
        while i < 64
            invariant
                i <= 64,
                squares@.len() == i,
                forall|j: int| 0 <= j < i ==> squares@[j] == starting_board()[j],
            decreases 64 - i,
        {
            squares.push(starting_piece(i / 8, i % 8));
            i = i + 1;
        }
        self.squares = squares;
        proof {
            assert(self@ =~= starting_board());
        }
        self
    }

    /// The occupant of `position`: `None` both for an empty square and for
    /// any out-of-range coordinate.
    pub fn get_piece_at(&self, position: (usize, usize)) -> (r: Option<&Piece>)
        requires
            self.wf(),
        ensures
            (match r {
                Some(p) => square_at(self@, position.0 as int, position.1 as int) == Some(*p),
                None => square_at(self@, position.0 as int, position.1 as int) is None,
            }),
    {
        if position.0 < 8 && position.1 < 8 {
            self.squares[position.0 * 8 + position.1].as_ref()
        } else {
            None
        }
    }

    /// The fixed grid size, for callers that must not hardcode it.
    pub fn dimensions(&self) -> (d: (usize, usize))
        ensures
            d == (8usize, 8usize),
    {
        (8, 8)
    }
}

/// One game: a board, the side to move, a game-over flag, and the move
/// history. The board is owned exclusively; it is mutated only through
/// `make_move`.
#[derive(Debug)]
pub struct Game {
    board: Board,
    current_turn: Color,
    game_over: bool,
    move_history: MoveHistory,
}

impl Game {
    /// The board contents, as the row-major grid sequence.
    pub closed spec fn spec_board(&self) -> Seq<Option<Piece>> {
        self.board@
    }

    /// The side to move next.
    pub closed spec fn spec_turn(&self) -> Color {
        self.current_turn
    }

    /// The game-over flag. Nothing in this crate ever sets it: the flag is
    /// written only by an outside legality layer.
    pub closed spec fn spec_game_over(&self) -> bool {
        self.game_over
    }

    /// The move history, oldest first.
    pub closed spec fn spec_history(&self) -> Seq<Move> {
        self.move_history@
    }

    pub open spec fn wf(&self) -> bool {
        self.spec_board().len() == 64
    }
}

impl Default for Game {
    /// A fresh game: starting position, White to move, empty history.
    fn default() -> (g: Game)
        ensures
            g.wf(),
            g.spec_board() == starting_board(),
            g.spec_turn() == Color::White,
            !g.spec_game_over(),
            g.spec_history() == Seq::<Move>::empty(),
    {
        let mut board = Board::default();
        board.new();
        Game { board, current_turn: Color::White, game_over: false, move_history: Vec::new() }
    }
}

impl Game {
    /// A fresh game: starting position, White to move, empty history.
    pub fn new() -> (g: Game)
        ensures
            g.wf(),
            g.spec_board() == starting_board(),
            g.spec_turn() == Color::White,
            !g.spec_game_over(),
            g.spec_history() == Seq::<Move>::empty(),
    {
        Game::default()
    }

    pub fn get_board(&self) -> (b: &Board)
        ensures
            b@ == self.spec_board(),
    {
        &self.board
    }

    pub fn get_current_turn(&self) -> (c: Color)
        ensures
            c == self.spec_turn(),
    {
        self.current_turn
    }

    pub fn is_game_over(&self) -> (over: bool)
        ensures
            over == self.spec_game_over(),
    {
        self.game_over
    }

    pub fn get_move_history(&self) -> (h: &MoveHistory)
        ensures
            h@ == self.spec_history(),
    {
        &self.move_history
    }

    /// Applies an unchecked move: writes `piece` into `to`, then clears
    /// `from`, appends the record, and flips the turn. Nothing is validated —
    /// not that `piece` stood on `from`, not that the geometry allows the
    /// move, not whose turn it is. Writing `to` before clearing `from` means
    /// a move onto its own square leaves that square empty.
    pub fn make_move(&mut self, piece: Piece, from: (usize, usize), to: (usize, usize))
        requires
            old(self).wf(),
            from.0 < 8,
            from.1 < 8,
            to.0 < 8,
            to.1 < 8,
        ensures
            final(self).wf(),
            final(self).spec_board() == old(self).spec_board().update(
                to.0 * 8 + to.1,
                Some(piece),
            ).update(from.0 * 8 + from.1, None),
            final(self).spec_history() == old(self).spec_history().push((piece, from, to)),
            final(self).spec_turn() == old(self).spec_turn().spec_opposite(),
            final(self).spec_game_over() == old(self).spec_game_over(),
    {
        // Update the board and the move history.
        self.board.squares[to.0 * 8 + to.1] = Some(piece);
        self.board.squares[from.0 * 8 + from.1] = None;
        self.move_history.push((piece, from, to));

        // Switch turns.
        self.current_turn = self.current_turn.opposite();
    }
}

/// After a move between two distinct in-range squares, the destination holds
/// exactly the moved piece and the source is empty.
pub proof fn lemma_make_move_squares(
    b: Seq<Option<Piece>>,
    piece: Piece,
    from: (usize, usize),
    to: (usize, usize),
)
    requires
        b.len() == 64,
        from.0 < 8,
        from.1 < 8,
        to.0 < 8,
        to.1 < 8,
        from != to,
    ensures
        square_at(
            b.update(to.0 * 8 + to.1, Some(piece)).update(from.0 * 8 + from.1, None),
            to.0 as int,
            to.1 as int,
        ) == Some(piece),
        square_at(
            b.update(to.0 * 8 + to.1, Some(piece)).update(from.0 * 8 + from.1, None),
            from.0 as int,
            from.1 as int,
        ) is None,
{
    assert(to.0 * 8 + to.1 != from.0 * 8 + from.1);
}

/// Resetting is idempotent: any two boards in the reset state — in particular
/// a board reset once and the same board reset again — are observably equal.
pub proof fn lemma_reset_idempotent(first: Board, second: Board)
    requires
        first@ == starting_board(),
        second@ == starting_board(),
    ensures
        first@ == second@,
{
}

/// In the reset state every square holds exactly the canonical starting
/// piece, and every out-of-range lookup is empty.
pub proof fn lemma_reset_layout(b: Seq<Option<Piece>>, r: int, c: int)
    requires
        b == starting_board(),
    ensures
        0 <= r < 8 && 0 <= c < 8 ==> square_at(b, r, c) == starting_square(r, c),
        !(0 <= r < 8 && 0 <= c < 8) ==> square_at(b, r, c) is None,
{
    if 0 <= r < 8 && 0 <= c < 8 {
        let i = r * 8 + c;
        assert(0 <= i < 64);
        assert(i / 8 == r && i % 8 == c) by (nonlinear_arith)
            requires
                0 <= r < 8 && 0 <= c < 8 && i == r * 8 + c,
        ;
    }
}

} // verus!
