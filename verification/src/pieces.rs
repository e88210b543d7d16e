//! Pieces and their move geometry.
//!
//! A [`Piece`] is an immutable (color, kind) pair. Its move generator yields
//! *geometric reachability* on the 8x8 grid: fixed offsets or rays walked to
//! the board edge, with no notion of occupancy or blocking.

use vstd::prelude::*;

verus! {

/// The two sides of a chess game.
#[derive(Debug, Clone, Copy, PartialEq, Eq, Structural)]
pub enum Color {
    White,
    Black,
}

impl Color {
    /// The side that moves after this one.
    pub open spec fn spec_opposite(self) -> Color {
        match self {
            Color::White => Color::Black,
            Color::Black => Color::White,
        }
    }

    pub fn opposite(&self) -> (r: Color)
        ensures
            r == self.spec_opposite(),
    {
        match self {
            Color::White => Color::Black,
            Color::Black => Color::White,
        }
    }

    /// Switching sides twice returns to the original side.
    pub proof fn lemma_opposite_involutive(c: Color)
        ensures
            c.spec_opposite().spec_opposite() == c,
    {
    }
}

/// The six kinds of chess piece.
#[derive(Debug, Clone, Copy, PartialEq, Eq, Structural)]
pub enum PieceType {
    Pawn,
    Knight,
    Bishop,
    Rook,
    Queen,
    King,
}

/// An immutable piece: a color and a kind. Two pieces with equal fields are
/// interchangeable; the type is freely copyable.
#[derive(Debug, Clone, Copy, PartialEq, Eq, Structural)]
pub struct Piece {
    pub color: Color,
    pub piece_type: PieceType,
}

/// The fixed material value of each piece kind. The king carries `usize::MAX`
/// as an "infinite" sentinel: it is never traded.
pub open spec fn spec_value(kind: PieceType) -> usize {
    match kind {
        PieceType::Pawn => 1,
        PieceType::Knight => 3,
        PieceType::Bishop => 3,
        PieceType::Rook => 5,
        PieceType::Queen => 9,
        PieceType::King => usize::MAX,
    }
}

/// The white figurine shown for each piece kind, used regardless of color.
pub open spec fn spec_symbol(kind: PieceType) -> char {
    match kind {
        PieceType::Pawn => '\u{2659}',
        PieceType::Knight => '\u{2658}',
        PieceType::Bishop => '\u{2657}',
        PieceType::Rook => '\u{2656}',
        PieceType::Queen => '\u{2655}',
        PieceType::King => '\u{2654}',
    }
}

/// The figurine shown for a piece on the board: white pieces use the outline
/// glyphs, black pieces the filled ones.
pub open spec fn spec_display_symbol(p: Piece) -> char {
    match p.piece_type {
        PieceType::Pawn => if p.color is White { '\u{2659}' } else { '\u{265F}' },
        PieceType::Knight => if p.color is White { '\u{2658}' } else { '\u{265E}' },
        PieceType::Bishop => if p.color is White { '\u{2657}' } else { '\u{265D}' },
        PieceType::Rook => if p.color is White { '\u{2656}' } else { '\u{265C}' },
        PieceType::Queen => if p.color is White { '\u{2655}' } else { '\u{265B}' },
        PieceType::King => if p.color is White { '\u{2654}' } else { '\u{265A}' },
    }
}

/// The letter shown for a piece in a plain-text board dump: uppercase for
/// White, lowercase for Black.
pub open spec fn spec_letter(p: Piece) -> char {
    match p.piece_type {
        PieceType::Pawn => if p.color is White { 'P' } else { 'p' },
        PieceType::Knight => if p.color is White { 'N' } else { 'n' },
        PieceType::Bishop => if p.color is White { 'B' } else { 'b' },
        PieceType::Rook => if p.color is White { 'R' } else { 'r' },
        PieceType::Queen => if p.color is White { 'Q' } else { 'q' },
        PieceType::King => if p.color is White { 'K' } else { 'k' },
    }
}

/// The name of each piece kind.
pub open spec fn spec_kind_label(kind: PieceType) -> Seq<char> {
    match kind {
        PieceType::Pawn => "Pawn"@,
        PieceType::Knight => "Knight"@,
        PieceType::Bishop => "Bishop"@,
        PieceType::Rook => "Rook"@,
        PieceType::Queen => "Queen"@,
        PieceType::King => "King"@,
    }
}

/// A single candidate square, kept only when it lies on the 8x8 board.
pub open spec fn on_board_square(r: int, c: int) -> Seq<(usize, usize)> {
    if 0 <= r < 8 && 0 <= c < 8 {
        seq![(r as usize, c as usize)]
    } else {
        Seq::empty()
    }
}

/// How many more steps a ray can take along one axis before leaving the board
/// (plus the one step it is allowed to stand just off the edge). Zero for an
/// axis the ray does not move along. Never negative, which makes it a
/// termination measure for [`ray`].
pub open spec fn ray_fuel(x: int, d: int) -> int {
    if d > 0 {
        if x <= 8 {
            8 - x
        } else {
            0
        }
    } else if d < 0 {
        if x >= -1 {
            x + 1
        } else {
            0
        }
    } else {
        0
    }
}

/// The squares visited by walking from (r, c) one (dr, dc) step at a time,
/// in order, until the walk leaves the 8x8 board. The walk never stops for an
/// occupying piece: this is unblocked geometric reach.
pub open spec fn ray(r: int, c: int, dr: int, dc: int) -> Seq<(usize, usize)>
    decreases ray_fuel(r, dr) + ray_fuel(c, dc),
{
    if (dr == 0 && dc == 0) || !(0 <= r < 8 && 0 <= c < 8) {
        Seq::empty()
    } else {
        seq![(r as usize, c as usize)] + ray(r + dr, c + dc, dr, dc)
    }
}

/// A pawn's single forward step. White moves toward decreasing rows, Black
/// toward increasing rows. Only the lower bound is clipped, exactly as the
/// generator behaves: a Black pawn on row 7 yields the off-board square
/// (8, c) rather than nothing.
pub open spec fn pawn_moves(color: Color, r: int, c: int) -> Seq<(usize, usize)> {
    let dir: int = if color is White { -1 } else { 1 };
    if r + dir >= 0 {
        seq![((r + dir) as usize, c as usize)]
    } else {
        Seq::empty()
    }
}

/// The eight L-shaped knight destinations from (r, c), each independently
/// clipped to the board, in the fixed enumeration order of the offset table.
pub open spec fn knight_moves(r: int, c: int) -> Seq<(usize, usize)> {
    on_board_square(r + 2, c + 1) + on_board_square(r + 2, c - 1) + on_board_square(r - 2, c + 1)
        + on_board_square(r - 2, c - 1) + on_board_square(r + 1, c + 2) + on_board_square(
        r + 1,
        c - 2,
    ) + on_board_square(r - 1, c + 2) + on_board_square(r - 1, c - 2)
}

/// The four orthogonal rays from (r, c), walked to the board edge, in the
/// fixed direction order down, up, right, left.
pub open spec fn rook_moves(r: int, c: int) -> Seq<(usize, usize)> {
    ray(r + 1, c, 1, 0) + ray(r - 1, c, -1, 0) + ray(r, c + 1, 0, 1) + ray(r, c - 1, 0, -1)
}

/// The four diagonal rays from (r, c), walked to the board edge.
pub open spec fn bishop_moves(r: int, c: int) -> Seq<(usize, usize)> {
    ray(r + 1, c + 1, 1, 1) + ray(r + 1, c - 1, 1, -1) + ray(r - 1, c + 1, -1, 1) + ray(
        r - 1,
        c - 1,
        -1,
        -1,
    )
}

/// A queen reaches the rook squares followed by the bishop squares, by plain
/// concatenation: shared squares are kept twice, not de-duplicated.
pub open spec fn queen_moves(r: int, c: int) -> Seq<(usize, usize)> {
    rook_moves(r, c) + bishop_moves(r, c)
}

/// The eight adjacent squares around (r, c), clipped to the board, in the
/// row-by-row enumeration order of the nested offset loops.
pub open spec fn king_moves(r: int, c: int) -> Seq<(usize, usize)> {
    on_board_square(r - 1, c - 1) + on_board_square(r - 1, c) + on_board_square(r - 1, c + 1)
        + on_board_square(r, c - 1) + on_board_square(r, c + 1) + on_board_square(r + 1, c - 1)
        + on_board_square(r + 1, c) + on_board_square(r + 1, c + 1)
}

/// The geometric reach of a piece from (r, c), dispatched on its kind.
pub open spec fn piece_moves(p: Piece, r: int, c: int) -> Seq<(usize, usize)> {
    match p.piece_type {
        PieceType::Pawn => pawn_moves(p.color, r, c),
        PieceType::Knight => knight_moves(r, c),
        PieceType::Bishop => bishop_moves(r, c),
        PieceType::Rook => rook_moves(r, c),
        PieceType::Queen => queen_moves(r, c),
        PieceType::King => king_moves(r, c),
    }
}

/// A queen's reach is exactly the rook's rays followed by the bishop's rays
/// from the same origin, duplicates included.
pub proof fn lemma_queen_is_rook_then_bishop(r: int, c: int)
    ensures
        queen_moves(r, c) == rook_moves(r, c) + bishop_moves(r, c),
{
}

/// Appends (r, c) to `moves` when it lies on the board.
fn push_on_board(moves: &mut Vec<(usize, usize)>, r: isize, c: isize)
    ensures
        final(moves)@ == old(moves)@ + on_board_square(r as int, c as int),
{
    if 0 <= r && r < 8 && 0 <= c && c < 8 {
        moves.push((r as usize, c as usize));
    }
    proof {
        assert(moves@ =~= old(moves)@ + on_board_square(r as int, c as int));
    }
}

/// Appends to `moves` the whole ray from `position` in direction (dr, dc),
/// starting one step out and walking until the board edge.
fn push_ray(moves: &mut Vec<(usize, usize)>, position: (usize, usize), dr: isize, dc: isize)
    requires
        position.0 < 8,
        position.1 < 8,
        -1 <= dr <= 1,
        -1 <= dc <= 1,
        !(dr == 0 && dc == 0),
    ensures
        final(moves)@ == old(moves)@ + ray(
            position.0 + dr,
            position.1 + dc,
            dr as int,
            dc as int,
        ),
{
    let mut r: isize = position.0 as isize + dr;
    let mut c: isize = position.1 as isize + dc;
    while 0 <= r && r < 8 && 0 <= c && c < 8
        invariant
            -1 <= r <= 8,
            -1 <= c <= 8,
            -1 <= dr <= 1,
            -1 <= dc <= 1,
            !(dr == 0 && dc == 0),
            moves@ + ray(r as int, c as int, dr as int, dc as int) == old(moves)@ + ray(
                position.0 + dr,
                position.1 + dc,
                dr as int,
                dc as int,
            ),
        decreases ray_fuel(r as int, dr as int) + ray_fuel(c as int, dc as int),
    {
        let ghost pre = moves@;
        moves.push((r as usize, c as usize));
        proof {
            assert(moves@ + ray(r + dr, c + dc, dr as int, dc as int) =~= pre + ray(
                r as int,
                c as int,
                dr as int,
                dc as int,
            ));
        }
        r = r + dr;
        c = c + dc;
    }
    proof {
        assert(moves@ + ray(r as int, c as int, dr as int, dc as int) =~= moves@);
    }
}

impl Piece {
    pub(crate) fn get_pawn_moves(&self, position: (usize, usize)) -> (moves: Vec<(usize, usize)>)
        requires
            position.0 < 8,
            position.1 < 8,
        ensures
            moves@ == pawn_moves(self.color, position.0 as int, position.1 as int),
    {
        let mut moves: Vec<(usize, usize)> = Vec::new();
        let direction: isize = if self.color == Color::White {
            -1
        } else {
            1
        };
        let new_row: isize = position.0 as isize + direction;

        // The lower bound is the only one checked; row 8 for a Black pawn on
        // row 7 is passed through unclipped.
        if new_row >= 0 {
            moves.push((new_row as usize, position.1));
        }
        proof {
            assert(moves@ =~= pawn_moves(self.color, position.0 as int, position.1 as int));
        }
        moves
    }

    pub(crate) fn get_knight_moves(&self, position: (usize, usize)) -> (moves: Vec<(usize, usize)>)
        requires
            position.0 < 8,
            position.1 < 8,
        ensures
            moves@ == knight_moves(position.0 as int, position.1 as int),
    {
        let mut moves: Vec<(usize, usize)> = Vec::new();
        let row: isize = position.0 as isize;
        let col: isize = position.1 as isize;

        push_on_board(&mut moves, row + 2, col + 1);
        push_on_board(&mut moves, row + 2, col - 1);
        push_on_board(&mut moves, row - 2, col + 1);
        push_on_board(&mut moves, row - 2, col - 1);
        push_on_board(&mut moves, row + 1, col + 2);
        push_on_board(&mut moves, row + 1, col - 2);
        push_on_board(&mut moves, row - 1, col + 2);
        push_on_board(&mut moves, row - 1, col - 2);
        proof {
            assert(moves@ =~= knight_moves(position.0 as int, position.1 as int));
        }
        moves
    }

    pub(crate) fn get_bishop_moves(&self, position: (usize, usize)) -> (moves: Vec<(usize, usize)>)
        requires
            position.0 < 8,
            position.1 < 8,
        ensures
            moves@ == bishop_moves(position.0 as int, position.1 as int),
    {
        let mut moves: Vec<(usize, usize)> = Vec::new();
        push_ray(&mut moves, position, 1, 1);
        push_ray(&mut moves, position, 1, -1);
        push_ray(&mut moves, position, -1, 1);
        push_ray(&mut moves, position, -1, -1);
        proof {
            assert(moves@ =~= bishop_moves(position.0 as int, position.1 as int));
        }
        moves
    }

    pub(crate) fn get_rook_moves(&self, position: (usize, usize)) -> (moves: Vec<(usize, usize)>)
        requires
            position.0 < 8,
            position.1 < 8,
        ensures
            moves@ == rook_moves(position.0 as int, position.1 as int),
    {
        let mut moves: Vec<(usize, usize)> = Vec::new();
        push_ray(&mut moves, position, 1, 0);
        push_ray(&mut moves, position, -1, 0);
        push_ray(&mut moves, position, 0, 1);
        push_ray(&mut moves, position, 0, -1);
        proof {
            assert(moves@ =~= rook_moves(position.0 as int, position.1 as int));
        }
        moves
    }

    pub(crate) fn get_queen_moves(&self, position: (usize, usize)) -> (moves: Vec<(usize, usize)>)
        requires
            position.0 < 8,
            position.1 < 8,
        ensures
            moves@ == queen_moves(position.0 as int, position.1 as int),
    {
        let mut moves: Vec<(usize, usize)> = self.get_rook_moves(position);
        let mut diagonals: Vec<(usize, usize)> = self.get_bishop_moves(position);
        moves.append(&mut diagonals);
        moves
    }

    pub(crate) fn get_king_moves(&self, position: (usize, usize)) -> (moves: Vec<(usize, usize)>)
        requires
            position.0 < 8,
            position.1 < 8,
        ensures
            moves@ == king_moves(position.0 as int, position.1 as int),
    {
        let mut moves: Vec<(usize, usize)> = Vec::new();
        let row: isize = position.0 as isize;
        let col: isize = position.1 as isize;

        push_on_board(&mut moves, row - 1, col - 1);
        push_on_board(&mut moves, row - 1, col);
        push_on_board(&mut moves, row - 1, col + 1);
        push_on_board(&mut moves, row, col - 1);
        push_on_board(&mut moves, row, col + 1);
        push_on_board(&mut moves, row + 1, col - 1);
        push_on_board(&mut moves, row + 1, col);
        push_on_board(&mut moves, row + 1, col + 1);
        proof {
            assert(moves@ =~= king_moves(position.0 as int, position.1 as int));
        }
        moves
    }

    /// Every square this piece's geometry reaches from `position`, ignoring
    /// occupancy: pseudo-legal moves, not validated chess moves.
    pub fn get_legal_moves(&self, position: (usize, usize)) -> (moves: Vec<(usize, usize)>)
        requires
            position.0 < 8,
            position.1 < 8,
        ensures
            moves@ == piece_moves(*self, position.0 as int, position.1 as int),
    {
        match self.piece_type {
            PieceType::Pawn => self.get_pawn_moves(position),
            PieceType::Knight => self.get_knight_moves(position),
            PieceType::Bishop => self.get_bishop_moves(position),
            PieceType::Rook => self.get_rook_moves(position),
            PieceType::Queen => self.get_queen_moves(position),
            PieceType::King => self.get_king_moves(position),
        }
    }

    pub fn get_value(&self) -> (v: usize)
        ensures
            v == spec_value(self.piece_type),
    {
        match self.piece_type {
            PieceType::Pawn => 1,
            PieceType::Knight => 3,
            PieceType::Bishop => 3,
            PieceType::Rook => 5,
            PieceType::Queen => 9,
            PieceType::King => usize::MAX,
        }
    }

    pub fn symbol(&self) -> (c: char)
        ensures
            c == spec_symbol(self.piece_type),
    {
        match self.piece_type {
            PieceType::Pawn => '\u{2659}',
            PieceType::Knight => '\u{2658}',
            PieceType::Bishop => '\u{2657}',
            PieceType::Rook => '\u{2656}',
            PieceType::Queen => '\u{2655}',
            PieceType::King => '\u{2654}',
        }
    }

    pub fn display_symbol(&self) -> (c: char)
        ensures
            c == spec_display_symbol(*self),
    {
        let white = match self.color {
            Color::White => true,
            Color::Black => false,
        };
        match self.piece_type {
            PieceType::Pawn => if white { '\u{2659}' } else { '\u{265F}' },
            PieceType::Knight => if white { '\u{2658}' } else { '\u{265E}' },
            PieceType::Bishop => if white { '\u{2657}' } else { '\u{265D}' },
            PieceType::Rook => if white { '\u{2656}' } else { '\u{265C}' },
            PieceType::Queen => if white { '\u{2655}' } else { '\u{265B}' },
            PieceType::King => if white { '\u{2654}' } else { '\u{265A}' },
        }
    }

    pub fn letter(&self) -> (c: char)
        ensures
            c == spec_letter(*self),
    {
        let white = match self.color {
            Color::White => true,
            Color::Black => false,
        };
        match self.piece_type {
            PieceType::Pawn => if white { 'P' } else { 'p' },
            PieceType::Knight => if white { 'N' } else { 'n' },
            PieceType::Bishop => if white { 'B' } else { 'b' },
            PieceType::Rook => if white { 'R' } else { 'r' },
            PieceType::Queen => if white { 'Q' } else { 'q' },
            PieceType::King => if white { 'K' } else { 'k' },
        }
    }

    pub fn get_piece_type_as_string(&self) -> (s: String)
        ensures
            s@ == spec_kind_label(self.piece_type),
    {
        match self.piece_type {
            PieceType::Pawn => "Pawn".to_string(),
            PieceType::Knight => "Knight".to_string(),
            PieceType::Bishop => "Bishop".to_string(),
            PieceType::Rook => "Rook".to_string(),
            PieceType::Queen => "Queen".to_string(),
            PieceType::King => "King".to_string(),
        }
    }

    pub fn get_color(&self) -> (c: Color)
        ensures
            c == self.color,
    {
        self.color
    }

    pub fn get_piece_type(&self) -> (t: PieceType)
        ensures
            t == self.piece_type,
    {
        self.piece_type
    }

    pub fn new(color: Color, piece_type: PieceType) -> (p: Piece)
        ensures
            p == (Piece { color, piece_type }),
    {
        Piece { color, piece_type }
    }

    pub fn w_pawn() -> (p: Piece)
        ensures
            p == (Piece { color: Color::White, piece_type: PieceType::Pawn }),
    {
        Piece::new(Color::White, PieceType::Pawn)
    }

    pub fn w_knight() -> (p: Piece)
        ensures
            p == (Piece { color: Color::White, piece_type: PieceType::Knight }),
    {
        Piece::new(Color::White, PieceType::Knight)
    }

    pub fn w_bishop() -> (p: Piece)
        ensures
            p == (Piece { color: Color::White, piece_type: PieceType::Bishop }),
    {
        Piece::new(Color::White, PieceType::Bishop)
    }

    pub fn w_rook() -> (p: Piece)
        ensures
            p == (Piece { color: Color::White, piece_type: PieceType::Rook }),
    {
        Piece::new(Color::White, PieceType::Rook)
    }

    pub fn w_queen() -> (p: Piece)
        ensures
            p == (Piece { color: Color::White, piece_type: PieceType::Queen }),
    {
        Piece::new(Color::White, PieceType::Queen)
    }

    pub fn w_king() -> (p: Piece)
        ensures
            p == (Piece { color: Color::White, piece_type: PieceType::King }),
    {
        Piece::new(Color::White, PieceType::King)
    }

    pub fn b_pawn() -> (p: Piece)
        ensures
            p == (Piece { color: Color::Black, piece_type: PieceType::Pawn }),
    {
        Piece::new(Color::Black, PieceType::Pawn)
    }

    pub fn b_knight() -> (p: Piece)
        ensures
            p == (Piece { color: Color::Black, piece_type: PieceType::Knight }),
    {
        Piece::new(Color::Black, PieceType::Knight)
    }

    pub fn b_bishop() -> (p: Piece)
        ensures
            p == (Piece { color: Color::Black, piece_type: PieceType::Bishop }),
    {
        Piece::new(Color::Black, PieceType::Bishop)
    }

    pub fn b_rook() -> (p: Piece)
        ensures
            p == (Piece { color: Color::Black, piece_type: PieceType::Rook }),
    {
        Piece::new(Color::Black, PieceType::Rook)
    }

    pub fn b_queen() -> (p: Piece)
        ensures
            p == (Piece { color: Color::Black, piece_type: PieceType::Queen }),
    {
        Piece::new(Color::Black, PieceType::Queen)
    }

    pub fn b_king() -> (p: Piece)
        ensures
            p == (Piece { color: Color::Black, piece_type: PieceType::King }),
    {
        Piece::new(Color::Black, PieceType::King)
    }
}

} // verus!
