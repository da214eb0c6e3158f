use crate::coord::{coord_col, coord_row, parse_coordinate, valid_coord, strict_coord};
use vstd::prelude::*;

verus! {

/// The owning side of a piece.
#[derive(Debug, Clone, Copy, PartialEq, Eq, Structural)]
pub enum Color {
    White,
    Black,
}

/// The content of one square: a piece with its side, or nothing.
#[derive(Debug, Clone, Copy, PartialEq, Eq, Structural)]
pub enum Pieces {
    King(Color),
    Queen(Color),
    Rook(Color),
    Knight(Color),
    Bishop(Color),
    Pawn(Color),
    Empty,
}

/// The side of a square content; an empty square has none.
pub open spec fn piece_color(p: Pieces) -> Option<Color> {
    match p {
        Pieces::King(c) => Some(c),
        Pieces::Queen(c) => Some(c),
        Pieces::Rook(c) => Some(c),
        Pieces::Knight(c) => Some(c),
        Pieces::Bishop(c) => Some(c),
        Pieces::Pawn(c) => Some(c),
        Pieces::Empty => None,
    }
}

/// Row-major position of square (r, c) in the flat 64-entry grid.
pub open spec fn board_index(r: int, c: int) -> int {
    r * 8 + c
}

/// The content of square (r, c) in a flat board model.
pub open spec fn square_at(b: Seq<Pieces>, r: int, c: int) -> Pieces {
    b[board_index(r, c)]
}

/// The absolute difference of two indices, one axis of a displacement.
pub open spec fn abs_delta(a: int, b: int) -> int {
    if a >= b {
        a - b
    } else {
        b - a
    }
}

/// The k-th index on the way from `from` to `to`, walking one step at a time.
pub open spec fn step_toward(from: int, to: int, k: int) -> int {
    if to > from {
        from + k
    } else {
        from - k
    }
}

/// A knight displacement: two squares on one axis and one on the other.
pub open spec fn knight_shape(fr: int, fc: int, tr: int, tc: int) -> bool {
    (abs_delta(fr, tr) == 2 && abs_delta(fc, tc) == 1) || (abs_delta(fr, tr) == 1 && abs_delta(
        fc,
        tc,
    ) == 2)
}

/// The king rule as implemented: at least one axis moves by exactly one,
/// with no bound on the other axis.
pub open spec fn king_shape(fr: int, fc: int, tr: int, tc: int) -> bool {
    abs_delta(fr, tr) == 1 || abs_delta(fc, tc) == 1
}

/// A straight displacement along exactly one axis.
pub open spec fn straight_shape(fr: int, fc: int, tr: int, tc: int) -> bool {
    (abs_delta(fr, tr) > 0 && fc == tc) || (fr == tr && abs_delta(fc, tc) > 0)
}

/// A nonzero diagonal displacement.
pub open spec fn diagonal_shape(fr: int, fc: int, tr: int, tc: int) -> bool {
    abs_delta(fr, tr) == abs_delta(fc, tc) && abs_delta(fr, tr) > 0
}

/// The queen rule as implemented: equal axis deltas (the null displacement
/// included) or a straight line.
pub open spec fn queen_shape(fr: int, fc: int, tr: int, tc: int) -> bool {
    abs_delta(fr, tr) == abs_delta(fc, tc) || straight_shape(fr, fc, tr, tc)
}

/// Capture resolution: the destination may be entered when its side differs
/// from the mover's. An empty destination has no side, so it always differs.
pub open spec fn capture_allowed(b: Seq<Pieces>, fr: int, fc: int, tr: int, tc: int) -> bool {
    piece_color(square_at(b, fr, fc)) != piece_color(square_at(b, tr, tc))
}

/// Every square strictly between origin and destination on their diagonal
/// is empty.
pub open spec fn diagonal_clear(b: Seq<Pieces>, fr: int, fc: int, tr: int, tc: int) -> bool {
    forall|k: int|
        1 <= k < abs_delta(fr, tr) ==> square_at(
            b,
            #[trigger] step_toward(fr, tr, k),
            step_toward(fc, tc, k),
        ) is Empty
}

/// When the knight operation accepts a move.
pub open spec fn knight_move_ok(b: Seq<Pieces>, fr: int, fc: int, tr: int, tc: int) -> bool {
    square_at(b, fr, fc) is Knight && knight_shape(fr, fc, tr, tc) && capture_allowed(
        b,
        fr,
        fc,
        tr,
        tc,
    )
}

/// When the king operation accepts a move.
pub open spec fn king_move_ok(b: Seq<Pieces>, fr: int, fc: int, tr: int, tc: int) -> bool {
    square_at(b, fr, fc) is King && king_shape(fr, fc, tr, tc) && capture_allowed(
        b,
        fr,
        fc,
        tr,
        tc,
    )
}

/// When the rook operation accepts a move. Intervening squares are not
/// examined: a rook slides through occupied squares.
pub open spec fn rook_move_ok(b: Seq<Pieces>, fr: int, fc: int, tr: int, tc: int) -> bool {
    square_at(b, fr, fc) is Rook && straight_shape(fr, fc, tr, tc) && capture_allowed(
        b,
        fr,
        fc,
        tr,
        tc,
    )
}

/// When the queen operation accepts a move. As with the rook, no path
/// obstruction is examined.
pub open spec fn queen_move_ok(b: Seq<Pieces>, fr: int, fc: int, tr: int, tc: int) -> bool {
    square_at(b, fr, fc) is Queen && queen_shape(fr, fc, tr, tc) && capture_allowed(
        b,
        fr,
        fc,
        tr,
        tc,
    )
}

/// When the bishop operation accepts a move: the one sliding piece whose
/// path is actually checked.
pub open spec fn bishop_move_ok(b: Seq<Pieces>, fr: int, fc: int, tr: int, tc: int) -> bool {
    square_at(b, fr, fc) is Bishop && diagonal_shape(fr, fc, tr, tc) && diagonal_clear(
        b,
        fr,
        fc,
        tr,
        tc,
    ) && capture_allowed(b, fr, fc, tr, tc)
}

/// The rank from which a pawn may advance two squares.
pub open spec fn pawn_home_row(p: Pieces, fr: int) -> bool {
    (p == Pieces::Pawn(Color::White) && fr == 1) || (p == Pieces::Pawn(Color::Black) && fr == 6)
}

/// The row n squares ahead of a pawn: white advances toward row 7, black
/// toward row 0.
pub open spec fn pawn_step(p: Pieces, fr: int, n: int) -> int {
    if p == Pieces::Pawn(Color::White) {
        fr + n
    } else {
        fr - n
    }
}

/// When the pawn operation accepts a move: a quiet advance onto an empty
/// square, one step forward, or two from the home row with the square
/// directly ahead unoccupied.
pub open spec fn pawn_move_ok(b: Seq<Pieces>, fr: int, fc: int, tr: int, tc: int) -> bool {
    let p = square_at(b, fr, fc);
    p is Pawn && square_at(b, tr, tc) is Empty && tc == fc && if pawn_home_row(p, fr) {
        (tr == pawn_step(p, fr, 1) || tr == pawn_step(p, fr, 2)) && square_at(
            b,
            pawn_step(p, fr, 1),
            fc,
        ) is Empty
    } else {
        tr == pawn_step(p, fr, 1)
    }
}

/// The pawn operation's side effect on a diagonal step onto an enemy piece:
/// the capture is performed even though the operation reports the move as
/// rejected.
pub open spec fn pawn_capture_fires(b: Seq<Pieces>, fr: int, fc: int, tr: int, tc: int) -> bool {
    square_at(b, fr, fc) is Pawn && !(square_at(b, tr, tc) is Empty) && abs_delta(fr, tr) == 1
        && abs_delta(fc, tc) == 1 && capture_allowed(b, fr, fc, tr, tc)
}

/// The board after a piece leaves (fr, fc) for (tr, tc).
pub open spec fn apply_move(b: Seq<Pieces>, fr: int, fc: int, tr: int, tc: int) -> Seq<Pieces> {
    b.update(board_index(tr, tc), square_at(b, fr, fc)).update(
        board_index(fr, fc),
        Pieces::Empty,
    )
}

/// Whether some piece operation accepts the move, decided by the kind of
/// piece standing on the origin square.
pub open spec fn move_ok(b: Seq<Pieces>, fr: int, fc: int, tr: int, tc: int) -> bool {
    match square_at(b, fr, fc) {
        Pieces::Pawn(_) => pawn_move_ok(b, fr, fc, tr, tc),
        Pieces::Knight(_) => knight_move_ok(b, fr, fc, tr, tc),
        Pieces::King(_) => king_move_ok(b, fr, fc, tr, tc),
        Pieces::Bishop(_) => bishop_move_ok(b, fr, fc, tr, tc),
        Pieces::Rook(_) => rook_move_ok(b, fr, fc, tr, tc),
        Pieces::Queen(_) => queen_move_ok(b, fr, fc, tr, tc),
        Pieces::Empty => false,
    }
}

/// The board a dispatched move attempt leaves behind: changed when the move
/// is accepted, and also when the pawn's capture side effect fires.
pub open spec fn board_after(b: Seq<Pieces>, fr: int, fc: int, tr: int, tc: int) -> Seq<Pieces> {
    if move_ok(b, fr, fc, tr, tc) || pawn_capture_fires(b, fr, fc, tr, tc) {
        apply_move(b, fr, fc, tr, tc)
    } else {
        b
    }
}

/// The display glyph of one square content.
pub open spec fn glyph_spec(p: Pieces) -> char {
    match p {
        Pieces::King(Color::White) => '♔',
        Pieces::Queen(Color::White) => '♕',
        Pieces::Rook(Color::White) => '♖',
        Pieces::Knight(Color::White) => '♘',
        Pieces::Bishop(Color::White) => '♗',
        Pieces::Pawn(Color::White) => '♙',
        Pieces::King(Color::Black) => '♚',
        Pieces::Queen(Color::Black) => '♛',
        Pieces::Rook(Color::Black) => '♜',
        Pieces::Knight(Color::Black) => '♞',
        Pieces::Bishop(Color::Black) => '♝',
        Pieces::Pawn(Color::Black) => '♟',
        Pieces::Empty => '·',
    }
}

/// The first c squares of row r rendered as text: each glyph followed by a
/// space.
pub open spec fn row_chars(b: Seq<Pieces>, r: int, c: int) -> Seq<char>
    decreases c,
{
    if c <= 0 {
        Seq::empty()
    } else {
        row_chars(b, r, c - 1) + seq![glyph_spec(square_at(b, r, c - 1)), ' ']
    }
}

/// The first r rows of a board rendered as text, each row ended by a
/// newline; row 0 (rank "1") comes first.
pub open spec fn board_chars(b: Seq<Pieces>, r: int) -> Seq<char>
    decreases r,
{
    if r <= 0 {
        Seq::empty()
    } else {
        board_chars(b, r - 1) + row_chars(b, r - 1, 8) + seq!['\n']
    }
}

/// The whole board rendered as text.
pub open spec fn render_spec(b: Seq<Pieces>) -> Seq<char> {
    board_chars(b, 8)
}

/// One axis delta of a displacement, the executable face of `abs_delta`.
fn axis_delta(a: usize, b: usize) -> (d: usize)
    ensures
        d == abs_delta(a as int, b as int),
{
    if a >= b {
        a - b
    } else {
        b - a
    }
}

impl Pieces {
    /// The display glyph of this square content.
    pub fn to_glyph(&self) -> (c: char)
        ensures
            c == glyph_spec(*self),
    {
        match *self {
            Pieces::King(Color::White) => '♔',
            Pieces::Queen(Color::White) => '♕',
            Pieces::Rook(Color::White) => '♖',
            Pieces::Knight(Color::White) => '♘',
            Pieces::Bishop(Color::White) => '♗',
            Pieces::Pawn(Color::White) => '♙',
            Pieces::King(Color::Black) => '♚',
            Pieces::Queen(Color::Black) => '♛',
            Pieces::Rook(Color::Black) => '♜',
            Pieces::Knight(Color::Black) => '♞',
            Pieces::Bishop(Color::Black) => '♝',
            Pieces::Pawn(Color::Black) => '♟',
            Pieces::Empty => '·',
        }
    }
}

/// An 8-by-8 grid of square contents, row 0 = rank "1", column 0 = file "a".
#[derive(Debug, Clone, PartialEq)]
pub struct Board {
    board: Vec<Pieces>,
}

impl View for Board {
    type V = Seq<Pieces>;

    closed spec fn view(&self) -> Seq<Pieces> {
        self.board@
    }
}

/// The opening back rank of one side: king on column 3, queen on column 4.
pub open spec fn back_rank(side: Color, c: int) -> Pieces {
    if c == 0 || c == 7 {
        Pieces::Rook(side)
    } else if c == 1 || c == 6 {
        Pieces::Knight(side)
    } else if c == 2 || c == 5 {
        Pieces::Bishop(side)
    } else if c == 3 {
        Pieces::King(side)
    } else {
        Pieces::Queen(side)
    }
}

/// The starting position: white on rows 0 and 1, black on rows 6 and 7.
pub open spec fn starting_square(r: int, c: int) -> Pieces {
    if r == 0 {
        back_rank(Color::White, c)
    } else if r == 1 {
        Pieces::Pawn(Color::White)
    } else if r == 6 {
        Pieces::Pawn(Color::Black)
    } else if r == 7 {
        back_rank(Color::Black, c)
    } else {
        Pieces::Empty
    }
}

fn back_rank_piece(side: Color, c: usize) -> (p: Pieces)
    requires
        c < 8,
    ensures
        p == back_rank(side, c as int),
{
    if c == 0 || c == 7 {
        Pieces::Rook(side)
    } else if c == 1 || c == 6 {
        Pieces::Knight(side)
    } else if c == 2 || c == 5 {
        Pieces::Bishop(side)
    } else if c == 3 {
        Pieces::King(side)
    } else {
        Pieces::Queen(side)
    }
}

fn starting_piece(r: usize, c: usize) -> (p: Pieces)
    requires
        r < 8,
        c < 8,
    ensures
        p == starting_square(r as int, c as int),
{
    if r == 0 {
        back_rank_piece(Color::White, c)
    } else if r == 1 {
        Pieces::Pawn(Color::White)
    } else if r == 6 {
        Pieces::Pawn(Color::Black)
    } else if r == 7 {
        back_rank_piece(Color::Black, c)
    } else {
        Pieces::Empty
    }
}

impl Board {
    /// The one invariant kept across moves: the grid holds exactly 64 squares.
    pub open spec fn wf(&self) -> bool {
        self@.len() == 64
    }

    /// A board in the starting position.
    pub fn new() -> (b: Board)
        ensures
            b.wf(),
            forall|r: int, c: int|
                0 <= r < 8 && 0 <= c < 8 ==> #[trigger] square_at(b@, r, c) == starting_square(
                    r,
                    c,
                ),
    {
        let mut v: Vec<Pieces> = Vec::new();
        let mut r: usize = 0;
        while r < 8
            invariant
                r <= 8,
                v@.len() == 8 * r,
                forall|r0: int, c0: int|
                    0 <= r0 && 0 <= c0 < 8 && board_index(r0, c0) < v@.len()
                        ==> v@[#[trigger] board_index(r0, c0)] == starting_square(r0, c0),
            decreases 8 - r,
        {
            let mut c: usize = 0;
            while c < 8
                invariant
                    r < 8,
                    c <= 8,
                    v@.len() == 8 * r + c,
                    forall|r0: int, c0: int|
                        0 <= r0 && 0 <= c0 < 8 && board_index(r0, c0) < v@.len()
                            ==> v@[#[trigger] board_index(r0, c0)] == starting_square(r0, c0),
                decreases 8 - c,
            {
                v.push(starting_piece(r, c));
                c += 1;
            }
            r += 1;
        }
        Board { board: v }
    }

    /// The content of one square; the executable face of `square_at`.
    pub fn piece_at(&self, row: usize, col: usize) -> (p: Pieces)
        requires
            self.wf(),
            row < 8,
            col < 8,
        ensures
            p == square_at(self@, row as int, col as int),
    {
        self.board[row * 8 + col]
    }

    /// Executable check of the grid invariant, for callers outside the library.
    pub fn is_well_formed(&self) -> (b: bool)
        ensures
            b == self.wf(),
    {
        self.board.len() == 64
    }

    /// The side of the piece on a square, or `None` for an empty square.
    pub fn get_color(&self, index: (usize, usize)) -> (c: Option<Color>)
        requires
            self.wf(),
            index.0 < 8,
            index.1 < 8,
        ensures
            c == piece_color(square_at(self@, index.0 as int, index.1 as int)),
    {
        match self.piece_at(index.0, index.1) {
            Pieces::King(color) => Some(color),
            Pieces::Queen(color) => Some(color),
            Pieces::Rook(color) => Some(color),
            Pieces::Knight(color) => Some(color),
            Pieces::Bishop(color) => Some(color),
            Pieces::Pawn(color) => Some(color),
            Pieces::Empty => None,
        }
    }

    /// Capture resolution, shared by every piece rule: when the two squares
    /// hold different sides (an empty destination counts as a different
    /// side), the origin's piece is written to the destination, the origin
    /// is emptied, and true is returned; a same-side destination leaves the
    /// board untouched.
    pub fn check_piece_color(&mut self, from_index: (usize, usize), to_index: (usize, usize)) -> (r:
        bool)
        requires
            old(self).wf(),
            from_index.0 < 8,
            from_index.1 < 8,
            to_index.0 < 8,
            to_index.1 < 8,
        ensures
            final(self).wf(),
            r == capture_allowed(
                old(self)@,
                from_index.0 as int,
                from_index.1 as int,
                to_index.0 as int,
                to_index.1 as int,
            ),
            r ==> final(self)@ == apply_move(
                old(self)@,
                from_index.0 as int,
                from_index.1 as int,
                to_index.0 as int,
                to_index.1 as int,
            ),
            !r ==> final(self)@ == old(self)@,
    {
        let capturing_piece = self.piece_at(from_index.0, from_index.1);
        let from_color = self.get_color(from_index);
        let to_color = self.get_color(to_index);
        let differs: bool = match (from_color, to_color) {
            (None, None) => false,
            (Some(a), Some(b)) => !(a == b),
            _ => true,
        };
        if differs {
            self.board[to_index.0 * 8 + to_index.1] = capturing_piece;
            self.board[from_index.0 * 8 + from_index.1] = Pieces::Empty;
            true
        } else {
            false
        }
    }

    /// Knight rule: a (2, 1) jump in either orientation; nothing in between
    /// matters. Accepting the move performs it through capture resolution.
    pub fn move_knight(&mut self, from: &str, to: &str) -> (r: bool)
        requires
            old(self).wf(),
            valid_coord(from@),
            valid_coord(to@),
        ensures
            final(self).wf(),
            r == knight_move_ok(
                old(self)@,
                coord_row(from@),
                coord_col(from@),
                coord_row(to@),
                coord_col(to@),
            ),
            r ==> final(self)@ == apply_move(
                old(self)@,
                coord_row(from@),
                coord_col(from@),
                coord_row(to@),
                coord_col(to@),
            ),
            !r ==> final(self)@ == old(self)@,
    {
        let from_index = self.coordinate_to_index(from);
        let to_index = self.coordinate_to_index(to);
        let is_kind: bool = match self.piece_at(from_index.0, from_index.1) {
            Pieces::Knight(_) => true,
            _ => false,
        };
        if !is_kind {
            return false;
        }
        let dr = axis_delta(from_index.0, to_index.0);
        let dc = axis_delta(from_index.1, to_index.1);
        if (dr == 2 && dc == 1) || (dr == 1 && dc == 2) {
            self.check_piece_color(from_index, to_index)
        } else {
            false
        }
    }

    /// King rule as implemented: accepted whenever one axis delta is exactly
    /// one, with no bound on the other axis.
    pub fn move_king(&mut self, from: &str, to: &str) -> (r: bool)
        requires
            old(self).wf(),
            valid_coord(from@),
            valid_coord(to@),
        ensures
            final(self).wf(),
            r == king_move_ok(
                old(self)@,
                coord_row(from@),
                coord_col(from@),
                coord_row(to@),
                coord_col(to@),
            ),
            r ==> final(self)@ == apply_move(
                old(self)@,
                coord_row(from@),
                coord_col(from@),
                coord_row(to@),
                coord_col(to@),
            ),
            !r ==> final(self)@ == old(self)@,
    {
        let from_index = self.coordinate_to_index(from);
        let to_index = self.coordinate_to_index(to);
        let is_kind: bool = match self.piece_at(from_index.0, from_index.1) {
            Pieces::King(_) => true,
            _ => false,
        };
        if !is_kind {
            return false;
        }
        let dr = axis_delta(from_index.0, to_index.0);
        let dc = axis_delta(from_index.1, to_index.1);
        if dr == 1 || dc == 1 {
            self.check_piece_color(from_index, to_index)
        } else {
            false
        }
    }

    /// Rook rule: a straight line along one axis. Squares in between are not
    /// examined: the rook slides through occupied squares.
    pub fn move_rook(&mut self, from: &str, to: &str) -> (r: bool)
        requires
            old(self).wf(),
            valid_coord(from@),
            valid_coord(to@),
        ensures
            final(self).wf(),
            r == rook_move_ok(
                old(self)@,
                coord_row(from@),
                coord_col(from@),
                coord_row(to@),
                coord_col(to@),
            ),
            r ==> final(self)@ == apply_move(
                old(self)@,
                coord_row(from@),
                coord_col(from@),
                coord_row(to@),
                coord_col(to@),
            ),
            !r ==> final(self)@ == old(self)@,
    {
        let from_index = self.coordinate_to_index(from);
        let to_index = self.coordinate_to_index(to);
        let is_kind: bool = match self.piece_at(from_index.0, from_index.1) {
            Pieces::Rook(_) => true,
            _ => false,
        };
        if !is_kind {
            return false;
        }
        let dr = axis_delta(from_index.0, to_index.0);
        let dc = axis_delta(from_index.1, to_index.1);
        if (dr > 0 && dc == 0) || (dr == 0 && dc > 0) {
            self.check_piece_color(from_index, to_index)
        } else {
            false
        }
    }

    /// Queen rule: equal axis deltas or a straight line, with no obstruction
    /// check on either. A null displacement passes the shape test but is
    /// stopped by capture resolution, the origin being its own side.
    pub fn move_queen(&mut self, from: &str, to: &str) -> (r: bool)
        requires
            old(self).wf(),
            valid_coord(from@),
            valid_coord(to@),
        ensures
            final(self).wf(),
            r == queen_move_ok(
                old(self)@,
                coord_row(from@),
                coord_col(from@),
                coord_row(to@),
                coord_col(to@),
            ),
            r ==> final(self)@ == apply_move(
                old(self)@,
                coord_row(from@),
                coord_col(from@),
                coord_row(to@),
                coord_col(to@),
            ),
            !r ==> final(self)@ == old(self)@,
    {
        let from_index = self.coordinate_to_index(from);
        let to_index = self.coordinate_to_index(to);
        let is_kind: bool = match self.piece_at(from_index.0, from_index.1) {
            Pieces::Queen(_) => true,
            _ => false,
        };
        if !is_kind {
            return false;
        }
        let dr = axis_delta(from_index.0, to_index.0);
        let dc = axis_delta(from_index.1, to_index.1);
        if dr == dc || (dr > 0 && dc == 0) || (dr == 0 && dc > 0) {
            self.check_piece_color(from_index, to_index)
        } else {
            false
        }
    }

    /// Bishop rule: a nonzero diagonal, and every square strictly between
    /// origin and destination must be empty.
    #[verifier::loop_isolation(false)]
    pub fn move_bishop(&mut self, from: &str, to: &str) -> (r: bool)
        requires
            old(self).wf(),
            valid_coord(from@),
            valid_coord(to@),
        ensures
            final(self).wf(),
            r == bishop_move_ok(
                old(self)@,
                coord_row(from@),
                coord_col(from@),
                coord_row(to@),
                coord_col(to@),
            ),
            r ==> final(self)@ == apply_move(
                old(self)@,
                coord_row(from@),
                coord_col(from@),
                coord_row(to@),
                coord_col(to@),
            ),
            !r ==> final(self)@ == old(self)@,
    {
        let from_index = self.coordinate_to_index(from);
        let to_index = self.coordinate_to_index(to);
        let is_kind: bool = match self.piece_at(from_index.0, from_index.1) {
            Pieces::Bishop(_) => true,
            _ => false,
        };
        if !is_kind {
            return false;
        }
        let dr = axis_delta(from_index.0, to_index.0);
        let dc = axis_delta(from_index.1, to_index.1);
        if dr == dc && dr > 0 {
            let ghost fr = from_index.0 as int;
            let ghost fc = from_index.1 as int;
            let ghost tr = to_index.0 as int;
            let ghost tc = to_index.1 as int;
            let mut k: usize = 1;
            while k < dr
                invariant
                    self.wf(),
                    self@ == old(self)@,
                    from_index.0 < 8,
                    from_index.1 < 8,
                    to_index.0 < 8,
                    to_index.1 < 8,
                    fr == from_index.0 as int,
                    fc == from_index.1 as int,
                    tr == to_index.0 as int,
                    tc == to_index.1 as int,
                    dr == abs_delta(fr, tr),
                    dc == abs_delta(fc, tc),
                    dr == dc,
                    dr > 0,
                    1 <= k <= dr,
                    forall|j: int|
                        1 <= j < k ==> square_at(
                            self@,
                            #[trigger] step_toward(fr, tr, j),
                            step_toward(fc, tc, j),
                        ) is Empty,
                decreases dr - k,
            {
                let rr: usize = if to_index.0 > from_index.0 {
                    from_index.0 + k
                } else {
                    from_index.0 - k
                };
                let cc: usize = if to_index.1 > from_index.1 {
                    from_index.1 + k
                } else {
                    from_index.1 - k
                };
                let clear: bool = match self.piece_at(rr, cc) {
                    Pieces::Empty => true,
                    _ => false,
                };
                if !clear {
                    proof {
                        assert(rr as int == step_toward(fr, tr, k as int));
                        assert(cc as int == step_toward(fc, tc, k as int));
                        assert(!(square_at(
                            self@,
                            step_toward(fr, tr, k as int),
                            step_toward(fc, tc, k as int),
                        ) is Empty));
                        assert(!diagonal_clear(self@, fr, fc, tr, tc));
                    }
                    return false;
                }
                k += 1;
            }
            self.check_piece_color(from_index, to_index)
        } else {
            false
        }
    }

    /// Pawn rule: a quiet advance onto an empty square, one step forward or
    /// two from the home row with the square directly ahead unoccupied. A
    /// diagonal step onto an enemy piece performs the capture through
    /// capture resolution yet still reports the move as rejected; that
    /// asymmetry is deliberate and kept.
    pub fn move_pawn(&mut self, from: &str, to: &str) -> (r: bool)
        requires
            old(self).wf(),
            valid_coord(from@),
            valid_coord(to@),
        ensures
            final(self).wf(),
            r == pawn_move_ok(
                old(self)@,
                coord_row(from@),
                coord_col(from@),
                coord_row(to@),
                coord_col(to@),
            ),
            r ==> final(self)@ == apply_move(
                old(self)@,
                coord_row(from@),
                coord_col(from@),
                coord_row(to@),
                coord_col(to@),
            ),
            !r && pawn_capture_fires(
                old(self)@,
                coord_row(from@),
                coord_col(from@),
                coord_row(to@),
                coord_col(to@),
            ) ==> final(self)@ == apply_move(
                old(self)@,
                coord_row(from@),
                coord_col(from@),
                coord_row(to@),
                coord_col(to@),
            ),
            !r && !pawn_capture_fires(
                old(self)@,
                coord_row(from@),
                coord_col(from@),
                coord_row(to@),
                coord_col(to@),
            ) ==> final(self)@ == old(self)@,
    {
        let from_index = self.coordinate_to_index(from);
        let to_index = self.coordinate_to_index(to);
        let origin = self.piece_at(from_index.0, from_index.1);
        let is_white_pawn = origin == Pieces::Pawn(Color::White);
        let is_black_pawn = origin == Pieces::Pawn(Color::Black);
        if !is_white_pawn && !is_black_pawn {
            return false;
        }
        let dest_empty: bool = match self.piece_at(to_index.0, to_index.1) {
            Pieces::Empty => true,
            _ => false,
        };
        if !dest_empty {
            if axis_delta(to_index.0, from_index.0) == 1 && axis_delta(to_index.1, from_index.1)
                == 1 {
                self.check_piece_color(from_index, to_index);
            }
            return false;
        }
        let is_first_move = (is_white_pawn && from_index.0 == 1) || (is_black_pawn && from_index.0
            == 6);
        if is_first_move {
            let advance_ok: bool = if is_white_pawn {
                to_index.0 == from_index.0 + 1 || to_index.0 == from_index.0 + 2
            } else {
                to_index.0 + 1 == from_index.0 || to_index.0 + 2 == from_index.0
            };
            if advance_ok && to_index.1 == from_index.1 {
                let ahead: usize = if is_white_pawn {
                    from_index.0 + 1
                } else {
                    from_index.0 - 1
                };
                let ahead_clear: bool = match self.piece_at(ahead, from_index.1) {
                    Pieces::Empty => true,
                    _ => false,
                };
                if !ahead_clear {
                    return false;
                }
                self.check_piece_color(from_index, to_index)
            } else {
                false
            }
        } else {
            let advance_ok: bool = if is_white_pawn {
                to_index.0 == from_index.0 + 1
            } else {
                to_index.0 + 1 == from_index.0
            };
            if advance_ok && to_index.1 == from_index.1 {
                self.check_piece_color(from_index, to_index)
            } else {
                false
            }
        }
    }

    /// The board as display text, rank "1" first.
    #[verifier::loop_isolation(false)]
    pub fn render(&self) -> (out: Vec<char>)
        requires
            self.wf(),
        ensures
            out@ == render_spec(self@),
    {
        let mut out: Vec<char> = Vec::new();
        let mut r: usize = 0;
        while r < 8
            invariant
                r <= 8,
                out@ == board_chars(self@, r as int),
            decreases 8 - r,
        {
            let mut c: usize = 0;
            while c < 8
                invariant
                    r < 8,
                    c <= 8,
                    out@ == board_chars(self@, r as int) + row_chars(self@, r as int, c as int),
                decreases 8 - c,
            {
                out.push(self.piece_at(r, c).to_glyph());
                out.push(' ');
                proof {
                    assert(out@ =~= board_chars(self@, r as int) + row_chars(
                        self@,
                        r as int,
                        c as int + 1,
                    ));
                }
                c += 1;
            }
            out.push('\n');
            proof {
                assert(out@ =~= board_chars(self@, r as int + 1));
            }
            r += 1;
        }
        out
    }

    /// The full validation-and-apply operation: parse both coordinates,
    /// then let the rule of the piece standing on the origin square decide.
    /// A malformed coordinate rejects the move without touching the board;
    /// trying each piece rule in turn would reach the same outcome, since a
    /// rule whose kind does not match the origin rejects without effect.
    pub fn make_move(&mut self, from: &str, to: &str) -> (r: bool)
        requires
            old(self).wf(),
        ensures
            final(self).wf(),
            r == (strict_coord(from@) && strict_coord(to@) && move_ok(
                old(self)@,
                coord_row(from@),
                coord_col(from@),
                coord_row(to@),
                coord_col(to@),
            )),
            strict_coord(from@) && strict_coord(to@) ==> final(self)@ == board_after(
                old(self)@,
                coord_row(from@),
                coord_col(from@),
                coord_row(to@),
                coord_col(to@),
            ),
            !(strict_coord(from@) && strict_coord(to@)) ==> final(self)@ == old(self)@,
    {
        let from_index = match parse_coordinate(from) {
            Ok(i) => i,
            Err(_) => {
                return false;
            },
        };
        let to_ok = match parse_coordinate(to) {
            Ok(_) => true,
            Err(_) => false,
        };
        if !to_ok {
            return false;
        }
        match self.piece_at(from_index.0, from_index.1) {
            Pieces::Pawn(_) => self.move_pawn(from, to),
            Pieces::Knight(_) => self.move_knight(from, to),
            Pieces::King(_) => self.move_king(from, to),
            Pieces::Bishop(_) => self.move_bishop(from, to),
            Pieces::Rook(_) => self.move_rook(from, to),
            Pieces::Queen(_) => self.move_queen(from, to),
            Pieces::Empty => false,
        }
    }

    /// The original codec: resolves a coordinate the caller has already
    /// vouched for. The checked entry is `parse_coordinate`.
    pub fn coordinate_to_index(&self, coordinate: &str) -> (index: (usize, usize))
        requires
            valid_coord(coordinate@),
        ensures
            index.0 == coord_row(coordinate@),
            index.1 == coord_col(coordinate@),
            index.0 < 8,
            index.1 < 8,
    {
        let file_char = coordinate.get_char(0);
        let rank_char = coordinate.get_char(1);
        let file: usize = (file_char as u32 - 'a' as u32) as usize;
        let rank: usize = (rank_char as u32 - '1' as u32) as usize;
        (rank, file)
    }
}

} // verus!
