use crate::board::{
    apply_move, bishop_move_ok, board_index, king_move_ok, knight_move_ok, move_ok,
    pawn_capture_fires, pawn_move_ok, piece_color, queen_move_ok, rook_move_ok, square_at, Pieces,
};
use vstd::prelude::*;

verus! {

/// Whether a square holds a piece.
pub open spec fn is_occupied(p: Pieces) -> bool {
    !(p is Empty)
}

/// How many squares of a board hold a piece.
pub open spec fn occupied_count(b: Seq<Pieces>) -> int
    decreases b.len(),
{
    if b.len() == 0 {
        0
    } else {
        occupied_count(b.drop_last()) + if is_occupied(b.last()) {
            1int
        } else {
            0int
        }
    }
}

proof fn lemma_count_update(b: Seq<Pieces>, i: int, p: Pieces)
    requires
        0 <= i < b.len(),
    ensures
        occupied_count(b.update(i, p)) == occupied_count(b) + (if is_occupied(p) {
            1int
        } else {
            0int
        }) - (if is_occupied(b[i]) {
            1int
        } else {
            0int
        }),
    decreases b.len(),
{
    if i == b.len() - 1 {
        assert(b.update(i, p).drop_last() =~= b.drop_last());
    } else {
        assert(b.update(i, p).drop_last() =~= b.drop_last().update(i, p));
        lemma_count_update(b.drop_last(), i, p);
    }
}

/// Two distinct squares of the grid sit at distinct flat positions.
proof fn lemma_index_injective(r1: int, c1: int, r2: int, c2: int)
    requires
        0 <= c1 < 8,
        0 <= c2 < 8,
        board_index(r1, c1) == board_index(r2, c2),
    ensures
        r1 == r2 && c1 == c2,
{
}

/// Law: a piece operation applied where the origin square does not hold its
/// own kind of piece never accepts the move, whatever stands there and
/// wherever the move goes; for the pawn, the capture side effect cannot fire
/// either. With each operation's contract (a rejected move without the
/// capture side effect leaves the board as it was), a wrong-kind call
/// returns false and changes nothing.
pub proof fn lemma_wrong_kind_rejected(b: Seq<Pieces>, fr: int, fc: int, tr: int, tc: int)
    ensures
        !(square_at(b, fr, fc) is Pawn) ==> !pawn_move_ok(b, fr, fc, tr, tc)
            && !pawn_capture_fires(b, fr, fc, tr, tc),
        !(square_at(b, fr, fc) is Knight) ==> !knight_move_ok(b, fr, fc, tr, tc),
        !(square_at(b, fr, fc) is King) ==> !king_move_ok(b, fr, fc, tr, tc),
        !(square_at(b, fr, fc) is Bishop) ==> !bishop_move_ok(b, fr, fc, tr, tc),
        !(square_at(b, fr, fc) is Rook) ==> !rook_move_ok(b, fr, fc, tr, tc),
        !(square_at(b, fr, fc) is Queen) ==> !queen_move_ok(b, fr, fc, tr, tc),
{
}

/// Law: an accepted move changes exactly two squares, writing the moved
/// piece to the destination and emptying the origin; every other square
/// keeps its content. The number of occupied squares is unchanged by a
/// quiet move and drops by exactly one when the destination was occupied.
pub proof fn lemma_accepted_move_effect(b: Seq<Pieces>, fr: int, fc: int, tr: int, tc: int)
    requires
        b.len() == 64,
        0 <= fr < 8,
        0 <= fc < 8,
        0 <= tr < 8,
        0 <= tc < 8,
        move_ok(b, fr, fc, tr, tc),
    ensures
        !(fr == tr && fc == tc),
        is_occupied(square_at(b, fr, fc)),
        square_at(apply_move(b, fr, fc, tr, tc), fr, fc) is Empty,
        square_at(apply_move(b, fr, fc, tr, tc), tr, tc) == square_at(b, fr, fc),
        square_at(apply_move(b, fr, fc, tr, tc), fr, fc) != square_at(b, fr, fc),
        square_at(apply_move(b, fr, fc, tr, tc), tr, tc) != square_at(b, tr, tc),
        forall|r: int, c: int|
            0 <= r < 8 && 0 <= c < 8 && !(r == fr && c == fc) && !(r == tr && c == tc)
                ==> square_at(apply_move(b, fr, fc, tr, tc), r, c) == square_at(b, r, c),
        occupied_count(apply_move(b, fr, fc, tr, tc)) == occupied_count(b) - (if is_occupied(
            square_at(b, tr, tc),
        ) {
            1int
        } else {
            0int
        }),
{
    // Every accepted move passes capture resolution (for the pawn, the empty
    // destination has no side), so origin and destination hold different
    // sides and cannot be the same square.
    assert(piece_color(square_at(b, fr, fc)) != piece_color(square_at(b, tr, tc)));
    assert(!(fr == tr && fc == tc));
    assert(board_index(fr, fc) != board_index(tr, tc)) by {
        if board_index(fr, fc) == board_index(tr, tc) {
            lemma_index_injective(fr, fc, tr, tc);
        }
    }
    assert forall|r: int, c: int|
        0 <= r < 8 && 0 <= c < 8 && !(r == fr && c == fc) && !(r == tr && c == tc)
        implies square_at(apply_move(b, fr, fc, tr, tc), r, c) == square_at(b, r, c) by {
        if board_index(r, c) == board_index(fr, fc) {
            lemma_index_injective(r, c, fr, fc);
        }
        if board_index(r, c) == board_index(tr, tc) {
            lemma_index_injective(r, c, tr, tc);
        }
    }
    let moved = square_at(b, fr, fc);
    lemma_count_update(b, board_index(tr, tc), moved);
    lemma_count_update(b.update(board_index(tr, tc), moved), board_index(fr, fc), Pieces::Empty);
}

} // verus!
