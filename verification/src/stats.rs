//! Score and line counters, and the preview of the next piece.

use vstd::prelude::*;
use crate::board::Block;
use crate::piece::{PieceConfig, PieceType, piece_shape, shape_of, shift_piece};
use crate::queue::PieceQueue;

verus! {

/// The points of the game so far.
#[derive(Debug, Clone, Copy, PartialEq, Eq, Structural)]
pub struct Score(pub u32);

/// The number of lines cleared so far.
#[derive(Debug, Clone, Copy, PartialEq, Eq, Structural)]
pub struct Lines(pub u32);

/// The type of the piece that the preview shows, once it shows one.
#[derive(Debug, Clone, Copy, PartialEq, Eq, Structural)]
pub struct NextPieceType(pub Option<PieceType>);

/// The most lines that one piece can complete: a piece spans four rows at
/// most.
pub const MAX_LINES_PER_LOCK: u32 = 4;

/// The points for completing `line_count` lines with one piece.
pub open spec fn line_score(line_count: int) -> int {
    if line_count <= 0 {
        0
    } else if line_count == 1 {
        100
    } else if line_count == 2 {
        200
    } else if line_count == 3 {
        400
    } else {
        800
    }
}

/// The points for completing `line_count` lines with one piece.
pub fn points_for(line_count: u32) -> (points: u32)
    requires
        line_count <= MAX_LINES_PER_LOCK,
    ensures
        points == line_score(line_count as int),
{
    if line_count == 0 {
        0
    } else if line_count == 1 {
        100
    } else if line_count == 2 {
        200
    } else if line_count == 3 {
        400
    } else {
        800
    }
}

/// Counts the lines that one piece completed and awards their points.
pub fn apply_clear(score: &mut Score, lines: &mut Lines, line_count: u32)
    requires
        line_count <= MAX_LINES_PER_LOCK,
        old(score).0 + line_score(line_count as int) <= u32::MAX,
        old(lines).0 + line_count <= u32::MAX,
    ensures
        final(score).0 == old(score).0 + line_score(line_count as int),
        final(lines).0 == old(lines).0 + line_count,
{
    lines.0 = lines.0 + line_count;
    score.0 = score.0 + points_for(line_count);
}

/// Sets the score back to zero.
pub fn reset_score(score: &mut Score)
    ensures
        final(score).0 == 0,
{
    score.0 = 0;
}

/// Sets the line count back to zero.
pub fn reset_lines(lines: &mut Lines)
    ensures
        final(lines).0 == 0,
{
    lines.0 = 0;
}

/// Column offset of the preview from the spawn anchor.
pub const PREVIEW_DX: i32 = 8;

/// Row offset of the preview from the spawn anchor.
pub const PREVIEW_DY: i32 = 17;

/// The cells on which the preview shows a piece of the given type: beside
/// the board, near its top.
pub open spec fn preview_blocks(piece_type: PieceType) -> Seq<Block> {
    Seq::new(
        4,
        |i: int|
            Block {
                x: (shape_of(piece_type)[i].x + PREVIEW_DX) as i32,
                y: (shape_of(piece_type)[i].y + PREVIEW_DY) as i32,
            },
    )
}

/// Brings the preview up to date with the front of the queue.
///
/// Where the preview already shows the type of the next piece, nothing
/// changes and nothing is returned. Otherwise the preview takes that type,
/// and the piece to draw is returned: the next piece on the preview cells,
/// in its colour.
pub fn update_next_piece_board(queue: &PieceQueue, next_piece_type: &mut NextPieceType) -> (shown:
    Option<PieceConfig>)
    requires
        queue@.len() > 0,
    ensures
        final(next_piece_type).0 == Some(queue@[0].piece_type),
        shown is None == (old(next_piece_type).0 == Some(queue@[0].piece_type)),
        shown matches Some(config) ==> {
            &&& config.piece_type == queue@[0].piece_type
            &&& config.blocks@ == preview_blocks(queue@[0].piece_type)
            &&& config.color == queue@[0].color
        },
{
    let front = queue.0[0];
    let unchanged = match next_piece_type.0 {
        Some(shown_type) => shown_type == front.piece_type,
        None => false,
    };
    if unchanged {
        None
    } else {
        next_piece_type.0 = Some(front.piece_type);
        let blocks = shift_piece(piece_shape(front.piece_type), Some(PREVIEW_DX), Some(PREVIEW_DY));
        assert(blocks@ =~= preview_blocks(front.piece_type));
        Some(PieceConfig { piece_type: front.piece_type, blocks, color: front.color })
    }
}

} // verus!
