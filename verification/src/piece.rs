//! The seven tetrominoes: their shapes, colours and translation.

use vstd::prelude::*;
use crate::board::Block;

verus! {

/// The seven four-cell shapes.
#[derive(Debug, Clone, Copy, PartialEq, Eq, Structural)]
pub enum PieceType {
    // ####
    I,
    // #
    // ###
    J,
    //   #
    // ###
    L,
    // ##
    // ##
    O,
    //  ##
    // ##
    S,
    //  #
    // ###
    T,
    // ##
    //  ##
    Z,
}

impl PieceType {
    /// Number of piece types, and so of pieces in one cycle.
    pub const PIECE_AMOUNT: u32 = 7;

    /// The colour in which a piece of this type is drawn.
    pub fn color(self) -> (color: PieceColor)
        ensures
            color == color_of(self),
    {
        match self {
            PieceType::I => PieceColor::LightCyan,
            PieceType::J => PieceColor::Blue,
            PieceType::L => PieceColor::Orange,
            PieceType::O => PieceColor::Yellow,
            PieceType::S => PieceColor::Green,
            PieceType::T => PieceColor::Purple,
            PieceType::Z => PieceColor::Red,
        }
    }
}

/// The display colour of a piece.
#[derive(Debug, Clone, Copy, PartialEq, Eq, Structural)]
pub enum PieceColor {
    LightCyan,
    Blue,
    Orange,
    Yellow,
    Green,
    Purple,
    Red,
}

/// One of the four rotation states of a piece, named by the clockwise angle
/// from the state in which the piece enters play.
#[derive(Debug, Clone, Copy, PartialEq, Eq, Structural)]
pub enum Orientation {
    Deg0,
    Deg90,
    Deg180,
    Deg270,
}

impl Orientation {
    /// The state a clockwise quarter turn leads to.
    pub open spec fn turned(self) -> Orientation {
        match self {
            Orientation::Deg0 => Orientation::Deg90,
            Orientation::Deg90 => Orientation::Deg180,
            Orientation::Deg180 => Orientation::Deg270,
            Orientation::Deg270 => Orientation::Deg0,
        }
    }

    /// The state a clockwise quarter turn leads to.
    pub fn next(self) -> (after: Orientation)
        ensures
            after == self.turned(),
    {
        match self {
            Orientation::Deg0 => Orientation::Deg90,
            Orientation::Deg90 => Orientation::Deg180,
            Orientation::Deg180 => Orientation::Deg270,
            Orientation::Deg270 => Orientation::Deg0,
        }
    }
}

/// The directions in which the falling piece can move by one cell.
#[derive(Debug, Clone, Copy, PartialEq, Eq, Structural)]
pub struct Movable {
    pub can_down: bool,
    pub can_left: bool,
    pub can_right: bool,
}

/// The falling piece.
#[derive(Debug, Clone, Copy, PartialEq, Eq)]
pub struct ActivePiece {
    pub piece_type: PieceType,
    pub orientation: Orientation,
    pub blocks: [Block; 4],
    pub movable: Movable,
}

/// The falling piece as contracts see it: its cells are pairs of
/// mathematical integers.
pub struct PieceModel {
    pub piece_type: PieceType,
    pub orientation: Orientation,
    pub cells: Seq<(int, int)>,
    pub movable: Movable,
}

impl View for ActivePiece {
    type V = PieceModel;

    open spec fn view(&self) -> PieceModel {
        PieceModel {
            piece_type: self.piece_type,
            orientation: self.orientation,
            cells: cells_of(self.blocks@),
            movable: self.movable,
        }
    }
}

/// The cells of a piece as pairs of mathematical integers.
pub open spec fn cells_of(blocks: Seq<Block>) -> Seq<(int, int)> {
    Seq::new(blocks.len(), |i: int| blocks[i].pos())
}

/// The four cells of `piece_type` as it enters play, relative to the spawn
/// anchor.
pub open spec fn shape_of(piece_type: PieceType) -> Seq<Block> {
    match piece_type {
        PieceType::I => seq![
            Block { x: 3, y: 0 }, Block { x: 4, y: 0 }, Block { x: 5, y: 0 }, Block { x: 6, y: 0 }],
        PieceType::J => seq![
            Block { x: 3, y: 1 }, Block { x: 3, y: 0 }, Block { x: 4, y: 0 }, Block { x: 5, y: 0 }],
        PieceType::L => seq![
            Block { x: 3, y: 0 }, Block { x: 4, y: 0 }, Block { x: 5, y: 0 }, Block { x: 5, y: 1 }],
        PieceType::O => seq![
            Block { x: 4, y: 1 }, Block { x: 4, y: 0 }, Block { x: 5, y: 1 }, Block { x: 5, y: 0 }],
        PieceType::S => seq![
            Block { x: 3, y: 0 }, Block { x: 4, y: 0 }, Block { x: 4, y: 1 }, Block { x: 5, y: 1 }],
        PieceType::T => seq![
            Block { x: 3, y: 0 }, Block { x: 4, y: 1 }, Block { x: 4, y: 0 }, Block { x: 5, y: 0 }],
        PieceType::Z => seq![
            Block { x: 3, y: 1 }, Block { x: 4, y: 1 }, Block { x: 4, y: 0 }, Block { x: 5, y: 0 }],
    }
}

/// The four cells of `piece_type` relative to the spawn anchor.
pub fn piece_shape(piece_type: PieceType) -> (blocks: [Block; 4])
    ensures
        blocks@ == shape_of(piece_type),
{
    let blocks = match piece_type {
        PieceType::I => [
            Block { x: 3, y: 0 }, Block { x: 4, y: 0 }, Block { x: 5, y: 0 }, Block { x: 6, y: 0 }],
        PieceType::J => [
            Block { x: 3, y: 1 }, Block { x: 3, y: 0 }, Block { x: 4, y: 0 }, Block { x: 5, y: 0 }],
        PieceType::L => [
            Block { x: 3, y: 0 }, Block { x: 4, y: 0 }, Block { x: 5, y: 0 }, Block { x: 5, y: 1 }],
        PieceType::O => [
            Block { x: 4, y: 1 }, Block { x: 4, y: 0 }, Block { x: 5, y: 1 }, Block { x: 5, y: 0 }],
        PieceType::S => [
            Block { x: 3, y: 0 }, Block { x: 4, y: 0 }, Block { x: 4, y: 1 }, Block { x: 5, y: 1 }],
        PieceType::T => [
            Block { x: 3, y: 0 }, Block { x: 4, y: 1 }, Block { x: 4, y: 0 }, Block { x: 5, y: 0 }],
        PieceType::Z => [
            Block { x: 3, y: 1 }, Block { x: 4, y: 1 }, Block { x: 4, y: 0 }, Block { x: 5, y: 0 }],
    };
    assert(blocks@ =~= shape_of(piece_type));
    blocks
}

/// The colour in which a piece of the given type is drawn.
pub open spec fn color_of(piece_type: PieceType) -> PieceColor {
    match piece_type {
        PieceType::I => PieceColor::LightCyan,
        PieceType::J => PieceColor::Blue,
        PieceType::L => PieceColor::Orange,
        PieceType::O => PieceColor::Yellow,
        PieceType::S => PieceColor::Green,
        PieceType::T => PieceColor::Purple,
        PieceType::Z => PieceColor::Red,
    }
}

/// The row of the spawn anchor: one above the highest visible row.
pub const SPAWN_HEIGHT: i32 = 20;

/// The cells on which a piece of the given type enters play.
pub open spec fn spawn_blocks(piece_type: PieceType) -> Seq<Block> {
    Seq::new(
        4,
        |i: int|
            Block { x: shape_of(piece_type)[i].x, y: (shape_of(piece_type)[i].y + SPAWN_HEIGHT) as i32 },
    )
}

/// An upcoming piece: its type, the cells on which it enters play, and its
/// colour.
#[derive(Debug, Clone, Copy, PartialEq, Eq)]
pub struct PieceConfig {
    pub piece_type: PieceType,
    pub blocks: [Block; 4],
    pub color: PieceColor,
}

impl PieceConfig {
    /// A piece of the given type on the given cells, in the colour of its
    /// type.
    pub fn new(piece_type: PieceType, blocks: [Block; 4]) -> (config: PieceConfig)
        ensures
            config.piece_type == piece_type,
            config.blocks == blocks,
            config.color == color_of(piece_type),
    {
        PieceConfig { piece_type, blocks, color: piece_type.color() }
    }

    /// The piece stands on the spawn cells of its type, in the colour of
    /// its type.
    pub open spec fn is_spawn(self) -> bool {
        &&& self.blocks@ == spawn_blocks(self.piece_type)
        &&& self.color == color_of(self.piece_type)
    }

    /// Whether the piece stands on the spawn cells of its type, in the
    /// colour of its type.
    pub fn stands_at_spawn(&self) -> (ok: bool)
        ensures
            ok == self.is_spawn(),
    {
        let expected = PieceConfig::spawn(self.piece_type);
        let mut i: usize = 0;
        while i < 4
            invariant
                i <= 4,
                expected.blocks@ == spawn_blocks(self.piece_type),
                forall|j: int| 0 <= j < i ==> self.blocks@[j] == expected.blocks@[j],
            decreases 4 - i,
        {
            if self.blocks[i] != expected.blocks[i] {
                return false;
            }
            i += 1;
        }
        assert(self.blocks@ =~= expected.blocks@);
        self.color == expected.color
    }

    /// A piece of the given type as it enters play.
    pub fn spawn(piece_type: PieceType) -> (config: PieceConfig)
        ensures
            config.piece_type == piece_type,
            config.is_spawn(),
    {
        let blocks = shift_piece(piece_shape(piece_type), None, Some(SPAWN_HEIGHT));
        assert(blocks@ =~= spawn_blocks(piece_type));
        PieceConfig::new(piece_type, blocks)
    }
}

/// `delta` as an offset: an absent delta moves nothing.
pub open spec fn delta_of(delta: Option<i32>) -> int {
    match delta {
        Some(d) => d as int,
        None => 0,
    }
}

/// Moves one cell by the given deltas.
pub fn shift_block(block: Block, delta_x: Option<i32>, delta_y: Option<i32>) -> (moved: Block)
    requires
        i32::MIN <= block.x + delta_of(delta_x) <= i32::MAX,
        i32::MIN <= block.y + delta_of(delta_y) <= i32::MAX,
    ensures
        moved.x == block.x + delta_of(delta_x),
        moved.y == block.y + delta_of(delta_y),
{
    let mut block = block;
    match delta_x {
        Some(delta) => {
            block.x = block.x + delta;
        },
        None => {},
    }
    match delta_y {
        Some(delta) => {
            block.y = block.y + delta;
        },
        None => {},
    }
    block
}

/// Moves all four cells of a piece by the same deltas.
pub fn shift_piece(blocks: [Block; 4], delta_x: Option<i32>, delta_y: Option<i32>) -> (moved: [Block; 4])
    requires
        forall|i: int| 0 <= i < 4 ==> i32::MIN <= #[trigger] blocks[i].x + delta_of(delta_x) <= i32::MAX,
        forall|i: int| 0 <= i < 4 ==> i32::MIN <= #[trigger] blocks[i].y + delta_of(delta_y) <= i32::MAX,
    ensures
        forall|i: int| 0 <= i < 4 ==> (#[trigger] moved[i]).x == blocks[i].x + delta_of(delta_x),
        forall|i: int| 0 <= i < 4 ==> (#[trigger] moved[i]).y == blocks[i].y + delta_of(delta_y),
{
    [
        shift_block(blocks[0], delta_x, delta_y),
        shift_block(blocks[1], delta_x, delta_y),
        shift_block(blocks[2], delta_x, delta_y),
        shift_block(blocks[3], delta_x, delta_y),
    ]
}

} // verus!
