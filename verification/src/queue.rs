//! The queue of upcoming pieces and the spawning of the falling piece.

use std::collections::VecDeque;
use vstd::prelude::*;
use crate::piece::{ActivePiece, Movable, Orientation, PieceConfig, PieceType};
use crate::randomizer::{distinct_types, is_bag, random_7_pieces, types_of};

verus! {

/// The upcoming pieces, the next one in front.
#[derive(Debug)]
pub struct PieceQueue(pub VecDeque<PieceConfig>);

impl View for PieceQueue {
    type V = Seq<PieceConfig>;

    open spec fn view(&self) -> Seq<PieceConfig> {
        self.0@
    }
}

/// Every piece stands as it enters play.
pub open spec fn all_spawn(pieces: Seq<PieceConfig>) -> bool {
    forall|i: int| 0 <= i < pieces.len() ==> (#[trigger] pieces[i]).is_spawn()
}

/// The queue once it has been topped up: a queue of fewer than seven pieces
/// gets the cycle appended, a longer one is left alone.
pub open spec fn topped_up(pieces: Seq<PieceConfig>, cycle: Seq<PieceConfig>) -> Seq<PieceConfig> {
    if pieces.len() < PieceType::PIECE_AMOUNT {
        pieces + cycle
    } else {
        pieces
    }
}

/// The falling piece that an upcoming piece becomes: on its spawn cells, in
/// its first rotation state, free to move every way.
pub open spec fn spawned(config: PieceConfig) -> ActivePiece {
    ActivePiece {
        piece_type: config.piece_type,
        orientation: Orientation::Deg0,
        blocks: config.blocks,
        movable: Movable { can_down: true, can_left: true, can_right: true },
    }
}

/// The falling piece after spawning: a piece that is falling stays, and
/// where there is none the front of the queue enters play.
pub open spec fn piece_after_spawn(piece: Option<ActivePiece>, pieces: Seq<PieceConfig>) -> Option<
    ActivePiece,
> {
    if piece is None && pieces.len() > 0 {
        Some(spawned(pieces[0]))
    } else {
        piece
    }
}

/// The queue after spawning: it loses its front where that enters play.
pub open spec fn queue_after_spawn(piece: Option<ActivePiece>, pieces: Seq<PieceConfig>) -> Seq<
    PieceConfig,
> {
    if piece is None && pieces.len() > 0 {
        pieces.drop_first()
    } else {
        pieces
    }
}

/// The falling piece once the queue has been topped up from `cycle` and
/// the next piece has entered play where none was falling.
pub open spec fn piece_generated(
    piece: Option<ActivePiece>,
    pieces: Seq<PieceConfig>,
    cycle: Seq<PieceConfig>,
) -> Option<ActivePiece> {
    piece_after_spawn(piece, topped_up(pieces, cycle))
}

/// The queue once the next piece has entered play where none was falling:
/// it is topped up from `cycle` before the piece leaves it and again after,
/// so that a whole cycle stays in sight.
pub open spec fn queue_generated(
    piece: Option<ActivePiece>,
    pieces: Seq<PieceConfig>,
    cycle: Seq<PieceConfig>,
) -> Seq<PieceConfig> {
    topped_up(queue_after_spawn(piece, topped_up(pieces, cycle)), cycle)
}

/// The pieces come cycle by cycle: the last seven are a whole cycle, the
/// seven before them too, and so on, and among those that are left at the
/// front, at most seven, no type occurs twice.
pub open spec fn in_cycles(pieces: Seq<PieceConfig>) -> bool
    decreases pieces.len(),
{
    if pieces.len() <= 7 {
        distinct_types(types_of(pieces))
    } else {
        &&& is_bag(pieces.subrange(pieces.len() - 7, pieces.len() as int))
        &&& in_cycles(pieces.take(pieces.len() - 7))
    }
}

/// A queue that comes cycle by cycle still does so when its front has
/// left it.
pub proof fn front_leaves_cycles(pieces: Seq<PieceConfig>)
    requires
        in_cycles(pieces),
        pieces.len() > 0,
    ensures
        in_cycles(pieces.drop_first()),
    decreases pieces.len(),
{
    let rest = pieces.drop_first();
    if pieces.len() <= 7 {
        assert forall|i: int, j: int| 0 <= i < j < rest.len() implies types_of(rest)[i] != types_of(
            rest,
        )[j] by {
            assert(types_of(pieces)[i + 1] != types_of(pieces)[j + 1]);
        }
    } else if pieces.len() == 8 {
        assert(rest =~= pieces.subrange(pieces.len() - 7, pieces.len() as int));
    } else {
        assert(rest.subrange(rest.len() - 7, rest.len() as int) =~= pieces.subrange(
            pieces.len() - 7,
            pieces.len() as int,
        ));
        assert(rest.take(rest.len() - 7) =~= pieces.take(pieces.len() - 7).drop_first());
        front_leaves_cycles(pieces.take(pieces.len() - 7));
    }
}

/// A queue that comes cycle by cycle still does so when it is topped up
/// with a whole cycle.
pub proof fn top_up_keeps_cycles(pieces: Seq<PieceConfig>, cycle: Seq<PieceConfig>)
    requires
        in_cycles(pieces),
        is_bag(cycle),
    ensures
        in_cycles(topped_up(pieces, cycle)),
{
    if pieces.len() < 7 {
        let longer = pieces + cycle;
        if pieces.len() == 0 {
            assert(longer =~= cycle);
        } else {
            assert(longer.subrange(longer.len() - 7, longer.len() as int) =~= cycle);
            assert(longer.take(longer.len() - 7) =~= pieces);
        }
    }
}

/// Bag fairness along the queue: a queue that comes cycle by cycle still
/// does so after the next piece has entered play and the queue has been
/// topped up from a whole cycle. So the pieces enter play cycle by cycle,
/// each type once in every cycle.
pub proof fn generation_keeps_cycles(
    piece: Option<ActivePiece>,
    pieces: Seq<PieceConfig>,
    cycle: Seq<PieceConfig>,
)
    requires
        in_cycles(pieces),
        is_bag(cycle),
    ensures
        in_cycles(queue_generated(piece, pieces, cycle)),
{
    top_up_keeps_cycles(pieces, cycle);
    let topped = topped_up(pieces, cycle);
    if piece is None && topped.len() > 0 {
        front_leaves_cycles(topped);
    }
    top_up_keeps_cycles(queue_after_spawn(piece, topped), cycle);
}

impl PieceQueue {
    /// An empty queue.
    pub fn new() -> (queue: PieceQueue)
        ensures
            queue@ == Seq::<PieceConfig>::empty(),
    {
        PieceQueue(VecDeque::new())
    }

    /// The number of upcoming pieces.
    pub fn len(&self) -> (len: usize)
        ensures
            len == self@.len(),
    {
        self.0.len()
    }

    /// The piece that enters play next, without taking it.
    pub fn peek(&self) -> (front: Option<PieceConfig>)
        ensures
            front == if self@.len() > 0 { Some(self@[0]) } else { None },
    {
        if self.0.len() > 0 {
            Some(self.0[0])
        } else {
            None
        }
    }

    /// Whether every upcoming piece stands as it enters play.
    pub fn holds_spawns(&self) -> (ok: bool)
        ensures
            ok == all_spawn(self@),
    {
        let mut i: usize = 0;
        while i < self.0.len()
            invariant
                i <= self@.len(),
                forall|j: int| 0 <= j < i ==> (#[trigger] self@[j]).is_spawn(),
            decreases self@.len() - i,
        {
            if !self.0[i].stands_at_spawn() {
                return false;
            }
            i += 1;
        }
        true
    }

    /// Appends the pieces of a cycle in their order.
    pub fn extend(&mut self, cycle: &Vec<PieceConfig>)
        ensures
            final(self)@ == old(self)@ + cycle@,
    {
        let mut i: usize = 0;
        while i < cycle.len()
            invariant
                i <= cycle@.len(),
                self@ == old(self)@ + cycle@.take(i as int),
            decreases cycle@.len() - i,
        {
            self.0.push_back(cycle[i]);
            assert(self@ =~= old(self)@ + cycle@.take(i + 1));
            i += 1;
        }
        assert(cycle@.take(cycle@.len() as int) =~= cycle@);
    }

    /// Empties the queue and fills it with the given cycle.
    pub fn rebuild(&mut self, cycle: &Vec<PieceConfig>)
        ensures
            final(self)@ == cycle@,
    {
        self.0.clear();
        self.extend(cycle);
        assert(self@ =~= cycle@);
    }
}

/// A queue that holds one random cycle.
pub fn setup_piece_queue() -> (queue: PieceQueue)
    ensures
        is_bag(queue@),
        in_cycles(queue@),
{
    let mut queue = PieceQueue::new();
    let cycle = random_7_pieces();
    queue.extend(&cycle);
    assert(queue@ =~= cycle@);
    queue
}

/// Tops up the queue from the given cycle and lets the next piece enter
/// play where none is falling.
///
/// A queue of fewer than seven pieces gets the whole cycle appended; a
/// longer queue is left alone. Then, if no piece is falling, the front of
/// the queue becomes the falling piece, and the queue is topped up in the
/// same way once more, so that a whole cycle stays in sight.
pub fn generate_new_piece(
    piece: &mut Option<ActivePiece>,
    queue: &mut PieceQueue,
    cycle: &Vec<PieceConfig>,
)
    ensures
        *final(piece) == piece_generated(*old(piece), old(queue)@, cycle@),
        final(queue)@ == queue_generated(*old(piece), old(queue)@, cycle@),
        in_cycles(old(queue)@) && is_bag(cycle@) ==> in_cycles(final(queue)@),
{
    proof {
        if in_cycles(old(queue)@) && is_bag(cycle@) {
            generation_keeps_cycles(*old(piece), old(queue)@, cycle@);
        }
    }
    if queue.0.len() < PieceType::PIECE_AMOUNT as usize {
        queue.extend(cycle);
    }
    if piece.is_none() {
        match queue.0.pop_front() {
            Some(config) => {
                *piece = Some(
                    ActivePiece {
                        piece_type: config.piece_type,
                        orientation: Orientation::Deg0,
                        blocks: config.blocks,
                        movable: Movable { can_down: true, can_left: true, can_right: true },
                    },
                );
                assert(queue@ =~= topped_up(old(queue)@, cycle@).drop_first());
            },
            None => {},
        }
    }
    if queue.0.len() < PieceType::PIECE_AMOUNT as usize {
        queue.extend(cycle);
    }
}

/// Tops up the queue with a random cycle where fewer than seven pieces are
/// left, and lets the next piece enter play where none is falling.
pub fn auto_generate_new_piece(piece: &mut Option<ActivePiece>, queue: &mut PieceQueue)
    ensures
        *old(piece) is Some ==> *final(piece) == *old(piece),
        *final(piece) is Some,
        all_spawn(old(queue)@) ==> all_spawn(final(queue)@),
        in_cycles(old(queue)@) ==> in_cycles(final(queue)@),
        final(queue)@.len() >= PieceType::PIECE_AMOUNT,
        exists|cycle: Seq<PieceConfig>|
            {
                &&& is_bag(cycle)
                &&& *final(piece) == piece_generated(*old(piece), old(queue)@, cycle)
                &&& final(queue)@ == queue_generated(*old(piece), old(queue)@, cycle)
            },
{
    let cycle = random_7_pieces();
    generate_new_piece(piece, queue, &cycle);
    proof {
        let topped = topped_up(old(queue)@, cycle@);
        let left = queue_after_spawn(*old(piece), topped);
        if all_spawn(old(queue)@) {
            assert forall|i: int| 0 <= i < left.len() implies (#[trigger] left[i]).is_spawn() by {
                if *old(piece) is None {
                    assert(left[i] == topped[i + 1]);
                }
            }
        }
    }
}

} // verus!
