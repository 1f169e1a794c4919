//! The randomizer: it deals the seven piece types in cycles, each type once
//! in every cycle, in an order that the random draws decide.

use rand::Rng;
use vstd::prelude::*;
use crate::piece::{PieceConfig, PieceType};

verus! {

/// The seven piece types, in their declared order.
pub open spec fn all_piece_types() -> Seq<PieceType> {
    seq![
        PieceType::I,
        PieceType::J,
        PieceType::L,
        PieceType::O,
        PieceType::S,
        PieceType::T,
        PieceType::Z,
    ]
}

/// The types of a run of upcoming pieces.
pub open spec fn types_of(pieces: Seq<PieceConfig>) -> Seq<PieceType> {
    Seq::new(pieces.len(), |i: int| pieces[i].piece_type)
}

/// No type occurs twice.
pub open spec fn distinct_types(types: Seq<PieceType>) -> bool {
    forall|i: int, j: int| 0 <= i < j < types.len() ==> types[i] != types[j]
}

/// Every type occurs.
pub open spec fn every_type(types: Seq<PieceType>) -> bool {
    forall|t: PieceType| types.contains(t)
}

/// One cycle of the randomizer: seven pieces as they enter play, among which
/// each of the seven types occurs exactly once.
pub open spec fn is_bag(pieces: Seq<PieceConfig>) -> bool {
    &&& pieces.len() == PieceType::PIECE_AMOUNT
    &&& distinct_types(types_of(pieces))
    &&& every_type(types_of(pieces))
    &&& forall|i: int| 0 <= i < pieces.len() ==> (#[trigger] pieces[i]).is_spawn()
}

/// Which of the `remaining` types the `k`-th draw picks: the draw counts
/// into them, wrapping round; a draw that is missing picks the first.
pub open spec fn pick(remaining: nat, draws: Seq<u32>, k: int) -> int {
    if 0 <= k < draws.len() && remaining > 0 {
        draws[k] as int % remaining as int
    } else {
        0
    }
}

/// The order in which the draws from `k` on deal the remaining types: each
/// draw takes one of the types that are left.
pub open spec fn dealt(remaining: Seq<PieceType>, draws: Seq<u32>, k: int) -> Seq<PieceType>
    decreases remaining.len(),
{
    if remaining.len() == 0 {
        Seq::empty()
    } else {
        let p = pick(remaining.len(), draws, k);
        seq![remaining[p]] + dealt(remaining.remove(p), draws, k + 1)
    }
}

/// A number below `bound` from the thread's random generator.
///
/// Calls `rand::Rng::gen_range` on `rand::thread_rng()` with the range
/// `0..bound`. The contract claims only that the result lies in that range,
/// as the method documents; it panics on an empty range, which `requires`
/// leaves out.
#[verifier::external_body]
fn random_below(bound: u32) -> (drawn: u32)
    requires
        bound > 0,
    ensures
        drawn < bound,
{
    rand::thread_rng().gen_range(0..bound)
}

/// Taking one type from those that are left and dealing it keeps every type
/// in hand exactly once.
proof fn deal_keeps_types(out: Seq<PieceType>, remaining: Seq<PieceType>, p: int)
    requires
        0 <= p < remaining.len(),
        distinct_types(out + remaining),
        every_type(out + remaining),
    ensures
        distinct_types(out.push(remaining[p]) + remaining.remove(p)),
        every_type(out.push(remaining[p]) + remaining.remove(p)),
{
    let before = out + remaining;
    let after = out.push(remaining[p]) + remaining.remove(p);
    let n = out.len() as int;
    // where the item at index `i` of `after` stood in `before`
    let from = |i: int| if i < n { i } else if i == n { n + p } else if i <= n + p { i - 1 } else { i };
    assert forall|i: int| 0 <= i < after.len() implies after[i] == before[from(i)] by {}
    assert forall|i: int, j: int| 0 <= i < j < after.len() implies after[i] != after[j] by {
        assert(after[i] == before[from(i)]);
        assert(after[j] == before[from(j)]);
        assert(from(i) != from(j));
    }
    assert forall|t: PieceType| after.contains(t) by {
        assert(before.contains(t));
        let i = choose|i: int| 0 <= i < before.len() && before[i] == t;
        let to = if i < n { i } else if i == n + p { n } else if i < n + p { i + 1 } else { i };
        assert(after[to] == t);
    }
}

/// Deals one cycle in the order that the draws decide: the first draw picks
/// one of the seven types, the second one of the six that are left, and so
/// on. Whatever the draws, the cycle holds each type once.
pub fn cycle_from_draws(draws: &Vec<u32>) -> (cycle: Vec<PieceConfig>)
    ensures
        types_of(cycle@) == dealt(all_piece_types(), draws@, 0),
        is_bag(cycle@),
{
    let mut remaining: Vec<PieceType> = Vec::new();
    remaining.push(PieceType::I);
    remaining.push(PieceType::J);
    remaining.push(PieceType::L);
    remaining.push(PieceType::O);
    remaining.push(PieceType::S);
    remaining.push(PieceType::T);
    remaining.push(PieceType::Z);
    let mut cycle: Vec<PieceConfig> = Vec::new();
    let mut k: usize = 0;
    proof {
        assert(remaining@ =~= all_piece_types());
        assert(types_of(cycle@) + remaining@ =~= all_piece_types());
        assert forall|t: PieceType| all_piece_types().contains(t) by {
            match t {
                PieceType::I => assert(all_piece_types()[0] == t),
                PieceType::J => assert(all_piece_types()[1] == t),
                PieceType::L => assert(all_piece_types()[2] == t),
                PieceType::O => assert(all_piece_types()[3] == t),
                PieceType::S => assert(all_piece_types()[4] == t),
                PieceType::T => assert(all_piece_types()[5] == t),
                PieceType::Z => assert(all_piece_types()[6] == t),
            }
        }
        assert(types_of(cycle@) + dealt(remaining@, draws@, 0) =~= dealt(all_piece_types(), draws@, 0));
    }
    while remaining.len() > 0
        invariant
            k + remaining@.len() == 7,
            cycle@.len() == k,
            distinct_types(types_of(cycle@) + remaining@),
            every_type(types_of(cycle@) + remaining@),
            types_of(cycle@) + dealt(remaining@, draws@, k as int) == dealt(
                all_piece_types(),
                draws@,
                0,
            ),
            forall|i: int| 0 <= i < cycle@.len() ==> (#[trigger] cycle@[i]).is_spawn(),
        decreases remaining@.len(),
    {
        let p: usize = if k < draws.len() {
            draws[k] as usize % remaining.len()
        } else {
            0
        };
        let ghost before = remaining@;
        let ghost out = types_of(cycle@);
        assert(p == pick(before.len(), draws@, k as int));
        let piece_type = remaining.remove(p);
        cycle.push(PieceConfig::spawn(piece_type));
        proof {
            deal_keeps_types(out, before, p as int);
            assert(types_of(cycle@) =~= out.push(before[p as int]));
            assert(out + dealt(before, draws@, k as int) =~= types_of(cycle@) + dealt(
                remaining@,
                draws@,
                k + 1,
            ));
        }
        k += 1;
    }
    proof {
        assert(types_of(cycle@) + remaining@ =~= types_of(cycle@));
        assert(types_of(cycle@) + dealt(remaining@, draws@, k as int) =~= types_of(cycle@));
    }
    cycle
}

/// One cycle of the randomizer, in a random order: the seven piece types,
/// each once, as they enter play.
pub fn random_7_pieces() -> (cycle: Vec<PieceConfig>)
    ensures
        is_bag(cycle@),
{
    let mut draws: Vec<u32> = Vec::new();
    let mut left: u32 = PieceType::PIECE_AMOUNT;
    while left > 1
        invariant
            left <= PieceType::PIECE_AMOUNT,
        decreases left,
    {
        draws.push(random_below(left));
        left -= 1;
    }
    cycle_from_draws(&draws)
}

} // verus!
