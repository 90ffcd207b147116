use vstd::prelude::*;

use crate::state::{clear_request, GameState};

verus! {

/// The velocity component that a block reverses: `X` when the ball meets the
/// block from the left or the right (the horizontal offset between the ball
/// and the block's nearest point is the larger), `Y` from above or below.
#[derive(Clone, Copy, Debug, PartialEq, Eq, Structural)]
pub enum Axis {
    X,
    Y,
}

/// The block that the ball destroys in a frame, by its position in the list
/// of blocks, and the velocity component it reverses.
#[derive(Clone, Copy, Debug, PartialEq, Eq, Structural)]
pub struct BlockHit {
    pub index: usize,
    pub axis: Axis,
}

/// The first block in `contacts` that the ball touches, if any. `contacts[i]`
/// is `None` when the ball does not touch block `i`, else the axis of the
/// contact.
pub open spec fn first_hit(contacts: Seq<Option<Axis>>) -> Option<BlockHit>
    decreases contacts.len(),
{
    if contacts.len() == 0 {
        None
    } else {
        match first_hit(contacts.drop_last()) {
            Some(h) => Some(h),
            None => match contacts.last() {
                Some(axis) => Some(BlockHit { index: (contacts.len() - 1) as usize, axis }),
                None => None,
            },
        }
    }
}

/// `first_hit` is the contact with the lowest index, and there is none
/// exactly when the ball touches no block.
pub proof fn lemma_first_hit_is_first(contacts: Seq<Option<Axis>>)
    requires
        contacts.len() <= usize::MAX,
    ensures
        match first_hit(contacts) {
            None => forall|i: int| 0 <= i < contacts.len() ==> contacts[i] is None,
            Some(h) => {
                &&& h.index < contacts.len()
                &&& contacts[h.index as int] == Some(h.axis)
                &&& forall|i: int| 0 <= i < h.index ==> contacts[i] is None
            },
        },
    decreases contacts.len(),
{
    if contacts.len() > 0 {
        let init = contacts.drop_last();
        lemma_first_hit_is_first(init);
        match first_hit(init) {
            Some(h) => {
                assert(contacts[h.index as int] == init[h.index as int]);
                assert forall|i: int| 0 <= i < h.index implies contacts[i] is None by {
                    assert(contacts[i] == init[i]);
                }
            },
            None => {
                assert forall|i: int| 0 <= i < contacts.len() - 1 implies contacts[i] is None by {
                    assert(contacts[i] == init[i]);
                }
            },
        }
    }
}

/// How many blocks are left once the frame's hit, if any, is despawned.
pub open spec fn blocks_left_after(count: nat, hit: Option<BlockHit>) -> nat {
    if hit is Some {
        (count - 1) as nat
    } else {
        count
    }
}

/// The block collision of a frame. Outside a round the system does not run
/// (`None`); in a round the ball destroys at most one block, the first one it
/// touches, and reverses the velocity component of that contact.
pub fn check_collision_block(state: GameState, contacts: &Vec<Option<Axis>>) -> (hit: Option<BlockHit>)
    ensures
        hit == (if state.plays() {
            first_hit(contacts@)
        } else {
            None
        }),
        state.plays() ==> match hit {
            None => forall|i: int| 0 <= i < contacts.len() ==> contacts[i] is None,
            Some(h) => {
                &&& h.index < contacts.len()
                &&& contacts[h.index as int] == Some(h.axis)
                &&& forall|i: int| 0 <= i < h.index ==> contacts[i] is None
            },
        },
{
    if !state.is_playing() {
        return None;
    }
    let n = contacts.len();
    let mut i: usize = 0;
    while i < n
        invariant
            n == contacts.len(),
            i <= n,
            state.plays(),
            first_hit(contacts@.take(i as int)) is None,
        decreases n - i,
    {
        let ghost prefix = contacts@.take((i + 1) as int);
        assert(prefix.drop_last() =~= contacts@.take(i as int));
        assert(prefix.last() == contacts@[i as int]);
        match contacts[i] {
            Some(axis) => {
                proof {
                    assert(first_hit(prefix) == Some(BlockHit { index: i, axis }));
                    lemma_first_hit_prefix(contacts@, (i + 1) as int);
                    lemma_first_hit_is_first(contacts@);
                }
                return Some(BlockHit { index: i, axis });
            },
            None => {},
        }
        i = i + 1;
    }
    assert(contacts@.take(n as int) =~= contacts@);
    proof {
        lemma_first_hit_is_first(contacts@);
    }
    None
}

/// Once a prefix holds a contact, the whole list has the same first hit.
proof fn lemma_first_hit_prefix(contacts: Seq<Option<Axis>>, k: int)
    requires
        0 <= k <= contacts.len(),
        first_hit(contacts.take(k)) is Some,
    ensures
        first_hit(contacts) == first_hit(contacts.take(k)),
    decreases contacts.len() - k,
{
    if k < contacts.len() {
        assert(contacts.take(k + 1).drop_last() =~= contacts.take(k));
        lemma_first_hit_prefix(contacts, k + 1);
    } else {
        assert(contacts.take(k) =~= contacts);
    }
}

/// A round is cleared in the very frame in which its last block is hit: with
/// a single block left, touching it requests `GameClear`.
pub proof fn lemma_last_block_clears(contacts: Seq<Option<Axis>>)
    requires
        contacts.len() == 1,
        contacts[0] is Some,
    ensures
        first_hit(contacts) is Some,
        blocks_left_after(contacts.len(), first_hit(contacts)) == 0,
        clear_request(
            GameState::Playing,
            blocks_left_after(contacts.len(), first_hit(contacts)),
        ) == Some(GameState::GameClear),
{
    lemma_first_hit_is_first(contacts);
}

/// A frame destroys at most one block, and destroys one exactly when the
/// ball touches some block.
pub proof fn lemma_at_most_one_block_per_frame(contacts: Seq<Option<Axis>>)
    requires
        contacts.len() <= usize::MAX,
    ensures
        blocks_left_after(contacts.len(), first_hit(contacts)) + 1 >= contacts.len(),
        blocks_left_after(contacts.len(), first_hit(contacts)) <= contacts.len(),
        (blocks_left_after(contacts.len(), first_hit(contacts)) < contacts.len())
            <==> exists|i: int| 0 <= i < contacts.len() && contacts[i] is Some,
{
    lemma_first_hit_is_first(contacts);
    match first_hit(contacts) {
        Some(h) => {
            assert(contacts[h.index as int] is Some);
        },
        None => {},
    }
}

} // verus!
