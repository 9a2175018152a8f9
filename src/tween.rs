//! Signals carried by tweens, and the clean-up of finished animations.

use vstd::prelude::*;

verus! {

/// Marks an animation whose tweens are despawned once it has run to its end.
#[derive(Clone, Copy, Debug, PartialEq, Eq, Structural)]
pub struct ClearOnFinish;

/// Signal, fired at the end of a return tween, that a card's drag is over.
#[derive(Clone, Copy, Debug, PartialEq, Eq, Structural)]
pub struct DeclareDraggingDoneForCard {
    pub card_entity: Option<u64>,
}

/// Signal, fired at the end of an effect, that its entity can go.
#[derive(Clone, Copy, Debug, PartialEq, Eq, Structural)]
pub struct DespawnEntityAfterAll {
    pub entity: Option<u64>,
}

/// The ids of the children that are tweens, in order; each child is its id
/// and whether it is a tween.
pub open spec fn tween_ids(children: Seq<(u64, bool)>) -> Seq<u64>
    decreases children.len(),
{
    if children.len() == 0 {
        Seq::empty()
    } else {
        let rest = tween_ids(children.drop_last());
        if children.last().1 {
            rest.push(children.last().0)
        } else {
            rest
        }
    }
}

/// The children of a finished animation to despawn: its tweens, where the
/// animation is marked `ClearOnFinish`, and none otherwise.
pub fn tweens_to_clear(has_clear_on_finish: bool, children: &Vec<(u64, bool)>) -> (r: Vec<u64>)
    ensures
        r@ == if has_clear_on_finish {
            tween_ids(children@)
        } else {
            Seq::<u64>::empty()
        },
{
    let mut ids: Vec<u64> = Vec::new();
    if !has_clear_on_finish {
        return ids;
    }
    let mut i: usize = 0;
    while i < children.len()
        invariant
            i <= children@.len(),
            ids@ == tween_ids(children@.subrange(0, i as int)),
        decreases children@.len() - i,
    {
        let (id, is_tween) = children[i];
        proof {
            assert(children@.subrange(0, i + 1).drop_last() =~= children@.subrange(0, i as int));
        }
        if is_tween {
            ids.push(id);
        }
        i = i + 1;
    }
    proof {
        assert(children@.subrange(0, children@.len() as int) =~= children@);
    }
    ids
}

} // verus!
