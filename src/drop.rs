//! Which card owns each visual part, and the drop events traced through it.

use vstd::prelude::*;

use std::collections::HashMap;

verus! {

broadcast use vstd::std_specs::hash::group_hash_axioms;

/// Which card each visual part belongs to, kept beside the cards as they
/// are spawned, so that a drop on a part can be traced to its card.
pub struct PartIndex {
    owners: HashMap<u64, u64>,
}

impl View for PartIndex {
    type V = Map<u64, u64>;

    closed spec fn view(&self) -> Map<u64, u64> {
        self.owners@
    }
}

/// The card that owns `part`, if any.
pub open spec fn owner(index: Map<u64, u64>, part: u64) -> Option<u64> {
    if index.contains_key(part) {
        Some(index[part])
    } else {
        None
    }
}

impl PartIndex {
    pub fn new() -> (r: PartIndex)
        ensures
            r@ == Map::<u64, u64>::empty(),
    {
        PartIndex { owners: HashMap::new() }
    }

    /// Records that `part` belongs to `card`.
    pub fn register(&mut self, part: u64, card: u64)
        ensures
            final(self)@ == old(self)@.insert(part, card),
    {
        self.owners.insert(part, card);
    }

    /// Forgets the owner of `part`.
    pub fn unregister(&mut self, part: u64)
        ensures
            final(self)@ == old(self)@.remove(part),
    {
        self.owners.remove(&part);
    }

    /// The card that owns `part`, if any.
    pub fn owner_of(&self, part: u64) -> (r: Option<u64>)
        ensures
            r == owner(self@, part),
    {
        match self.owners.get(&part) {
            Some(card) => Some(*card),
            None => None,
        }
    }
}

/// A card was dropped onto a zone.
#[derive(Clone, Copy, Debug, PartialEq, Eq, Structural)]
pub struct CardOnZone {
    pub card: u64,
    pub zone: u64,
}

/// A card was dropped onto another card.
#[derive(Clone, Copy, Debug, PartialEq, Eq, Structural)]
pub struct CardOnCard {
    pub bottom_card: u64,
    pub top_card: u64,
}

/// The event for a drop of the part `dropped` onto the part `target`: both
/// must belong to cards, and then the target's card is the bottom one.
pub fn drop_on_card(index: &PartIndex, target: u64, dropped: u64) -> (r: Option<CardOnCard>)
    ensures
        r == match (owner(index@, target), owner(index@, dropped)) {
            (Some(bottom_card), Some(top_card)) => Some(CardOnCard { bottom_card, top_card }),
            _ => None,
        },
{
    match (index.owner_of(target), index.owner_of(dropped)) {
        (Some(bottom_card), Some(top_card)) => Some(CardOnCard { bottom_card, top_card }),
        _ => None,
    }
}

/// The event for a drop of the part `dropped` onto `zone`: the target must
/// be a zone and the part must belong to a card.
pub fn drop_on_zone(index: &PartIndex, zone: u64, is_zone: bool, dropped: u64) -> (r: Option<
    CardOnZone,
>)
    ensures
        r == if is_zone {
            match owner(index@, dropped) {
                Some(card) => Some(CardOnZone { card, zone }),
                None => None,
            }
        } else {
            None
        },
{
    if !is_zone {
        return None;
    }
    match index.owner_of(dropped) {
        Some(card) => Some(CardOnZone { card, zone }),
        None => None,
    }
}

} // verus!
