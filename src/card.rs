//! One card's transitions: dragging and returning, hovering, turning to a new
//! pose, and the staged entry onto a zone.

use vstd::prelude::*;

use crate::geometry::{Point3, UNIT};
use crate::pose::{calculate_transform, posed, CardState, Placement};
use crate::relayout::Zone;

verus! {

/// Length, in milliseconds, of the tween that returns a released card to its
/// place (and of the one that ends a hover).
pub const RETURN_MS: u64 = 40;

/// Length, in milliseconds, of the tween that lifts a hovered hand card.
pub const HOVER_MS: u64 = 10;

/// How far a hovered hand card is lifted.
pub const HOVER_LIFT: i64 = 2 * UNIT;

/// Length, in milliseconds, of the tween that turns a card to a new pose.
pub const POSE_CHANGE_MS: u64 = 600;

/// The three phases of a card's entry onto a zone, in milliseconds.
pub const ENTRY_RISE_MS: u64 = 1000;

pub const ENTRY_HOLD_MS: u64 = 1000;

pub const ENTRY_SETTLE_MS: u64 = 600;

/// How far a card entering a zone is lifted during the hold.
pub const ENTRY_LIFT: i64 = 7 * UNIT;

/// When, into the hold, the first cue of an entry fires.
pub const ENTRY_FIRST_CUE_MS: u64 = 400;

/// One physical card: the placement it rests at when nothing moves it.
#[derive(Clone, Copy, Debug, PartialEq, Eq, Structural)]
pub struct Card {
    pub origin: Placement,
}

/// A card under the pointer's control, or on its way back after release.
#[derive(Clone, Copy, Debug, PartialEq, Eq, Structural)]
pub enum Dragged {
    /// The card is being actively dragged.
    Actively,
    /// The card is no longer dragged and is going back to its place.
    GoingBackToPlace,
}

/// What happens to a card during a drag.
#[derive(Clone, Copy, Debug, PartialEq, Eq, Structural)]
pub enum DragEvent {
    /// The pointer takes hold of the card.
    Start,
    /// The pointer lets go of the card.
    End,
    /// The tween that returns the card to its place has finished.
    Done,
}

/// What the host does to a card after a drag event.
#[derive(Clone, Copy, Debug, PartialEq, Eq, Structural)]
pub enum DragAction {
    Nothing,
    /// Stop picking the card's visual parts, so that they do not catch the
    /// pointer while it drags the card.
    Grab,
    /// Pick the card's parts again and tween the card to `target`, then
    /// report the drag as done.
    ReturnTo { target: Placement, duration_ms: u64 },
    /// The drag is over: the card is settled.
    Release,
}

/// A tween of a card's placement toward `target`.
#[derive(Clone, Copy, Debug, PartialEq, Eq, Structural)]
pub struct TweenTo {
    pub target: Placement,
    pub duration_ms: u64,
}

/// The drag state machine: the next drag state of a card and what the host
/// does, for a card resting at `card.origin` in the given pose.
pub open spec fn drag_next(
    dragged: Option<Dragged>,
    card: Card,
    opt_state: Option<CardState>,
    event: DragEvent,
) -> (Option<Dragged>, DragAction) {
    match event {
        DragEvent::Start => (Some(Dragged::Actively), DragAction::Grab),
        DragEvent::End => match dragged {
            Some(_) => (
                Some(Dragged::GoingBackToPlace),
                DragAction::ReturnTo {
                    target: posed(card.origin, opt_state),
                    duration_ms: RETURN_MS,
                },
            ),
            None => (None, DragAction::Nothing),
        },
        DragEvent::Done => match dragged {
            Some(Dragged::GoingBackToPlace) => (None, DragAction::Release),
            _ => (dragged, DragAction::Nothing),
        },
    }
}

/// Steps the drag state machine of one card.
pub fn drag_step(
    dragged: Option<Dragged>,
    card: &Card,
    opt_state: Option<CardState>,
    event: DragEvent,
) -> (r: (Option<Dragged>, DragAction))
    ensures
        r == drag_next(dragged, *card, opt_state, event),
{
    match event {
        DragEvent::Start => (Some(Dragged::Actively), DragAction::Grab),
        DragEvent::End => match dragged {
            Some(_) => (
                Some(Dragged::GoingBackToPlace),
                DragAction::ReturnTo {
                    target: calculate_transform(card.origin, opt_state),
                    duration_ms: RETURN_MS,
                },
            ),
            None => (None, DragAction::Nothing),
        },
        DragEvent::Done => match dragged {
            Some(Dragged::GoingBackToPlace) => (None, DragAction::Release),
            _ => (dragged, DragAction::Nothing),
        },
    }
}

/// A full drag, from a settled card, ends with the card settled again,
/// after a return to its place in its pose.
pub proof fn lemma_drag_round_trip(card: Card, opt_state: Option<CardState>)
    ensures
        ({
            let (s1, a1) = drag_next(None, card, opt_state, DragEvent::Start);
            let (s2, a2) = drag_next(s1, card, opt_state, DragEvent::End);
            let (s3, a3) = drag_next(s2, card, opt_state, DragEvent::Done);
            &&& a1 == DragAction::Grab
            &&& a2 == (DragAction::ReturnTo {
                target: posed(card.origin, opt_state),
                duration_ms: RETURN_MS,
            })
            &&& s3 == None::<Dragged>
            &&& a3 == DragAction::Release
        }),
{
}

/// Where a hovered hand card is lifted to: `HOVER_LIFT` higher, turned as it is.
pub fn hover_target(current: Placement) -> (r: TweenTo)
    requires
        current.translation.y <= i64::MAX - HOVER_LIFT,
    ensures
        r.target.translation.x == current.translation.x,
        r.target.translation.y == current.translation.y + HOVER_LIFT,
        r.target.translation.z == current.translation.z,
        r.target.rotation == current.rotation,
        r.duration_ms == HOVER_MS,
{
    let t = current.translation;
    TweenTo {
        target: Placement {
            translation: Point3 { x: t.x, y: t.y + HOVER_LIFT, z: t.z },
            rotation: current.rotation,
        },
        duration_ms: HOVER_MS,
    }
}

/// Where a hand card goes when the pointer leaves it: back to its place in
/// its pose.
pub fn hover_cancel_target(card: &Card, opt_state: Option<CardState>) -> (r: TweenTo)
    ensures
        r.target == posed(card.origin, opt_state),
        r.duration_ms == RETURN_MS,
{
    TweenTo { target: calculate_transform(card.origin, opt_state), duration_ms: RETURN_MS }
}

/// A request to turn a card into a new pose.
#[derive(Clone, Copy, Debug, PartialEq, Eq, Structural)]
pub struct ChangeCardState(pub CardState);

/// Turns a card from its pose `current` to the requested one: the new pose,
/// and a tween from the card's place in the old pose to its place in the new
/// one, unless the two poses are the same.
pub fn change_card_state(card: &Card, current: CardState, change: ChangeCardState) -> (r: (
    CardState,
    Option<(Placement, TweenTo)>,
))
    ensures
        r.0 == change.0,
        r.1 == if change.0 == current {
            None
        } else {
            Some(
                (
                    posed(card.origin, Some(current)),
                    TweenTo {
                        target: posed(card.origin, Some(change.0)),
                        duration_ms: POSE_CHANGE_MS,
                    },
                ),
            )
        },
{
    if change.0.face_up != current.face_up || change.0.vertical != current.vertical {
        let start = calculate_transform(card.origin, Some(current));
        let end = calculate_transform(card.origin, Some(change.0));
        (change.0, Some((start, TweenTo { target: end, duration_ms: POSE_CHANGE_MS })))
    } else {
        (change.0, None)
    }
}

/// A cue that a zone entry fires for outside effects.
#[derive(Clone, Copy, Debug, PartialEq, Eq, Structural)]
pub enum EntryCue {
    SmallBoom,
    Boom,
    Shake,
}

/// The ceremonial entry of a card onto a zone: it rises to its resting level
/// above where it is, is lifted further while the first cues fire, then
/// descends onto the zone, which becomes its new resting place.
#[derive(Clone, Debug, PartialEq, Eq)]
pub struct ZoneEntry {
    pub rise_to: Point3,
    pub lift_to: Point3,
    pub settle_to: Point3,
    pub origin: Placement,
    /// Each cue with the time it fires, in milliseconds from the start.
    pub cues: Vec<(EntryCue, u64)>,
}

/// Plans the entry of a card, now at `current`, onto `zone`; `with_effects`
/// asks for the cues.
pub fn zone_entry_plan(current: Point3, card: &Card, zone: &Zone, with_effects: bool) -> (r:
    ZoneEntry)
    requires
        card.origin.translation.z <= i64::MAX - ENTRY_LIFT,
    ensures
        r.rise_to == (Point3 { z: card.origin.translation.z, ..current }),
        r.lift_to.x == current.x && r.lift_to.y == current.y,
        r.lift_to.z == card.origin.translation.z + ENTRY_LIFT,
        r.settle_to == zone.center.translation,
        r.origin == (Placement {
            translation: zone.center.translation,
            rotation: crate::pose::Rotation::spec_identity(),
        }),
        r.cues@ == if with_effects {
            seq![
                (EntryCue::SmallBoom, ENTRY_RISE_MS),
                (EntryCue::Boom, (ENTRY_RISE_MS + ENTRY_FIRST_CUE_MS) as u64),
                (EntryCue::Shake, (ENTRY_RISE_MS + ENTRY_HOLD_MS) as u64),
            ]
        } else {
            Seq::<(EntryCue, u64)>::empty()
        },
{
    let z = card.origin.translation.z;
    let mut cues: Vec<(EntryCue, u64)> = Vec::new();
    if with_effects {
        cues.push((EntryCue::SmallBoom, ENTRY_RISE_MS));
        cues.push((EntryCue::Boom, ENTRY_RISE_MS + ENTRY_FIRST_CUE_MS));
        cues.push((EntryCue::Shake, ENTRY_RISE_MS + ENTRY_HOLD_MS));
    }
    proof {
        if with_effects {
            assert(cues@ =~= seq![
                (EntryCue::SmallBoom, ENTRY_RISE_MS),
                (EntryCue::Boom, (ENTRY_RISE_MS + ENTRY_FIRST_CUE_MS) as u64),
                (EntryCue::Shake, (ENTRY_RISE_MS + ENTRY_HOLD_MS) as u64),
            ]);
        } else {
            assert(cues@ =~= Seq::<(EntryCue, u64)>::empty());
        }
    }
    ZoneEntry {
        rise_to: Point3 { x: current.x, y: current.y, z },
        lift_to: Point3 { x: current.x, y: current.y, z: z + ENTRY_LIFT },
        settle_to: zone.center.translation,
        origin: Placement::from_translation(zone.center.translation),
        cues,
    }
}

/// Counts the cards named so far, so that each new card gets the next number.
#[derive(Clone, Copy, Debug, PartialEq, Eq, Structural)]
pub struct CardNamer {
    pub cards_named: u32,
}

impl CardNamer {
    pub fn new() -> (r: CardNamer)
        ensures
            r.cards_named == 0,
    {
        CardNamer { cards_named: 0 }
    }

    /// Counts one more card and returns its number, starting from one.
    pub fn next_number(&mut self) -> (r: u32)
        requires
            old(self).cards_named < u32::MAX,
        ensures
            final(self).cards_named == old(self).cards_named + 1,
            r == final(self).cards_named,
    {
        self.cards_named = self.cards_named + 1;
        self.cards_named
    }
}

} // verus!
