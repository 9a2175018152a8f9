//! Lines and desk zones, their membership events, and the relayout that
//! every membership change triggers for all the members that remain.

use vstd::prelude::*;

use crate::geometry::{Point3, Size2, COORD_LIMIT, UNIT};
use crate::layout::{
    calculate_fan_slots, desk_layout, desk_slots, fan_layout, tile_count, FanSlot, MAX_MEMBERS,
};
use crate::membership::{joined, lemma_join_then_leave, lemma_left_at, left, MemberList};
use crate::pose::{calculate_transform, posed, CardState, Placement, Rotation};

verus! {

/// Radius of the arc on which a hand is fanned out.
pub const HAND_BASE_RADIUS: i64 = 200 * UNIT;

/// Widest spread of a hand: a quarter of pi taken as a number of degrees
/// (about 0.785 degrees), in millionths of a degree.
pub const HAND_MAX_ANGLE: i64 = 785_398;

/// Length, in milliseconds, of the tween that carries a card to a new place
/// after its line or zone changed.
pub const RELAYOUT_MS: u64 = 100;

/// A hand of cards: where it is anchored, and its members in order.
pub struct CardLine {
    pub transform: Placement,
    pub card_list: MemberList,
}

/// Marks a card as held in hand, by the line it belongs to.
#[derive(Clone, Copy, Debug, PartialEq, Eq, Structural)]
pub struct HandCard {
    pub belong_to_card_line: Option<u64>,
}

/// A change of a line's membership.
#[derive(Clone, Copy, Debug, PartialEq, Eq, Structural)]
pub enum HandCardChanged {
    Added { card_entity: u64, card_line_entity: u64 },
    Remove { card_entity: u64, card_line_entity: u64 },
}

/// What a relayout does to one member of a line: the fan slot it moves to,
/// the rotation it shows there, and the pose it takes from the line.
#[derive(Clone, Copy, Debug, PartialEq, Eq, Structural)]
pub struct LineMove {
    pub card_entity: u64,
    pub slot: FanSlot,
    pub rotation: Rotation,
    pub state: Option<CardState>,
    pub duration_ms: u64,
}

/// A rectangular region of the scene that cards can be dropped onto.
#[derive(Clone, Copy, Debug, PartialEq, Eq, Structural)]
pub struct Zone {
    pub center: Placement,
    pub size: Size2,
}

/// A zone that holds cards, stacked or, with a capacity, tiled.
pub struct DeskZone {
    pub card_list: MemberList,
    pub opt_capacity: Option<usize>,
}

/// Marks a card as lying on a desk zone.
#[derive(Clone, Copy, Debug, PartialEq, Eq, Structural)]
pub struct DeskCard {
    pub belongs_to_desk: Option<u64>,
}

/// A change of a desk zone's membership.
#[derive(Clone, Copy, Debug, PartialEq, Eq, Structural)]
pub enum DeskZoneChangedEvent {
    Added { desk: u64, card: u64 },
    Removed { desk: u64, card: u64 },
}

/// What a relayout does to one member of a desk zone: its new resting
/// placement, the placement it is carried to (its pose applied), and the
/// pose it takes from the zone, if it had none.
#[derive(Clone, Copy, Debug, PartialEq, Eq, Structural)]
pub struct DeskMove {
    pub card: u64,
    pub origin: Placement,
    pub target: Placement,
    pub assign_state: Option<CardState>,
    pub duration_ms: u64,
}

/// The placement at `p` with no rotation.
pub open spec fn upright_at(p: Point3) -> Placement {
    Placement { translation: p, rotation: Rotation::spec_identity() }
}

/// The members of a line after a change.
pub open spec fn hand_members_after(members: Seq<u64>, change: HandCardChanged) -> Seq<u64> {
    match change {
        HandCardChanged::Added { card_entity, .. } => joined(members, card_entity),
        HandCardChanged::Remove { card_entity, .. } => left(members, card_entity),
    }
}

/// The members of a desk zone after a change.
pub open spec fn desk_members_after(members: Seq<u64>, change: DeskZoneChangedEvent) -> Seq<u64> {
    match change {
        DeskZoneChangedEvent::Added { card, .. } => joined(members, card),
        DeskZoneChangedEvent::Removed { card, .. } => left(members, card),
    }
}

/// The relayout of a line with the given members: member `i` goes to slot
/// `i` of the fan for all of them, turned by the line's pose.
pub open spec fn line_plan(members: Seq<u64>, anchor: Placement, opt_state: Option<CardState>) -> Seq<
    LineMove,
> {
    let slots = fan_layout(
        members.len() as int,
        HAND_BASE_RADIUS as int,
        HAND_MAX_ANGLE as int,
        anchor.translation.z as int,
    );
    Seq::new(
        members.len(),
        |i: int|
            LineMove {
                card_entity: members[i],
                slot: slots[i],
                rotation: posed(upright_at(anchor.translation), opt_state).rotation,
                state: opt_state,
                duration_ms: RELAYOUT_MS,
            },
    )
}

/// The pose a desk member shows: its own, or else the zone's.
pub open spec fn desk_member_state(
    card_states: Seq<Option<CardState>>,
    zone_state: Option<CardState>,
    i: int,
) -> Option<CardState> {
    if 0 <= i < card_states.len() && card_states[i].is_some() {
        card_states[i]
    } else {
        zone_state
    }
}

/// The pose a desk member takes from the zone: the zone's, where it has none.
pub open spec fn desk_assigned_state(
    card_states: Seq<Option<CardState>>,
    zone_state: Option<CardState>,
    i: int,
) -> Option<CardState> {
    if 0 <= i < card_states.len() && card_states[i].is_some() {
        None
    } else {
        zone_state
    }
}

/// The relayout of a desk zone with the given members; `card_states[i]` is
/// the pose of member `i` (none where the sequence is shorter).
pub open spec fn desk_plan(
    members: Seq<u64>,
    zone: Zone,
    opt_capacity: Option<usize>,
    thick: int,
    zone_state: Option<CardState>,
    card_states: Seq<Option<CardState>>,
) -> Seq<DeskMove> {
    let ends = desk_layout(
        zone.center.translation,
        zone.size,
        thick,
        tile_count(opt_capacity),
        members.len() as int,
    );
    Seq::new(
        members.len(),
        |i: int|
            DeskMove {
                card: members[i],
                origin: upright_at(ends[i]),
                target: posed(
                    Placement { translation: ends[i], rotation: zone.center.rotation },
                    desk_member_state(card_states, zone_state, i),
                ),
                assign_state: desk_assigned_state(card_states, zone_state, i),
                duration_ms: RELAYOUT_MS,
            },
    )
}

pub open spec fn line_in_range(line: &CardLine) -> bool {
    &&& -COORD_LIMIT <= line.transform.translation.z <= COORD_LIMIT
    &&& line.card_list@.len() <= MAX_MEMBERS
}

pub open spec fn desk_in_range(zone: Zone, desk: &DeskZone, thick: int) -> bool {
    &&& -COORD_LIMIT <= zone.center.translation.y <= COORD_LIMIT
    &&& -COORD_LIMIT <= zone.center.translation.z <= COORD_LIMIT
    &&& 0 <= zone.size.y <= COORD_LIMIT
    &&& 0 <= thick <= COORD_LIMIT
    &&& tile_count(desk.opt_capacity) <= MAX_MEMBERS
    &&& desk.card_list@.len() <= MAX_MEMBERS
}

/// The membership event that a card newly marked as in hand raises.
pub fn added_hand_card(card_entity: u64, hand_card: &HandCard) -> (r: Option<HandCardChanged>)
    ensures
        r == match hand_card.belong_to_card_line {
            Some(line) => Some(HandCardChanged::Added { card_entity, card_line_entity: line }),
            None => None,
        },
{
    match hand_card.belong_to_card_line {
        Some(line) => Some(HandCardChanged::Added { card_entity, card_line_entity: line }),
        None => None,
    }
}

/// The membership event that a card newly put on a desk zone raises.
pub fn added_desk_card(card_entity: u64, desk_card: &DeskCard) -> (r: Option<DeskZoneChangedEvent>)
    ensures
        r == match desk_card.belongs_to_desk {
            Some(desk) => Some(DeskZoneChangedEvent::Added { desk, card: card_entity }),
            None => None,
        },
{
    match desk_card.belongs_to_desk {
        Some(desk) => Some(DeskZoneChangedEvent::Added { desk, card: card_entity }),
        None => None,
    }
}

/// Computes the relayout of every member of a line, from its current members.
/// A card that is being dragged stays a member and keeps its slot, so its
/// neighbours do not move while it is held; it returns to that slot when
/// released.
pub fn line_relayout(line: &CardLine, opt_state: Option<CardState>) -> (r: Vec<LineMove>)
    requires
        line_in_range(line),
    ensures
        r@ == line_plan(line.card_list@, line.transform, opt_state),
{
    let n = line.card_list.len();
    let slots = calculate_fan_slots(n, HAND_BASE_RADIUS, HAND_MAX_ANGLE, line.transform.translation.z);
    let rotation = calculate_transform(
        Placement::from_translation(line.transform.translation),
        opt_state,
    ).rotation;
    let mut moves: Vec<LineMove> = Vec::new();
    let mut i: usize = 0;
    while i < n
        invariant
            n == line.card_list@.len(),
            slots@ == fan_layout(
                n as int,
                HAND_BASE_RADIUS as int,
                HAND_MAX_ANGLE as int,
                line.transform.translation.z as int,
            ),
            rotation == posed(upright_at(line.transform.translation), opt_state).rotation,
            i <= n,
            moves@.len() == i,
            forall|j: int|
                #![trigger moves@[j]]
                0 <= j < i ==> moves@[j] == line_plan(line.card_list@, line.transform, opt_state)[j],
        decreases n - i,
    {
        let mv = LineMove {
            card_entity: line.card_list.get(i),
            slot: slots[i],
            rotation,
            state: opt_state,
            duration_ms: RELAYOUT_MS,
        };
        let ghost before = moves@;
        moves.push(mv);
        proof {
            assert(forall|j: int| 0 <= j < i ==> moves@[j] == before[j]);
        }
        i = i + 1;
    }
    proof {
        assert(moves@ =~= line_plan(line.card_list@, line.transform, opt_state));
    }
    moves
}

/// Applies a membership change to a line (a join appends the card unless it
/// is a member, a leave removes it) and computes the relayout of all the
/// members that remain.
pub fn change_hand_cards_event(line: &mut CardLine, change: &HandCardChanged, opt_state: Option<
    CardState,
>) -> (r: Vec<LineMove>)
    requires
        -COORD_LIMIT <= old(line).transform.translation.z <= COORD_LIMIT,
        hand_members_after(old(line).card_list@, *change).len() <= MAX_MEMBERS,
    ensures
        final(line).transform == old(line).transform,
        final(line).card_list@ == hand_members_after(old(line).card_list@, *change),
        r@ == line_plan(final(line).card_list@, final(line).transform, opt_state),
{
    match change {
        HandCardChanged::Added { card_entity, .. } => {
            line.card_list.join(*card_entity);
        },
        HandCardChanged::Remove { card_entity, .. } => {
            line.card_list.leave(*card_entity);
        },
    }
    line_relayout(line, opt_state)
}

/// Computes the relayout of every member of a desk zone; `card_states[i]`
/// is the pose of member `i`, if it has one.
pub fn desk_relayout(
    zone: &Zone,
    desk: &DeskZone,
    zone_state: Option<CardState>,
    card_states: &Vec<Option<CardState>>,
    thick: i64,
) -> (r: Vec<DeskMove>)
    requires
        desk_in_range(*zone, desk, thick as int),
    ensures
        r@ == desk_plan(
            desk.card_list@,
            *zone,
            desk.opt_capacity,
            thick as int,
            zone_state,
            card_states@,
        ),
{
    let n = desk.card_list.len();
    let ends = desk_slots(zone.center.translation, zone.size, thick, desk.opt_capacity, n);
    let mut moves: Vec<DeskMove> = Vec::new();
    let mut i: usize = 0;
    while i < n
        invariant
            n == desk.card_list@.len(),
            ends@ == desk_layout(
                zone.center.translation,
                zone.size,
                thick as int,
                tile_count(desk.opt_capacity),
                n as int,
            ),
            i <= n,
            moves@.len() == i,
            forall|j: int|
                #![trigger moves@[j]]
                0 <= j < i ==> moves@[j] == desk_plan(
                    desk.card_list@,
                    *zone,
                    desk.opt_capacity,
                    thick as int,
                    zone_state,
                    card_states@,
                )[j],
        decreases n - i,
    {
        let own = if i < card_states.len() {
            card_states[i]
        } else {
            None
        };
        let (shown, assigned) = match own {
            Some(_) => (own, None),
            None => (zone_state, zone_state),
        };
        let end = ends[i];
        let mv = DeskMove {
            card: desk.card_list.get(i),
            origin: Placement::from_translation(end),
            target: calculate_transform(
                Placement { translation: end, rotation: zone.center.rotation },
                shown,
            ),
            assign_state: assigned,
            duration_ms: RELAYOUT_MS,
        };
        let ghost before = moves@;
        moves.push(mv);
        proof {
            assert(forall|j: int| 0 <= j < i ==> moves@[j] == before[j]);
        }
        i = i + 1;
    }
    proof {
        assert(moves@ =~= desk_plan(
            desk.card_list@,
            *zone,
            desk.opt_capacity,
            thick as int,
            zone_state,
            card_states@,
        ));
    }
    moves
}

/// Applies a membership change to a desk zone: a join appends the card
/// unless it is a member, a leave removes it.
pub fn change_desk_cards_event(desk: &mut DeskZone, change: &DeskZoneChangedEvent)
    ensures
        final(desk).opt_capacity == old(desk).opt_capacity,
        final(desk).card_list@ == desk_members_after(old(desk).card_list@, *change),
{
    match change {
        DeskZoneChangedEvent::Added { card, .. } => {
            desk.card_list.join(*card);
        },
        DeskZoneChangedEvent::Removed { card, .. } => {
            desk.card_list.leave(*card);
        },
    }
}

/// Which line or desk zone a card belongs to: at most one at a time.
#[derive(Clone, Copy, Debug, PartialEq, Eq, Structural)]
pub enum Membership {
    Free,
    InLine(u64),
    OnDesk(u64),
}

/// A membership event of a line or of a desk zone.
#[derive(Clone, Copy, Debug, PartialEq, Eq, Structural)]
pub enum MembershipEvent {
    Hand(HandCardChanged),
    Desk(DeskZoneChangedEvent),
}

/// The event by which `card` leaves the collection it belongs to, if any.
pub open spec fn leave_events(card: u64, from: Membership) -> Seq<MembershipEvent> {
    match from {
        Membership::Free => Seq::empty(),
        Membership::InLine(line) => seq![
            MembershipEvent::Hand(
                HandCardChanged::Remove { card_entity: card, card_line_entity: line },
            ),
        ],
        Membership::OnDesk(desk) => seq![
            MembershipEvent::Desk(DeskZoneChangedEvent::Removed { desk, card }),
        ],
    }
}

/// The event by which `card` joins a collection, if any.
pub open spec fn join_events(card: u64, to: Membership) -> Seq<MembershipEvent> {
    match to {
        Membership::Free => Seq::empty(),
        Membership::InLine(line) => seq![
            MembershipEvent::Hand(
                HandCardChanged::Added { card_entity: card, card_line_entity: line },
            ),
        ],
        Membership::OnDesk(desk) => seq![
            MembershipEvent::Desk(DeskZoneChangedEvent::Added { desk, card }),
        ],
    }
}

/// The events of a move from one membership to another: nothing when they
/// are the same; else the old collection's leave, then the new one's join.
pub open spec fn transfer_events(card: u64, from: Membership, to: Membership) -> Seq<
    MembershipEvent,
> {
    if from == to {
        Seq::empty()
    } else {
        leave_events(card, from) + join_events(card, to)
    }
}

fn leave_event(card: u64, from: Membership) -> (r: Option<MembershipEvent>)
    ensures
        match r {
            Some(e) => leave_events(card, from) == seq![e],
            None => leave_events(card, from) == Seq::<MembershipEvent>::empty(),
        },
{
    match from {
        Membership::Free => None,
        Membership::InLine(line) => Some(
            MembershipEvent::Hand(
                HandCardChanged::Remove { card_entity: card, card_line_entity: line },
            ),
        ),
        Membership::OnDesk(desk) => Some(
            MembershipEvent::Desk(DeskZoneChangedEvent::Removed { desk, card }),
        ),
    }
}

fn join_event(card: u64, to: Membership) -> (r: Option<MembershipEvent>)
    ensures
        match r {
            Some(e) => join_events(card, to) == seq![e],
            None => join_events(card, to) == Seq::<MembershipEvent>::empty(),
        },
{
    match to {
        Membership::Free => None,
        Membership::InLine(line) => Some(
            MembershipEvent::Hand(
                HandCardChanged::Added { card_entity: card, card_line_entity: line },
            ),
        ),
        Membership::OnDesk(desk) => Some(
            MembershipEvent::Desk(DeskZoneChangedEvent::Added { desk, card }),
        ),
    }
}

/// Moves `card` from the membership `from` to `to`: the new membership, and
/// the events that carry the move out, to be handled in order.
pub fn transfer(card: u64, from: Membership, to: Membership) -> (r: (Membership, Vec<
    MembershipEvent,
>))
    ensures
        r.0 == to,
        r.1@ == transfer_events(card, from, to),
{
    let mut events: Vec<MembershipEvent> = Vec::new();
    if from == to {
        proof {
            assert(events@ =~= transfer_events(card, from, to));
        }
        return (to, events);
    }
    if let Some(e) = leave_event(card, from) {
        events.push(e);
    }
    if let Some(e) = join_event(card, to) {
        events.push(e);
    }
    proof {
        assert(events@ =~= transfer_events(card, from, to));
    }
    (to, events)
}

/// A card moved from a line to a desk zone, once the two events are handled,
/// is no longer in the line and is in the zone.
pub proof fn lemma_transfer_line_to_desk(
    card: u64,
    line: u64,
    desk: u64,
    line_members: Seq<u64>,
    desk_members: Seq<u64>,
)
    requires
        line_members.no_duplicates(),
    ensures
        transfer_events(card, Membership::InLine(line), Membership::OnDesk(desk)) == seq![
            MembershipEvent::Hand(
                HandCardChanged::Remove { card_entity: card, card_line_entity: line },
            ),
            MembershipEvent::Desk(DeskZoneChangedEvent::Added { desk, card }),
        ],
        !hand_members_after(
            line_members,
            HandCardChanged::Remove { card_entity: card, card_line_entity: line },
        ).contains(card),
        desk_members_after(desk_members, DeskZoneChangedEvent::Added { desk, card }).contains(
            card,
        ),
{
    assert(transfer_events(card, Membership::InLine(line), Membership::OnDesk(desk)) =~= seq![
        MembershipEvent::Hand(HandCardChanged::Remove { card_entity: card, card_line_entity: line }),
        MembershipEvent::Desk(DeskZoneChangedEvent::Added { desk, card }),
    ]);
    if line_members.contains(card) {
        let k = line_members.index_of(card);
        lemma_left_at(line_members, card, k);
        let r = line_members.remove(k);
        if r.contains(card) {
            let j = choose|j: int| 0 <= j < r.len() && r[j] == card;
            if j < k {
                assert(line_members[j] == line_members[k]);
            } else {
                assert(line_members[j + 1] == line_members[k]);
            }
        }
    }
    if !desk_members.contains(card) {
        assert(desk_members.push(card)[desk_members.len() as int] == card);
    }
}

/// Removing the member at position `k` and laying the line out again gives
/// the layout of a fresh line whose members are the others, in their order.
pub proof fn lemma_line_leave_then_relayout(
    members: Seq<u64>,
    k: int,
    card_line_entity: u64,
    anchor: Placement,
    opt_state: Option<CardState>,
)
    requires
        members.no_duplicates(),
        0 <= k < members.len(),
    ensures
        line_plan(
            hand_members_after(
                members,
                HandCardChanged::Remove { card_entity: members[k], card_line_entity },
            ),
            anchor,
            opt_state,
        ) == line_plan(members.remove(k), anchor, opt_state),
{
    lemma_left_at(members, members[k], k);
}

/// Removing the member at position `k` of a desk zone and laying it out
/// again gives the layout of a fresh zone whose members are the others, in
/// their order.
pub proof fn lemma_desk_leave_then_relayout(
    members: Seq<u64>,
    k: int,
    desk: u64,
    zone: Zone,
    opt_capacity: Option<usize>,
    thick: int,
    zone_state: Option<CardState>,
    card_states: Seq<Option<CardState>>,
)
    requires
        members.no_duplicates(),
        0 <= k < members.len(),
    ensures
        desk_plan(
            desk_members_after(members, DeskZoneChangedEvent::Removed { desk, card: members[k] }),
            zone,
            opt_capacity,
            thick,
            zone_state,
            card_states,
        ) == desk_plan(members.remove(k), zone, opt_capacity, thick, zone_state, card_states),
{
    lemma_left_at(members, members[k], k);
}

/// A card that joins a line and leaves it at once restores the line's
/// members, and with them its layout.
pub proof fn lemma_line_join_then_leave(
    members: Seq<u64>,
    card_entity: u64,
    card_line_entity: u64,
    anchor: Placement,
    opt_state: Option<CardState>,
)
    requires
        members.no_duplicates(),
        !members.contains(card_entity),
    ensures
        hand_members_after(
            hand_members_after(
                members,
                HandCardChanged::Added { card_entity, card_line_entity },
            ),
            HandCardChanged::Remove { card_entity, card_line_entity },
        ) == members,
        line_plan(
            hand_members_after(
                hand_members_after(
                    members,
                    HandCardChanged::Added { card_entity, card_line_entity },
                ),
                HandCardChanged::Remove { card_entity, card_line_entity },
            ),
            anchor,
            opt_state,
        ) == line_plan(members, anchor, opt_state),
{
    lemma_join_then_leave(members, card_entity);
}

/// Joining a line twice in a row changes it as joining once does.
pub proof fn lemma_line_join_idempotent(
    members: Seq<u64>,
    card_entity: u64,
    card_line_entity: u64,
)
    requires
        members.no_duplicates(),
    ensures
        ({
            let add = HandCardChanged::Added { card_entity, card_line_entity };
            hand_members_after(hand_members_after(members, add), add) == hand_members_after(
                members,
                add,
            )
        }),
{
    crate::membership::lemma_join_idempotent(members, card_entity);
}

} // verus!
