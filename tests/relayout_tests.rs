use card3d_kit::card::{
    drag_step, hover_cancel_target, hover_target, zone_entry_plan, Card, CardNamer,
    ChangeCardState, DragAction, DragEvent, Dragged, EntryCue, HOVER_LIFT, RETURN_MS,
};
use card3d_kit::card::change_card_state;
use card3d_kit::drop::{drop_on_card, drop_on_zone, CardOnCard, CardOnZone, PartIndex};
use card3d_kit::geometry::{Point3, Size2, UNIT};
use card3d_kit::layout::calculate_fan_slots;
use card3d_kit::membership::MemberList;
use card3d_kit::pose::{calculate_transform, CardState, Placement, Rotation};
use card3d_kit::relayout::{
    added_desk_card, added_hand_card, change_desk_cards_event, change_hand_cards_event, desk_relayout,
    line_relayout, transfer, CardLine, Membership, MembershipEvent, DeskCard, DeskZone, DeskZoneChangedEvent, HandCard,
    HandCardChanged, Zone, HAND_BASE_RADIUS, HAND_MAX_ANGLE, RELAYOUT_MS,
};
use card3d_kit::tween::tweens_to_clear;

fn line_of(ids: &[u64]) -> CardLine {
    CardLine {
        transform: Placement::from_xyz(0, -6_700_000, 10 * UNIT),
        card_list: MemberList::from_ids(&ids.to_vec()),
    }
}

#[test]
fn join_twice_keeps_one_copy() {
    let mut m = MemberList::new();
    assert!(m.join(7));
    assert!(!m.join(7));
    assert_eq!(m.to_vec(), vec![7]);
    assert!(m.join(8));
    assert!(!m.join(7));
    assert_eq!(m.to_vec(), vec![7, 8]);
}

#[test]
fn leave_keeps_order_of_the_rest() {
    let mut m = MemberList::from_ids(&vec![1, 2, 3, 4]);
    assert_eq!(m.leave(2), Some(1));
    assert_eq!(m.to_vec(), vec![1, 3, 4]);
    assert_eq!(m.leave(9), None);
    assert_eq!(m.to_vec(), vec![1, 3, 4]);
    assert_eq!(m.index_of(4), Some(2));
    assert!(!m.contains(2));
}

#[test]
fn from_ids_drops_repetitions() {
    let m = MemberList::from_ids(&vec![5, 6, 5, 7, 6]);
    assert_eq!(m.to_vec(), vec![5, 6, 7]);
    assert_eq!(m.len(), 3);
    assert_eq!(m.get(2), 7);
}

#[test]
fn hand_relayout_moves_every_member() {
    let mut line = line_of(&[10, 11]);
    let change = HandCardChanged::Added { card_entity: 12, card_line_entity: 1 };
    let moves = change_hand_cards_event(&mut line, &change, None);
    assert_eq!(line.card_list.to_vec(), vec![10, 11, 12]);
    let slots = calculate_fan_slots(3, HAND_BASE_RADIUS, HAND_MAX_ANGLE, 10 * UNIT);
    assert_eq!(moves.len(), 3);
    for (i, mv) in moves.iter().enumerate() {
        assert_eq!(mv.card_entity, 10 + i as u64);
        assert_eq!(mv.slot, slots[i]);
        assert_eq!(mv.rotation, Rotation::identity());
        assert_eq!(mv.duration_ms, RELAYOUT_MS);
    }
}

#[test]
fn hand_relayout_applies_line_pose() {
    let line = line_of(&[1, 2]);
    let down = CardState { face_up: false, vertical: true };
    let moves = line_relayout(&line, Some(down));
    for mv in &moves {
        assert_eq!(mv.rotation, Rotation::half_turn_y());
        assert_eq!(mv.state, Some(down));
    }
}

#[test]
fn join_then_leave_restores_layout() {
    let mut line = line_of(&[1, 2, 3]);
    let before = line_relayout(&line, None);
    change_hand_cards_event(&mut line, &HandCardChanged::Added { card_entity: 4, card_line_entity: 9 }, None);
    assert_eq!(line.card_list.len(), 4);
    let after = change_hand_cards_event(
        &mut line,
        &HandCardChanged::Remove { card_entity: 4, card_line_entity: 9 },
        None,
    );
    assert_eq!(line.card_list.to_vec(), vec![1, 2, 3]);
    assert_eq!(after, before);
}

#[test]
fn leave_then_relayout_matches_fresh_layout() {
    let mut line = line_of(&[1, 2, 3, 4]);
    let moves = change_hand_cards_event(
        &mut line,
        &HandCardChanged::Remove { card_entity: 2, card_line_entity: 9 },
        None,
    );
    let fresh = line_relayout(&line_of(&[1, 3, 4]), None);
    assert_eq!(moves, fresh);
    assert_eq!(moves.len(), 3);
}

#[test]
fn duplicate_add_event_is_harmless() {
    let mut line = line_of(&[1, 2]);
    let add = HandCardChanged::Added { card_entity: 2, card_line_entity: 9 };
    let moves = change_hand_cards_event(&mut line, &add, None);
    assert_eq!(line.card_list.to_vec(), vec![1, 2]);
    assert_eq!(moves.len(), 2);
}

#[test]
fn marker_events() {
    let h = HandCard { belong_to_card_line: Some(3) };
    assert_eq!(
        added_hand_card(5, &h),
        Some(HandCardChanged::Added { card_entity: 5, card_line_entity: 3 })
    );
    assert_eq!(added_hand_card(5, &HandCard { belong_to_card_line: None }), None);
    let d = DeskCard { belongs_to_desk: Some(8) };
    assert_eq!(added_desk_card(6, &d), Some(DeskZoneChangedEvent::Added { desk: 8, card: 6 }));
    assert_eq!(added_desk_card(6, &DeskCard { belongs_to_desk: None }), None);
}

#[test]
fn desk_relayout_stacks_and_assigns_zone_pose() {
    let zone = Zone {
        center: Placement::from_xyz(15 * UNIT, -5 * UNIT, 0),
        size: Size2 { x: 3_700_000, y: 5 * UNIT },
    };
    let mut desk = DeskZone { card_list: MemberList::new(), opt_capacity: None };
    change_desk_cards_event(&mut desk, &DeskZoneChangedEvent::Added { desk: 1, card: 20 });
    change_desk_cards_event(&mut desk, &DeskZoneChangedEvent::Added { desk: 1, card: 21 });
    let zone_state = Some(CardState { face_up: false, vertical: true });
    let own = CardState { face_up: true, vertical: false };
    let moves = desk_relayout(&zone, &desk, zone_state, &vec![Some(own), None], 10_000);
    assert_eq!(moves.len(), 2);
    assert_eq!(moves[0].card, 20);
    assert_eq!(moves[0].origin, Placement::from_xyz(15 * UNIT, -5 * UNIT, 10_000));
    assert_eq!(moves[0].target.rotation, Rotation::quarter_turn_z());
    assert_eq!(moves[0].assign_state, None);
    assert_eq!(moves[1].origin, Placement::from_xyz(15 * UNIT, -5 * UNIT, 20_000));
    assert_eq!(moves[1].target.rotation, Rotation::half_turn_y());
    assert_eq!(moves[1].assign_state, zone_state);
    change_desk_cards_event(&mut desk, &DeskZoneChangedEvent::Removed { desk: 1, card: 20 });
    let moves = desk_relayout(&zone, &desk, None, &vec![], 10_000);
    assert_eq!(moves.len(), 1);
    assert_eq!(moves[0].card, 21);
    assert_eq!(moves[0].target, Placement::from_xyz(15 * UNIT, -5 * UNIT, 10_000));
}

#[test]
fn desk_relayout_tiles_with_capacity() {
    let zone = Zone { center: Placement::from_xyz(0, 0, 0), size: Size2 { x: UNIT, y: 4 * UNIT } };
    let desk = DeskZone { card_list: MemberList::from_ids(&vec![1, 2]), opt_capacity: Some(2) };
    let moves = desk_relayout(&zone, &desk, None, &vec![None, None], 1);
    assert_eq!(moves[0].origin.translation, Point3::new(0, -UNIT, 1));
    assert_eq!(moves[1].origin.translation, Point3::new(0, UNIT, 2));
}

#[test]
fn drag_cycle() {
    let card = Card { origin: Placement::from_xyz(1, 2, 3) };
    let down = Some(CardState { face_up: false, vertical: true });
    let (s, a) = drag_step(None, &card, down, DragEvent::Start);
    assert_eq!(s, Some(Dragged::Actively));
    assert_eq!(a, DragAction::Grab);
    let (s, a) = drag_step(s, &card, down, DragEvent::Done);
    assert_eq!(s, Some(Dragged::Actively));
    assert_eq!(a, DragAction::Nothing);
    let (s, a) = drag_step(s, &card, down, DragEvent::End);
    assert_eq!(s, Some(Dragged::GoingBackToPlace));
    assert_eq!(
        a,
        DragAction::ReturnTo { target: calculate_transform(card.origin, down), duration_ms: RETURN_MS }
    );
    let (s, a) = drag_step(s, &card, down, DragEvent::Done);
    assert_eq!(s, None);
    assert_eq!(a, DragAction::Release);
    let (s, a) = drag_step(None, &card, down, DragEvent::End);
    assert_eq!((s, a), (None, DragAction::Nothing));
}

#[test]
fn hover_lifts_and_returns() {
    let at = Placement::from_xyz(5, 6, 7);
    let lift = hover_target(at);
    assert_eq!(lift.target.translation, Point3::new(5, 6 + HOVER_LIFT, 7));
    let card = Card { origin: Placement::from_xyz(1, 1, 1) };
    let back = hover_cancel_target(&card, None);
    assert_eq!(back.target, card.origin);
    assert_eq!(back.duration_ms, RETURN_MS);
}

#[test]
fn pose_change_tweens_only_when_different() {
    let card = Card { origin: Placement::from_xyz(0, 0, 0) };
    let up = CardState { face_up: true, vertical: true };
    let down = CardState { face_up: false, vertical: true };
    let (s, t) = change_card_state(&card, up, ChangeCardState(up));
    assert_eq!(s, up);
    assert!(t.is_none());
    let (s, t) = change_card_state(&card, up, ChangeCardState(down));
    assert_eq!(s, down);
    let (start, tw) = t.unwrap();
    assert_eq!(start.rotation, Rotation::identity());
    assert_eq!(tw.target.rotation, Rotation::half_turn_y());
}

#[test]
fn zone_entry_phases() {
    let card = Card { origin: Placement::from_xyz(0, 0, 10 * UNIT) };
    let zone = Zone { center: Placement::from_xyz(3 * UNIT, 0, 0), size: Size2 { x: 5 * UNIT, y: 5 * UNIT } };
    let plan = zone_entry_plan(Point3::new(UNIT, 2 * UNIT, 12 * UNIT), &card, &zone, true);
    assert_eq!(plan.rise_to, Point3::new(UNIT, 2 * UNIT, 10 * UNIT));
    assert_eq!(plan.lift_to, Point3::new(UNIT, 2 * UNIT, 17 * UNIT));
    assert_eq!(plan.settle_to, Point3::new(3 * UNIT, 0, 0));
    assert_eq!(plan.origin, Placement::from_xyz(3 * UNIT, 0, 0));
    assert_eq!(
        plan.cues,
        vec![(EntryCue::SmallBoom, 1000), (EntryCue::Boom, 1400), (EntryCue::Shake, 2000)]
    );
    let quiet = zone_entry_plan(Point3::new(0, 0, 0), &card, &zone, false);
    assert!(quiet.cues.is_empty());
}

#[test]
fn namer_counts_from_one() {
    let mut n = CardNamer::new();
    assert_eq!(n.next_number(), 1);
    assert_eq!(n.next_number(), 2);
    assert_eq!(n.cards_named, 2);
}

#[test]
fn finished_animation_clears_its_tweens() {
    let children = vec![(1, true), (2, false), (3, true)];
    assert_eq!(tweens_to_clear(true, &children), vec![1, 3]);
    assert!(tweens_to_clear(false, &children).is_empty());
}

#[test]
fn drops_resolve_through_part_owners() {
    let mut index = PartIndex::new();
    index.register(100, 1);
    index.register(101, 1);
    index.register(200, 2);
    assert_eq!(index.owner_of(101), Some(1));
    assert_eq!(drop_on_card(&index, 100, 200), Some(CardOnCard { bottom_card: 1, top_card: 2 }));
    assert_eq!(drop_on_card(&index, 999, 200), None);
    assert_eq!(drop_on_zone(&index, 50, true, 200), Some(CardOnZone { card: 2, zone: 50 }));
    assert_eq!(drop_on_zone(&index, 50, false, 200), None);
    index.unregister(200);
    assert_eq!(drop_on_zone(&index, 50, true, 200), None);
}

#[test]
fn transfer_leaves_before_joining() {
    let (m, events) = transfer(5, Membership::InLine(1), Membership::OnDesk(2));
    assert_eq!(m, Membership::OnDesk(2));
    assert_eq!(
        events,
        vec![
            MembershipEvent::Hand(HandCardChanged::Remove { card_entity: 5, card_line_entity: 1 }),
            MembershipEvent::Desk(DeskZoneChangedEvent::Added { desk: 2, card: 5 }),
        ]
    );
    let (m, events) = transfer(5, Membership::OnDesk(2), Membership::OnDesk(2));
    assert_eq!(m, Membership::OnDesk(2));
    assert!(events.is_empty());
    let (_, events) = transfer(5, Membership::Free, Membership::InLine(3));
    assert_eq!(
        events,
        vec![MembershipEvent::Hand(HandCardChanged::Added { card_entity: 5, card_line_entity: 3 })]
    );
    let (m, events) = transfer(5, Membership::OnDesk(2), Membership::Free);
    assert_eq!(m, Membership::Free);
    assert_eq!(events, vec![MembershipEvent::Desk(DeskZoneChangedEvent::Removed { desk: 2, card: 5 })]);
}
