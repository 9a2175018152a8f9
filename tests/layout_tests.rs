use card3d_kit::geometry::{Point3, Size2, COORD_LIMIT, UNIT};
use card3d_kit::layout::{
    calculate_fan_slots, desk_slot, desk_slots, ANGLE_LIMIT, DEGREE, MAX_MEMBERS, RADIUS_STEP,
    Z_STAGGER,
};
use card3d_kit::relayout::HAND_MAX_ANGLE;

#[test]
fn hand_of_five() {
    let slots = calculate_fan_slots(5, 200 * UNIT, HAND_MAX_ANGLE, 10 * UNIT);
    assert_eq!(slots.len(), 5);
    let angles: Vec<i64> = slots.iter().map(|s| s.angle).collect();
    assert_eq!(angles, vec![-392_699, -196_349, 0, 196_349, 392_699]);
    for w in angles.windows(2) {
        assert!(w[0] < w[1]);
    }
    assert_eq!(slots[2].angle, 0);
    for s in &slots {
        assert_eq!(s.radius, 240 * UNIT);
    }
}

#[test]
fn fan_is_symmetric() {
    for n in 2..12usize {
        let slots = calculate_fan_slots(n, 200 * UNIT, HAND_MAX_ANGLE, 0);
        for i in 0..n {
            assert_eq!(slots[i].angle, -slots[n - 1 - i].angle);
            assert_eq!(slots[i].radius, slots[n - 1 - i].radius);
        }
    }
}

#[test]
fn single_card_is_tilted_by_half_the_spread() {
    let slots = calculate_fan_slots(1, 200 * UNIT, HAND_MAX_ANGLE, 0);
    assert_eq!(slots.len(), 1);
    assert_eq!(slots[0].angle, -392_699);
    assert_eq!(slots[0].radius, 200 * UNIT);
}

#[test]
fn empty_fan() {
    assert!(calculate_fan_slots(0, 200 * UNIT, HAND_MAX_ANGLE, 0).is_empty());
}

#[test]
fn spread_is_capped_per_card() {
    let slots = calculate_fan_slots(2, 100 * UNIT, 90 * DEGREE, 0);
    assert_eq!(slots[0].angle, -10 * DEGREE);
    assert_eq!(slots[1].angle, 10 * DEGREE);
    assert_eq!(slots[0].radius, 110 * UNIT);
}

#[test]
fn fan_depth_strictly_decreases() {
    let slots = calculate_fan_slots(6, 200 * UNIT, HAND_MAX_ANGLE, 10 * UNIT);
    for (i, s) in slots.iter().enumerate() {
        assert_eq!(s.z, 10 * UNIT - Z_STAGGER * i as i64);
    }
    for w in slots.windows(2) {
        assert!(w[0].z > w[1].z);
    }
}

#[test]
fn stack_depths_are_distinct_and_increasing() {
    let center = Point3::new(UNIT, 2 * UNIT, 3 * UNIT);
    let size = Size2 { x: 5 * UNIT, y: 5 * UNIT };
    let thick = UNIT / 100;
    let ps = desk_slots(center, size, thick, None, 4);
    assert_eq!(ps.len(), 4);
    for (i, p) in ps.iter().enumerate() {
        assert_eq!(p.x, UNIT);
        assert_eq!(p.y, 2 * UNIT);
        assert_eq!(p.z, 3 * UNIT + thick * (i as i64 + 1));
    }
    for w in ps.windows(2) {
        assert!(w[0].z < w[1].z);
    }
}

#[test]
fn tiles_sit_inside_the_zone() {
    let center = Point3::new(15 * UNIT, -5 * UNIT, 0);
    let size = Size2 { x: 3_700_000, y: 5 * UNIT };
    let ps = desk_slots(center, size, 10_000, Some(4), 3);
    let ys: Vec<i64> = ps.iter().map(|p| p.y).collect();
    assert_eq!(ys, vec![-6_875_000, -5_625_000, -4_375_000]);
    for p in &ps {
        assert!(2 * p.y > 2 * center.y - size.y);
        assert!(2 * p.y < 2 * center.y + size.y);
    }
    let full = desk_slots(center, size, 10_000, Some(3), 3);
    for p in &full {
        assert!(2 * p.y > 2 * center.y - size.y);
        assert!(2 * p.y < 2 * center.y + size.y);
    }
}

#[test]
fn tile_offsets_round_toward_zero() {
    let center = Point3::new(0, 0, 0);
    let size = Size2 { x: 1, y: 1 };
    assert_eq!(desk_slot(center, size, 1, Some(2), 0).y, 0);
    assert_eq!(desk_slot(center, Size2 { x: 0, y: 10 }, 1, Some(3), 0).y, -3);
    assert_eq!(desk_slot(center, Size2 { x: 0, y: 10 }, 1, Some(3), 2).y, 3);
}

#[test]
fn zero_capacity_stacks() {
    let center = Point3::new(0, 7 * UNIT, 0);
    let size = Size2 { x: UNIT, y: UNIT };
    let ps = desk_slots(center, size, 5, Some(0), 3);
    for (i, p) in ps.iter().enumerate() {
        assert_eq!(p.y, 7 * UNIT);
        assert_eq!(p.z, 5 * (i as i64 + 1));
    }
}

#[test]
fn largest_fan_stays_in_range() {
    let n = MAX_MEMBERS;
    let slots = calculate_fan_slots(n, COORD_LIMIT, ANGLE_LIMIT, -COORD_LIMIT);
    assert_eq!(slots.len(), n);
    let spread = 10 * DEGREE * n as i64;
    assert_eq!(slots[0].angle, -spread / 2);
    assert_eq!(slots[n - 1].angle, spread / 2);
    assert_eq!(slots[0].radius, COORD_LIMIT + RADIUS_STEP * (n as i64 - 1));
    assert_eq!(slots[n - 1].z, -COORD_LIMIT - Z_STAGGER * (n as i64 - 1));
    let negative = calculate_fan_slots(3, -COORD_LIMIT, -ANGLE_LIMIT, COORD_LIMIT);
    assert_eq!(negative[0].angle, ANGLE_LIMIT / 2);
    assert_eq!(negative[1].angle, 0);
}

#[test]
fn largest_desk_stays_in_range() {
    let center = Point3::new(0, COORD_LIMIT, -COORD_LIMIT);
    let size = Size2 { x: 0, y: COORD_LIMIT };
    let ps = desk_slots(center, size, COORD_LIMIT, Some(MAX_MEMBERS), MAX_MEMBERS);
    assert_eq!(ps.len(), MAX_MEMBERS);
    let last = ps[MAX_MEMBERS - 1];
    assert_eq!(last.z, -COORD_LIMIT + COORD_LIMIT * MAX_MEMBERS as i64);
    for p in [ps[0], last] {
        assert!(2 * p.y > 2 * center.y - size.y);
        assert!(2 * p.y < 2 * center.y + size.y);
    }
}
