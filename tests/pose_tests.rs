use card3d_kit::geometry::Point3;
use card3d_kit::pose::{
    calculate_transform, calculate_transform_inverse, Axis, CardState, Placement, Rotation,
    SignedAxis,
};

fn sa(axis: Axis, negated: bool) -> SignedAxis {
    SignedAxis { axis, negated }
}

fn all_states() -> Vec<Option<CardState>> {
    let mut v = vec![None];
    for face_up in [true, false] {
        for vertical in [true, false] {
            v.push(Some(CardState { face_up, vertical }));
        }
    }
    v
}

#[test]
fn no_pose_keeps_placement() {
    let t = Placement::from_xyz(1, 2, 3);
    assert_eq!(calculate_transform(t, None), t);
    let up = CardState { face_up: true, vertical: true };
    assert_eq!(calculate_transform(t, Some(up)), t);
}

#[test]
fn face_down_turns_half_about_y() {
    let t = Placement::from_xyz(1, 2, 3);
    let r = calculate_transform(t, Some(CardState { face_up: false, vertical: true }));
    assert_eq!(r.translation, Point3::new(1, 2, 3));
    assert_eq!(r.rotation, Rotation::half_turn_y());
}

#[test]
fn horizontal_turns_quarter_about_z() {
    let t = Placement::from_xyz(0, 0, 0);
    let r = calculate_transform(t, Some(CardState { face_up: true, vertical: false }));
    assert_eq!(r.rotation, Rotation::quarter_turn_z());
}

#[test]
fn face_flip_comes_before_orientation() {
    let t = Placement::from_xyz(0, 0, 0);
    let r = calculate_transform(t, Some(CardState { face_up: false, vertical: false }));
    let expected = Rotation {
        x: sa(Axis::Y, true),
        y: sa(Axis::X, true),
        z: sa(Axis::Z, true),
    };
    assert_eq!(r.rotation, expected);
    let other_order = Rotation::half_turn_y().compose(&Rotation::quarter_turn_z());
    assert_ne!(r.rotation, other_order);
}

#[test]
fn pose_round_trip() {
    let start = Placement {
        translation: Point3::new(4, -5, 6),
        rotation: Rotation::quarter_turn_z_back(),
    };
    for s in all_states() {
        let back = calculate_transform(calculate_transform_inverse(start, s), s);
        assert_eq!(back, start);
        let undone = calculate_transform_inverse(calculate_transform(start, s), s);
        assert_eq!(undone, start);
    }
}

#[test]
fn quarter_turns_cancel() {
    let id = Rotation::identity();
    assert_eq!(Rotation::quarter_turn_z().compose(&Rotation::quarter_turn_z_back()), id);
    assert_eq!(Rotation::half_turn_y().compose(&Rotation::half_turn_y()), id);
    let q = Rotation::quarter_turn_z();
    assert_eq!(q.compose(&q), q.compose(&q).compose(&id));
    assert_eq!(q.apply_to_axis(sa(Axis::X, false)), sa(Axis::Y, false));
}
