//! Axis-aligned rotations and placements, and the pose model: how a card's
//! face-up/face-down and upright/sideways state turns its resting placement.

use vstd::prelude::*;

use crate::geometry::Point3;

verus! {

/// One of the three coordinate axes.
#[derive(Clone, Copy, Debug, PartialEq, Eq, Structural)]
pub enum Axis {
    X,
    Y,
    Z,
}

/// A unit vector along an axis, in its positive or its negative direction.
#[derive(Clone, Copy, Debug, PartialEq, Eq, Structural)]
pub struct SignedAxis {
    pub axis: Axis,
    pub negated: bool,
}

/// An axis-aligned rotation (a whole number of quarter turns about the axes),
/// given by the images of the three unit vectors: the columns of its matrix.
#[derive(Clone, Copy, Debug, PartialEq, Eq, Structural)]
pub struct Rotation {
    pub x: SignedAxis,
    pub y: SignedAxis,
    pub z: SignedAxis,
}

/// True for the cyclic orders of the axes (even permutations).
pub open spec fn even_order(a: Axis, b: Axis, c: Axis) -> bool {
    (a == Axis::X && b == Axis::Y && c == Axis::Z) || (a == Axis::Y && b == Axis::Z && c
        == Axis::X) || (a == Axis::Z && b == Axis::X && c == Axis::Y)
}

pub open spec fn odd_order(a: Axis, b: Axis, c: Axis) -> bool {
    (a == Axis::X && b == Axis::Z && c == Axis::Y) || (a == Axis::Z && b == Axis::Y && c
        == Axis::X) || (a == Axis::Y && b == Axis::X && c == Axis::Z)
}

pub open spec fn signed(axis: Axis, negated: bool) -> SignedAxis {
    SignedAxis { axis, negated }
}

impl Rotation {
    /// The image of the unit vector along `a`.
    pub open spec fn column(self, a: Axis) -> SignedAxis {
        match a {
            Axis::X => self.x,
            Axis::Y => self.y,
            Axis::Z => self.z,
        }
    }

    /// The image of a signed unit vector.
    pub open spec fn image(self, s: SignedAxis) -> SignedAxis {
        SignedAxis {
            axis: self.column(s.axis).axis,
            negated: self.column(s.axis).negated != s.negated,
        }
    }

    /// The rotation that applies `other` first and `self` after it
    /// (the matrix product `self * other`).
    pub open spec fn product(self, other: Rotation) -> Rotation {
        Rotation { x: self.image(other.x), y: self.image(other.y), z: self.image(other.z) }
    }

    /// A proper rotation: the columns are a permutation of the axes, with
    /// determinant one (an even permutation with an even number of
    /// negations, or an odd one with an odd number).
    pub open spec fn is_rotation(self) -> bool {
        let flips = (self.x.negated != self.y.negated) != self.z.negated;
        ||| even_order(self.x.axis, self.y.axis, self.z.axis) && !flips
        ||| odd_order(self.x.axis, self.y.axis, self.z.axis) && flips
    }

    pub open spec fn spec_identity() -> Rotation {
        Rotation {
            x: signed(Axis::X, false),
            y: signed(Axis::Y, false),
            z: signed(Axis::Z, false),
        }
    }

    /// Half a turn about the vertical axis: turns a card face down.
    pub open spec fn spec_half_turn_y() -> Rotation {
        Rotation {
            x: signed(Axis::X, true),
            y: signed(Axis::Y, false),
            z: signed(Axis::Z, true),
        }
    }

    /// A quarter turn about the depth axis, counterclockwise: lays a card on its side.
    pub open spec fn spec_quarter_turn_z() -> Rotation {
        Rotation {
            x: signed(Axis::Y, false),
            y: signed(Axis::X, true),
            z: signed(Axis::Z, false),
        }
    }

    /// A quarter turn about the depth axis, clockwise.
    pub open spec fn spec_quarter_turn_z_back() -> Rotation {
        Rotation {
            x: signed(Axis::Y, true),
            y: signed(Axis::X, false),
            z: signed(Axis::Z, false),
        }
    }

    pub fn identity() -> (r: Rotation)
        ensures
            r == Rotation::spec_identity(),
            r.is_rotation(),
    {
        Rotation {
            x: SignedAxis { axis: Axis::X, negated: false },
            y: SignedAxis { axis: Axis::Y, negated: false },
            z: SignedAxis { axis: Axis::Z, negated: false },
        }
    }

    pub fn half_turn_y() -> (r: Rotation)
        ensures
            r == Rotation::spec_half_turn_y(),
            r.is_rotation(),
    {
        Rotation {
            x: SignedAxis { axis: Axis::X, negated: true },
            y: SignedAxis { axis: Axis::Y, negated: false },
            z: SignedAxis { axis: Axis::Z, negated: true },
        }
    }

    pub fn quarter_turn_z() -> (r: Rotation)
        ensures
            r == Rotation::spec_quarter_turn_z(),
            r.is_rotation(),
    {
        Rotation {
            x: SignedAxis { axis: Axis::Y, negated: false },
            y: SignedAxis { axis: Axis::X, negated: true },
            z: SignedAxis { axis: Axis::Z, negated: false },
        }
    }

    pub fn quarter_turn_z_back() -> (r: Rotation)
        ensures
            r == Rotation::spec_quarter_turn_z_back(),
            r.is_rotation(),
    {
        Rotation {
            x: SignedAxis { axis: Axis::Y, negated: true },
            y: SignedAxis { axis: Axis::X, negated: false },
            z: SignedAxis { axis: Axis::Z, negated: false },
        }
    }

    /// The image of the unit vector along `a`.
    pub fn column_of(&self, a: Axis) -> (r: SignedAxis)
        ensures
            r == self.column(a),
    {
        match a {
            Axis::X => self.x,
            Axis::Y => self.y,
            Axis::Z => self.z,
        }
    }

    /// The image of a signed unit vector.
    pub fn apply_to_axis(&self, s: SignedAxis) -> (r: SignedAxis)
        ensures
            r == self.image(s),
    {
        let c = self.column_of(s.axis);
        SignedAxis { axis: c.axis, negated: c.negated != s.negated }
    }

    /// The rotation that applies `other` first and `self` after it.
    pub fn compose(&self, other: &Rotation) -> (r: Rotation)
        ensures
            r == self.product(*other),
            self.is_rotation() && other.is_rotation() ==> r.is_rotation(),
    {
        proof {
            lemma_product_is_rotation(*self, *other);
        }
        Rotation {
            x: self.apply_to_axis(other.x),
            y: self.apply_to_axis(other.y),
            z: self.apply_to_axis(other.z),
        }
    }
}

/// Rotations are closed under composition.
#[verifier::spinoff_prover]
pub proof fn lemma_product_is_rotation(a: Rotation, b: Rotation)
    ensures
        a.is_rotation() && b.is_rotation() ==> a.product(b).is_rotation(),
{
}

/// The placement of an object: where it stands and how it is turned.
#[derive(Clone, Copy, Debug, PartialEq, Eq, Structural)]
pub struct Placement {
    pub translation: Point3,
    pub rotation: Rotation,
}

impl Placement {
    /// The same placement, turned further by `r` (applied after its own rotation).
    pub open spec fn rotated(self, r: Rotation) -> Placement {
        Placement { translation: self.translation, rotation: r.product(self.rotation) }
    }

    pub fn from_translation(translation: Point3) -> (r: Placement)
        ensures
            r.translation == translation,
            r.rotation == Rotation::spec_identity(),
    {
        Placement { translation, rotation: Rotation::identity() }
    }

    pub fn from_xyz(x: i64, y: i64, z: i64) -> (r: Placement)
        ensures
            r.translation == (Point3 { x, y, z }),
            r.rotation == Rotation::spec_identity(),
    {
        Placement::from_translation(Point3 { x, y, z })
    }

    /// Turns the placement further by `r`, keeping its translation.
    pub fn rotate(&mut self, r: &Rotation)
        ensures
            *final(self) == old(self).rotated(*r),
    {
        self.rotation = r.compose(&self.rotation);
    }
}

/// How a card lies: face up or down, upright or on its side.
#[derive(Clone, Copy, Debug, PartialEq, Eq, Structural)]
pub struct CardState {
    /// The face shows.
    pub face_up: bool,
    /// The card stands upright rather than on its side.
    pub vertical: bool,
}

/// A placement under a pose: a face-down card is first turned half a turn
/// about the vertical axis, and a card on its side is then turned a quarter
/// turn about the depth axis. Without a pose the placement is kept.
pub open spec fn posed(trans: Placement, opt_card_state: Option<CardState>) -> Placement {
    match opt_card_state {
        None => trans,
        Some(state) => {
            let flipped = if !state.face_up {
                trans.rotated(Rotation::spec_half_turn_y())
            } else {
                trans
            };
            if !state.vertical {
                flipped.rotated(Rotation::spec_quarter_turn_z())
            } else {
                flipped
            }
        },
    }
}

/// The placement that `posed` maps onto `trans`: the two turns undone in
/// reverse order.
pub open spec fn unposed(trans: Placement, opt_card_state: Option<CardState>) -> Placement {
    match opt_card_state {
        None => trans,
        Some(state) => {
            let upright = if !state.vertical {
                trans.rotated(Rotation::spec_quarter_turn_z_back())
            } else {
                trans
            };
            if !state.face_up {
                upright.rotated(Rotation::spec_half_turn_y())
            } else {
                upright
            }
        },
    }
}

/// The placement of a card that rests at `trans` in the given pose.
pub fn calculate_transform(trans: Placement, opt_card_state: Option<CardState>) -> (r: Placement)
    ensures
        r == posed(trans, opt_card_state),
        trans.rotation.is_rotation() ==> r.rotation.is_rotation(),
{
    let mut res = trans;
    if let Some(card_state) = opt_card_state {
        if !card_state.face_up {
            res.rotate(&Rotation::half_turn_y());
        }
        if !card_state.vertical {
            res.rotate(&Rotation::quarter_turn_z());
        }
    }
    res
}

/// The resting placement of a card that shows at `trans` in the given pose.
pub fn calculate_transform_inverse(trans: Placement, opt_card_state: Option<CardState>) -> (r:
    Placement)
    ensures
        r == unposed(trans, opt_card_state),
        trans.rotation.is_rotation() ==> r.rotation.is_rotation(),
{
    let mut res = trans;
    if let Some(card_state) = opt_card_state {
        if !card_state.vertical {
            res.rotate(&Rotation::quarter_turn_z_back());
        }
        if !card_state.face_up {
            res.rotate(&Rotation::half_turn_y());
        }
    }
    res
}

/// Each turn of the pose model is undone by its inverse, on either side.
#[verifier::spinoff_prover]
pub proof fn lemma_turns_cancel(r: Rotation)
    ensures
        Rotation::spec_half_turn_y().product(Rotation::spec_half_turn_y().product(r)) == r,
        Rotation::spec_quarter_turn_z().product(Rotation::spec_quarter_turn_z_back().product(r))
            == r,
        Rotation::spec_quarter_turn_z_back().product(Rotation::spec_quarter_turn_z().product(r))
            == r,
{
    let h = Rotation::spec_half_turn_y();
    let q = Rotation::spec_quarter_turn_z();
    let b = Rotation::spec_quarter_turn_z_back();
    assert forall|s: SignedAxis| #[trigger] h.image(h.image(s)) == s by {
        match s.axis {
            Axis::X => {},
            Axis::Y => {},
            Axis::Z => {},
        }
    }
    assert forall|s: SignedAxis| #[trigger] q.image(b.image(s)) == s by {
        match s.axis {
            Axis::X => {},
            Axis::Y => {},
            Axis::Z => {},
        }
    }
    assert forall|s: SignedAxis| #[trigger] b.image(q.image(s)) == s by {
        match s.axis {
            Axis::X => {},
            Axis::Y => {},
            Axis::Z => {},
        }
    }
    assert(h.product(h.product(r)) == r) by {
        assert(h.image(h.image(r.x)) == r.x);
        assert(h.image(h.image(r.y)) == r.y);
        assert(h.image(h.image(r.z)) == r.z);
    }
    assert(q.product(b.product(r)) == r) by {
        assert(q.image(b.image(r.x)) == r.x);
        assert(q.image(b.image(r.y)) == r.y);
        assert(q.image(b.image(r.z)) == r.z);
    }
    assert(b.product(q.product(r)) == r) by {
        assert(b.image(q.image(r.x)) == r.x);
        assert(b.image(q.image(r.y)) == r.y);
        assert(b.image(q.image(r.z)) == r.z);
    }
}

/// Undoing a pose and then applying it again gives back the placement,
/// for every pose and every placement.
pub proof fn lemma_pose_round_trip(t: Placement, opt_card_state: Option<CardState>)
    ensures
        posed(unposed(t, opt_card_state), opt_card_state) == t,
{
    let b = Rotation::spec_quarter_turn_z_back();
    let h = Rotation::spec_half_turn_y();
    lemma_turns_cancel(t.rotation);
    lemma_turns_cancel(b.product(t.rotation));
    lemma_turns_cancel(h.product(t.rotation));
    lemma_turns_cancel(h.product(b.product(t.rotation)));
}

/// Applying a pose and then undoing it gives back the placement.
pub proof fn lemma_pose_undo(t: Placement, opt_card_state: Option<CardState>)
    ensures
        unposed(posed(t, opt_card_state), opt_card_state) == t,
{
    let q = Rotation::spec_quarter_turn_z();
    let h = Rotation::spec_half_turn_y();
    lemma_turns_cancel(t.rotation);
    lemma_turns_cancel(h.product(t.rotation));
    lemma_turns_cancel(q.product(t.rotation));
    lemma_turns_cancel(q.product(h.product(t.rotation)));
}

} // verus!
