//! The layout calculator: fan slots for a hand, and stacked or tiled
//! positions for a desk zone.

use vstd::prelude::*;

use crate::geometry::{
    div_toward_zero, lemma_trunc_div_bound, lemma_trunc_div_monotone, lemma_trunc_div_odd, trunc_div,
};
use crate::geometry::{Point3, Size2, COORD_LIMIT, UNIT};

verus! {

/// Number of fixed-point steps in one degree: angles are whole numbers of
/// millionths of a degree.
pub const DEGREE: i64 = 1_000_000;

/// Largest magnitude of an angle that the fan layout accepts.
pub const ANGLE_LIMIT: i64 = 0x100_0000_0000;

/// Largest number of members that a line or a zone lays out.
pub const MAX_MEMBERS: usize = 0x1_0000;

/// How much the fan radius grows for each card beyond the first.
pub const RADIUS_STEP: i64 = 10 * UNIT;

/// The widest spread that each card of a hand adds to the fan.
pub const SPREAD_PER_CARD: i64 = 10 * DEGREE;

/// How far (a hundredth of a unit) each card of a fan sits below the one
/// before it, for a stable
/// drawing order.
pub const Z_STAGGER: i64 = 10_000;

/// Where one card of a fan goes, before the arc is evaluated: its angle from
/// the vertical, the radius of the arc, and its depth.
#[derive(Clone, Copy, Debug, PartialEq, Eq, Structural)]
pub struct FanSlot {
    pub angle: i64,
    pub radius: i64,
    pub z: i64,
}

/// The total spread of a fan of `n` cards: the configured maximum, but no
/// more than `SPREAD_PER_CARD` for each card.
pub open spec fn fan_spread(n: int, max_angle: int) -> int {
    if max_angle <= SPREAD_PER_CARD * n {
        max_angle
    } else {
        SPREAD_PER_CARD * n
    }
}

/// The number of steps between the first and the last card, at least one.
pub open spec fn fan_divisor(n: int) -> int {
    if n >= 2 {
        n - 1
    } else {
        1
    }
}

/// The angle of card `i`: `-spread / 2 + i * spread / divisor`, computed
/// as one quotient rounded toward zero.
#[verifier::opaque]
pub open spec fn fan_angle(n: int, max_angle: int, i: int) -> int {
    let m = fan_divisor(n);
    trunc_div(fan_spread(n, max_angle) * (2 * i - m), 2 * m)
}

/// The radius of a fan of `n` cards.
pub open spec fn fan_radius(n: int, base_radius: int) -> int {
    base_radius + RADIUS_STEP * (n - 1)
}

/// The depth of card `i` of a fan at depth `z`.
pub open spec fn fan_depth(z: int, i: int) -> int {
    z - Z_STAGGER * i
}

/// The slots of a fan of `n` cards.
pub open spec fn fan_layout(n: int, base_radius: int, max_angle: int, z: int) -> Seq<FanSlot> {
    Seq::new(
        n as nat,
        |i: int|
            FanSlot {
                angle: fan_angle(n, max_angle, i) as i64,
                radius: fan_radius(n, base_radius) as i64,
                z: fan_depth(z, i) as i64,
            },
    )
}

pub open spec fn fan_inputs_in_range(n: int, base_radius: int, max_angle: int, z: int) -> bool {
    &&& 0 <= n <= MAX_MEMBERS
    &&& -COORD_LIMIT <= base_radius <= COORD_LIMIT
    &&& -ANGLE_LIMIT <= max_angle <= ANGLE_LIMIT
    &&& -COORD_LIMIT <= z <= COORD_LIMIT
}

#[verifier::spinoff_prover]
proof fn lemma_fan_angle_in_range(n: int, max_angle: int, i: int)
    requires
        1 <= n <= MAX_MEMBERS,
        0 <= i < n,
        -ANGLE_LIMIT <= max_angle <= ANGLE_LIMIT,
    ensures
        -ANGLE_LIMIT <= fan_spread(n, max_angle) <= ANGLE_LIMIT,
        -0x200_0000_0000_0000 <= fan_spread(n, max_angle) * (2 * i - fan_divisor(n))
            <= 0x200_0000_0000_0000,
        -ANGLE_LIMIT <= fan_angle(n, max_angle, i) <= ANGLE_LIMIT,
{
    reveal(fan_angle);
    let s = fan_spread(n, max_angle);
    let m = fan_divisor(n);
    let k = 2 * i - m;
    assert(SPREAD_PER_CARD * n <= ANGLE_LIMIT) by (nonlinear_arith)
        requires
            SPREAD_PER_CARD == 10_000_000,
            1 <= n <= 0x1_0000,
    ;
    assert(-m <= k <= 2 * n);
    assert(-0x2_0000 <= k <= 0x2_0000);
    assert(-0x200_0000_0000_0000 <= s * k <= 0x200_0000_0000_0000) by (nonlinear_arith)
        requires
            -0x100_0000_0000 <= s <= 0x100_0000_0000,
            -0x2_0000 <= k <= 0x2_0000,
    ;
    lemma_trunc_div_bound(s * k, 2 * m);
    // |s * k| <= |s| * 2m, hence the quotient is within |s|.
    assert(-s * 2 * m <= s * k <= s * 2 * m || s * 2 * m <= s * k <= -s * 2 * m) by (
    nonlinear_arith)
        requires
            -m <= k <= m,
    ;
    let q = trunc_div(s * k, 2 * m);
    if s * k >= 0 {
        assert(q <= ANGLE_LIMIT) by (nonlinear_arith)
            requires
                q * (2 * m) <= s * k,
                s * k <= s * 2 * m || s * k <= -s * 2 * m,
                -0x100_0000_0000 <= s <= 0x100_0000_0000,
                m >= 1,
        ;
    } else {
        assert(-q <= ANGLE_LIMIT) by (nonlinear_arith)
            requires
                -q * (2 * m) <= -(s * k),
                -s * 2 * m <= s * k || s * 2 * m <= s * k,
                -0x100_0000_0000 <= s <= 0x100_0000_0000,
                m >= 1,
        ;
    }
}

/// The angle of card `i`, from the spread and divisor of its fan.
fn fan_angle_at(n: i64, max_angle: i64, spread: i64, m: i64, i: i64) -> (r: i64)
    requires
        1 <= n <= MAX_MEMBERS,
        0 <= i < n,
        -ANGLE_LIMIT <= max_angle <= ANGLE_LIMIT,
        spread == fan_spread(n as int, max_angle as int),
        m == fan_divisor(n as int),
    ensures
        r == fan_angle(n as int, max_angle as int, i as int),
        -ANGLE_LIMIT <= r <= ANGLE_LIMIT,
{
    proof {
        lemma_fan_angle_in_range(n as int, max_angle as int, i as int);
        reveal(fan_angle);
    }
    let k = 2 * i - m;
    div_toward_zero(spread * k, 2 * m)
}

/// Computes the slots of a fan of `card_count` cards: an empty layout for
/// no cards.
pub fn calculate_fan_slots(card_count: usize, base_radius: i64, max_angle: i64, z: i64) -> (r: Vec<
    FanSlot,
>)
    requires
        fan_inputs_in_range(card_count as int, base_radius as int, max_angle as int, z as int),
    ensures
        r@ == fan_layout(card_count as int, base_radius as int, max_angle as int, z as int),
        forall|i: int|
            #![trigger r@[i]]
            0 <= i < card_count ==> {
                &&& r@[i].angle == fan_angle(card_count as int, max_angle as int, i)
                &&& r@[i].radius == fan_radius(card_count as int, base_radius as int)
                &&& r@[i].z == fan_depth(z as int, i)
            },
{
    let mut vec: Vec<FanSlot> = Vec::new();
    if card_count == 0 {
        proof {
            assert(vec@ =~= fan_layout(0, base_radius as int, max_angle as int, z as int));
        }
        return vec;
    }
    let n = card_count as i64;
    let cap = SPREAD_PER_CARD * n;
    let spread = if max_angle <= cap {
        max_angle
    } else {
        cap
    };
    let m: i64 = if n >= 2 {
        n - 1
    } else {
        1
    };
    assert(0 <= RADIUS_STEP * (n - 1) <= 0x100_0000_0000) by (nonlinear_arith)
        requires
            RADIUS_STEP == 10_000_000,
            1 <= n <= 0x1_0000,
    ;
    let radius = base_radius + RADIUS_STEP * (n - 1);
    let mut i: usize = 0;
    while i < card_count
        invariant
            fan_inputs_in_range(card_count as int, base_radius as int, max_angle as int, z as int),
            card_count >= 1,
            n == card_count,
            spread == fan_spread(n as int, max_angle as int),
            m == fan_divisor(n as int),
            radius == fan_radius(n as int, base_radius as int),
            i <= card_count,
            vec@.len() == i,
            forall|j: int|
                #![trigger vec@[j]]
                0 <= j < i ==> {
                    &&& vec@[j].angle == fan_angle(n as int, max_angle as int, j)
                    &&& vec@[j].radius == fan_radius(n as int, base_radius as int)
                    &&& vec@[j].z == fan_depth(z as int, j)
                },
        decreases card_count - i,
    {
        let angle = fan_angle_at(n, max_angle, spread, m, i as i64);
        let depth = z - Z_STAGGER * (i as i64);
        let ghost before = vec@;
        vec.push(FanSlot { angle, radius, z: depth });
        proof {
            assert(vec@[i as int].angle == fan_angle(n as int, max_angle as int, i as int));
            assert(vec@[i as int].z == fan_depth(z as int, i as int));
            assert(forall|j: int| 0 <= j < i ==> vec@[j] == before[j]);
        }
        i = i + 1;
    }
    proof {
        assert(vec@ =~= fan_layout(n as int, base_radius as int, max_angle as int, z as int));
    }
    vec
}

/// With two or more cards the fan is symmetric: card `i` and card
/// `n - 1 - i` have opposite angles on the same radius.
pub proof fn lemma_fan_symmetry(n: int, base_radius: int, max_angle: int, z: int, i: int)
    requires
        fan_inputs_in_range(n, base_radius, max_angle, z),
        n >= 2,
        0 <= i < n,
    ensures
        fan_layout(n, base_radius, max_angle, z)[i].angle == -fan_layout(
            n,
            base_radius,
            max_angle,
            z,
        )[n - 1 - i].angle,
        fan_layout(n, base_radius, max_angle, z)[i].radius == fan_layout(
            n,
            base_radius,
            max_angle,
            z,
        )[n - 1 - i].radius,
{
    reveal(fan_angle);
    let s = fan_spread(n, max_angle);
    let m = n - 1;
    assert(2 * (n - 1 - i) - m == -(2 * i - m));
    assert(s * (-(2 * i - m)) == -(s * (2 * i - m))) by (nonlinear_arith);
    lemma_trunc_div_odd(s * (2 * i - m), 2 * m);
    lemma_fan_angle_in_range(n, max_angle, i);
    lemma_fan_angle_in_range(n, max_angle, n - 1 - i);
}

/// With a spread that is not negative, the angles of a fan never decrease
/// from the first card to the last.
pub proof fn lemma_fan_angles_ordered(
    n: int,
    base_radius: int,
    max_angle: int,
    z: int,
    i: int,
    j: int,
)
    requires
        fan_inputs_in_range(n, base_radius, max_angle, z),
        max_angle >= 0,
        0 <= i <= j < n,
    ensures
        fan_layout(n, base_radius, max_angle, z)[i].angle <= fan_layout(
            n,
            base_radius,
            max_angle,
            z,
        )[j].angle,
{
    reveal(fan_angle);
    let s = fan_spread(n, max_angle);
    let m = fan_divisor(n);
    assert(s >= 0);
    assert(s * (2 * i - m) <= s * (2 * j - m)) by (nonlinear_arith)
        requires
            s >= 0,
            i <= j,
    ;
    lemma_trunc_div_monotone(s * (2 * i - m), s * (2 * j - m), 2 * m);
    lemma_fan_angle_in_range(n, max_angle, i);
    lemma_fan_angle_in_range(n, max_angle, j);
}

/// The depths of a fan strictly decrease from the first card to the last.
pub proof fn lemma_fan_depth_decreasing(
    n: int,
    base_radius: int,
    max_angle: int,
    z: int,
    i: int,
    j: int,
)
    requires
        fan_inputs_in_range(n, base_radius, max_angle, z),
        0 <= i < j < n,
    ensures
        fan_layout(n, base_radius, max_angle, z)[i].z > fan_layout(n, base_radius, max_angle, z)[j].z,
{
}

/// The number of tiling slots that a capacity asks for: none without a
/// capacity, and none for a capacity of zero, which lays the cards out as a
/// plain stack.
pub open spec fn tile_count(opt_capacity: Option<usize>) -> int {
    match opt_capacity {
        Some(c) => c as int,
        None => 0,
    }
}

/// The y of member `i` of a desk zone: the zone's centre for a stack; with
/// `c` slots, the centre of slot `i` of `c` equal slots across the zone's
/// height, `center_y - height / 2 + height / (2 c) + i * height / c`, as one
/// quotient rounded toward zero.
pub open spec fn desk_row(center_y: int, height: int, c: int, i: int) -> int {
    if c >= 1 {
        center_y + trunc_div(height * (2 * i + 1 - c), 2 * c)
    } else {
        center_y
    }
}

/// The depth of member `i` of a desk zone: one card thickness above the one
/// before it, the first one card thickness above the zone.
pub open spec fn desk_depth(center_z: int, thick: int, i: int) -> int {
    center_z + thick * (i + 1)
}

/// The positions of the `n` members of a desk zone.
pub open spec fn desk_layout(center: Point3, size: Size2, thick: int, c: int, n: int) -> Seq<
    Point3,
> {
    Seq::new(
        n as nat,
        |i: int|
            Point3 {
                x: center.x,
                y: desk_row(center.y as int, size.y as int, c, i) as i64,
                z: desk_depth(center.z as int, thick, i) as i64,
            },
    )
}

pub open spec fn desk_inputs_in_range(center: Point3, size: Size2, thick: int, c: int, n: int) -> bool {
    &&& -COORD_LIMIT <= center.y <= COORD_LIMIT
    &&& -COORD_LIMIT <= center.z <= COORD_LIMIT
    &&& 0 <= size.y <= COORD_LIMIT
    &&& 0 <= thick <= COORD_LIMIT
    &&& 0 <= c <= MAX_MEMBERS
    &&& 0 <= n <= MAX_MEMBERS
}

#[verifier::spinoff_prover]
proof fn lemma_desk_row_in_range(center_y: int, height: int, c: int, i: int)
    requires
        -COORD_LIMIT <= center_y <= COORD_LIMIT,
        0 <= height <= COORD_LIMIT,
        1 <= c <= MAX_MEMBERS,
        0 <= i < MAX_MEMBERS,
    ensures
        -0x200_0000_0000_0000 <= height * (2 * i + 1 - c) <= 0x200_0000_0000_0000,
        -0x300_0000_0000_0000 <= desk_row(center_y, height, c, i) <= 0x300_0000_0000_0000,
{
    let k = 2 * i + 1 - c;
    assert(-0x200_0000_0000_0000 <= height * k <= 0x200_0000_0000_0000) by (nonlinear_arith)
        requires
            0 <= height <= 0x100_0000_0000,
            -0x1_0000 <= k <= 0x2_0000,
    ;
    lemma_trunc_div_bound(height * k, 2 * c);
    let q = trunc_div(height * k, 2 * c);
    if height * k >= 0 {
        assert(q <= height * k) by (nonlinear_arith)
            requires
                q * (2 * c) <= height * k,
                c >= 1,
                q >= 0,
        ;
    } else {
        assert(-q <= -(height * k)) by (nonlinear_arith)
            requires
                -q * (2 * c) <= -(height * k),
                c >= 1,
                q <= 0,
        ;
    }
}

proof fn lemma_desk_depth_in_range(center_z: int, thick: int, i: int)
    requires
        -COORD_LIMIT <= center_z <= COORD_LIMIT,
        0 <= thick <= COORD_LIMIT,
        0 <= i < MAX_MEMBERS,
    ensures
        0 <= thick * (i + 1) <= 0x100_0000_0000_0000,
        -COORD_LIMIT <= desk_depth(center_z, thick, i) <= 0x200_0000_0000_0000,
{
    assert(0 <= thick * (i + 1) <= 0x100_0000_0000_0000) by (nonlinear_arith)
        requires
            0 <= thick <= 0x100_0000_0000,
            0 <= i < 0x1_0000,
    ;
}

/// Where member `index` of a desk zone goes: above the zone's centre at its
/// place in the stack, and, with a capacity, at the centre of its slot.
pub fn desk_slot(
    center: Point3,
    size: Size2,
    thick: i64,
    opt_capacity: Option<usize>,
    index: usize,
) -> (r: Point3)
    requires
        desk_inputs_in_range(center, size, thick as int, tile_count(opt_capacity), index + 1),
    ensures
        r.x == center.x,
        r.y == desk_row(center.y as int, size.y as int, tile_count(opt_capacity), index as int),
        r.z == desk_depth(center.z as int, thick as int, index as int),
{
    proof {
        lemma_desk_depth_in_range(center.z as int, thick as int, index as int);
    }
    let z = center.z + thick * (index as i64 + 1);
    let y = match opt_capacity {
        Some(c) if c >= 1 => {
            proof {
                lemma_desk_row_in_range(center.y as int, size.y as int, c as int, index as int);
            }
            let c = c as i64;
            center.y + div_toward_zero(size.y * (2 * (index as i64) + 1 - c), 2 * c)
        },
        _ => center.y,
    };
    Point3 { x: center.x, y, z }
}

/// The positions of the `count` members of a desk zone, in order.
pub fn desk_slots(
    center: Point3,
    size: Size2,
    thick: i64,
    opt_capacity: Option<usize>,
    count: usize,
) -> (r: Vec<Point3>)
    requires
        desk_inputs_in_range(center, size, thick as int, tile_count(opt_capacity), count as int),
    ensures
        r@ == desk_layout(center, size, thick as int, tile_count(opt_capacity), count as int),
{
    let mut vec: Vec<Point3> = Vec::new();
    let mut i: usize = 0;
    while i < count
        invariant
            desk_inputs_in_range(center, size, thick as int, tile_count(opt_capacity), count as int),
            i <= count,
            vec@.len() == i,
            forall|j: int|
                #![trigger vec@[j]]
                0 <= j < i ==> vec@[j] == desk_layout(
                    center,
                    size,
                    thick as int,
                    tile_count(opt_capacity),
                    count as int,
                )[j],
        decreases count - i,
    {
        let p = desk_slot(center, size, thick, opt_capacity, i);
        proof {
            lemma_desk_depth_in_range(center.z as int, thick as int, i as int);
            if tile_count(opt_capacity) >= 1 {
                lemma_desk_row_in_range(
                    center.y as int,
                    size.y as int,
                    tile_count(opt_capacity),
                    i as int,
                );
            }
        }
        let ghost before = vec@;
        vec.push(p);
        proof {
            assert(forall|j: int| 0 <= j < i ==> vec@[j] == before[j]);
        }
        i = i + 1;
    }
    proof {
        assert(vec@ =~= desk_layout(center, size, thick as int, tile_count(opt_capacity), count as int));
    }
    vec
}

/// In a stack of cards of positive thickness, the depths strictly increase
/// with the index, so no two members share one.
pub proof fn lemma_stack_depths_increase(
    center: Point3,
    size: Size2,
    thick: int,
    c: int,
    n: int,
    i: int,
    j: int,
)
    requires
        desk_inputs_in_range(center, size, thick, c, n),
        thick > 0,
        0 <= i < j < n,
    ensures
        desk_layout(center, size, thick, c, n)[i].z < desk_layout(center, size, thick, c, n)[j].z,
        desk_layout(center, size, thick, c, n)[i].z != desk_layout(center, size, thick, c, n)[j].z,
{
    lemma_desk_depth_in_range(center.z as int, thick, i);
    lemma_desk_depth_in_range(center.z as int, thick, j);
    assert(thick * (i + 1) < thick * (j + 1)) by (nonlinear_arith)
        requires
            thick > 0,
            i < j,
    ;
}

/// With a capacity of at least the number of members and a zone of positive
/// height, every member's y lies strictly inside the zone:
/// `center.y - height / 2 < y < center.y + height / 2`.
#[verifier::spinoff_prover]
pub proof fn lemma_tiles_within_zone(
    center: Point3,
    size: Size2,
    thick: int,
    c: int,
    n: int,
    i: int,
)
    requires
        desk_inputs_in_range(center, size, thick, c, n),
        c >= n,
        c >= 1,
        size.y > 0,
        0 <= i < n,
    ensures
        2 * desk_layout(center, size, thick, c, n)[i].y > 2 * center.y - size.y,
        2 * desk_layout(center, size, thick, c, n)[i].y < 2 * center.y + size.y,
{
    let h = size.y as int;
    let k = 2 * i + 1 - c;
    lemma_desk_row_in_range(center.y as int, h, c, i);
    lemma_trunc_div_bound(h * k, 2 * c);
    let q = trunc_div(h * k, 2 * c);
    assert(-(c - 1) <= k <= c - 1);
    if h * k >= 0 {
        assert(2 * q < h) by (nonlinear_arith)
            requires
                q * (2 * c) <= h * k,
                k <= c - 1,
                h > 0,
                c >= 1,
        ;
        assert(q >= 0);
    } else {
        assert(-2 * q < h) by (nonlinear_arith)
            requires
                -q * (2 * c) <= -(h * k),
                -(c - 1) <= k,
                h > 0,
                c >= 1,
        ;
        assert(q <= 0);
    }
}

} // verus!
