//! Outlines of shapes as triangle fans.
//!
//! A fan starts at the shape's centre, visits every rim point once in
//! rotational order and closes on the first rim point again. Rim points are
//! given as directions from the centre by the signs of their coordinates; the
//! caller scales them by the shape's size and places them in the world.
use vstd::arithmetic::div_mod::{lemma_mod_self_0, lemma_small_mod};
use vstd::prelude::*;

verus! {

/// The closed set of shapes a body can have.
#[derive(Clone, Copy, Debug, PartialEq, Eq)]
pub enum ShapeKind {
    /// A disc; its outline is drawn as an octagon.
    Disc,
    /// A box given by its half-extents.
    Box,
    /// An unbounded half-plane; it has no outline.
    HalfPlane,
}

/// The sign of one coordinate.
#[derive(Clone, Copy, Debug, PartialEq, Eq)]
pub enum Sign {
    Minus,
    Zero,
    Plus,
}

/// The direction from a shape's centre to a rim point, by the signs of its
/// coordinates.
#[derive(Clone, Copy, Debug, PartialEq, Eq)]
pub struct RimDirection {
    pub x: Sign,
    pub y: Sign,
}

/// One point of a triangle-fan outline.
#[derive(Clone, Copy, Debug, PartialEq, Eq)]
pub enum FanPoint {
    /// The shape's centre.
    Centre,
    /// The rim point of that index.
    Rim(usize),
}

/// -1, 0 or 1.
pub open spec fn sign_value(s: Sign) -> int {
    match s {
        Sign::Minus => -1,
        Sign::Zero => 0,
        Sign::Plus => 1,
    }
}

/// The sign of -1, 0 or 1.
pub open spec fn sign_of(v: int) -> Sign {
    if v < 0 {
        Sign::Minus
    } else if v == 0 {
        Sign::Zero
    } else {
        Sign::Plus
    }
}

/// The direction with the signs of `x` and `y`.
pub open spec fn dir(x: int, y: int) -> RimDirection {
    RimDirection { x: sign_of(x), y: sign_of(y) }
}

/// The rim of each shape: a disc clockwise from the top, a box
/// counter-clockwise from its top-right corner; a half-plane has none.
pub open spec fn rim_of(kind: ShapeKind) -> Seq<RimDirection> {
    match kind {
        ShapeKind::Disc => seq![
            dir(0, 1),
            dir(1, 1),
            dir(1, 0),
            dir(1, -1),
            dir(0, -1),
            dir(-1, -1),
            dir(-1, 0),
            dir(-1, 1),
        ],
        ShapeKind::Box => seq![dir(1, 1), dir(-1, 1), dir(-1, -1), dir(1, -1)],
        ShapeKind::HalfPlane => Seq::empty(),
    }
}

/// The number of rim points of a shape's outline; none for a shape without one.
pub open spec fn vertex_count(kind: ShapeKind) -> Option<nat> {
    match kind {
        ShapeKind::HalfPlane => None,
        _ => Some(rim_of(kind).len()),
    }
}

/// The fan over `n` rim points: the centre, each rim point in order, then the
/// first rim point again; the centre alone where there is no rim point.
pub open spec fn fan_of(n: nat) -> Seq<FanPoint> {
    if n == 0 {
        seq![FanPoint::Centre]
    } else {
        seq![FanPoint::Centre] + Seq::new(n, |i: int| FanPoint::Rim(i as usize)) + seq![
            FanPoint::Rim(0),
        ]
    }
}

/// The z-component of the cross product of two directions.
pub open spec fn cross(a: RimDirection, b: RimDirection) -> int {
    sign_value(a.x) * sign_value(b.y) - sign_value(a.y) * sign_value(b.x)
}

/// Each rim turns one way only: every pair of consecutive rim directions,
/// the last with the first included, turns as the first pair does, never
/// straight on or back.
pub proof fn lemma_rim_turns_one_way(kind: ShapeKind)
    ensures
        ({
            let rim = rim_of(kind);
            forall|i: int|
                0 <= i < rim.len() ==> #[trigger] cross(rim[i], rim[(i + 1) % (rim.len() as int)])
                    * cross(rim[0], rim[1]) > 0
        }),
{
    let rim = rim_of(kind);
    let n = rim.len() as int;
    assert forall|i: int| 0 <= i < n implies #[trigger] cross(rim[i], rim[(i + 1) % n]) * cross(
        rim[0],
        rim[1],
    ) > 0 by {
        if i + 1 < n {
            lemma_small_mod((i + 1) as nat, n as nat);
        } else {
            assert(i + 1 == n);
            lemma_mod_self_0(n);
        }
        match kind {
            ShapeKind::Disc => {
                assert(cross(rim[0], rim[1]) == -1);
                if i == 0 {
                } else if i == 1 {
                } else if i == 2 {
                } else if i == 3 {
                } else if i == 4 {
                } else if i == 5 {
                } else if i == 6 {
                } else {
                    assert(i == 7);
                }
            },
            ShapeKind::Box => {
                assert(rim[0] == dir(1, 1));
                assert(rim[1] == dir(-1, 1));
                assert(sign_value(sign_of(-1)) == -1);
                assert(cross(rim[0], rim[1]) == 2);
                if i == 0 {
                } else if i == 1 {
                } else if i == 2 {
                } else {
                    assert(i == 3);
                }
            },
            ShapeKind::HalfPlane => {},
        }
    }
}

/// No rim point of an outline is repeated.
pub proof fn lemma_rim_distinct(kind: ShapeKind)
    ensures
        ({
            let rim = rim_of(kind);
            forall|i: int, j: int| 0 <= i < j < rim.len() ==> rim[i] != rim[j]
        }),
{
}

/// A fan over at least one rim point starts at the centre, visits each rim
/// point once in order and closes on the first rim point.
pub proof fn lemma_fan_closed(n: nat)
    requires
        n > 0,
    ensures
        fan_of(n).len() == n + 2,
        fan_of(n)[0] == FanPoint::Centre,
        forall|k: int| 1 <= k <= n ==> #[trigger] fan_of(n)[k] == FanPoint::Rim((k - 1) as usize),
        fan_of(n)[n as int + 1] == fan_of(n)[1],
{
}

impl ShapeKind {
    /// The number of rim points of the shape's outline, `None` for a
    /// half-plane.
    pub fn number_of_vertices(&self) -> (r: Option<usize>)
        ensures
            match vertex_count(*self) {
                Some(n) => r == Some(n as usize),
                None => r.is_none(),
            },
    {
        match self {
            ShapeKind::Disc => Some(8),
            ShapeKind::Box => Some(4),
            ShapeKind::HalfPlane => None,
        }
    }

    /// The rim directions of the shape's outline, in drawing order.
    pub fn rim_directions(&self) -> (r: Vec<RimDirection>)
        ensures
            r@ == rim_of(*self),
    {
        let r = match self {
            ShapeKind::Disc => vec![
                RimDirection { x: Sign::Zero, y: Sign::Plus },
                RimDirection { x: Sign::Plus, y: Sign::Plus },
                RimDirection { x: Sign::Plus, y: Sign::Zero },
                RimDirection { x: Sign::Plus, y: Sign::Minus },
                RimDirection { x: Sign::Zero, y: Sign::Minus },
                RimDirection { x: Sign::Minus, y: Sign::Minus },
                RimDirection { x: Sign::Minus, y: Sign::Zero },
                RimDirection { x: Sign::Minus, y: Sign::Plus },
            ],
            ShapeKind::Box => vec![
                RimDirection { x: Sign::Plus, y: Sign::Plus },
                RimDirection { x: Sign::Minus, y: Sign::Plus },
                RimDirection { x: Sign::Minus, y: Sign::Minus },
                RimDirection { x: Sign::Plus, y: Sign::Minus },
            ],
            ShapeKind::HalfPlane => Vec::new(),
        };
        assert(r@ =~= rim_of(*self));
        r
    }
}

/// The triangle-fan order over `rim_len` rim points.
pub fn fan_order(rim_len: usize) -> (r: Vec<FanPoint>)
    requires
        rim_len <= usize::MAX - 2,
    ensures
        r@ == fan_of(rim_len as nat),
{
    let mut r: Vec<FanPoint> = Vec::new();
    r.push(FanPoint::Centre);
    if rim_len == 0 {
        assert(r@ =~= fan_of(0));
        return r;
    }
    let mut i: usize = 0;
    while i < rim_len
        invariant
            i <= rim_len,
            r@.len() == i + 1,
            r@[0] == FanPoint::Centre,
            forall|k: int| 1 <= k <= i ==> r@[k] == FanPoint::Rim((k - 1) as usize),
        decreases rim_len - i,
    {
        r.push(FanPoint::Rim(i));
        i = i + 1;
    }
    r.push(FanPoint::Rim(0));
    assert(r@ =~= fan_of(rim_len as nat));
    r
}

} // verus!
