//! Planar grid positions and the proximity test between two of them.

use vstd::prelude::*;

verus! {

/// Number of grid steps in one world unit.
pub const GRID_STEPS_PER_UNIT: i32 = 1_000;

/// Distance, in grid steps, below which a hostile kills the player.
pub const HIT_RADIUS: i32 = 7 * GRID_STEPS_PER_UNIT;

/// A point of the plane on the integer grid.  Depth plays no part in any rule
/// of the simulation and is not recorded.
#[derive(Clone, Copy, PartialEq, Eq, Structural, Debug)]
pub struct Position {
    pub x: i32,
    pub y: i32,
}

/// Squares are never negative, and a number at least `bound` away from zero
/// has a square of at least `bound` squared.
proof fn lemma_square_outside(a: int, bound: int)
    requires
        bound >= 0,
    ensures
        a * a >= 0,
        (a >= bound || a <= -bound) ==> a * a >= bound * bound,
{
    assert(a * a >= 0) by (nonlinear_arith);
    assert((a >= bound || a <= -bound) ==> a * a >= bound * bound) by (nonlinear_arith)
        requires
            bound >= 0,
    ;
}

/// A number strictly between `-bound` and `bound` has a square below the
/// square of `bound`.
proof fn lemma_square_inside(a: int, bound: int)
    requires
        -bound < a < bound,
    ensures
        0 <= a * a < bound * bound,
{
    assert(0 <= a * a < bound * bound) by (nonlinear_arith)
        requires
            -bound < a < bound,
    ;
}

impl Position {
    /// Square of the planar distance between two positions.
    pub open spec fn distance_squared(self, other: Position) -> int {
        (self.x - other.x) * (self.x - other.x) + (self.y - other.y) * (self.y - other.y)
    }

    /// Whether `other` lies strictly closer than the hit radius.
    pub open spec fn within_reach(self, other: Position) -> bool {
        self.distance_squared(other) < HIT_RADIUS * HIT_RADIUS
    }

    /// The point from which a new game starts.
    pub open spec fn origin() -> Position {
        Position { x: 0, y: 0 }
    }

    /// Decides whether `other` lies strictly closer than the hit radius.
    pub fn is_within_reach(&self, other: &Position) -> (hit: bool)
        ensures
            hit == self.within_reach(*other),
    {
        let dx: i64 = self.x as i64 - other.x as i64;
        let dy: i64 = self.y as i64 - other.y as i64;
        let reach: i64 = HIT_RADIUS as i64;
        if dx >= reach || dx <= -reach || dy >= reach || dy <= -reach {
            proof {
                lemma_square_outside(dx as int, reach as int);
                lemma_square_outside(dy as int, reach as int);
            }
            false
        } else {
            proof {
                lemma_square_inside(dx as int, reach as int);
                lemma_square_inside(dy as int, reach as int);
            }
            dx * dx + dy * dy < reach * reach
        }
    }
}

} // verus!
