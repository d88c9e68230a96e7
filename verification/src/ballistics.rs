//! How fast a body can be at a given height.
//!
//! A body that last left the ground or a platform by a jump, and has been
//! under constant gravity since, is never faster than the jump and the fall
//! from its highest point allow. The bound is kept by every tick in the air
//! and keeps heights and speeds within fixed limits.

use vstd::prelude::*;

verus! {

/// Whether a body with vertical velocity `vy` and lower edge at `bottom`
/// (y grows downward) is no faster than a jump of speed `jump` from height
/// zero followed by free fall under `gravity` can make it.
pub open spec fn within_reach(vy: int, bottom: int, jump: int, gravity: int) -> bool {
    vy * vy <= jump * jump + 2 * gravity * bottom
}

/// A body that takes off at or below height zero is within reach.
pub proof fn lemma_reach_at_takeoff(bottom: int, jump: int, gravity: int)
    by (nonlinear_arith)
    requires
        bottom >= 0,
        gravity >= 0,
    ensures
        within_reach(jump, bottom, jump, gravity),
{
}

/// A body at rest at or below height zero is within reach.
pub proof fn lemma_reach_at_rest(bottom: int, jump: int, gravity: int)
    by (nonlinear_arith)
    requires
        bottom >= 0,
        gravity >= 0,
    ensures
        within_reach(0, bottom, jump, gravity),
{
}

/// One tick of free fall keeps a body within reach: the velocity grows by
/// `gravity` and the body moves by the new velocity.
pub proof fn lemma_reach_after_fall(vy: int, bottom: int, jump: int, gravity: int)
    by (nonlinear_arith)
    requires
        within_reach(vy, bottom, jump, gravity),
    ensures
        within_reach(vy + gravity, bottom + vy + gravity, jump, gravity),
{
    assert((vy + gravity) * (vy + gravity) == vy * vy + 2 * gravity * (vy + gravity) - gravity
        * gravity);
    assert(2 * gravity * (bottom + vy + gravity) == 2 * gravity * bottom + 2 * gravity * (vy
        + gravity));
}

/// One tick of fall at a capped speed keeps a body within reach: the new
/// velocity `capped` is at least `gravity` and at most what free fall would
/// give, and the body moves by it.
pub proof fn lemma_reach_after_capped_fall(
    vy: int,
    bottom: int,
    jump: int,
    gravity: int,
    capped: int,
)
    by (nonlinear_arith)
    requires
        within_reach(vy, bottom, jump, gravity),
        0 <= gravity <= capped <= vy + gravity,
    ensures
        within_reach(capped, bottom + capped, jump, gravity),
{
    assert((vy + gravity - capped) * (vy + capped - gravity) >= 0);
    assert((vy + gravity - capped) * (vy + capped - gravity) == vy * vy - (capped - gravity) * (
    capped - gravity));
    assert((capped - gravity) * (capped - gravity) == capped * capped - 2 * gravity * capped
        + gravity * gravity);
    assert(2 * gravity * (bottom + capped) == 2 * gravity * bottom + 2 * gravity * capped);
}

/// A body within reach is no higher than the jump carries: its lower edge is
/// at most `jump * jump / (2 * gravity)` above height zero.
pub proof fn lemma_reach_limits_height(vy: int, bottom: int, jump: int, gravity: int)
    by (nonlinear_arith)
    requires
        within_reach(vy, bottom, jump, gravity),
    ensures
        2 * gravity * bottom >= -(jump * jump),
{
    assert(vy * vy >= 0);
}

/// A body within reach that is no lower than `floor` is no faster than
/// `limit`, provided `limit` squared is at least what the jump and the fall
/// to `floor` give.
pub proof fn lemma_reach_limits_speed(
    vy: int,
    bottom: int,
    jump: int,
    gravity: int,
    floor: int,
    limit: int,
)
    by (nonlinear_arith)
    requires
        within_reach(vy, bottom, jump, gravity),
        gravity >= 0,
        bottom <= floor,
        limit >= 0,
        jump * jump + 2 * gravity * floor <= limit * limit,
    ensures
        -limit <= vy <= limit,
{
    assert(2 * gravity * bottom <= 2 * gravity * floor);
    assert(vy * vy <= limit * limit);
    if vy > limit {
        assert(vy * vy > limit * limit);
    }
    if vy < -limit {
        assert(vy * vy > limit * limit);
    }
}

} // verus!
