//! What holds of the integrator under every arithmetic.

use vstd::prelude::*;
use crate::arithmetic::{computes, Operation};
use crate::body::BodyVelocityPosition;
use crate::system::FourBodyVelocityPosition;

verus! {

/// The summed pull of three bodies is the pull of the first plus that of the
/// second, plus that of the third: two additions in each component, in this
/// order.
pub proof fn lemma_cumulative_force_adds_in_order<T: Copy>(
    me: BodyVelocityPosition<T>,
    body1: BodyVelocityPosition<T>,
    body2: BodyVelocityPosition<T>,
    body3: BodyVelocityPosition<T>,
    f: spec_fn(Operation<T>) -> T,
)
    ensures
        me.spec_cumulative_force(body1, body2, body3, f) == me.spec_force_from(body1, f).spec_add(
            me.spec_force_from(body2, f),
            f,
        ).spec_add(me.spec_force_from(body3, f), f),
        me.spec_cumulative_force(body1, body2, body3, f).ax == f(
            Operation::Add(
                f(Operation::Add(me.spec_force_from(body1, f).ax, me.spec_force_from(body2, f).ax)),
                me.spec_force_from(body3, f).ax,
            ),
        ),
        me.spec_cumulative_force(body1, body2, body3, f).ay == f(
            Operation::Add(
                f(Operation::Add(me.spec_force_from(body1, f).ay, me.spec_force_from(body2, f).ay)),
                me.spec_force_from(body3, f).ay,
            ),
        ),
{
}

/// The pull on a body depends on where the two bodies are and on the mass of
/// the one that pulls: not on the mass of the body pulled, nor on either
/// velocity.
pub proof fn lemma_force_from_reads_positions_and_other_mass<T: Copy>(
    me1: BodyVelocityPosition<T>,
    other1: BodyVelocityPosition<T>,
    me2: BodyVelocityPosition<T>,
    other2: BodyVelocityPosition<T>,
    f: spec_fn(Operation<T>) -> T,
)
    requires
        me1.x == me2.x,
        me1.y == me2.y,
        other1.x == other2.x,
        other1.y == other2.y,
        other1.mass == other2.mass,
    ensures
        me1.spec_force_from(other1, f) == me2.spec_force_from(other2, f),
{
}

/// A state and its slopes pair by place: the slope in a body's place carries
/// that body's own velocity.
pub proof fn lemma_slopes_carry_velocities<T: Copy>(
    state: FourBodyVelocityPosition<T>,
    f: spec_fn(Operation<T>) -> T,
)
    ensures
        ({
            let k = state.spec_euler_step_delta(f);
            &&& k.star_a.vx == state.star_a.vx && k.star_a.vy == state.star_a.vy
            &&& k.star_b.vx == state.star_b.vx && k.star_b.vy == state.star_b.vy
            &&& k.star_c.vx == state.star_c.vx && k.star_c.vy == state.star_c.vy
            &&& k.planet.vx == state.planet.vx && k.planet.vy == state.planet.vy
        }),
{
}

/// A step keeps the mass of each body.
pub proof fn lemma_step_keeps_masses<T: Copy>(
    state: FourBodyVelocityPosition<T>,
    f: spec_fn(Operation<T>) -> T,
)
    ensures
        state.spec_rk4_step(f).same_masses(state),
{
}

/// Where the arithmetic gives each operation a single value, so does the step
/// to each state: whatever two steps from one state return is the same state.
pub proof fn lemma_step_is_deterministic<T: Copy, C: Fn(Operation<T>) -> T>(
    calc: &C,
    f: spec_fn(Operation<T>) -> T,
    state: FourBodyVelocityPosition<T>,
    first: FourBodyVelocityPosition<T>,
    second: FourBodyVelocityPosition<T>,
)
    requires
        computes(calc, f),
        forall|g: spec_fn(Operation<T>) -> T| #[trigger]
            computes(calc, g) ==> first == state.spec_rk4_step(g),
        forall|g: spec_fn(Operation<T>) -> T| #[trigger]
            computes(calc, g) ==> second == state.spec_rk4_step(g),
    ensures
        first == second,
{
}

} // verus!
