//! The four bodies together, and the step that takes them on by one unit of
//! time.

use vstd::prelude::*;
use crate::arithmetic::{computes, is_total, Operation};
use crate::body::BodyVelocityPosition;
use crate::derivative::FourAccelerationVelocity;

verus! {

/// The state of the whole system at one instant. The places of the four bodies
/// are fixed, and a slope belongs to the body in the same place.
#[derive(PartialEq, Debug)]
pub struct FourBodyVelocityPosition<T> {
    pub star_a: BodyVelocityPosition<T>,
    pub star_b: BodyVelocityPosition<T>,
    pub star_c: BodyVelocityPosition<T>,
    pub planet: BodyVelocityPosition<T>,
}

impl<T: Copy> FourBodyVelocityPosition<T> {
    /// The slopes of the four bodies in this state under `f`: each body among
    /// the three others, which are taken in the order of their places.
    pub open spec fn spec_euler_step_delta(self, f: spec_fn(Operation<T>) -> T)
        -> FourAccelerationVelocity<T> {
        FourAccelerationVelocity {
            star_a: self.star_a.spec_cumulative_force_and_velocity(
                self.star_b,
                self.star_c,
                self.planet,
                f,
            ),
            star_b: self.star_b.spec_cumulative_force_and_velocity(
                self.star_a,
                self.star_c,
                self.planet,
                f,
            ),
            star_c: self.star_c.spec_cumulative_force_and_velocity(
                self.star_a,
                self.star_b,
                self.planet,
                f,
            ),
            planet: self.planet.spec_cumulative_force_and_velocity(
                self.star_a,
                self.star_b,
                self.star_c,
                f,
            ),
        }
    }

    /// Each body moved along the slope in its place, under `f`.
    pub open spec fn spec_add(self, rhs: FourAccelerationVelocity<T>, f: spec_fn(Operation<T>) -> T)
        -> Self {
        FourBodyVelocityPosition {
            star_a: self.star_a.spec_add(rhs.star_a, f),
            star_b: self.star_b.spec_add(rhs.star_b, f),
            star_c: self.star_c.spec_add(rhs.star_c, f),
            planet: self.planet.spec_add(rhs.planet, f),
        }
    }

    /// The slopes by which one step moves this state, under `f`: those at the
    /// last of four sample states. The first sample is the state itself, the
    /// second and the third are the state moved along half the slopes at the
    /// sample before, the fourth is the state moved along the whole slopes at
    /// the third.
    pub open spec fn spec_rk4_step_delta(self, f: spec_fn(Operation<T>) -> T)
        -> FourAccelerationVelocity<T> {
        let k1 = self.spec_euler_step_delta(f);
        let k2 = self.spec_add(k1.spec_halve(f), f).spec_euler_step_delta(f);
        let k3 = self.spec_add(k2.spec_halve(f), f).spec_euler_step_delta(f);
        let k4 = self.spec_add(k3, f).spec_euler_step_delta(f);
        k4
    }

    /// The state one unit of time later, under `f`.
    pub open spec fn spec_rk4_step(self, f: spec_fn(Operation<T>) -> T) -> Self {
        self.spec_add(self.spec_rk4_step_delta(f), f)
    }

    /// The same four masses in the same places.
    pub open spec fn same_masses(self, other: Self) -> bool {
        &&& self.star_a.mass == other.star_a.mass
        &&& self.star_b.mass == other.star_b.mass
        &&& self.star_c.mass == other.star_c.mass
        &&& self.planet.mass == other.planet.mass
    }

    /// The slopes of the four bodies in this state: one evaluation of the
    /// field of forces, each body among the three others as they stand.
    pub fn euler_step_delta<C: Fn(Operation<T>) -> T>(&self, calc: &C) -> (out:
        FourAccelerationVelocity<T>)
        requires
            is_total(calc),
        ensures
            out.star_a.vx == self.star_a.vx && out.star_a.vy == self.star_a.vy,
            out.star_b.vx == self.star_b.vx && out.star_b.vy == self.star_b.vy,
            out.star_c.vx == self.star_c.vx && out.star_c.vy == self.star_c.vy,
            out.planet.vx == self.planet.vx && out.planet.vy == self.planet.vy,
            forall|f: spec_fn(Operation<T>) -> T| #[trigger]
                computes(calc, f) ==> out == self.spec_euler_step_delta(f),
    {
        FourAccelerationVelocity {
            star_a: self.star_a.cumulative_force_and_velocity(
                &self.star_b,
                &self.star_c,
                &self.planet,
                calc,
            ),
            star_b: self.star_b.cumulative_force_and_velocity(
                &self.star_a,
                &self.star_c,
                &self.planet,
                calc,
            ),
            star_c: self.star_c.cumulative_force_and_velocity(
                &self.star_a,
                &self.star_b,
                &self.planet,
                calc,
            ),
            planet: self.planet.cumulative_force_and_velocity(
                &self.star_a,
                &self.star_b,
                &self.star_c,
                calc,
            ),
        }
    }

    /// The slopes by which one step moves this state: those at the last of
    /// the four sample states, with no weighting of the four.
    pub fn rk4_step_delta<C: Fn(Operation<T>) -> T>(&self, calc: &C) -> (out:
        FourAccelerationVelocity<T>)
        requires
            is_total(calc),
        ensures
            forall|f: spec_fn(Operation<T>) -> T| #[trigger]
                computes(calc, f) ==> out == self.spec_rk4_step_delta(f),
    {
        let k1 = self.euler_step_delta(calc);
        let k2 = self.add(&k1.halve(calc), calc).euler_step_delta(calc);
        let k3 = self.add(&k2.halve(calc), calc).euler_step_delta(calc);
        let k4 = self.add(&k3, calc).euler_step_delta(calc);

        k4
    }

    /// The state one unit of time later: this state moved along the slopes of
    /// its step. The masses stay.
    pub fn rk4_step<C: Fn(Operation<T>) -> T>(&self, calc: &C) -> (out: Self)
        requires
            is_total(calc),
        ensures
            out.same_masses(*self),
            forall|f: spec_fn(Operation<T>) -> T| #[trigger]
                computes(calc, f) ==> out == self.spec_rk4_step(f),
    {
        self.add(&self.rk4_step_delta(calc), calc)
    }

    /// Moves each body along the slope in its place.
    pub fn add<C: Fn(Operation<T>) -> T>(&self, rhs: &FourAccelerationVelocity<T>, calc: &C) -> (out:
        Self)
        requires
            is_total(calc),
        ensures
            out.same_masses(*self),
            forall|f: spec_fn(Operation<T>) -> T| #[trigger]
                computes(calc, f) ==> out == self.spec_add(*rhs, f),
    {
        FourBodyVelocityPosition {
            star_a: self.star_a.add(&rhs.star_a, calc),
            star_b: self.star_b.add(&rhs.star_b, calc),
            star_c: self.star_c.add(&rhs.star_c, calc),
            planet: self.planet.add(&rhs.planet, calc),
        }
    }
}

} // verus!
