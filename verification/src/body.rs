//! One point mass, and the pull of gravity between two of them.

use vstd::prelude::*;
use crate::arithmetic::{computes, is_total, Operation, G};
use crate::derivative::{Acceleration, AccelerationVelocity};

verus! {

/// The state of one point mass at one instant: mass, velocity, position.
#[derive(PartialEq, Debug)]
pub struct BodyVelocityPosition<T> {
    pub mass: T,
    pub vx: T,
    pub vy: T,
    pub x: T,
    pub y: T,
}

impl<T: Copy> BodyVelocityPosition<T> {
    /// The acceleration that the gravity of `other` gives to `self` under `f`:
    /// of size `G * other.mass / distance^2`, along the angle at which `other`
    /// is seen from `self`.
    pub open spec fn spec_force_from(self, other: Self, f: spec_fn(Operation<T>) -> T)
        -> Acceleration<T> {
        let dx = f(Operation::Sub(other.x, self.x));
        let dy = f(Operation::Sub(other.y, self.y));
        let distance = f(
            Operation::Sqrt(f(Operation::Add(f(Operation::Powi(dx, 2)), f(Operation::Powi(dy, 2))))),
        );
        let intensity = f(
            Operation::Div(
                f(Operation::Mul(f(Operation::Constant(G)), other.mass)),
                f(Operation::Powi(distance, 2)),
            ),
        );
        let angle = f(Operation::Atan2(dy, dx));
        Acceleration {
            ax: f(Operation::Mul(intensity, f(Operation::Cos(angle)))),
            ay: f(Operation::Mul(intensity, f(Operation::Sin(angle)))),
        }
    }

    /// The pulls of three other bodies under `f`, summed from the left.
    pub open spec fn spec_cumulative_force(
        self,
        body1: Self,
        body2: Self,
        body3: Self,
        f: spec_fn(Operation<T>) -> T,
    ) -> Acceleration<T> {
        self.spec_force_from(body1, f).spec_add(self.spec_force_from(body2, f), f).spec_add(
            self.spec_force_from(body3, f),
            f,
        )
    }

    /// The slope of `self` among three other bodies under `f`: their summed
    /// pull, and the velocity that `self` has.
    pub open spec fn spec_cumulative_force_and_velocity(
        self,
        body1: Self,
        body2: Self,
        body3: Self,
        f: spec_fn(Operation<T>) -> T,
    ) -> AccelerationVelocity<T> {
        let acceleration = self.spec_cumulative_force(body1, body2, body3, f);
        AccelerationVelocity { ax: acceleration.ax, ay: acceleration.ay, vx: self.vx, vy: self.vy }
    }

    /// `self` moved along a slope under `f`: the position by the slope's
    /// velocity, the velocity by the slope's acceleration, the mass kept.
    pub open spec fn spec_add(self, rhs: AccelerationVelocity<T>, f: spec_fn(Operation<T>) -> T)
        -> Self {
        BodyVelocityPosition {
            mass: self.mass,
            x: f(Operation::Add(self.x, rhs.vx)),
            y: f(Operation::Add(self.y, rhs.vy)),
            vx: f(Operation::Add(self.vx, rhs.ax)),
            vy: f(Operation::Add(self.vy, rhs.ay)),
        }
    }

    /// The acceleration that the gravity of `other` gives to `self`.
    ///
    /// Nothing is made of two bodies in one place: the division by the squared
    /// distance is handed to `calc` as it stands.
    pub fn force_from<C: Fn(Operation<T>) -> T>(&self, other: &Self, calc: &C) -> (out:
        Acceleration<T>)
        requires
            is_total(calc),
        ensures
            forall|f: spec_fn(Operation<T>) -> T| #[trigger]
                computes(calc, f) ==> out == self.spec_force_from(*other, f),
    {
        let dx = calc(Operation::Sub(other.x, self.x));
        let dy = calc(Operation::Sub(other.y, self.y));

        let dx2 = calc(Operation::Powi(dx, 2));
        let dy2 = calc(Operation::Powi(dy, 2));
        let distance = calc(Operation::Sqrt(calc(Operation::Add(dx2, dy2))));
        let pull = calc(Operation::Mul(calc(Operation::Constant(G)), other.mass));
        let intensity = calc(Operation::Div(pull, calc(Operation::Powi(distance, 2))));
        let angle = calc(Operation::Atan2(dy, dx));
        let sin = calc(Operation::Sin(angle));
        let cos = calc(Operation::Cos(angle));

        Acceleration {
            ax: calc(Operation::Mul(intensity, cos)),
            ay: calc(Operation::Mul(intensity, sin)),
        }
    }

    /// The summed pull of three other bodies on `self`, added up in the order
    /// in which they are given.
    pub fn cumulative_force<C: Fn(Operation<T>) -> T>(
        &self,
        body1: &Self,
        body2: &Self,
        body3: &Self,
        calc: &C,
    ) -> (out: Acceleration<T>)
        requires
            is_total(calc),
        ensures
            forall|f: spec_fn(Operation<T>) -> T| #[trigger]
                computes(calc, f) ==> out == self.spec_cumulative_force(
                    *body1,
                    *body2,
                    *body3,
                    f,
                ),
    {
        self.force_from(body1, calc).add(self.force_from(body2, calc), calc).add(
            self.force_from(body3, calc),
            calc,
        )
    }

    /// The slope of `self` among three other bodies: their summed pull, and the
    /// velocity that `self` has, as it is.
    pub fn cumulative_force_and_velocity<C: Fn(Operation<T>) -> T>(
        &self,
        body1: &Self,
        body2: &Self,
        body3: &Self,
        calc: &C,
    ) -> (out: AccelerationVelocity<T>)
        requires
            is_total(calc),
        ensures
            out.vx == self.vx,
            out.vy == self.vy,
            forall|f: spec_fn(Operation<T>) -> T| #[trigger]
                computes(calc, f) ==> out == self.spec_cumulative_force_and_velocity(
                    *body1,
                    *body2,
                    *body3,
                    f,
                ),
    {
        let acceleration = self.cumulative_force(body1, body2, body3, calc);
        AccelerationVelocity {
            ax: acceleration.ax,
            ay: acceleration.ay,
            vx: self.vx,
            vy: self.vy,
        }
    }

    /// Moves `self` along a slope: the position by the slope's velocity, the
    /// velocity by the slope's acceleration. The mass stays.
    pub fn add<C: Fn(Operation<T>) -> T>(&self, rhs: &AccelerationVelocity<T>, calc: &C) -> (out:
        Self)
        requires
            is_total(calc),
        ensures
            out.mass == self.mass,
            forall|f: spec_fn(Operation<T>) -> T| #[trigger]
                computes(calc, f) ==> out == self.spec_add(*rhs, f),
    {
        BodyVelocityPosition {
            mass: self.mass,
            x: calc(Operation::Add(self.x, rhs.vx)),
            y: calc(Operation::Add(self.y, rhs.vy)),
            vx: calc(Operation::Add(self.vx, rhs.ax)),
            vy: calc(Operation::Add(self.vy, rhs.ay)),
        }
    }
}

} // verus!
