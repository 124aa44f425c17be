//! Accelerations and slope vectors: what a state changes by.

use vstd::prelude::*;
use crate::arithmetic::{computes, is_total, Operation, TWO};

verus! {

/// An instantaneous acceleration in the plane.
#[derive(PartialEq, Debug)]
pub struct Acceleration<T> {
    pub ax: T,
    pub ay: T,
}

impl<T: Copy> Acceleration<T> {
    /// The sum of two accelerations under `f`, component by component.
    pub open spec fn spec_add(self, rhs: Self, f: spec_fn(Operation<T>) -> T) -> Self {
        Acceleration {
            ax: f(Operation::Add(self.ax, rhs.ax)),
            ay: f(Operation::Add(self.ay, rhs.ay)),
        }
    }

    /// Adds two accelerations, component by component.
    pub fn add<C: Fn(Operation<T>) -> T>(self, rhs: Self, calc: &C) -> (out: Self)
        requires
            is_total(calc),
        ensures
            forall|f: spec_fn(Operation<T>) -> T| #[trigger]
                computes(calc, f) ==> out == self.spec_add(rhs, f),
    {
        Acceleration {
            ax: calc(Operation::Add(self.ax, rhs.ax)),
            ay: calc(Operation::Add(self.ay, rhs.ay)),
        }
    }
}

/// The slope of one body's state: its acceleration, at which the velocity
/// changes, and its velocity, at which the position changes.
#[derive(PartialEq, Debug)]
pub struct AccelerationVelocity<T> {
    pub ax: T,
    pub ay: T,
    pub vx: T,
    pub vy: T,
}

impl<T: Copy> AccelerationVelocity<T> {
    /// Each of the four components divided by two under `f`.
    pub open spec fn spec_halve(self, f: spec_fn(Operation<T>) -> T) -> Self {
        let two = f(Operation::Constant(TWO));
        AccelerationVelocity {
            ax: f(Operation::Div(self.ax, two)),
            ay: f(Operation::Div(self.ay, two)),
            vx: f(Operation::Div(self.vx, two)),
            vy: f(Operation::Div(self.vy, two)),
        }
    }

    /// Divides each of the four components by two.
    pub fn halve<C: Fn(Operation<T>) -> T>(&self, calc: &C) -> (out: Self)
        requires
            is_total(calc),
        ensures
            forall|f: spec_fn(Operation<T>) -> T| #[trigger]
                computes(calc, f) ==> out == self.spec_halve(f),
    {
        let two = calc(Operation::Constant(TWO));
        AccelerationVelocity {
            ax: calc(Operation::Div(self.ax, two)),
            ay: calc(Operation::Div(self.ay, two)),
            vx: calc(Operation::Div(self.vx, two)),
            vy: calc(Operation::Div(self.vy, two)),
        }
    }
}

/// The slopes of the four bodies, each in the place of its body.
#[derive(PartialEq, Debug)]
pub struct FourAccelerationVelocity<T> {
    pub star_a: AccelerationVelocity<T>,
    pub star_b: AccelerationVelocity<T>,
    pub star_c: AccelerationVelocity<T>,
    pub planet: AccelerationVelocity<T>,
}

impl<T: Copy> FourAccelerationVelocity<T> {
    /// Each of the four slopes halved under `f`.
    pub open spec fn spec_halve(self, f: spec_fn(Operation<T>) -> T) -> Self {
        FourAccelerationVelocity {
            star_a: self.star_a.spec_halve(f),
            star_b: self.star_b.spec_halve(f),
            star_c: self.star_c.spec_halve(f),
            planet: self.planet.spec_halve(f),
        }
    }

    /// Halves each of the four slopes.
    pub fn halve<C: Fn(Operation<T>) -> T>(&self, calc: &C) -> (out: Self)
        requires
            is_total(calc),
        ensures
            forall|f: spec_fn(Operation<T>) -> T| #[trigger]
                computes(calc, f) ==> out == self.spec_halve(f),
    {
        FourAccelerationVelocity {
            star_a: self.star_a.halve(calc),
            star_b: self.star_b.halve(calc),
            star_c: self.star_c.halve(calc),
            planet: self.planet.halve(calc),
        }
    }
}

} // verus!
