use vstd::prelude::*;
use vstd::std_specs::cmp::{PartialEqSpec, PartialOrdSpec};
use core::cmp::Ordering;
use crate::{ConstOne, ConstZero};

verus! {

/// A pair of values of one type: the two components of a 2D vector.
///
/// Equality and ordering are lexicographic: `x` is compared first, then `y`.
#[derive(Debug, Clone, Copy, Eq, Ord, Hash)]
pub struct Vec2<T> {
    pub x: T,
    pub y: T,
}

impl<T> Vec2<T> {
    /// The vector with components `x` and `y`.
    pub fn new(x: T, y: T) -> (r: Vec2<T>)
        ensures
            r.x == x,
            r.y == y,
    {
        Vec2 { x, y }
    }

    /// Applies `with` once to both components together; the pair it returns
    /// becomes the new vector.
    pub fn map<F, N>(self, with: F) -> (r: Vec2<N>)
        where
            F: FnOnce(T, T) -> (N, N),
        requires
            call_requires(with, (self.x, self.y)),
        ensures
            call_ensures(with, (self.x, self.y), (r.x, r.y)),
    {
        let v = with(self.x, self.y);
        Vec2::new(v.0, v.1)
    }

    /// Applies `with` to each component, to `x` first and then to `y`.
    pub fn map_all<F, N>(self, mut with: F) -> (r: Vec2<N>)
        where
            F: FnMut(T) -> N,
        requires
            call_requires(with, (self.x,)),
            call_requires(with, (self.y,)),
        ensures
            call_ensures(with, (self.x,), r.x),
            call_ensures(with, (self.y,), r.y),
    {
        let x = with(self.x);
        let y = with(self.y);
        Vec2::new(x, y)
    }
}

impl<T: Copy> Vec2<T> {
    /// The vector with both components equal to `value`.
    pub fn splat(value: T) -> (r: Vec2<T>)
        ensures
            r.x == value,
            r.y == value,
    {
        Vec2::new(value, value)
    }
}

impl<T: ConstZero> Vec2<T> {
    /// The vector with both components zero.
    pub fn zero() -> (r: Vec2<T>)
        ensures
            r.x == T::ZERO,
            r.y == T::ZERO,
    {
        Vec2 { x: T::ZERO, y: T::ZERO }
    }
}

impl<T: ConstOne> Vec2<T> {
    /// The vector with both components one.
    pub fn one() -> (r: Vec2<T>)
        ensures
            r.x == T::ONE,
            r.y == T::ONE,
    {
        Vec2 { x: T::ONE, y: T::ONE }
    }
}

impl<T> From<(T, T)> for Vec2<T> {
    fn from(value: (T, T)) -> (r: Vec2<T>)
        ensures
            r.x == value.0,
            r.y == value.1,
    {
        let (x, y) = value;
        Vec2::new(x, y)
    }
}

impl<T> vstd::std_specs::convert::FromSpecImpl<(T, T)> for Vec2<T> {
    open spec fn obeys_from_spec() -> bool {
        true
    }

    open spec fn from_spec(value: (T, T)) -> Vec2<T> {
        Vec2 { x: value.0, y: value.1 }
    }
}

impl<T> From<Vec2<T>> for (T, T) {
    fn from(value: Vec2<T>) -> (r: (T, T))
        ensures
            r.0 == value.x,
            r.1 == value.y,
    {
        (value.x, value.y)
    }
}

impl<T> vstd::std_specs::convert::FromSpecImpl<Vec2<T>> for (T, T) {
    open spec fn obeys_from_spec() -> bool {
        true
    }

    open spec fn from_spec(value: Vec2<T>) -> (T, T) {
        (value.x, value.y)
    }
}

impl<T: PartialEq> PartialEq for Vec2<T> {
    fn eq(&self, other: &Vec2<T>) -> (r: bool) {
        self.x == other.x && self.y == other.y
    }
}

impl<T: PartialEq> vstd::std_specs::cmp::PartialEqSpecImpl for Vec2<T> {
    open spec fn obeys_eq_spec() -> bool {
        T::obeys_eq_spec()
    }

    open spec fn eq_spec(&self, other: &Vec2<T>) -> bool {
        self.x.eq_spec(&other.x) && self.y.eq_spec(&other.y)
    }
}

impl<T: PartialOrd> PartialOrd for Vec2<T> {
    fn partial_cmp(&self, other: &Vec2<T>) -> (r: Option<Ordering>) {
        match self.x.partial_cmp(&other.x) {
            Some(Ordering::Equal) => self.y.partial_cmp(&other.y),
            ordering => ordering,
        }
    }
}

impl<T: PartialOrd> vstd::std_specs::cmp::PartialOrdSpecImpl for Vec2<T> {
    open spec fn obeys_partial_cmp_spec() -> bool {
        T::obeys_partial_cmp_spec()
    }

    open spec fn partial_cmp_spec(&self, other: &Vec2<T>) -> Option<Ordering> {
        match self.x.partial_cmp_spec(&other.x) {
            Some(Ordering::Equal) => self.y.partial_cmp_spec(&other.y),
            ordering => ordering,
        }
    }
}

} // verus!
