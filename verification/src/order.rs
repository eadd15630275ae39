//! Equality and ordering of `Few` values.
//!
//! Two values are equal when they have the same shape and equal payloads,
//! position by position. Values are ordered by shape first (`Zero`, then
//! `One`, then `Two`) and, within one shape, by their payloads in order: the
//! first payloads decide unless they are equal, and then the second do.

use crate::few::Few;
use core::cmp::Ordering;
use vstd::prelude::*;
use vstd::std_specs::cmp::{PartialEqSpec, PartialOrdSpec};

verus! {

impl<T: PartialEq> Few<T> {
    /// Whether `self` and `other` have the same shape and payloads that are
    /// equal, position by position, by the specified equality of `T`.
    pub open spec fn same_as(&self, other: &Few<T>) -> bool {
        match (*self, *other) {
            (Few::Zero, Few::Zero) => true,
            (Few::One(a), Few::One(c)) => a.eq_spec(&c),
            (Few::Two(a, b), Few::Two(c, d)) => a.eq_spec(&c) && b.eq_spec(&d),
            _ => false,
        }
    }
}

impl<T: PartialOrd> Few<T> {
    /// How `self` stands to `other`: by shape where the shapes differ, `Zero`
    /// before `One` before `Two`; else by the specified order of `T` on the
    /// payloads, the first ones deciding unless they are equal.
    pub open spec fn compared_with(&self, other: &Few<T>) -> Option<Ordering> {
        match (*self, *other) {
            (Few::Zero, Few::Zero) => Some(Ordering::Equal),
            (Few::Zero, _) => Some(Ordering::Less),
            (Few::One(_), Few::Zero) => Some(Ordering::Greater),
            (Few::One(a), Few::One(c)) => a.partial_cmp_spec(&c),
            (Few::One(_), Few::Two(_, _)) => Some(Ordering::Less),
            (Few::Two(a, b), Few::Two(c, d)) => match a.partial_cmp_spec(&c) {
                Some(Ordering::Equal) => b.partial_cmp_spec(&d),
                decided => decided,
            },
            (Few::Two(_, _), _) => Some(Ordering::Greater),
        }
    }
}

impl<T: PartialEq> vstd::std_specs::cmp::PartialEqSpecImpl for Few<T> {
    open spec fn obeys_eq_spec() -> bool {
        T::obeys_eq_spec()
    }

    open spec fn eq_spec(&self, other: &Few<T>) -> bool {
        self.same_as(other)
    }
}

impl<T: PartialEq> PartialEq for Few<T> {
    /// Values of different shapes are unequal, and `Zero` equals `Zero`.
    /// Values of one shape are equal where the `==` of `T` says so of their
    /// payloads, the first ones and, for `Two`, where those are equal, the
    /// second ones. Where that `==` has a specification, the result is
    /// [`Few::same_as`].
    fn eq(&self, other: &Few<T>) -> (r: bool)
        ensures
            match (*self, *other) {
                (Few::Zero, Few::Zero) => r,
                (Few::One(a), Few::One(c)) => call_ensures(T::eq, (&a, &c), r),
                (Few::Two(a, b), Few::Two(c, d)) => exists|first: bool|
                    {
                        &&& #[trigger] call_ensures(T::eq, (&a, &c), first)
                        &&& if first {
                            call_ensures(T::eq, (&b, &d), r)
                        } else {
                            !r
                        }
                    },
                _ => !r,
            },
            T::obeys_eq_spec() ==> r == self.same_as(other),
    {
        match (self, other) {
            (Few::Zero, Few::Zero) => true,
            (Few::One(a), Few::One(c)) => *a == *c,
            (Few::Two(a, b), Few::Two(c, d)) => *a == *c && *b == *d,
            _ => false,
        }
    }
}

impl<T: PartialOrd> vstd::std_specs::cmp::PartialOrdSpecImpl for Few<T> {
    open spec fn obeys_partial_cmp_spec() -> bool {
        T::obeys_partial_cmp_spec()
    }

    open spec fn partial_cmp_spec(&self, other: &Few<T>) -> Option<Ordering> {
        self.compared_with(other)
    }
}

impl<T: PartialOrd> PartialOrd for Few<T> {
    /// Values of different shapes are ordered by their shapes, and `Zero`
    /// equals `Zero`. Values of one shape are ordered as the order of `T`
    /// says of their payloads: for `Two`, as it says of the first ones unless
    /// it calls them equal, and then as it says of the second ones. Where
    /// that order has a specification, the result is [`Few::compared_with`].
    fn partial_cmp(&self, other: &Few<T>) -> (r: Option<Ordering>)
        ensures
            match (*self, *other) {
                (Few::Zero, Few::Zero) => r == Some(Ordering::Equal),
                (Few::One(a), Few::One(c)) => call_ensures(
                    T::partial_cmp,
                    (&a, &c),
                    r,
                ),
                (Few::Two(a, b), Few::Two(c, d)) => exists|first: Option<Ordering>|
                    {
                        &&& #[trigger] call_ensures(
                            T::partial_cmp,
                            (&a, &c),
                            first,
                        )
                        &&& if first == Some(Ordering::Equal) {
                            call_ensures(T::partial_cmp, (&b, &d), r)
                        } else {
                            r == first
                        }
                    },
                _ => r == Some(
                    if self@.len() < other@.len() {
                        Ordering::Less
                    } else {
                        Ordering::Greater
                    },
                ),
            },
            T::obeys_partial_cmp_spec() ==> r == self.compared_with(other),
    {
        match (self, other) {
            (Few::Zero, Few::Zero) => Some(Ordering::Equal),
            (Few::Zero, _) => Some(Ordering::Less),
            (Few::One(_), Few::Zero) => Some(Ordering::Greater),
            (Few::One(a), Few::One(c)) => a.partial_cmp(c),
            (Few::One(_), Few::Two(_, _)) => Some(Ordering::Less),
            (Few::Two(a, b), Few::Two(c, d)) => match a.partial_cmp(c) {
                Some(Ordering::Equal) => b.partial_cmp(d),
                decided => decided,
            },
            (Few::Two(_, _), _) => Some(Ordering::Greater),
        }
    }
}

} // verus!
