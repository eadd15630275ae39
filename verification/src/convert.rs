//! Building a `Few` from plain values, pairs and options.
//!
//! Every conversion is total and keeps the order of the values it is given.

use crate::few::Few;
use vstd::prelude::*;
use vstd::std_specs::convert::FromSpecImpl;

verus! {

impl<T> FromSpecImpl<T> for Few<T> {
    open spec fn obeys_from_spec() -> bool {
        true
    }

    /// A single value gives `One`.
    open spec fn from_spec(value: T) -> Few<T> {
        Few::One(value)
    }
}

impl<T> From<T> for Few<T> {
    fn from(value: T) -> (r: Few<T>)
        ensures
            r == Few::One(value),
    {
        Few::One(value)
    }
}

impl<T> FromSpecImpl<(T, T)> for Few<T> {
    open spec fn obeys_from_spec() -> bool {
        true
    }

    /// A pair gives `Two`, in the order of the pair.
    open spec fn from_spec(value: (T, T)) -> Few<T> {
        Few::Two(value.0, value.1)
    }
}

impl<T> From<(T, T)> for Few<T> {
    fn from(value: (T, T)) -> (r: Few<T>)
        ensures
            r == Few::Two(value.0, value.1),
    {
        Few::Two(value.0, value.1)
    }
}

impl<T> FromSpecImpl<Option<T>> for Few<T> {
    open spec fn obeys_from_spec() -> bool {
        true
    }

    /// An empty option gives `Zero`, a present value `One`.
    open spec fn from_spec(value: Option<T>) -> Few<T> {
        match value {
            None => Few::Zero,
            Some(value) => Few::One(value),
        }
    }
}

impl<T> From<Option<T>> for Few<T> {
    fn from(value: Option<T>) -> (r: Few<T>)
        ensures
            r == (match value {
                None => Few::Zero,
                Some(value) => Few::One(value),
            }),
    {
        match value {
            None => Few::Zero,
            Some(value) => Few::One(value),
        }
    }
}

impl<T> FromSpecImpl<Option<(T, T)>> for Few<T> {
    open spec fn obeys_from_spec() -> bool {
        true
    }

    /// An empty option gives `Zero`, a present pair `Two`, in the order of
    /// the pair.
    open spec fn from_spec(value: Option<(T, T)>) -> Few<T> {
        match value {
            None => Few::Zero,
            Some((a, b)) => Few::Two(a, b),
        }
    }
}

impl<T> From<Option<(T, T)>> for Few<T> {
    fn from(value: Option<(T, T)>) -> (r: Few<T>)
        ensures
            r == (match value {
                None => Few::Zero,
                Some((a, b)) => Few::Two(a, b),
            }),
    {
        match value {
            None => Few::Zero,
            Some((a, b)) => Few::Two(a, b),
        }
    }
}

impl<T> FromSpecImpl<(Option<T>, Option<T>)> for Few<T> {
    open spec fn obeys_from_spec() -> bool {
        true
    }

    /// Two options give as many values as are present, the first option's
    /// value before the second's.
    open spec fn from_spec(value: (Option<T>, Option<T>)) -> Few<T> {
        match (value.0, value.1) {
            (None, None) => Few::Zero,
            (Some(a), None) => Few::One(a),
            (None, Some(b)) => Few::One(b),
            (Some(a), Some(b)) => Few::Two(a, b),
        }
    }
}

impl<T> From<(Option<T>, Option<T>)> for Few<T> {
    fn from(value: (Option<T>, Option<T>)) -> (r: Few<T>)
        ensures
            r == (match (value.0, value.1) {
                (None, None) => Few::Zero,
                (Some(a), None) => Few::One(a),
                (None, Some(b)) => Few::One(b),
                (Some(a), Some(b)) => Few::Two(a, b),
            }),
    {
        match (value.0, value.1) {
            (None, None) => Few::Zero,
            (Some(a), None) => Few::One(a),
            (None, Some(b)) => Few::One(b),
            (Some(a), Some(b)) => Few::Two(a, b),
        }
    }
}

} // verus!
