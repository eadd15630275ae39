//! The `Few` type, its model, its shape predicates, membership and mapping.

use vstd::prelude::*;
use vstd::std_specs::cmp::PartialEqSpec;

verus! {

/// A type which may contain zero, one, or two of a value.
///
/// The model of a `Few<T>` is the sequence of the values it holds, in order:
/// see [`Few::view`]. That sequence has length zero, one or two, and it
/// determines the value ([`Few::lemma_view_determines`]).
#[derive(Debug, Copy, Hash, Eq, Ord)]
pub enum Few<T> {
    /// No value present.
    Zero,
    /// One value present.
    One(T),
    /// Two values present, the first before the second.
    Two(T, T),
}

impl<T> View for Few<T> {
    type V = Seq<T>;

    /// The values held, in order.
    open spec fn view(&self) -> Seq<T> {
        match *self {
            Few::Zero => seq![],
            Few::One(v) => seq![v],
            Few::Two(a, b) => seq![a, b],
        }
    }
}

impl<T> Few<T> {
    /// Whether no value is held.
    pub open spec fn spec_is_zero(&self) -> bool {
        *self is Zero
    }

    /// Whether exactly one value is held.
    pub open spec fn spec_is_one(&self) -> bool {
        *self is One
    }

    /// Whether exactly two values are held.
    pub open spec fn spec_is_two(&self) -> bool {
        *self is Two
    }

    /// Whether `x` equals, by the specified equality of `U` with `T`, one of
    /// the values held.
    pub open spec fn spec_contains<U: PartialEq<T>>(&self, x: &U) -> bool {
        match *self {
            Few::Zero => false,
            Few::One(v) => x.eq_spec(&v),
            Few::Two(a, b) => x.eq_spec(&a) || x.eq_spec(&b),
        }
    }

    /// The value of the same shape as `self` that holds `f` of each payload,
    /// position by position.
    pub open spec fn spec_map<U>(self, f: spec_fn(T) -> U) -> Few<U> {
        match self {
            Few::Zero => Few::Zero,
            Few::One(v) => Few::One(f(v)),
            Few::Two(a, b) => Few::Two(f(a), f(b)),
        }
    }

    /// Returns true if the `Few` is a `Zero` value.
    #[verifier::when_used_as_spec(spec_is_zero)]
    pub fn is_zero(&self) -> (r: bool)
        ensures
            r == self.spec_is_zero(),
    {
        match self {
            Few::Zero => true,
            _ => false,
        }
    }

    /// Returns true if the `Few` is a `One` value.
    #[verifier::when_used_as_spec(spec_is_one)]
    pub fn is_one(&self) -> (r: bool)
        ensures
            r == self.spec_is_one(),
    {
        match self {
            Few::One(_) => true,
            _ => false,
        }
    }

    /// Returns true if the `Few` is a `Two` value.
    #[verifier::when_used_as_spec(spec_is_two)]
    pub fn is_two(&self) -> (r: bool)
        ensures
            r == self.spec_is_two(),
    {
        match self {
            Few::Two(_, _) => true,
            _ => false,
        }
    }

    /// Returns true if the `Few` is a `One` or `Two` value containing the given
    /// value.
    ///
    /// The result is what the `==` of `U` with `T` returns: for `Two`, of the
    /// first payload, and of the second only where the first was unequal.
    /// Where that `==` has a specification, the result is
    /// [`Few::spec_contains`].
    pub fn contains<U>(&self, x: &U) -> (r: bool) where U: PartialEq<T>
        ensures
            match *self {
                Few::Zero => !r,
                Few::One(v) => call_ensures(<U as PartialEq<T>>::eq, (x, &v), r),
                Few::Two(a, b) => exists|first: bool|
                    {
                        &&& #[trigger] call_ensures(<U as PartialEq<T>>::eq, (x, &a), first)
                        &&& if first {
                            r
                        } else {
                            call_ensures(<U as PartialEq<T>>::eq, (x, &b), r)
                        }
                    },
            },
            U::obeys_eq_spec() ==> r == self.spec_contains(x),
    {
        match self {
            Few::Zero => false,
            Few::One(v) => *x == *v,
            Few::Two(a, b) => *x == *a || *x == *b,
        }
    }

    /// Maps an `Few<T>` to `Few<U>` by applying a function to each contained
    /// value, first to last.
    ///
    /// The result has the shape of `self`, and each of its payloads is a
    /// result of `f` for the payload of `self` at the same position. Where `f`
    /// returns `g(x)` for every `x`, the result is `self.spec_map(g)`.
    pub fn map<F, U>(self, mut f: F) -> (out: Few<U>) where F: FnMut(T) -> U
        requires
            forall|i: int| 0 <= i < self@.len() ==> call_requires(f, (#[trigger] self@[i],)),
        ensures
            out@.len() == self@.len(),
            forall|i: int|
                0 <= i < self@.len() ==> call_ensures(f, (self@[i],), #[trigger] out@[i]),
            forall|g: spec_fn(T) -> U|
                (forall|x: T, y: U| call_ensures(f, (x,), y) ==> y == g(x)) ==> out
                    == #[trigger] self.spec_map(g),
    {
        match self {
            Few::Zero => Few::Zero,
            Few::One(v) => {
                assert(self@[0] == v);
                Few::One((f)(v))
            },
            Few::Two(a, b) => {
                assert(self@[0] == a);
                assert(self@[1] == b);
                Few::Two((f)(a), (f)(b))
            },
        }
    }

    /// A `Few` is determined by the sequence of the values it holds.
    pub proof fn lemma_view_determines(self, other: Few<T>)
        requires
            self@ == other@,
        ensures
            self == other,
    {
        self.lemma_exactly_one_shape();
        other.lemma_exactly_one_shape();
        if self.is_one() {
            assert(self->One_0 == self@[0] && other->One_0 == other@[0]);
        } else if self.is_two() {
            assert(self->Two_0 == self@[0] && other->Two_0 == other@[0]);
            assert(self->Two_1 == self@[1] && other->Two_1 == other@[1]);
        }
    }

    /// Every value has exactly one of the three shapes, and the shape is the
    /// number of values held: none for `Zero`, one for `One`, two for `Two`.
    pub proof fn lemma_exactly_one_shape(self)
        ensures
            self.is_zero() <==> self@.len() == 0,
            self.is_one() <==> self@.len() == 1,
            self.is_two() <==> self@.len() == 2,
            self.is_zero() || self.is_one() || self.is_two(),
            !(self.is_zero() && self.is_one()),
            !(self.is_zero() && self.is_two()),
            !(self.is_one() && self.is_two()),
    {
    }

    /// Mapping with the identity keeps the shape, the payloads and their
    /// order.
    pub proof fn lemma_map_identity(self)
        ensures
            self.spec_map(|x: T| x) == self,
    {
    }

    /// Mapping with `f` and then with `g` is mapping with `g` after `f`.
    pub proof fn lemma_map_compose<U, V>(self, f: spec_fn(T) -> U, g: spec_fn(U) -> V)
        ensures
            self.spec_map(f).spec_map(g) == self.spec_map(|x: T| g(f(x))),
    {
    }

    /// Mapping keeps the shape and maps the model position by position.
    pub proof fn lemma_map_view<U>(self, f: spec_fn(T) -> U)
        ensures
            self.spec_map(f)@ == self@.map_values(f),
    {
        assert(self.spec_map(f)@ =~= self@.map_values(f));
    }
}

impl<T: Clone> Clone for Few<T> {
    /// The clone has the shape of `self` and holds a clone of each of its
    /// payloads, in order.
    fn clone(&self) -> (r: Few<T>)
        ensures
            r@.len() == self@.len(),
            forall|i: int| 0 <= i < self@.len() ==> cloned::<T>(#[trigger] self@[i], r@[i]),
    {
        match self {
            Few::Zero => Few::Zero,
            Few::One(v) => Few::One(v.clone()),
            Few::Two(a, b) => Few::Two(a.clone(), b.clone()),
        }
    }
}

impl<T> Default for Few<T> {
    /// The default value holds nothing.
    fn default() -> (r: Few<T>)
        ensures
            r == Few::<T>::Zero,
    {
        Few::Zero
    }
}

} // verus!
