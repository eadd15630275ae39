//! Taking the values out of a `Few`, one at a time, from either end.
//!
//! A `Few` only ever shrinks: each step moves one value out and leaves the
//! rest in place, `Two` becoming `One` and `One` becoming `Zero`. From `Zero`
//! nothing comes, however often it is asked.

use crate::few::Few;
use vstd::prelude::*;

verus! {

impl<T> Few<T> {
    /// The first value held, if any.
    pub open spec fn first(self) -> Option<T> {
        match self {
            Few::Zero => None,
            Few::One(v) => Some(v),
            Few::Two(a, _) => Some(a),
        }
    }

    /// The last value held, if any.
    pub open spec fn last(self) -> Option<T> {
        match self {
            Few::Zero => None,
            Few::One(v) => Some(v),
            Few::Two(_, b) => Some(b),
        }
    }

    /// What is left when the first value has been taken.
    pub open spec fn without_first(self) -> Few<T> {
        match self {
            Few::Zero => Few::Zero,
            Few::One(_) => Few::Zero,
            Few::Two(_, b) => Few::One(b),
        }
    }

    /// What is left when the last value has been taken.
    pub open spec fn without_last(self) -> Few<T> {
        match self {
            Few::Zero => Few::Zero,
            Few::One(_) => Few::Zero,
            Few::Two(a, _) => Few::One(a),
        }
    }

    /// The values that come when the first value is taken again and again
    /// until none is left, in the order in which they come.
    pub open spec fn drained_front(self) -> Seq<T>
        decreases self@.len(),
    {
        match self.first() {
            Some(v) => seq![v] + self.without_first().drained_front(),
            None => seq![],
        }
    }

    /// The values that come when the last value is taken again and again
    /// until none is left, in the order in which they come.
    pub open spec fn drained_back(self) -> Seq<T>
        decreases self@.len(),
    {
        match self.last() {
            Some(v) => seq![v] + self.without_last().drained_back(),
            None => seq![],
        }
    }

    /// What is left after one step for each entry of `from_front`, in order:
    /// a step that takes the first value where the entry is `true`, the last
    /// value where it is `false`.
    pub open spec fn after_steps(self, from_front: Seq<bool>) -> Few<T>
        decreases from_front.len(),
    {
        if from_front.len() == 0 {
            self
        } else if from_front[0] {
            self.without_first().after_steps(from_front.drop_first())
        } else {
            self.without_last().after_steps(from_front.drop_first())
        }
    }

    /// The values that the steps from the front give, among the steps that
    /// `from_front` lists, in the order in which they come.
    pub open spec fn taken_front(self, from_front: Seq<bool>) -> Seq<T>
        decreases from_front.len(),
    {
        if from_front.len() == 0 {
            seq![]
        } else if from_front[0] {
            let head = match self.first() {
                Some(v) => seq![v],
                None => seq![],
            };
            head + self.without_first().taken_front(from_front.drop_first())
        } else {
            self.without_last().taken_front(from_front.drop_first())
        }
    }

    /// The values that the steps from the back give, among the steps that
    /// `from_front` lists, in the order in which they come.
    pub open spec fn taken_back(self, from_front: Seq<bool>) -> Seq<T>
        decreases from_front.len(),
    {
        if from_front.len() == 0 {
            seq![]
        } else if from_front[0] {
            self.without_first().taken_back(from_front.drop_first())
        } else {
            let head = match self.last() {
                Some(v) => seq![v],
                None => seq![],
            };
            head + self.without_last().taken_back(from_front.drop_first())
        }
    }

    /// Removes and returns the first remaining value.
    ///
    /// `Two(a, b)` gives `a` and becomes `One(b)`; `One(v)` gives `v` and
    /// becomes `Zero`; `Zero` gives nothing and stays `Zero`.
    pub fn next(&mut self) -> (r: Option<T>)
        ensures
            r == old(self).first(),
            *final(self) == old(self).without_first(),
    {
        replace_with(
            self,
            |curr: Few<T>| -> (step: (Option<T>, Few<T>))
                ensures
                    step.0 == curr.first(),
                    step.1 == curr.without_first()
                {
                    match curr {
                        Few::Zero => (None, Few::Zero),
                        Few::One(v) => (Some(v), Few::Zero),
                        Few::Two(a, b) => (Some(a), Few::One(b)),
                    }
                },
        )
    }

    /// Removes and returns the last remaining value.
    ///
    /// `Two(a, b)` gives `b` and becomes `One(a)`; `One(v)` gives `v` and
    /// becomes `Zero`; `Zero` gives nothing and stays `Zero`.
    pub fn next_back(&mut self) -> (r: Option<T>)
        ensures
            r == old(self).last(),
            *final(self) == old(self).without_last(),
    {
        replace_with(
            self,
            |curr: Few<T>| -> (step: (Option<T>, Few<T>))
                ensures
                    step.0 == curr.last(),
                    step.1 == curr.without_last()
                {
                    match curr {
                        Few::Zero => (None, Few::Zero),
                        Few::One(v) => (Some(v), Few::Zero),
                        Few::Two(a, b) => (Some(b), Few::One(a)),
                    }
                },
        )
    }

    /// The exact number of values that remain.
    pub fn len(&self) -> (n: usize)
        ensures
            n == self@.len(),
    {
        match self {
            Few::Zero => 0,
            Few::One(_) => 1,
            Few::Two(_, _) => 2,
        }
    }
}

impl<T> Few<T> {
    /// A step from the front takes the first value of the model, a step from
    /// the back its last value, and either leaves the other values as they
    /// were. From `Zero` a step takes nothing and leaves `Zero`.
    pub proof fn lemma_step_view(self)
        ensures
            self.first() == (if self@.len() > 0 {
                Some(self@.first())
            } else {
                None
            }),
            self.last() == (if self@.len() > 0 {
                Some(self@.last())
            } else {
                None
            }),
            self@.len() > 0 ==> self.without_first()@ == self@.drop_first(),
            self@.len() > 0 ==> self.without_last()@ == self@.drop_last(),
            self@.len() == 0 ==> self.without_first() == self && self.without_last() == self,
    {
        if !self.is_zero() {
            assert(self.without_first()@ =~= self@.drop_first());
            assert(self.without_last()@ =~= self@.drop_last());
        }
    }

    /// Taken from the front until none is left, the values come in their
    /// order; taken from the back, in the reverse of it. So `Two(a, b)` gives
    /// `a` then `b` from the front and `b` then `a` from the back.
    pub proof fn lemma_drained(self)
        ensures
            self.drained_front() == self@,
            self.drained_back() == self@.reverse(),
            self matches Few::Two(a, b) ==> self.drained_front() == seq![a, b]
                && self.drained_back() == seq![b, a],
    {
        reveal_with_fuel(Few::drained_front, 3);
        reveal_with_fuel(Few::drained_back, 3);
        assert(self.drained_front() =~= self@);
        assert(self.drained_back() =~= self@.reverse());
        if let Few::Two(a, b) = self {
            assert(self.drained_back() =~= seq![b, a]);
        }
    }

    /// Whatever the order of steps from the front and from the back, no value
    /// is lost, none comes twice and none leaves its place: the values taken
    /// from the front, in the order in which they came, then the values that
    /// are left, then the values taken from the back, in the reverse of the
    /// order in which they came, are the values held at the start.
    pub proof fn lemma_interleaved(self, from_front: Seq<bool>)
        ensures
            self.taken_front(from_front) + self.after_steps(from_front)@ + self.taken_back(
                from_front,
            ).reverse() == self@,
        decreases from_front.len(),
    {
        let whole = self.taken_front(from_front) + self.after_steps(from_front)@
            + self.taken_back(from_front).reverse();
        if from_front.len() == 0 {
            assert(whole =~= self@);
        } else {
            let rest = from_front.drop_first();
            self.lemma_step_view();
            if from_front[0] {
                self.without_first().lemma_interleaved(rest);
                assert(whole =~= self@);
            } else {
                let left = self.without_last();
                left.lemma_interleaved(rest);
                if self.last() is Some {
                    let v = self.last()->0;
                    assert((seq![v] + left.taken_back(rest)).reverse() =~= left.taken_back(
                        rest,
                    ).reverse() + seq![v]);
                    assert(self@ =~= self@.drop_last() + seq![v]);
                }
                assert(whole =~= self@);
            }
        }
    }

    /// Every step takes one value while there is one, whichever end it takes
    /// it from: as many values are gone as steps were made, and none is left
    /// once there were as many steps as values.
    pub proof fn lemma_steps_count(self, from_front: Seq<bool>)
        ensures
            self.after_steps(from_front)@.len() == if from_front.len() <= self@.len() {
                self@.len() - from_front.len()
            } else {
                0
            },
        decreases from_front.len(),
    {
        if from_front.len() > 0 {
            self.lemma_step_view();
            if from_front[0] {
                self.without_first().lemma_steps_count(from_front.drop_first());
            } else {
                self.without_last().lemma_steps_count(from_front.drop_first());
            }
        }
    }

    /// Once every value has been taken, nothing is left, and further steps
    /// from either end give nothing and leave nothing, however many follow.
    pub proof fn lemma_exhausted(self, from_front: Seq<bool>)
        requires
            from_front.len() >= self@.len(),
        ensures
            self.after_steps(from_front) == Few::<T>::Zero,
            self.after_steps(from_front)@.len() == 0,
            self.after_steps(from_front).first() is None,
            self.after_steps(from_front).last() is None,
            self.after_steps(from_front).without_first() == Few::<T>::Zero,
            self.after_steps(from_front).without_last() == Few::<T>::Zero,
    {
        self.lemma_steps_count(from_front);
        self.after_steps(from_front).lemma_exactly_one_shape();
    }
}

/// Replaces the value behind `val` by a value computed from it, and returns
/// what the computation produced besides.
///
/// The value is moved out of `val`, which holds `Zero` while `replace` runs on
/// it; the second component of what `replace` returns is then written to `val`
/// and the first is returned. At no point is a payload held in two places.
fn replace_with<T, R, F>(val: &mut Few<T>, replace: F) -> (produced: R) where
    F: FnOnce(Few<T>) -> (R, Few<T>),

    requires
        call_requires(replace, (*old(val),)),
    ensures
        call_ensures(replace, (*old(val),), (produced, *final(val))),
{
    let mut curr = Few::Zero;
    core::mem::swap(val, &mut curr);
    let (produced, next) = replace(curr);
    *val = next;
    produced
}

} // verus!
