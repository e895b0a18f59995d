use crate::scalar::Scalar;
use vstd::prelude::*;

verus! {

/// A heap allocated structure for representing a value curve.
pub struct Curve<T>(Vec<T>);

impl<T> View for Curve<T> {
    type V = Seq<T>;

    closed spec fn view(&self) -> Seq<T> {
        self.0@
    }
}

impl<T: Copy> Curve<T> {
    /// Constructs a `Curve` from a slice of values.
    pub fn new(values: &[T]) -> (c: Curve<T>)
        ensures
            c@ == values@,
    {
        let mut held: Vec<T> = Vec::new();
        let mut i: usize = 0;
        while i < values.len()
            invariant
                i <= values@.len(),
                held@ == values@.subrange(0, i as int),
            decreases values@.len() - i,
        {
            held.push(values[i]);
            assert(held@ =~= values@.subrange(0, i + 1));
            i += 1;
        }
        assert(held@ =~= values@);
        Curve(held)
    }

    /// Returns the number of values of the curve.
    pub fn len(&self) -> (n: usize)
        ensures
            n == self@.len(),
    {
        self.0.len()
    }

    /// Returns the value at `index`.
    pub fn index(&self, index: usize) -> (v: T)
        requires
            index < self@.len(),
        ensures
            v == self@[index as int],
    {
        self.0[index]
    }

    /// Replaces the value at `index`.
    pub fn index_set(&mut self, index: usize, value: T)
        requires
            index < old(self)@.len(),
        ensures
            final(self)@ == old(self)@.update(index as int, value),
    {
        self.0.set(index, value);
    }
}

/// The value between `start` and `end` that the weight `weight` of `end`
/// gives: `(1 - weight) * start + weight * end`.
pub open spec fn mixed<T: Scalar>(start: T, end: T, weight: T) -> T {
    T::one_value().minus_spec(weight).times_spec(start).plus_spec(weight.times_spec(end))
}

/// The value of the curve `values` at a position: between two of its values
/// where the position names them and a weight, at its last value where the
/// position is none, which stands for the end of the curve and all beyond it.
/// A curve of one value has this value everywhere, an empty curve has zero.
pub open spec fn lerp_spec<T: Scalar>(values: Seq<T>, position: Option<(usize, usize, T)>) -> T {
    if values.len() > 1 {
        match position {
            Some((start, end, weight)) => mixed(values[start as int], values[end as int], weight),
            None => values[values.len() - 1],
        }
    } else if values.len() == 1 {
        values[0]
    } else {
        T::zero_value()
    }
}

impl<T: Scalar> Curve<T> {
    /// Linearly interpolates between the values of the curve. The position
    /// holds the indices of the two values to interpolate between and the
    /// weight of the second, or nothing at the end of the curve and beyond.
    pub fn lerp(&self, position: Option<(usize, usize, T)>) -> (v: T)
        requires
            self@.len() > 1 ==> match position {
                Some((start, end, _)) => start < self@.len() && end < self@.len(),
                None => true,
            },
        ensures
            v == lerp_spec(self@, position),
    {
        let len = self.0.len();

        if len > 1 {
            match position {
                Some((start, end, weight)) => {
                    T::one().minus(weight).times(self.0[start]).plus(weight.times(self.0[end]))
                },
                None => self.0[len - 1],
            }
        } else if len == 1 {
            self.0[0]
        } else {
            T::zero()
        }
    }
}

} // verus!
