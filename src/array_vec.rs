use vstd::prelude::*;
use crate::errors::{CapacityError, UnderfilledError};

verus! {

/// A vector with a fixed capacity `CAP`: it holds between zero and `CAP`
/// elements, and never grows beyond that.
#[derive(Clone, Debug, PartialEq, Eq, PartialOrd, Ord)]
pub struct ArrayVec<T, const CAP: usize> {
    xs: Vec<T>,
}

impl<T, const CAP: usize> View for ArrayVec<T, CAP> {
    type V = Seq<T>;

    closed spec fn view(&self) -> Seq<T> {
        self.xs@
    }
}

/// Relies on std's `TryFrom<Vec<T>>` for `[T; N]`: the vector's elements as an
/// array when its length is exactly `N`, and the vector itself otherwise.
#[verifier::external_body]
fn vec_into_array<T, const N: usize>(v: Vec<T>) -> (r: Result<[T; N], Vec<T>>)
    ensures
        match r {
            Ok(a) => v@.len() == N && a@ == v@,
            Err(w) => v@.len() != N && w@ == v@,
        },
{
    <[T; N]>::try_from(v)
}

impl<T, const CAP: usize> ArrayVec<T, CAP> {
    /// The vector holds no more than `CAP` elements.
    pub open spec fn wf(&self) -> bool {
        self@.len() <= CAP
    }

    /// Create an empty vector.
    pub fn new() -> (r: Self)
        ensures
            r.wf(),
            r@ == Seq::<T>::empty(),
    {
        ArrayVec { xs: Vec::new() }
    }

    /// The number of elements held.
    pub fn len(&self) -> (r: usize)
        ensures
            r == self@.len(),
    {
        self.xs.len()
    }

    /// The fixed capacity.
    pub fn capacity(&self) -> (r: usize)
        ensures
            r == CAP,
    {
        CAP
    }

    /// Whether no element is held.
    pub fn is_empty(&self) -> (r: bool)
        ensures
            r == (self@.len() == 0),
    {
        self.xs.len() == 0
    }

    /// Whether the vector holds `CAP` elements.
    pub fn is_full(&self) -> (r: bool)
        ensures
            r == (self@.len() == CAP),
    {
        self.xs.len() == CAP
    }

    /// Append `element` if there is room; otherwise hand it back in a
    /// `CapacityError` and leave the vector as it was.
    pub fn push(&mut self, element: T) -> (r: Result<(), CapacityError<T>>)
        requires
            old(self).wf(),
        ensures
            final(self).wf(),
            old(self)@.len() < CAP ==> r is Ok && final(self)@ == old(self)@.push(element),
            old(self)@.len() == CAP ==> r is Err && final(self)@ == old(self)@,
            r matches Err(e) ==> e.payload() == element,
    {
        if self.xs.len() < CAP {
            self.xs.push(element);
            Ok(())
        } else {
            Err(CapacityError::new(element))
        }
    }

    /// Append all of `values` if they fit; otherwise append none of them and
    /// hand them back in a `CapacityError`.
    pub fn try_extend(&mut self, values: Vec<T>) -> (r: Result<(), CapacityError<Vec<T>>>)
        requires
            old(self).wf(),
        ensures
            final(self).wf(),
            old(self)@.len() + values@.len() <= CAP ==> r is Ok && final(self)@ == old(self)@
                + values@,
            old(self)@.len() + values@.len() > CAP ==> r is Err && final(self)@ == old(self)@,
            r matches Err(e) ==> e.payload()@ == values@,
    {
        if values.len() <= CAP - self.xs.len() {
            let mut values = values;
            self.xs.append(&mut values);
            Ok(())
        } else {
            Err(CapacityError::new(values))
        }
    }

    /// Remove and return the last element, or `None` when the vector is empty.
    pub fn pop(&mut self) -> (r: Option<T>)
        requires
            old(self).wf(),
        ensures
            final(self).wf(),
            old(self)@.len() == 0 ==> r is None && final(self)@ == old(self)@,
            old(self)@.len() > 0 ==> r == Some(old(self)@.last()) && final(self)@ == old(
                self,
            )@.drop_last(),
    {
        self.xs.pop()
    }

    /// Keep the first `len` elements and drop the rest; a `len` at or above
    /// the current length changes nothing.
    pub fn truncate(&mut self, len: usize)
        requires
            old(self).wf(),
        ensures
            final(self).wf(),
            len < old(self)@.len() ==> final(self)@ == old(self)@.subrange(0, len as int),
            len >= old(self)@.len() ==> final(self)@ == old(self)@,
    {
        self.xs.truncate(len);
    }

    /// The elements held, in order.
    pub fn as_slice(&self) -> (r: &[T])
        ensures
            r@ == self@,
    {
        self.xs.as_slice()
    }

    /// The elements as an array, when the vector is full; otherwise the vector
    /// itself, untouched, in an `UnderfilledError`.
    pub fn into_inner(self) -> (r: Result<[T; CAP], UnderfilledError<T, CAP>>)
        requires
            self.wf(),
        ensures
            self@.len() == CAP ==> (r matches Ok(a) && a@ == self@),
            self@.len() < CAP ==> (r matches Err(e) && e.inner()@ == self@),
    {
        match vec_into_array(self.xs) {
            Ok(a) => Ok(a),
            Err(w) => Err(UnderfilledError::new(ArrayVec { xs: w })),
        }
    }
}

} // verus!
