use vstd::prelude::*;
use crate::array_vec::ArrayVec;

verus! {

/// Error value indicating insufficient capacity: it carries the element that
/// could not be inserted.
#[derive(Clone, Copy, PartialEq, Eq, PartialOrd, Ord)]
pub struct CapacityError<T = ()> {
    element: T,
}

/// The character of a decimal digit `d < 10`.
pub open spec fn digit_char(d: nat) -> char {
    if d == 0 {
        '0'
    } else if d == 1 {
        '1'
    } else if d == 2 {
        '2'
    } else if d == 3 {
        '3'
    } else if d == 4 {
        '4'
    } else if d == 5 {
        '5'
    } else if d == 6 {
        '6'
    } else if d == 7 {
        '7'
    } else if d == 8 {
        '8'
    } else {
        '9'
    }
}

/// The decimal digits of `n`, most significant first, without leading zeros.
pub open spec fn decimal(n: nat) -> Seq<char>
    decreases n,
{
    if n < 10 {
        seq![digit_char(n)]
    } else {
        decimal(n / 10).push(digit_char(n % 10))
    }
}

/// Relies on `ToString` for `usize`: the number's decimal digits.
#[verifier::external_body]
fn decimal_string(n: usize) -> (r: String)
    ensures
        r@ == decimal(n as nat),
{
    n.to_string()
}

/// The text of an underfill error for capacity `cap` and length `len`.
pub open spec fn underfilled_message(cap: nat, len: nat) -> Seq<char> {
    "capacity is not filled: expected "@ + decimal(cap) + ", got "@ + decimal(len)
}

/// The fixed text of a capacity error.
pub open spec fn capacity_message() -> Seq<char> {
    "insufficient capacity"@
}

impl<T> CapacityError<T> {
    /// The error that carries `element`.
    pub closed spec fn spec_new(element: T) -> Self {
        CapacityError { element }
    }

    /// The element this error carries.
    pub closed spec fn payload(self) -> T {
        self.element
    }

    /// This error with its element erased.
    pub closed spec fn simplified(self) -> CapacityError<()> {
        CapacityError { element: () }
    }

    /// Create a new `CapacityError` from `element`.
    pub fn new(element: T) -> (r: CapacityError<T>)
        ensures
            r == Self::spec_new(element),
            r.payload() == element,
    {
        CapacityError { element }
    }

    /// Extract the overflowing element.
    pub fn element(self) -> (r: T)
        ensures
            r == self.payload(),
    {
        self.element
    }

    /// Convert into a `CapacityError` that does not carry an element.
    pub fn simplify(self) -> (r: CapacityError)
        ensures
            r == self.simplified(),
            r == CapacityError::<()>::spec_new(()),
    {
        CapacityError { element: () }
    }

    /// The rendered form of the error: the same text whatever it carries.
    pub fn to_string(&self) -> (r: String)
        ensures
            r@ == capacity_message(),
    {
        String::from_str("insufficient capacity")
    }

    /// The debugging form of the error: the type's name before the fixed text.
    pub fn to_debug_string(&self) -> (r: String)
        ensures
            r@ == "CapacityError: "@ + capacity_message(),
    {
        String::from_str("CapacityError: ").concat("insufficient capacity")
    }
}

/// Error value indicating that capacity is not completely filled: it carries
/// the partly filled vector back, untouched.
#[derive(Clone, Debug, PartialEq, Eq, PartialOrd, Ord)]
pub struct UnderfilledError<T, const CAP: usize>(ArrayVec<T, CAP>);

impl<T, const CAP: usize> UnderfilledError<T, CAP> {
    /// The error that carries `inner`.
    pub closed spec fn spec_new(inner: ArrayVec<T, CAP>) -> Self {
        UnderfilledError(inner)
    }

    /// The vector this error carries.
    pub closed spec fn inner(self) -> ArrayVec<T, CAP> {
        self.0
    }

    /// Create a new `UnderfilledError` that carries `inner`.
    pub fn new(inner: ArrayVec<T, CAP>) -> (r: Self)
        ensures
            r == Self::spec_new(inner),
            r.inner() == inner,
    {
        UnderfilledError(inner)
    }

    /// Extract the partly filled vector.
    pub fn take_vec(self) -> (r: ArrayVec<T, CAP>)
        ensures
            r == self.inner(),
    {
        self.0
    }

    /// The rendered form of the error, with the capacity and the length of
    /// the vector it carries.
    pub fn to_string(&self) -> (r: String)
        ensures
            r@ == underfilled_message(CAP as nat, self.inner()@.len()),
    {
        let r = String::from_str("capacity is not filled: expected ");
        let r = r.concat(decimal_string(CAP).as_str());
        let r = r.concat(", got ");
        let r = r.concat(decimal_string(self.0.len()).as_str());
        r
    }
}

/// Extracting the element of a new capacity error gives back that element.
pub proof fn lemma_capacity_error_round_trip<T>(x: T)
    ensures
        CapacityError::<T>::spec_new(x).payload() == x,
{
}

/// Taking the vector out of a new underfill error gives back that vector.
pub proof fn lemma_underfilled_error_round_trip<T, const CAP: usize>(c: ArrayVec<T, CAP>)
    ensures
        UnderfilledError::<T, CAP>::spec_new(c).inner() == c,
{
}

/// Simplifying erases the element: any two capacity errors of one type
/// simplify to the same value.
pub proof fn lemma_simplify_erases_element<T>(x: T, y: T)
    ensures
        CapacityError::<T>::spec_new(x).simplified() == CapacityError::<T>::spec_new(
            y,
        ).simplified(),
{
}

} // verus!
