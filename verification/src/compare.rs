//! What the comparisons used in this library mean, over the scalar's own
//! comparison specifications.
use core::cmp::Ordering;
use vstd::prelude::*;
use vstd::std_specs::cmp::PartialEqSpec;
use vstd::std_specs::cmp::PartialOrdSpec;
use vstd::std_specs::convert::FromSpec;

verus! {

/// Whether the scalar's comparisons and its conversion from small integers
/// return what their specifications name.
pub open spec fn comparisons_obey<T: PartialOrd + From<i8>>() -> bool {
    T::obeys_eq_spec() && T::obeys_partial_cmp_spec() && T::obeys_from_spec()
}

/// Whether `x` equals the scalar that the small integer `n` converts to.
pub open spec fn equals_small<T: PartialEq + From<i8>>(x: T, n: i8) -> bool {
    is_equal(x, T::from_spec(n))
}

/// Whether `x` equals `y`.
pub open spec fn is_equal<T: PartialEq>(x: T, y: T) -> bool {
    x.eq_spec(&y)
}

/// Whether `x` is greater than `y` or equal to it.
pub open spec fn is_at_least<T: PartialOrd>(x: T, y: T) -> bool {
    x.partial_cmp_spec(&y) matches Some(Ordering::Greater | Ordering::Equal)
}

/// Whether `x` is less than `y`.
pub open spec fn is_less<T: PartialOrd>(x: T, y: T) -> bool {
    x.partial_cmp_spec(&y) == Some(Ordering::Less)
}

/// Whether `x` is less than the scalar zero.
pub open spec fn is_negative<T: PartialOrd + From<i8>>(x: T) -> bool {
    is_less(x, T::from_spec(0i8))
}

/// Whether `x` equals itself, as every scalar but a floating-point
/// not-a-number does.
pub open spec fn is_number<T: PartialEq>(x: T) -> bool {
    is_equal(x, x)
}

} // verus!
