//! What the solvers share: the validation of a polynomial's coefficients.
//!
//! See [`crate::quadratic`] and [`crate::cubic`] for the solvers.
use vstd::prelude::*;
use crate::compare::comparisons_obey;
use crate::compare::equals_small;
use crate::compare::is_number;

verus! {

/// Why a solver refuses its coefficients.
#[derive(Copy, Clone, Debug, PartialEq, Eq)]
pub enum InvalidCoefficients {
    /// A coefficient is not a number.
    NotANumber,
    /// The leading coefficient is zero, so the degree is lower than asked.
    ZeroLeading,
}

/// What is wrong with the coefficients, the leading one first: a coefficient
/// that is not a number before a leading zero.
pub open spec fn verdict<T: PartialEq + From<i8>>(coefficients: Seq<T>) -> Result<
    (),
    InvalidCoefficients,
> {
    if exists|k: int| 0 <= k < coefficients.len() && !is_number(#[trigger] coefficients[k]) {
        Err(InvalidCoefficients::NotANumber)
    } else if equals_small(coefficients[0], 0i8) {
        Err(InvalidCoefficients::ZeroLeading)
    } else {
        Ok(())
    }
}

/// Validates the coefficients of a polynomial, the leading one first.
pub fn validate<T: Copy + PartialOrd + From<i8>>(coefficients: &[T]) -> (r: Result<
    (),
    InvalidCoefficients,
>)
    requires
        coefficients@.len() > 0,
    ensures
        comparisons_obey::<T>() ==> r == verdict(coefficients@),
{
    let mut k: usize = 0;
    while k < coefficients.len()
        invariant
            k <= coefficients@.len(),
            comparisons_obey::<T>() ==> forall|j: int| 0 <= j < k ==> is_number(#[trigger] coefficients@[j]),
        decreases coefficients@.len() - k,
    {
        let x = coefficients[k];
        if x != x {
            return Err(InvalidCoefficients::NotANumber);
        }
        k += 1;
    }
    if coefficients[0] == T::from(0i8) {
        Err(InvalidCoefficients::ZeroLeading)
    } else {
        Ok(())
    }
}

} // verus!
