use vstd::prelude::*;

use crate::errors::ClientError;

verus! {

/// The fraction of validator voting power that must back a header before it
/// is accepted. A well-formed threshold has a nonzero denominator and a
/// numerator no larger than the denominator; safety against Byzantine
/// validators further asks for more than one third, which the canonical
/// constructors below provide.
#[derive(Clone, Copy, Debug, PartialEq, Eq, Structural)]
pub struct TrustThreshold {
    pub numerator: u64,
    pub denominator: u64,
}

impl TrustThreshold {
    pub open spec fn is_valid(self) -> bool {
        self.denominator > 0 && self.numerator <= self.denominator
    }

    /// Validates a numerator/denominator pair; an invalid fraction is a
    /// fatal configuration error, reported at construction.
    pub fn new(numerator: u64, denominator: u64) -> (r: Result<TrustThreshold, ClientError>)
        ensures
            (denominator == 0 || numerator > denominator) ==> r == Err::<
                TrustThreshold,
                ClientError,
            >(ClientError::InvalidTrustThreshold { numerator, denominator }),
            (denominator > 0 && numerator <= denominator) ==> r == Ok::<
                TrustThreshold,
                ClientError,
            >(TrustThreshold { numerator, denominator }),
    {
        if denominator == 0 || numerator > denominator {
            Err(ClientError::InvalidTrustThreshold { numerator, denominator })
        } else {
            Ok(TrustThreshold { numerator, denominator })
        }
    }

    /// The minimal safe threshold, one third.
    pub fn one_third() -> (r: TrustThreshold)
        ensures
            r == (TrustThreshold { numerator: 1, denominator: 3 }),
    {
        TrustThreshold { numerator: 1, denominator: 3 }
    }

    /// The conventional default threshold, two thirds.
    pub fn two_thirds() -> (r: TrustThreshold)
        ensures
            r == (TrustThreshold { numerator: 2, denominator: 3 }),
    {
        TrustThreshold { numerator: 2, denominator: 3 }
    }
}

} // verus!
