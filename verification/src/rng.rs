use vstd::prelude::*;

verus! {

/// Relies on rand::random: a fresh draw from the thread-local generator under
/// the Standard distribution. Nothing is promised of the value drawn; every
/// caller must be correct for every possible outcome.
pub assume_specification<T>[ rand::random::<T> ]() -> (r: T)
    where
        rand::distributions::Standard: rand::distributions::Distribution<T>,
;

} // verus!
