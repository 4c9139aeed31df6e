//! The source of randomness: rand's thread-local generator.

use vstd::prelude::*;

verus! {

/// Relies on rand::random: a fresh value drawn from the thread-local
/// generator. Nothing is promised about which value comes out.
pub assume_specification<T>[ rand::random::<T> ]() -> (r: T)
    where
        rand::distributions::Standard: rand::distributions::Distribution<T>,
;

} // verus!
