//! The source of chance for a random board.

use vstd::prelude::*;

verus! {

/// `rand::random_ratio` draws `true` with a chance of `numerator` in
/// `denominator` from the generator of the calling thread. It panics on a
/// denominator of zero and on a numerator above the denominator, so both are
/// required away; on other arguments it panics only where the operating
/// system has no seed for the generator. Nothing is claimed of a single draw
/// but what holds of all of them: with a numerator of zero none is `true`,
/// and with a numerator equal to the denominator every one is.
pub assume_specification[ rand::random_ratio ](numerator: u32, denominator: u32) -> (drawn: bool)
    requires
        denominator > 0,
        numerator <= denominator,
    ensures
        numerator == 0 ==> !drawn,
        numerator == denominator ==> drawn,
;

} // verus!
