use vstd::prelude::*;

verus! {

/// Fewest choices a question may offer.
pub const MIN_CHOICES: usize = 2;

/// Most choices a question may offer.
pub const MAX_CHOICES: usize = 10;

} // verus!
