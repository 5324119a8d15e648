use vstd::prelude::*;

verus! {

/// Points a player needs to win a match.
pub const WIN_SCORE: u32 = 5;

} // verus!
