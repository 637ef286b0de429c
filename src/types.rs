//! Earlier names of the request types.
use vstd::prelude::*;

verus! {

/// Straight odds request parameters; the same request as
/// [`GetStraightOdds`](crate::requests::GetStraightOdds).
pub type StraightOddsRequest = crate::requests::GetStraightOdds;

} // verus!
