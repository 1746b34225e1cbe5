use vstd::prelude::*;

verus! {

/// Marker for the values a game session stores in its item pool. The session
/// core never inspects an item; it only keeps the pool and hands it to the
/// rule callbacks, which shuffle and assign as they see fit.
pub trait GameItem {
}

} // verus!
