use vstd::prelude::*;

verus! {

/// Marker for a venue that the system trades on.
pub trait Exchange {
}

/// Marker for what a venue offers beyond the common interface.
pub trait ExchangeExt {
}

} // verus!
