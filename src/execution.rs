use vstd::prelude::*;

verus! {

/// The layer that hands out execution events, one at a time.
pub trait ExecutionLayer {
    type Item;

    type Transformer;

    fn next(&self) -> Option<Self::Item>;
}

#[derive(Debug)]
pub struct Execution {}

} // verus!
