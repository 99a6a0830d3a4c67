use vstd::prelude::*;

verus! {

/// Turns protocol messages into the events that consumers want; it may keep
/// state from one message to the next (a sequence number, a book).
///
/// The spec functions of the traits below say what an implementation does; an
/// implementation verified here states them, and their defaults promise nothing.
pub trait Transformer {
    type Input;

    type OutputItem;

    type Error;
}

/// A transformer that makes exactly one result of each message.
pub trait TransformerSingle: Transformer + Sized {
    /// The result that this transformer, in its present state, makes of `input`.
    closed spec fn transform_one_spec(&self, input: Self::Input) -> Result<Self::OutputItem, Self::Error> {
        arbitrary()
    }

    /// The state of this transformer once it has handled `input`.
    closed spec fn next_one_spec(&self, input: Self::Input) -> Self {
        arbitrary()
    }

    fn transform_one(&mut self, input: Self::Input) -> (r: Result<Self::OutputItem, Self::Error>)
        ensures
            r == old(self).transform_one_spec(input),
            *final(self) == old(self).next_one_spec(input),
    ;
}

/// A transformer that makes any number of results of each message, in order.
pub trait TransformerBatch: Transformer + Sized {
    /// The results, in order, that this transformer in its present state makes of `input`.
    closed spec fn transform_spec(&self, input: Self::Input) -> Seq<Result<Self::OutputItem, Self::Error>> {
        arbitrary()
    }

    /// The state of this transformer once it has handled `input`.
    closed spec fn next_spec(&self, input: Self::Input) -> Self {
        arbitrary()
    }

    fn transform_many(&mut self, input: Self::Input) -> (r: Vec<Result<Self::OutputItem, Self::Error>>)
        ensures
            r@ == old(self).transform_spec(input),
            *final(self) == old(self).next_spec(input),
    ;
}

} // verus!
