//! What the provider reports a call cost.
use vstd::prelude::*;

verus! {

/// Usage figures reported by the provider.
///
/// `seconds` and `cost` are binary64 numbers; they are carried as their bit
/// patterns (`f64::to_bits`), since nothing here computes with them.
#[derive(Debug, Clone, Copy, PartialEq, Eq, Structural)]
pub struct Usage {
    pub seconds: Option<u64>,
    pub cost: Option<u64>,
    pub input_tokens: Option<u64>,
    pub output_tokens: Option<u64>,
}

impl Usage {
    pub fn new(
        seconds: Option<u64>,
        cost: Option<u64>,
        input_tokens: Option<u64>,
        output_tokens: Option<u64>,
    ) -> (u: Self)
        ensures
            u == (Usage { seconds, cost, input_tokens, output_tokens }),
    {
        Usage { seconds, cost, input_tokens, output_tokens }
    }

    pub fn seconds(&self) -> (r: Option<u64>)
        ensures
            r == self.seconds,
    {
        self.seconds
    }

    pub fn cost(&self) -> (r: Option<u64>)
        ensures
            r == self.cost,
    {
        self.cost
    }

    pub fn input_tokens(&self) -> (r: Option<u64>)
        ensures
            r == self.input_tokens,
    {
        self.input_tokens
    }

    pub fn output_tokens(&self) -> (r: Option<u64>)
        ensures
            r == self.output_tokens,
    {
        self.output_tokens
    }
}

impl Default for Usage {
    fn default() -> (u: Self)
        ensures
            u == (Usage { seconds: None, cost: None, input_tokens: None, output_tokens: None }),
    {
        Usage { seconds: None, cost: None, input_tokens: None, output_tokens: None }
    }
}

} // verus!
