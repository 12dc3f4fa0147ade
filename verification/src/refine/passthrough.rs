use vstd::prelude::*;

verus! {

/// No-op refiner: returns the raw transcript unchanged.
#[derive(Debug, Clone, Copy)]
pub struct PassthroughRefiner;

impl PassthroughRefiner {
    pub fn refine(&self, raw_text: &str) -> (r: String)
        ensures
            r@ == raw_text@,
    {
        raw_text.to_string()
    }
}

} // verus!
