//! Dispatch between the two storage generators.

use vstd::prelude::*;

use vstd::string::StringExecFns;

use crate::prefilled::pre_filled_text;
use crate::schema::{CMap, GenStyle};
use crate::unfilled::unfilled_text;

verus! {

/// Everything the generator emits for a schema: the output of the strategy
/// its style switch selected.
pub open spec fn generated_text(m: &CMap) -> Seq<char> {
    match m.style {
        GenStyle::PreFilled => pre_filled_text(m),
        GenStyle::Unfilled => unfilled_text(m),
    }
}

impl CMap {
    /// Emit the container for this schema in the selected style, appending
    /// the generated program text to `tokens`.
    pub fn to_tokens(&self, tokens: &mut String)
        ensures
            final(tokens)@ == old(tokens)@ + generated_text(self),
    {
        match self.style {
            GenStyle::PreFilled => self.to_pre_filled_tokens(tokens),
            GenStyle::Unfilled => self.to_unfilled_tokens(tokens),
        }
    }

    /// The generated program text for this schema, as a fresh string.
    pub fn to_token_stream(&self) -> (r: String)
        ensures
            r@ == generated_text(self),
    {
        let mut r = String::new();
        self.to_tokens(&mut r);
        proof {
            assert(Seq::<char>::empty() + generated_text(self) =~= generated_text(self));
        }
        r
    }
}

} // verus!
