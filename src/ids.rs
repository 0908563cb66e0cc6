//! Identifier chains: correlation tags threaded through one logical flow.
use vstd::prelude::*;

verus! {

/// An ordered sequence of numeric identifiers, used only to correlate the
/// trace output of the layers that handle one flow.
#[derive(Clone, Debug, PartialEq, Eq)]
pub struct IdChain {
    ids: Vec<u64>,
}

impl View for IdChain {
    type V = Seq<u64>;

    closed spec fn view(&self) -> Seq<u64> {
        self.ids@
    }
}

impl IdChain {
    /// A chain holding the given identifiers, outermost first.
    pub fn from_ids(ids: Vec<u64>) -> (r: IdChain)
        ensures
            r@ == ids@,
    {
        IdChain { ids }
    }

    /// The chain extended by one inner identifier.
    pub fn extended(self, id: u64) -> (r: IdChain)
        ensures
            r@ == self@.push(id),
    {
        let mut ids = self.ids;
        ids.push(id);
        IdChain { ids }
    }

    /// The number of identifiers in the chain.
    pub fn len(&self) -> (r: usize)
        ensures
            r == self@.len(),
    {
        self.ids.len()
    }

    /// The identifier at position `i`, outermost first.
    pub fn get(&self, i: usize) -> (r: u64)
        requires
            i < self@.len(),
        ensures
            r == self@[i as int],
    {
        self.ids[i]
    }
}

} // verus!
