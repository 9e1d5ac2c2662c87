//! Chain-tagged wrapper: the sole mechanism for multi-chain genericity.

use vstd::prelude::*;

verus! {

/// The chain layer a piece of data pertains to: the primary chain or the
/// alternate layer.
#[derive(Clone, Copy, PartialEq, Eq, Structural, Hash, Debug)]
pub enum Layer1 {
    Bitcoin,
    Liquid,
}

impl Layer1 {
    /// Rank of the layer in the canonical layer order, for use in
    /// specifications.
    pub open spec fn rank(self) -> int {
        match self {
            Layer1::Bitcoin => 0,
            Layer1::Liquid => 1,
        }
    }
}

/// A payload tagged with the chain layer it belongs to. Operations that only
/// make sense for an unambiguous chain fail or return `None` when two wrapped
/// values disagree on the layer.
#[derive(Clone, Copy, PartialEq, Eq, Structural, Hash, Debug)]
pub enum XChain<T> {
    Bitcoin(T),
    Liquid(T),
}

impl<T> XChain<T> {
    /// The chain layer of the wrapped payload, for use in specifications.
    pub open spec fn spec_layer1(self) -> Layer1 {
        match self {
            XChain::Bitcoin(_) => Layer1::Bitcoin,
            XChain::Liquid(_) => Layer1::Liquid,
        }
    }

    /// The wrapped payload, regardless of the layer.
    pub open spec fn spec_inner(self) -> T {
        match self {
            XChain::Bitcoin(t) => t,
            XChain::Liquid(t) => t,
        }
    }

    /// The chain layer of the wrapped payload.
    pub fn layer1(&self) -> (r: Layer1)
        ensures
            r == self.spec_layer1(),
    {
        match self {
            XChain::Bitcoin(_) => Layer1::Bitcoin,
            XChain::Liquid(_) => Layer1::Liquid,
        }
    }

    /// A reference to the wrapped payload, regardless of the layer.
    pub fn as_inner(&self) -> (r: &T)
        ensures
            *r == self.spec_inner(),
    {
        match self {
            XChain::Bitcoin(t) => t,
            XChain::Liquid(t) => t,
        }
    }

    /// The wrapped payload, regardless of the layer.
    pub fn into_inner(self) -> (r: T)
        ensures
            r == self.spec_inner(),
    {
        match self {
            XChain::Bitcoin(t) => t,
            XChain::Liquid(t) => t,
        }
    }
}

} // verus!
