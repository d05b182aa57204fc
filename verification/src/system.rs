//! The state of the block under construction, as far as block-weight
//! control reads and writes it.

use vstd::prelude::*;
use crate::digest::{CumulusDigestItem, Digest, DigestItem};
use crate::dispatch::{ConsumedWeight, DispatchClass};
use crate::weight::Weight;

verus! {

/// The block under construction.
///
/// A block starts with the digest items that its author put into the header,
/// no extrinsic index, the inherents not yet applied, and the weight that
/// initialisation has consumed.
#[derive(Clone, Debug)]
pub struct System {
    /// The log items deposited so far.
    pub digest: Digest,
    /// Index of the extrinsic that is being applied; `None` outside of one.
    pub extrinsic_index: Option<u32>,
    /// Whether all inherents of the block have been applied.
    pub inherents_applied: bool,
    /// What the block has consumed so far.
    pub block_weight: ConsumedWeight,
}

impl System {
    /// A block at its start, with the digest that its header came with.
    pub fn new(digest: Digest) -> (system: System)
        ensures
            system.digest == digest,
            system.extrinsic_index is None,
            !system.inherents_applied,
            system.block_weight == ConsumedWeight::new(),
    {
        System {
            digest,
            extrinsic_index: None,
            inherents_applied: false,
            block_weight: ConsumedWeight::new(),
        }
    }

    /// The digest of the block.
    pub fn digest(&self) -> (digest: &Digest)
        ensures
            *digest == self.digest,
    {
        &self.digest
    }

    /// Index of the extrinsic that is being applied.
    pub fn extrinsic_index(&self) -> (index: Option<u32>)
        ensures
            index == self.extrinsic_index,
    {
        self.extrinsic_index
    }

    /// Whether all inherents of the block have been applied.
    pub fn inherents_applied(&self) -> (applied: bool)
        ensures
            applied == self.inherents_applied,
    {
        self.inherents_applied
    }

    pub open spec fn spec_consumed(&self) -> Weight {
        self.block_weight.total()
    }

    /// The running total of what the block has consumed, all classes together.
    #[verifier::when_used_as_spec(spec_consumed)]
    pub fn consumed(&self) -> (w: Weight)
        ensures
            w == self.spec_consumed(),
    {
        self.block_weight.total()
    }

    /// Appends `item` to the digest.
    pub fn deposit_log(&mut self, item: DigestItem)
        ensures
            final(self).digest@ == old(self).digest@.push(item),
            final(self).extrinsic_index == old(self).extrinsic_index,
            final(self).inherents_applied == old(self).inherents_applied,
            final(self).block_weight == old(self).block_weight,
    {
        self.digest.push(item);
    }

    /// Accounts `weight` to `class` without checking it against any limit.
    pub fn register_extra_weight_unchecked(&mut self, weight: Weight, class: DispatchClass)
        ensures
            final(self).block_weight == old(self).block_weight.spec_accrue(weight, class),
            final(self).digest == old(self).digest,
            final(self).extrinsic_index == old(self).extrinsic_index,
            final(self).inherents_applied == old(self).inherents_applied,
    {
        self.block_weight.accrue(weight, class);
    }
}

/// The digest item by which a block claims its full core.
pub open spec fn use_full_core_item() -> DigestItem {
    DigestItem::Cumulus(CumulusDigestItem::UseFullCore)
}

} // verus!
