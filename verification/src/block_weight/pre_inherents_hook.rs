//! The hook that runs before the inherents of a block.

use vstd::prelude::*;
use super::{
    applied, apply_transition, block_weight_over_target_block_weight, claim_matches_mode,
    first_block_in_core, full_core_weight, is_first_block_in_core_with_digest,
    over_target_block_weight, BlockWeightMode, Transition,
};
use crate::digest::lemma_use_full_core_count_push;
use crate::dispatch::DispatchClass;
use crate::system::{use_full_core_item, System};

verus! {

/// Looks at what the initialisation of a block has consumed, before any
/// inherent is applied.
pub struct DynamicMaxBlockWeightHooks;

/// What [`DynamicMaxBlockWeightHooks::pre_inherents_transition`] decides:
/// a block that is over its target weight already goes on with the full
/// core, and any other block stays as it is. A block that claims the full
/// core without being the first on it is filled up, so that it takes no
/// extrinsic besides its inherents.
pub open spec fn pre_inherents_transition_of(
    system: System,
    mode: Option<BlockWeightMode>,
    target_blocks: u32,
) -> Transition {
    if over_target_block_weight(system, target_blocks) {
        Transition::enter_full_core(first_block_in_core(system.digest@))
    } else {
        Transition::quiet(mode)
    }
}

impl DynamicMaxBlockWeightHooks {
    /// Decides what is to happen before the inherents are applied. Nothing
    /// is changed: the caller stores the mode of the transition and does
    /// what the transition asks for.
    pub fn pre_inherents_transition(
        system: &System,
        mode: Option<BlockWeightMode>,
        target_blocks: u32,
    ) -> (transition: Transition)
        ensures
            transition == pre_inherents_transition_of(*system, mode, target_blocks),
    {
        if block_weight_over_target_block_weight(system, target_blocks) {
            Transition {
                mode: Some(BlockWeightMode::FullCore),
                deposit_use_full_core: true,
                // Nobody knows how much of the core the blocks before this one used.
                register_full_core_weight: !is_first_block_in_core_with_digest(system.digest()),
            }
        } else {
            Transition { mode, deposit_use_full_core: false, register_full_core_weight: false }
        }
    }

    /// To be run once per block, before any inherent is applied.
    ///
    /// Where the initialisation of the block has consumed more than the
    /// target weight of the block, the mode becomes `FullCore` and the claim
    /// of the full core is deposited; if the block is not the first on its
    /// core, the weight of a full core is registered as well. Else nothing
    /// changes. The answer says whether the block is over its target.
    pub fn pre_inherents(
        system: &mut System,
        mode: &mut Option<BlockWeightMode>,
        target_blocks: u32,
    ) -> (over_target: bool)
        ensures
            over_target == over_target_block_weight(*old(system), target_blocks),
            *final(mode) == pre_inherents_transition_of(*old(system), *old(mode), target_blocks).mode,
            applied(
                *old(system),
                pre_inherents_transition_of(*old(system), *old(mode), target_blocks),
                *final(system),
            ),
            // Nothing leaves `FullCore`.
            *old(mode) == Some(BlockWeightMode::FullCore) ==> *final(mode) == Some(
                BlockWeightMode::FullCore,
            ),
            // At the start of a block, the claim is deposited together with the step
            // into `FullCore`, and only then.
            *old(mode) != Some(BlockWeightMode::FullCore) && claim_matches_mode(
                *old(system),
                *old(mode),
            ) ==> claim_matches_mode(*final(system), *final(mode)),
            // A block that is not the first on its core and enters `FullCore` is filled up.
            over_target && !first_block_in_core(old(system).digest@) ==> final(system).block_weight
                == old(system).block_weight.spec_accrue(
                full_core_weight(),
                DispatchClass::Mandatory,
            ),
            over_target && first_block_in_core(old(system).digest@) ==> final(system).block_weight
                == old(system).block_weight,
    {
        let transition = Self::pre_inherents_transition(system, *mode, target_blocks);
        proof {
            lemma_use_full_core_count_push(system.digest@, use_full_core_item());
        }
        *mode = transition.mode;
        apply_transition(system, &transition);
        transition.deposit_use_full_core
    }
}

} // verus!
