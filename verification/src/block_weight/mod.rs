//! Dynamic block weight of a parachain.
//!
//! A parachain may build several blocks on the relay cores that it holds.
//! Each core provides two seconds of execution time and one maximal proof of
//! validity. The resources of the cores are shared out among the blocks: each
//! block gets a fraction of a core. A transaction that does not fit into
//! that fraction, a runtime upgrade for instance, may still be applied: the
//! first block on a core may claim the whole core instead. It says so by
//! depositing [`CumulusDigestItem::UseFullCore`], and no further block is
//! then built on that core.
//!
//! [`BlockWeightMode`] records what the block under construction may use.
//! [`DynamicMaxBlockWeight`] changes the mode around each extrinsic,
//! [`DynamicMaxBlockWeightHooks`] before the inherents, and
//! [`MaxParachainBlockWeight`] answers what the block may use at most.

pub mod laws;
pub mod pre_inherents_hook;
pub mod transaction_extension;

use vstd::prelude::*;
use crate::digest::{
    first_bundle_info, first_core_info, use_full_core_count, CoreInfo, CumulusDigestItem, Digest,
};
use crate::dispatch::{BlockWeights, DispatchClass};
use crate::system::{use_full_core_item, System};
use crate::weight::{Weight, MAX_POV_SIZE, WEIGHT_REF_TIME_PER_SECOND};

verus! {

/// What the block under construction is allowed to use.
#[derive(Clone, Copy, Debug, PartialEq, Eq, Structural)]
pub enum BlockWeightMode {
    /// The block uses the weight of a full core. Nothing leaves this mode
    /// before the block ends.
    FullCore,
    /// The extrinsic that is being applied may use the weight of a full
    /// core. Once it is applied the mode is `FullCore` if it did, and
    /// `FractionOfCore` if it did not.
    PotentialFullCore {
        /// Index of the first transaction of the block.
        first_transaction_index: Option<u32>,
        /// The limit that the extrinsic announced to exceed.
        target_weight: Weight,
    },
    /// The block uses its fraction of the core only.
    FractionOfCore {
        /// Index of the first transaction of the block.
        first_transaction_index: Option<u32>,
    },
}

impl BlockWeightMode {
    /// The index of the first transaction that the mode remembers; `None`
    /// where it remembers none.
    pub open spec fn first_transaction_index(self) -> Option<u32> {
        match self {
            BlockWeightMode::FullCore => None,
            BlockWeightMode::PotentialFullCore { first_transaction_index, .. } =>
                first_transaction_index,
            BlockWeightMode::FractionOfCore { first_transaction_index } => first_transaction_index,
        }
    }
}

/// Weights of the three paths through the transaction extension, as
/// benchmarks measured them.
#[derive(Clone, Copy, Debug, PartialEq, Eq, Structural)]
pub struct WeightInfo {
    /// The most expensive path. This is charged before dispatch.
    pub block_weight_tx_extension_max_weight: Weight,
    /// The path taken when the block is in `FullCore` mode already.
    pub block_weight_tx_extension_full_core: Weight,
    /// The path taken when the block is in `FractionOfCore` mode.
    pub block_weight_tx_extension_stays_fraction_of_core: Weight,
}

/// What the runtime is configured with.
#[derive(Clone, Copy, Debug, PartialEq, Eq, Structural)]
pub struct Config {
    /// The weight limits of a block.
    pub block_weights: BlockWeights,
    /// Weights of the transaction extension itself.
    pub weight_info: WeightInfo,
    /// How many blocks the parachain wants to build in one relay chain slot
    /// of six seconds.
    pub target_block_rate: u32,
}

/// What a hook decided: the mode to store and what to tell the host.
#[derive(Clone, Copy, Debug, PartialEq, Eq)]
pub struct ModeTransition<M> {
    /// The mode after the hook.
    pub mode: Option<M>,
    /// Whether [`CumulusDigestItem::UseFullCore`] is to be deposited.
    pub deposit_use_full_core: bool,
    /// Whether the weight of a full core is to be registered as mandatory
    /// weight, so that the block accepts no further extrinsic.
    pub register_full_core_weight: bool,
}

/// What a hook of this module decided.
pub type Transition = ModeTransition<BlockWeightMode>;

impl<M> ModeTransition<M> {
    /// The transition that stores `mode` and tells the host nothing.
    pub open spec fn quiet(mode: Option<M>) -> ModeTransition<M> {
        ModeTransition { mode, deposit_use_full_core: false, register_full_core_weight: false }
    }
}

impl ModeTransition<BlockWeightMode> {
    /// The transition into `FullCore`: the claim is deposited, and the block
    /// is filled up unless it is the first on its core.
    pub open spec fn enter_full_core(first_block_in_core: bool) -> Transition {
        ModeTransition {
            mode: Some(BlockWeightMode::FullCore),
            deposit_use_full_core: true,
            register_full_core_weight: !first_block_in_core,
        }
    }
}

/// The weight that one relay core provides: two seconds of execution time
/// and one maximal proof of validity.
pub open spec fn full_core_weight() -> Weight {
    Weight { ref_time: (2 * WEIGHT_REF_TIME_PER_SECOND) as u64, proof_size: MAX_POV_SIZE as u64 }
}

/// The smaller of two numbers.
pub open spec fn min(a: int, b: int) -> int {
    if a <= b {
        a
    } else {
        b
    }
}

/// The share of one block when `target_blocks` blocks are built on the
/// cores of `core_info`.
///
/// Without core info, without cores or without target blocks this is the
/// weight of a full core. Otherwise all cores together give at most six
/// seconds of execution time, so that the blocks of one relay chain slot can
/// be imported on standard hardware, and one block gets at most one core.
pub open spec fn target_weight_for(core_info: Option<CoreInfo>, target_blocks: u32) -> Weight {
    match core_info {
        None => full_core_weight(),
        Some(info) => if info.number_of_cores == 0 || target_blocks == 0 {
            full_core_weight()
        } else {
            let total_ref_time = min(
                info.number_of_cores * 2 * WEIGHT_REF_TIME_PER_SECOND,
                6 * WEIGHT_REF_TIME_PER_SECOND,
            );
            let total_pov_size = info.number_of_cores * MAX_POV_SIZE;
            Weight {
                ref_time: min(total_ref_time / (target_blocks as int), 2 * WEIGHT_REF_TIME_PER_SECOND) as u64,
                proof_size: min(total_pov_size / (target_blocks as int), MAX_POV_SIZE as int) as u64,
            }
        },
    }
}

/// The target weight of a block with the digest `logs`.
pub open spec fn target_block_weight_of(
    logs: Seq<crate::digest::DigestItem>,
    target_blocks: u32,
) -> Weight {
    target_weight_for(first_core_info(logs), target_blocks)
}

/// Whether a block with the digest `logs` is the first on its core: its
/// bundle info is there and has index zero.
pub open spec fn first_block_in_core(logs: Seq<crate::digest::DigestItem>) -> bool {
    match first_bundle_info(logs) {
        Some(info) => info.index == 0,
        None => false,
    }
}

/// Whether the block has consumed more than its target weight.
pub open spec fn over_target_block_weight(system: System, target_blocks: u32) -> bool {
    system.consumed().any_gt(target_block_weight_of(system.digest@, target_blocks))
}

/// What the block may use at most: the answer of [`MaxParachainBlockWeight::get`].
///
/// While the inherents are applied the mode says nothing yet, and the answer
/// is the full core for the first block on a core and the target weight for
/// any other. The same holds when no mode was ever stored.
pub open spec fn max_block_weight(
    system: System,
    mode: Option<BlockWeightMode>,
    target_blocks: u32,
) -> Weight {
    let target = target_block_weight_of(system.digest@, target_blocks);
    let maybe_full_core = if first_block_in_core(system.digest@) {
        full_core_weight()
    } else {
        target
    };
    if !system.inherents_applied {
        maybe_full_core
    } else {
        match mode {
            Some(BlockWeightMode::FullCore) => full_core_weight(),
            Some(BlockWeightMode::PotentialFullCore { .. }) => full_core_weight(),
            Some(BlockWeightMode::FractionOfCore { .. }) => target,
            None => maybe_full_core,
        }
    }
}

/// Calculates the maximum block weight of a parachain from the cores that
/// it holds and the number of blocks that it wants to build.
pub struct MaxParachainBlockWeight;

impl MaxParachainBlockWeight {
    /// The execution time that one core provides, in picoseconds.
    pub const MAX_REF_TIME_PER_CORE_NS: u64 = 2 * WEIGHT_REF_TIME_PER_SECOND;

    /// The weight that one relay core provides.
    pub fn full_core_weight() -> (w: Weight)
        ensures
            w == full_core_weight(),
    {
        Weight::from_parts(Self::MAX_REF_TIME_PER_CORE_NS, MAX_POV_SIZE as u64)
    }

    /// The target weight of one block of `system`.
    pub fn target_block_weight(system: &System, target_blocks: u32) -> (w: Weight)
        ensures
            w == target_block_weight_of(system.digest@, target_blocks),
    {
        Self::target_block_weight_with_digest(system.digest(), target_blocks)
    }

    /// The target weight of one block with the given digest.
    pub fn target_block_weight_with_digest(digest: &Digest, target_blocks: u32) -> (w: Weight)
        ensures
            w == target_block_weight_of(digest@, target_blocks),
    {
        let core_info = match CumulusDigestItem::find_core_info(digest) {
            Some(core_info) => core_info,
            None => {
                return Self::full_core_weight();
            },
        };

        let number_of_cores: u32 = core_info.number_of_cores as u32;

        // Without a core or without a target there is nothing to share out.
        if number_of_cores == 0 || target_blocks == 0 {
            return Self::full_core_weight();
        }
        // All cores together give at most six seconds: the blocks of one relay chain
        // slot have to be imported within it on standard hardware.

        proof {
            // At most 65535 cores: neither product leaves `u64`.
            assert(Self::MAX_REF_TIME_PER_CORE_NS == 2_000_000_000_000);
            assert(MAX_POV_SIZE == 10_485_760);
            assert(number_of_cores * 2_000_000_000_000 <= 65535 * 2_000_000_000_000);
            assert(number_of_cores * 10_485_760 <= 65535 * 10_485_760);
        }
        let all_cores: u64 = (number_of_cores as u64) * Self::MAX_REF_TIME_PER_CORE_NS;
        let total_ref_time: u64 = if all_cores <= WEIGHT_REF_TIME_PER_SECOND * 6 {
            all_cores
        } else {
            WEIGHT_REF_TIME_PER_SECOND * 6
        };
        let ref_time_share: u64 = total_ref_time / (target_blocks as u64);
        let ref_time_per_block: u64 = if ref_time_share <= Self::MAX_REF_TIME_PER_CORE_NS {
            ref_time_share
        } else {
            Self::MAX_REF_TIME_PER_CORE_NS
        };

        let total_pov_size: u64 = (number_of_cores as u64) * (MAX_POV_SIZE as u64);
        // One block gets one core at most.
        let pov_share: u64 = total_pov_size / (target_blocks as u64);
        let proof_size_per_block: u64 = if pov_share <= MAX_POV_SIZE as u64 {
            pov_share
        } else {
            MAX_POV_SIZE as u64
        };

        Weight::from_parts(ref_time_per_block, proof_size_per_block)
    }

    /// The weight that the block may use at most, given the mode that the
    /// transaction extension has stored.
    pub fn get(system: &System, mode: Option<BlockWeightMode>, target_blocks: u32) -> (w: Weight)
        ensures
            w == max_block_weight(*system, mode, target_blocks),
    {
        let digest = system.digest();
        let target_block_weight = Self::target_block_weight_with_digest(digest, target_blocks);

        let maybe_full_core_weight = if is_first_block_in_core_with_digest(digest) {
            Self::full_core_weight()
        } else {
            target_block_weight
        };

        // While the block is initialised and the inherents are applied, the block may
        // use what its place on the core allows.
        if !system.inherents_applied() {
            return maybe_full_core_weight;
        }
        match mode {
            Some(BlockWeightMode::FullCore) => Self::full_core_weight(),
            Some(BlockWeightMode::PotentialFullCore { .. }) => Self::full_core_weight(),
            Some(BlockWeightMode::FractionOfCore { .. }) => target_block_weight,
            // No transaction extension has stored a mode: either the runtime does not
            // use it, or no extrinsic was applied so far.
            None => maybe_full_core_weight,
        }
    }
}

/// Is the block of `system` the first on its core?
pub fn is_first_block_in_core(system: &System) -> (first: bool)
    ensures
        first == first_block_in_core(system.digest@),
{
    is_first_block_in_core_with_digest(system.digest())
}

/// Is the block with the given digest the first on its core?
pub fn is_first_block_in_core_with_digest(digest: &Digest) -> (first: bool)
    ensures
        first == first_block_in_core(digest@),
{
    match CumulusDigestItem::find_bundle_info(digest) {
        Some(bundle_info) => bundle_info.index == 0,
        None => false,
    }
}

/// Has the block consumed more than its target weight already?
pub fn block_weight_over_target_block_weight(system: &System, target_blocks: u32) -> (over: bool)
    ensures
        over == over_target_block_weight(*system, target_blocks),
{
    let target_block_weight = MaxParachainBlockWeight::target_block_weight(system, target_blocks);

    system.consumed().any_gt(target_block_weight)
}

/// The limit against which an extrinsic of `class` is held: what the class
/// may consume in total, or else the target weight of the block less the
/// weight that every block costs.
pub open spec fn class_target_weight(
    block_weights: BlockWeights,
    class: DispatchClass,
    block_target: Weight,
) -> Weight {
    match block_weights.get(class).max_total {
        Some(max_total) => max_total,
        None => block_target.saturating_sub(block_weights.base_block),
    }
}

/// The block after the host did what `transition` asks for.
pub open spec fn applied<M>(before: System, transition: ModeTransition<M>, after: System) -> bool {
    &&& after.digest@ == if transition.deposit_use_full_core {
        before.digest@.push(use_full_core_item())
    } else {
        before.digest@
    }
    &&& after.block_weight == if transition.register_full_core_weight {
        before.block_weight.spec_accrue(full_core_weight(), DispatchClass::Mandatory)
    } else {
        before.block_weight
    }
    &&& after.extrinsic_index == before.extrinsic_index
    &&& after.inherents_applied == before.inherents_applied
}

/// The digest holds one claim of the full core if the mode is `FullCore`,
/// and none otherwise.
pub open spec fn claim_matches_mode(system: System, mode: Option<BlockWeightMode>) -> bool {
    use_full_core_count(system.digest@) == if mode == Some(BlockWeightMode::FullCore) {
        1nat
    } else {
        0nat
    }
}

/// Does to the block what `transition` asks of the host: deposits the claim
/// of the full core, and registers the weight of a full core as mandatory.
pub fn apply_transition<M>(system: &mut System, transition: &ModeTransition<M>)
    ensures
        applied(*old(system), *transition, *final(system)),
{
    if transition.deposit_use_full_core {
        // Tells the node that the block uses the full core.
        system.deposit_log(CumulusDigestItem::UseFullCore.to_digest_item());
    }
    if transition.register_full_core_weight {
        // The block is above what it may use and takes no further extrinsic.
        system.register_extra_weight_unchecked(
            MaxParachainBlockWeight::full_core_weight(),
            DispatchClass::Mandatory,
        );
    }
}

} // verus!
