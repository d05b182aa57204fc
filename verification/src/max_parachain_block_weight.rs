//! Block weight with a target number of blocks that the caller names.
//!
//! This is the plain form of block weight control. The cores of the
//! parachain are shared out among the target blocks without a ceiling on
//! what all cores give together, the proof size of a block is not held to
//! one core, every extrinsic is held against the target weight of the
//! block whatever its class, and the window in which a transaction may raise
//! the limit is fixed at ten transactions. A transaction that announces too
//! much on a block that is not the first on its core is let through: the
//! hook after the dispatch deals with what it really used. A block that
//! claims the full core without being the first on it is filled up by the
//! hook before the inherents and by the hook after a dispatch, not by the
//! hook before a dispatch. The hooks give nothing back of the weight
//! charged for them.

use vstd::prelude::*;
use crate::block_weight::{
    applied, apply_transition, first_block_in_core, full_core_weight,
    is_first_block_in_core_with_digest, min, ModeTransition,
};
use crate::digest::{
    first_core_info, lemma_use_full_core_count_push, use_full_core_count, CoreInfo,
    CumulusDigestItem, Digest, DigestItem,
};
use crate::dispatch::{DispatchInfo, InvalidTransaction, TransactionValidityError};
use crate::system::{use_full_core_item, System};
use crate::weight::{Weight, MAX_POV_SIZE, WEIGHT_REF_TIME_PER_SECOND};

verus! {

/// What the block under construction is allowed to use.
#[derive(Clone, Copy, Debug, PartialEq, Eq, Structural)]
pub enum BlockWeightMode {
    /// The block uses the weight of a full core.
    FullCore,
    /// The extrinsic that is being applied may use the weight of a full core.
    PotentialFullCore {
        /// Index of the first transaction of the block.
        first_transaction_index: Option<u32>,
    },
    /// The block uses its fraction of the core only.
    FractionOfCore {
        /// Index of the first transaction of the block.
        first_transaction_index: Option<u32>,
    },
}

impl BlockWeightMode {
    /// The index of the first transaction that the mode remembers; `None`
    /// where it remembers none.
    pub open spec fn first_transaction_index(self) -> Option<u32> {
        match self {
            BlockWeightMode::FullCore => None,
            BlockWeightMode::PotentialFullCore { first_transaction_index } =>
                first_transaction_index,
            BlockWeightMode::FractionOfCore { first_transaction_index } => first_transaction_index,
        }
    }
}

/// What a hook of this module decided.
pub type Transition = ModeTransition<BlockWeightMode>;

/// How many transactions, counted from the first of the block, may raise
/// the weight limit.
pub const MAX_TRANSACTION_TO_CONSIDER: u32 = 10;

/// The transition into `FullCore`, with the claim of the full core.
pub open spec fn enter_full_core(register_full_core_weight: bool) -> Transition {
    ModeTransition {
        mode: Some(BlockWeightMode::FullCore),
        deposit_use_full_core: true,
        register_full_core_weight,
    }
}

/// The share of one block when `target_blocks` blocks are built on the
/// cores of `core_info`.
///
/// Without core info, without cores or without target blocks this is the
/// weight of a full core. Otherwise the execution time of all cores is
/// shared out, with at most one core for one block, and so is the proof
/// size of all cores.
pub open spec fn target_weight_for(core_info: Option<CoreInfo>, target_blocks: u32) -> Weight {
    match core_info {
        None => full_core_weight(),
        Some(info) => if info.number_of_cores == 0 || target_blocks == 0 {
            full_core_weight()
        } else {
            let total_ref_time = info.number_of_cores * 2 * WEIGHT_REF_TIME_PER_SECOND;
            let total_pov_size = info.number_of_cores * MAX_POV_SIZE;
            Weight {
                ref_time: min(
                    total_ref_time / (target_blocks as int),
                    2 * WEIGHT_REF_TIME_PER_SECOND,
                ) as u64,
                proof_size: (total_pov_size / (target_blocks as int)) as u64,
            }
        },
    }
}

/// The target weight of a block with the digest `logs`.
pub open spec fn target_block_weight_of(logs: Seq<DigestItem>, target_blocks: u32) -> Weight {
    target_weight_for(first_core_info(logs), target_blocks)
}

/// Whether the block has consumed more than its target weight.
pub open spec fn over_target_block_weight(system: System, target_blocks: u32) -> bool {
    system.consumed().any_gt(target_block_weight_of(system.digest@, target_blocks))
}

/// What the block may use at most: the answer of [`MaxParachainBlockWeight::get`].
pub open spec fn max_block_weight(
    system: System,
    mode: Option<BlockWeightMode>,
    target_blocks: u32,
) -> Weight {
    let target = target_block_weight_of(system.digest@, target_blocks);
    let maybe_full_core = if first_block_in_core(system.digest@) {
        full_core_weight()
    } else {
        target
    };
    if !system.inherents_applied {
        maybe_full_core
    } else {
        match mode {
            Some(BlockWeightMode::FullCore) => full_core_weight(),
            Some(BlockWeightMode::PotentialFullCore { .. }) => full_core_weight(),
            Some(BlockWeightMode::FractionOfCore { .. }) => target,
            None => maybe_full_core,
        }
    }
}

/// The index of the extrinsic that is being applied if it is a transaction,
/// and `None` while inherents are applied.
pub open spec fn transaction_index(system: System) -> Option<u32> {
    if system.inherents_applied {
        Some(system.extrinsic_index.unwrap_or(0))
    } else {
        None
    }
}

/// The digest holds one claim of the full core if the mode is `FullCore`,
/// and none otherwise.
pub open spec fn claim_matches_mode(system: System, mode: Option<BlockWeightMode>) -> bool {
    use_full_core_count(system.digest@) == if mode == Some(BlockWeightMode::FullCore) {
        1nat
    } else {
        0nat
    }
}

/// What [`DynamicMaxBlockWeight::pre_validate_extrinsic`] decides.
///
/// A block in `FullCore` mode stays there. Otherwise, in this order: where
/// no transaction was applied before this extrinsic and the block is over
/// its target weight already, the block enters `FullCore`; where the
/// extrinsic announces more than the target weight on the first block of a
/// core, the mode is `PotentialFullCore` within the window, and the
/// extrinsic is refused outside of it; else the mode is `FractionOfCore`.
pub open spec fn pre_validate_transition_of(
    system: System,
    mode: Option<BlockWeightMode>,
    target_blocks: u32,
    info: DispatchInfo,
    len: usize,
) -> Result<Transition, InvalidTransaction> {
    let transaction = transaction_index(system);
    let current = match mode {
        Some(current) => current,
        None => BlockWeightMode::FractionOfCore { first_transaction_index: transaction },
    };
    let first = current.first_transaction_index();
    let announced = info.total_weight().saturating_add(Weight::from_parts(0, len as u64));
    if current == BlockWeightMode::FullCore {
        Ok(ModeTransition::quiet(Some(BlockWeightMode::FullCore)))
    } else if first == transaction && over_target_block_weight(system, target_blocks) {
        Ok(enter_full_core(false))
    } else if announced.any_gt(target_block_weight_of(system.digest@, target_blocks))
        && first_block_in_core(system.digest@) {
        if crate::block_weight::transaction_extension::transactions_between(
            first.unwrap_or(0),
            transaction.unwrap_or(0),
        ) < MAX_TRANSACTION_TO_CONSIDER {
            Ok(
                ModeTransition::quiet(
                    Some(
                        BlockWeightMode::PotentialFullCore {
                            first_transaction_index: crate::block_weight::transaction_extension::or(
                                first,
                                transaction,
                            ),
                        },
                    ),
                ),
            )
        } else {
            Err(InvalidTransaction::ExhaustsResources)
        }
    } else {
        Ok(
            ModeTransition::quiet(
                Some(BlockWeightMode::FractionOfCore { first_transaction_index: first }),
            ),
        )
    }
}

/// What [`DynamicMaxBlockWeight::post_dispatch_extrinsic`] decides.
///
/// Without a stored mode and in `FullCore` nothing happens. A block in
/// `FractionOfCore` that is over its target weight enters `FullCore`, and
/// is filled up unless it is the first on its core. `PotentialFullCore`
/// becomes `FullCore` if the block is over its target weight, and
/// `FractionOfCore` if not.
pub open spec fn post_dispatch_transition_of(
    system: System,
    mode: Option<BlockWeightMode>,
    target_blocks: u32,
) -> Transition {
    let above = over_target_block_weight(system, target_blocks);
    match mode {
        None => ModeTransition::quiet(None),
        Some(BlockWeightMode::FullCore) => ModeTransition::quiet(mode),
        Some(BlockWeightMode::FractionOfCore { .. }) => if above {
            enter_full_core(!first_block_in_core(system.digest@))
        } else {
            ModeTransition::quiet(mode)
        },
        Some(BlockWeightMode::PotentialFullCore { first_transaction_index }) => if above {
            enter_full_core(false)
        } else {
            ModeTransition::quiet(Some(BlockWeightMode::FractionOfCore { first_transaction_index }))
        },
    }
}

/// Calculates the maximum block weight of a parachain from the number of
/// relay chain cores that it holds and the target number of blocks.
pub struct MaxParachainBlockWeight;

impl MaxParachainBlockWeight {
    /// The execution time that one core provides, in picoseconds.
    pub const MAX_REF_TIME_PER_CORE_NS: u64 = 2 * WEIGHT_REF_TIME_PER_SECOND;

    /// The weight that one relay core provides.
    pub fn full_core_weight() -> (w: Weight)
        ensures
            w == full_core_weight(),
    {
        Weight::from_parts(Self::MAX_REF_TIME_PER_CORE_NS, MAX_POV_SIZE as u64)
    }

    /// The weight that the block of `system` may use at most when
    /// `target_blocks` blocks are to be built, given the stored mode.
    ///
    /// While the inherents are applied, and where no mode is stored, this
    /// is the full core for the first block on a core and the target
    /// weight for any other.
    pub fn get(system: &System, mode: Option<BlockWeightMode>, target_blocks: u32) -> (w: Weight)
        ensures
            w == max_block_weight(*system, mode, target_blocks),
    {
        let digest = system.digest();
        let target_block_weight = Self::target_block_weight_with_digest(target_blocks, digest);

        let maybe_full_core_weight = if is_first_block_in_core_with_digest(digest) {
            Self::full_core_weight()
        } else {
            target_block_weight
        };

        if !system.inherents_applied() {
            return maybe_full_core_weight;
        }
        match mode {
            Some(BlockWeightMode::FullCore) => Self::full_core_weight(),
            Some(BlockWeightMode::PotentialFullCore { .. }) => Self::full_core_weight(),
            Some(BlockWeightMode::FractionOfCore { .. }) => target_block_weight,
            None => maybe_full_core_weight,
        }
    }

    /// The target weight of one block of `system`.
    pub fn target_block_weight(system: &System, target_blocks: u32) -> (w: Weight)
        ensures
            w == target_block_weight_of(system.digest@, target_blocks),
    {
        Self::target_block_weight_with_digest(target_blocks, system.digest())
    }

    /// The target weight of one block with the given digest.
    pub fn target_block_weight_with_digest(target_blocks: u32, digest: &Digest) -> (w: Weight)
        ensures
            w == target_block_weight_of(digest@, target_blocks),
    {
        let core_info = match CumulusDigestItem::find_core_info(digest) {
            Some(core_info) => core_info,
            None => {
                return Self::full_core_weight();
            },
        };

        let number_of_cores: u32 = core_info.number_of_cores as u32;

        if number_of_cores == 0 || target_blocks == 0 {
            return Self::full_core_weight();
        }
        proof {
            // At most 65535 cores: neither product leaves `u64`.
            assert(Self::MAX_REF_TIME_PER_CORE_NS == 2_000_000_000_000);
            assert(MAX_POV_SIZE == 10_485_760);
            assert(number_of_cores * 2_000_000_000_000 <= 65535 * 2_000_000_000_000);
            assert(number_of_cores * 10_485_760 <= 65535 * 10_485_760);
        }
        let total_ref_time: u64 = (number_of_cores as u64) * Self::MAX_REF_TIME_PER_CORE_NS;
        let ref_time_share: u64 = total_ref_time / (target_blocks as u64);
        let ref_time_per_block: u64 = if ref_time_share <= Self::MAX_REF_TIME_PER_CORE_NS {
            ref_time_share
        } else {
            Self::MAX_REF_TIME_PER_CORE_NS
        };

        let total_pov_size: u64 = (number_of_cores as u64) * (MAX_POV_SIZE as u64);
        let proof_size_per_block: u64 = total_pov_size / (target_blocks as u64);

        Weight::from_parts(ref_time_per_block, proof_size_per_block)
    }
}

/// Has the block consumed more than its target weight already?
pub fn block_weight_over_target_block_weight(system: &System, target_blocks: u32) -> (over: bool)
    ensures
        over == over_target_block_weight(*system, target_blocks),
{
    let target_block_weight = MaxParachainBlockWeight::target_block_weight(system, target_blocks);

    system.consumed().any_gt(target_block_weight)
}

/// Looks at what the initialisation of a block has consumed, before any
/// inherent is applied.
pub struct MaxBlockWeightHooks;

impl MaxBlockWeightHooks {
    /// To be run once per block, before any inherent is applied.
    ///
    /// Where the initialisation of the block has consumed more than the
    /// target weight of the block, the mode becomes `FullCore` and the claim
    /// of the full core is deposited; if the block is not the first on its
    /// core, the weight of a full core is registered as well, so that the
    /// block takes no extrinsic besides its inherents. Else nothing changes.
    /// The answer says whether the block is over its target; on a block
    /// that is not the first on its core that should never be.
    pub fn pre_inherents(
        system: &mut System,
        mode: &mut Option<BlockWeightMode>,
        target_blocks: u32,
    ) -> (over_target: bool)
        ensures
            over_target == over_target_block_weight(*old(system), target_blocks),
            *final(mode) == if over_target {
                Some(BlockWeightMode::FullCore)
            } else {
                *old(mode)
            },
            applied(
                *old(system),
                if over_target {
                    enter_full_core(!first_block_in_core(old(system).digest@))
                } else {
                    ModeTransition::quiet(*old(mode))
                },
                *final(system),
            ),
            *old(mode) != Some(BlockWeightMode::FullCore) && claim_matches_mode(
                *old(system),
                *old(mode),
            ) ==> claim_matches_mode(*final(system), *final(mode)),
    {
        if block_weight_over_target_block_weight(system, target_blocks) {
            proof {
                lemma_use_full_core_count_push(system.digest@, use_full_core_item());
            }
            let transition = ModeTransition {
                mode: Some(BlockWeightMode::FullCore),
                deposit_use_full_core: true,
                // Nobody knows how much of the core the blocks before this one used.
                register_full_core_weight: !is_first_block_in_core_with_digest(system.digest()),
            };
            *mode = transition.mode;
            apply_transition(system, &transition);
            true
        } else {
            false
        }
    }
}

/// Transaction extension that raises the weight limit of a block where a
/// transaction needs it.
#[derive(Clone, Copy, Debug, PartialEq, Eq)]
pub struct DynamicMaxBlockWeight<S>(pub S);

impl<S> From<S> for DynamicMaxBlockWeight<S> {
    fn from(s: S) -> (extension: Self)
        ensures
            extension == DynamicMaxBlockWeight(s),
    {
        Self::new(s)
    }
}

impl<S> vstd::std_specs::convert::FromSpecImpl<S> for DynamicMaxBlockWeight<S> {
    open spec fn obeys_from_spec() -> bool {
        true
    }

    open spec fn from_spec(s: S) -> Self {
        DynamicMaxBlockWeight(s)
    }
}

impl<S: Default> Default for DynamicMaxBlockWeight<S> {
    /// The extension around the default inner extension.
    fn default() -> (extension: Self)
        ensures
            call_ensures(S::default, (), extension.0),
    {
        Self::new(S::default())
    }
}

impl<S> DynamicMaxBlockWeight<S> {
    /// Wraps the inner extension.
    pub fn new(s: S) -> (extension: Self)
        ensures
            extension == DynamicMaxBlockWeight(s),
    {
        DynamicMaxBlockWeight(s)
    }

    /// To be run before `validate` is called for any inner extension.
    ///
    /// Sets the mode for the extrinsic that is about to be applied, as
    /// [`pre_validate_transition_of`] says. A refused extrinsic changes
    /// neither mode nor block.
    pub fn pre_validate_extrinsic(
        system: &mut System,
        mode: &mut Option<BlockWeightMode>,
        target_blocks: u32,
        info: &DispatchInfo,
        len: usize,
    ) -> (outcome: Result<(), TransactionValidityError>)
        ensures
            match pre_validate_transition_of(*old(system), *old(mode), target_blocks, *info, len) {
                Ok(transition) => {
                    &&& outcome is Ok
                    &&& *final(mode) == transition.mode
                    &&& applied(*old(system), transition, *final(system))
                },
                Err(reason) => {
                    &&& outcome == Err::<(), _>(TransactionValidityError::Invalid(reason))
                    &&& *final(mode) == *old(mode)
                    &&& *final(system) == *old(system)
                },
            },
            *old(mode) == Some(BlockWeightMode::FullCore) ==> *final(mode) == Some(
                BlockWeightMode::FullCore,
            ),
            claim_matches_mode(*old(system), *old(mode)) ==> claim_matches_mode(
                *final(system),
                *final(mode),
            ),
    {
        let is_not_inherent = system.inherents_applied();
        let extrinsic_index: Option<u32> = if is_not_inherent {
            Some(
                match system.extrinsic_index() {
                    Some(index) => index,
                    None => 0,
                },
            )
        } else {
            None
        };

        let current_mode = match *mode {
            Some(current_mode) => current_mode,
            None => BlockWeightMode::FractionOfCore { first_transaction_index: extrinsic_index },
        };

        let first_transaction_index = match current_mode {
            // The full core is allowed already, there is nothing left to decide.
            BlockWeightMode::FullCore => {
                return Ok(());
            },
            BlockWeightMode::PotentialFullCore { first_transaction_index } =>
                first_transaction_index,
            BlockWeightMode::FractionOfCore { first_transaction_index } => first_transaction_index,
        };

        let same_index = match (first_transaction_index, extrinsic_index) {
            (Some(first), Some(current)) => first == current,
            (None, None) => true,
            _ => false,
        };
        let block_weight_over_limit = same_index && block_weight_over_target_block_weight(
            system,
            target_blocks,
        );

        if block_weight_over_limit {
            // The hook that runs before the inherents should have seen this.
            proof {
                lemma_use_full_core_count_push(system.digest@, use_full_core_item());
            }
            *mode = Some(BlockWeightMode::FullCore);

            // Tells the node that the block uses the full core.
            system.deposit_log(CumulusDigestItem::UseFullCore.to_digest_item());
        } else if info.total_weight()
            // The length of the extrinsic counts towards the proof size.
            .saturating_add(Weight::from_parts(0, len as u64)).any_gt(
            MaxParachainBlockWeight::target_block_weight(system, target_blocks),
        ) && is_first_block_in_core_with_digest(system.digest()) {
            let current: u32 = match extrinsic_index {
                Some(index) => index,
                None => 0,
            };
            let first: u32 = match first_transaction_index {
                Some(index) => index,
                None => 0,
            };
            if current.saturating_sub(first) < MAX_TRANSACTION_TO_CONSIDER {
                *mode = Some(
                    BlockWeightMode::PotentialFullCore {
                        // While inherents are applied neither index is known. The index
                        // of the first transaction is kept from the moment on at which it
                        // is applied.
                        first_transaction_index: match first_transaction_index {
                            Some(index) => Some(index),
                            None => extrinsic_index,
                        },
                    },
                );
            } else {
                return Err(TransactionValidityError::Invalid(InvalidTransaction::ExhaustsResources));
            }
        } else {
            *mode = Some(BlockWeightMode::FractionOfCore { first_transaction_index });
        }
        Ok(())
    }

    /// To be run after all inner extensions have handled the dispatch.
    ///
    /// Settles the mode, as [`post_dispatch_transition_of`] says, and does
    /// to the block what the transition asks for.
    pub fn post_dispatch_extrinsic(
        system: &mut System,
        mode: &mut Option<BlockWeightMode>,
        target_blocks: u32,
    )
        ensures
            *final(mode) == post_dispatch_transition_of(*old(system), *old(mode), target_blocks).mode,
            applied(
                *old(system),
                post_dispatch_transition_of(*old(system), *old(mode), target_blocks),
                *final(system),
            ),
            *old(mode) == Some(BlockWeightMode::FullCore) ==> *final(mode) == Some(
                BlockWeightMode::FullCore,
            ),
            !(*final(mode) matches Some(BlockWeightMode::PotentialFullCore { .. })),
            claim_matches_mode(*old(system), *old(mode)) ==> claim_matches_mode(
                *final(system),
                *final(mode),
            ),
    {
        let current_mode = match *mode {
            Some(current_mode) => current_mode,
            None => {
                return ;
            },
        };

        let is_above_limit = block_weight_over_target_block_weight(system, target_blocks);
        proof {
            lemma_use_full_core_count_push(system.digest@, use_full_core_item());
        }

        match current_mode {
            // The block uses the full core already.
            BlockWeightMode::FullCore => {},
            BlockWeightMode::FractionOfCore { .. } => {
                // Above the limit in this mode, the extrinsic used more than it had
                // announced.
                if is_above_limit {
                    let transition = ModeTransition {
                        mode: Some(BlockWeightMode::FullCore),
                        deposit_use_full_core: true,
                        // If the block is not the first on its core, nobody knows how
                        // much of the core the blocks before it used: the block takes
                        // no further transaction.
                        register_full_core_weight: !is_first_block_in_core_with_digest(
                            system.digest(),
                        ),
                    };
                    *mode = transition.mode;
                    apply_transition(system, &transition);
                }
            },
            // The extrinsic announced more than a fraction of the core. Did it use more?
            BlockWeightMode::PotentialFullCore { first_transaction_index } => {
                if is_above_limit {
                    *mode = Some(BlockWeightMode::FullCore);

                    // Tells the node that the block uses the full core.
                    system.deposit_log(CumulusDigestItem::UseFullCore.to_digest_item());
                } else {
                    *mode = Some(BlockWeightMode::FractionOfCore { first_transaction_index });
                }
            },
        }
    }
}

} // verus!
