//! The transaction extension that changes the block weight mode around
//! each extrinsic.

use vstd::prelude::*;
use super::{
    applied, apply_transition, claim_matches_mode, class_target_weight, first_block_in_core,
    full_core_weight, is_first_block_in_core_with_digest, over_target_block_weight,
    target_block_weight_of, BlockWeightMode, Config, MaxParachainBlockWeight, Transition,
};
use crate::digest::lemma_use_full_core_count_push;
use crate::dispatch::{DispatchClass, DispatchInfo, InvalidTransaction, TransactionValidityError};
use crate::system::{use_full_core_item, System};
use crate::weight::Weight;

verus! {

/// Transaction extension that raises the weight limit of a block where a
/// transaction needs it.
///
/// With several blocks on one core, the weight of a block may be too small
/// for some transactions. The extension lets such a transaction claim the
/// whole core, under these conditions:
///
/// 1. The block is the first on its core.
///
/// 2. The transaction is an inherent, or one of the first
///    `max_transaction_to_consider` transactions of the block.
///
/// 3. Where `only_operational` is set, the transaction is operational.
///
/// Before an extrinsic is dispatched, [`Self::pre_validate_extrinsic`] holds
/// the weight that it announces against the limit of its class and sets the
/// mode. After the dispatch, [`Self::post_dispatch_extrinsic`] holds what was
/// consumed against the limit, settles the mode and says how much of the
/// weight that was charged for the extension itself is given back.
///
/// Some inner extension has to account the weight of each extrinsic to the
/// block, else the extension sees no consumption.
#[derive(Clone, Copy, Debug, PartialEq, Eq)]
pub struct DynamicMaxBlockWeight<S> {
    /// The inner extension, that is the other extensions of the runtime.
    pub inner: S,
    /// How many transactions, counted from the first of the block, may
    /// raise the weight limit.
    pub max_transaction_to_consider: u32,
    /// Whether operational transactions alone may raise the weight limit.
    pub only_operational: bool,
}

/// The extension around `s` with the window and the classes that
/// [`DynamicMaxBlockWeight::new`] sets: the first ten transactions of a
/// block, of any class, may raise the weight limit.
pub open spec fn extension_around<S>(s: S) -> DynamicMaxBlockWeight<S> {
    DynamicMaxBlockWeight { inner: s, max_transaction_to_consider: 10, only_operational: false }
}

impl<S> From<S> for DynamicMaxBlockWeight<S> {
    fn from(s: S) -> (extension: Self)
        ensures
            extension == extension_around(s),
    {
        Self::new(s)
    }
}

impl<S> vstd::std_specs::convert::FromSpecImpl<S> for DynamicMaxBlockWeight<S> {
    open spec fn obeys_from_spec() -> bool {
        true
    }

    open spec fn from_spec(s: S) -> Self {
        extension_around(s)
    }
}

impl<S: Default> Default for DynamicMaxBlockWeight<S> {
    /// The extension around the default inner extension.
    fn default() -> (extension: Self)
        ensures
            call_ensures(S::default, (), extension.inner),
            extension == extension_around(extension.inner),
    {
        Self::new(S::default())
    }
}

/// The announced weight of an extrinsic of `len` encoded bytes: the length
/// counts towards the proof size.
pub open spec fn announced_weight(info: DispatchInfo, len: usize) -> Weight {
    info.total_weight().saturating_add(Weight::from_parts(0, len as u64))
}

/// The index of the extrinsic that is being applied if it is a transaction,
/// and `None` while inherents are applied.
pub open spec fn transaction_index(system: System) -> Option<u32> {
    if system.inherents_applied {
        Some(system.extrinsic_index.unwrap_or(0))
    } else {
        None
    }
}

/// How many transactions lie between the transaction with index `first`
/// and the one with index `current`; zero where `current` comes before.
pub open spec fn transactions_between(first: u32, current: u32) -> int {
    if current >= first {
        current - first
    } else {
        0
    }
}

/// `first`, or else `second`.
pub open spec fn or(first: Option<u32>, second: Option<u32>) -> Option<u32> {
    if first is Some {
        first
    } else {
        second
    }
}

/// What [`DynamicMaxBlockWeight::post_dispatch_transition`] decides: the
/// transition, and the weight to give back.
///
/// Without a stored mode nothing happens and nothing is given back. In
/// `FullCore` the mode stays and the charge less the weight of that path
/// is given back. In `FractionOfCore` the charge less the weight of that
/// path is given back; a block that is over its target weight enters
/// `FullCore`, and is filled up unless it is the first on its core.
/// `PotentialFullCore` was the most expensive path, so nothing is given
/// back; the mode becomes `FullCore` if the class of the extrinsic has
/// consumed more than the limit that was exceeded on announcement, and
/// `FractionOfCore` if not.
pub open spec fn post_dispatch_transition_of(
    cfg: Config,
    system: System,
    mode: Option<BlockWeightMode>,
    info: DispatchInfo,
) -> (Transition, Weight) {
    let max_weight = cfg.weight_info.block_weight_tx_extension_max_weight;
    match mode {
        None => (Transition::quiet(None), Weight::zero()),
        Some(BlockWeightMode::FullCore) => (
            Transition::quiet(mode),
            max_weight.saturating_sub(cfg.weight_info.block_weight_tx_extension_full_core),
        ),
        Some(BlockWeightMode::FractionOfCore { .. }) => (
            if over_target_block_weight(system, cfg.target_block_rate) {
                Transition::enter_full_core(first_block_in_core(system.digest@))
            } else {
                Transition::quiet(mode)
            },
            max_weight.saturating_sub(
                cfg.weight_info.block_weight_tx_extension_stays_fraction_of_core,
            ),
        ),
        Some(BlockWeightMode::PotentialFullCore { first_transaction_index, target_weight }) => (
            if system.block_weight.get(info.class).any_gt(target_weight) {
                Transition::enter_full_core(true)
            } else {
                Transition::quiet(
                    Some(BlockWeightMode::FractionOfCore { first_transaction_index }),
                )
            },
            Weight::zero(),
        ),
    }
}

impl<S> DynamicMaxBlockWeight<S> {
    /// What [`Self::pre_validate_transition`] decides.
    ///
    /// The limit is that of the class of the extrinsic, see
    /// [`class_target_weight`]. A block in `FullCore` mode stays there.
    /// Otherwise, in this order: where the extrinsic has index zero, be it
    /// an inherent or a transaction, and the block has consumed more than
    /// the limit already, the block enters `FullCore`, and is filled up
    /// unless it is the first on its core; where the extrinsic
    /// announces no more than the limit of its class, the mode is
    /// `FractionOfCore`; where it announces more, the mode is
    /// `PotentialFullCore` if the block is the first on its core, the
    /// extrinsic lies within the window and its class is allowed, and the
    /// extrinsic is refused if not.
    pub open spec fn pre_validate_transition_of(
        &self,
        cfg: Config,
        system: System,
        mode: Option<BlockWeightMode>,
        info: DispatchInfo,
        len: usize,
    ) -> Result<Transition, InvalidTransaction> {
        let transaction_index = transaction_index(system);
        let current = match mode {
            Some(current) => current,
            None => BlockWeightMode::FractionOfCore { first_transaction_index: transaction_index },
        };
        let first_in_core = first_block_in_core(system.digest@);
        let target_weight = class_target_weight(
            cfg.block_weights,
            info.class,
            target_block_weight_of(system.digest@, cfg.target_block_rate),
        );
        let first_transaction_index = or(current.first_transaction_index(), transaction_index);
        if current == BlockWeightMode::FullCore {
            Ok(Transition::quiet(Some(BlockWeightMode::FullCore)))
        } else if system.extrinsic_index.unwrap_or(0) == 0 && system.consumed().any_gt(
            target_weight,
        ) {
            Ok(Transition::enter_full_core(first_in_core))
        } else if !announced_weight(info, len).any_gt(target_weight) {
            Ok(Transition::quiet(Some(BlockWeightMode::FractionOfCore { first_transaction_index })))
        } else if self.within_window(system, current) && first_in_core && self.class_allowed(
            info.class,
        ) {
            Ok(
                Transition::quiet(
                    Some(
                        BlockWeightMode::PotentialFullCore {
                            first_transaction_index,
                            target_weight,
                        },
                    ),
                ),
            )
        } else {
            Err(InvalidTransaction::ExhaustsResources)
        }
    }

    /// Whether the extrinsic that is being applied is one of the first
    /// `max_transaction_to_consider` transactions of the block. Inherents
    /// count as the transaction with index zero.
    pub open spec fn within_window(&self, system: System, current: BlockWeightMode) -> bool {
        transactions_between(
            current.first_transaction_index().unwrap_or(0),
            transaction_index(system).unwrap_or(0),
        ) < self.max_transaction_to_consider
    }

    /// Whether an extrinsic of `class` may raise the weight limit.
    pub open spec fn class_allowed(&self, class: DispatchClass) -> bool {
        self.only_operational ==> class == DispatchClass::Operational
    }

    /// Wraps the inner extension. The first ten transactions of a block, of
    /// any class, may raise the weight limit.
    pub fn new(s: S) -> (extension: Self)
        ensures
            extension == extension_around(s),
    {
        DynamicMaxBlockWeight { inner: s, max_transaction_to_consider: 10, only_operational: false }
    }

    /// Decides what is to happen before `validate` is called for any inner
    /// extension. Nothing is changed: the caller stores the mode of the
    /// transition and does what the transition asks for, or refuses the
    /// extrinsic and leaves everything as it is.
    pub fn pre_validate_transition(
        &self,
        cfg: &Config,
        system: &System,
        mode: Option<BlockWeightMode>,
        info: &DispatchInfo,
        len: usize,
    ) -> (decision: Result<Transition, InvalidTransaction>)
        ensures
            decision == self.pre_validate_transition_of(*cfg, *system, mode, *info, len),
    {
        let is_not_inherent = system.inherents_applied();
        let extrinsic_index: u32 = match system.extrinsic_index() {
            Some(index) => index,
            None => 0,
        };
        let transaction_index = if is_not_inherent {
            Some(extrinsic_index)
        } else {
            None
        };

        let current_mode = match mode {
            Some(current_mode) => current_mode,
            None => BlockWeightMode::FractionOfCore { first_transaction_index: transaction_index },
        };

        let first_of_mode = match current_mode {
            // The full core is allowed already, there is nothing left to decide.
            BlockWeightMode::FullCore => {
                return Ok(
                    Transition {
                        mode: Some(BlockWeightMode::FullCore),
                        deposit_use_full_core: false,
                        register_full_core_weight: false,
                    },
                );
            },
            BlockWeightMode::PotentialFullCore { first_transaction_index, .. } =>
                first_transaction_index,
            BlockWeightMode::FractionOfCore { first_transaction_index } => first_transaction_index,
        };

        let digest = system.digest();
        let target_weight = match cfg.block_weights.get(info.class).max_total {
            Some(max_total) => max_total,
            None => MaxParachainBlockWeight::target_block_weight_with_digest(
                digest,
                cfg.target_block_rate,
            ).saturating_sub(cfg.block_weights.base_block),
        };

        let block_weight_over_limit = extrinsic_index == 0 && system.consumed().any_gt(
            target_weight,
        );

        // While inherents are applied neither index is known. The index of the first
        // transaction is kept from the moment on at which it is applied.
        let first_transaction_index = match first_of_mode {
            Some(index) => Some(index),
            None => transaction_index,
        };

        if block_weight_over_limit {
            // The hook that runs before the inherents should have seen this. The block
            // is above its target and can only go on with the full core. If it is not the
            // first on its core, it must take no further extrinsic.
            Ok(
                Transition {
                    mode: Some(BlockWeightMode::FullCore),
                    deposit_use_full_core: true,
                    register_full_core_weight: !is_first_block_in_core_with_digest(digest),
                },
            )
        } else if info.total_weight()
            // The length of the extrinsic counts towards the proof size.
            .saturating_add(Weight::from_parts(0, len as u64)).any_gt(target_weight) {
            let class_allowed = if self.only_operational {
                info.class == DispatchClass::Operational
            } else {
                true
            };
            let current_transaction: u32 = match transaction_index {
                Some(index) => index,
                None => 0,
            };
            let first_transaction: u32 = match first_of_mode {
                Some(index) => index,
                None => 0,
            };

            if current_transaction.saturating_sub(first_transaction)
                < self.max_transaction_to_consider && is_first_block_in_core_with_digest(digest)
                && class_allowed {
                Ok(
                    Transition {
                        mode: Some(
                            BlockWeightMode::PotentialFullCore {
                                target_weight,
                                first_transaction_index,
                            },
                        ),
                        deposit_use_full_core: false,
                        register_full_core_weight: false,
                    },
                )
            } else {
                // Over the limit, and either outside of the window, not the first block
                // on the core, or of a class that may not raise the limit.
                Err(InvalidTransaction::ExhaustsResources)
            }
        } else {
            Ok(
                Transition {
                    mode: Some(BlockWeightMode::FractionOfCore { first_transaction_index }),
                    deposit_use_full_core: false,
                    register_full_core_weight: false,
                },
            )
        }
    }

    /// Decides what is to happen after all inner extensions have handled
    /// the dispatch, and how much of the weight charged for this extension is
    /// given back. Nothing is changed: the caller stores the mode of the
    /// transition and does what the transition asks for.
    pub fn post_dispatch_transition(
        cfg: &Config,
        system: &System,
        mode: Option<BlockWeightMode>,
        info: &DispatchInfo,
    ) -> (decision: (Transition, Weight))
        ensures
            decision == post_dispatch_transition_of(*cfg, *system, mode, *info),
            decision.1.all_lte(cfg.weight_info.block_weight_tx_extension_max_weight),
    {
        let current_mode = match mode {
            Some(current_mode) => current_mode,
            None => {
                return (
                    Transition {
                        mode: None,
                        deposit_use_full_core: false,
                        register_full_core_weight: false,
                    },
                    Weight::zero(),
                );
            },
        };
        let max_weight = cfg.weight_info.block_weight_tx_extension_max_weight;

        match current_mode {
            // The block uses the full core already.
            BlockWeightMode::FullCore => (
                Transition { mode, deposit_use_full_core: false, register_full_core_weight: false },
                max_weight.saturating_sub(cfg.weight_info.block_weight_tx_extension_full_core),
            ),
            BlockWeightMode::FractionOfCore { .. } => {
                let digest = system.digest();
                let target_block_weight = MaxParachainBlockWeight::target_block_weight_with_digest(
                    digest,
                    cfg.target_block_rate,
                );
                let is_above_limit = system.consumed().any_gt(target_block_weight);
                let refund = max_weight.saturating_sub(
                    cfg.weight_info.block_weight_tx_extension_stays_fraction_of_core,
                );

                // Above the limit in this mode, the extrinsic used more than it had
                // announced. The block goes on with the full core. If it is not the first
                // on its core, nobody knows how much of the core the blocks before it
                // used: the full core weight is registered, and the block takes no
                // further extrinsic.
                if is_above_limit {
                    (
                        Transition {
                            mode: Some(BlockWeightMode::FullCore),
                            deposit_use_full_core: true,
                            register_full_core_weight: !is_first_block_in_core_with_digest(digest),
                        },
                        refund,
                    )
                } else {
                    (
                        Transition {
                            mode,
                            deposit_use_full_core: false,
                            register_full_core_weight: false,
                        },
                        refund,
                    )
                }
            },
            // The extrinsic announced more than a fraction of the core. Did it use more?
            BlockWeightMode::PotentialFullCore { first_transaction_index, target_weight } => {
                let extrinsic_class_weight = system.block_weight.get(info.class);

                let transition = if extrinsic_class_weight.any_gt(target_weight) {
                    Transition {
                        mode: Some(BlockWeightMode::FullCore),
                        deposit_use_full_core: true,
                        register_full_core_weight: false,
                    }
                } else {
                    Transition {
                        mode: Some(BlockWeightMode::FractionOfCore { first_transaction_index }),
                        deposit_use_full_core: false,
                        register_full_core_weight: false,
                    }
                };
                // This was the most expensive path: nothing is given back.
                (transition, Weight::zero())
            },
        }
    }
}

impl<S> DynamicMaxBlockWeight<S> {
    /// The weight that is charged for the extension before dispatch: that
    /// of its most expensive path.
    pub fn weight(&self, cfg: &Config) -> (w: Weight)
        ensures
            w == cfg.weight_info.block_weight_tx_extension_max_weight,
    {
        cfg.weight_info.block_weight_tx_extension_max_weight
    }

    /// To be run before `validate` is called for any inner extension.
    ///
    /// Sets the mode for the extrinsic that is about to be applied, as
    /// [`Self::pre_validate_transition_of`] says, and does to the block what
    /// the transition asks for. An extrinsic that announces more than the
    /// limit of its class and may not raise it is refused, and then neither
    /// mode nor block change.
    pub fn pre_validate_extrinsic(
        &self,
        cfg: &Config,
        system: &mut System,
        mode: &mut Option<BlockWeightMode>,
        info: &DispatchInfo,
        len: usize,
    ) -> (outcome: Result<(), TransactionValidityError>)
        ensures
            match self.pre_validate_transition_of(*cfg, *old(system), *old(mode), *info, len) {
                Ok(transition) => {
                    &&& outcome is Ok
                    &&& *final(mode) == transition.mode
                    &&& applied(*old(system), transition, *final(system))
                },
                Err(reason) => {
                    &&& outcome == Err::<(), _>(TransactionValidityError::Invalid(reason))
                    &&& *final(mode) == *old(mode)
                    &&& *final(system) == *old(system)
                },
            },
            // Nothing leaves `FullCore`.
            *old(mode) == Some(BlockWeightMode::FullCore) ==> *final(mode) == Some(
                BlockWeightMode::FullCore,
            ),
            // The claim is deposited together with the step into `FullCore`, and only then.
            claim_matches_mode(*old(system), *old(mode)) ==> claim_matches_mode(
                *final(system),
                *final(mode),
            ),
            // The index of the first transaction stays once it is set.
            keeps_first_transaction_index(*old(mode), *final(mode)),
            // Once a transaction is applied, its index is the one that is set.
            outcome is Ok && *final(mode) != Some(BlockWeightMode::FullCore) ==> remembered_index(
                *final(mode),
            ) == or(remembered_index(*old(mode)), transaction_index(*old(system))),
            // An extrinsic that announces no more than the limit is never refused and
            // never raises the limit.
            !announced_weight(*info, len).any_gt(
                class_target_weight(
                    cfg.block_weights,
                    info.class,
                    target_block_weight_of(old(system).digest@, cfg.target_block_rate),
                ),
            ) ==> outcome is Ok && !(*final(mode) matches Some(
                BlockWeightMode::PotentialFullCore { .. },
            )),
            // A block that is not the first on its core and enters `FullCore` is filled up.
            *old(mode) != Some(BlockWeightMode::FullCore) && *final(mode) == Some(
                BlockWeightMode::FullCore,
            ) && !first_block_in_core(old(system).digest@) ==> final(system).block_weight == old(
                system,
            ).block_weight.spec_accrue(full_core_weight(), DispatchClass::Mandatory),
    {
        match self.pre_validate_transition(cfg, system, *mode, info, len) {
            Ok(transition) => {
                proof {
                    lemma_use_full_core_count_push(system.digest@, use_full_core_item());
                }
                *mode = transition.mode;
                apply_transition(system, &transition);
                Ok(())
            },
            Err(reason) => Err(TransactionValidityError::Invalid(reason)),
        }
    }

    /// To be run after all inner extensions have handled the dispatch.
    ///
    /// Settles the mode, as [`post_dispatch_transition_of`] says, and does
    /// to the block what the transition asks for. Returns the weight to
    /// give back: what was charged for this extension and not used by it.
    pub fn post_dispatch_extrinsic(
        cfg: &Config,
        system: &mut System,
        mode: &mut Option<BlockWeightMode>,
        info: &DispatchInfo,
    ) -> (refund: Weight)
        ensures
            ({
                let (transition, weight) = post_dispatch_transition_of(
                    *cfg,
                    *old(system),
                    *old(mode),
                    *info,
                );
                &&& refund == weight
                &&& *final(mode) == transition.mode
                &&& applied(*old(system), transition, *final(system))
            }),
            // Nothing leaves `FullCore`.
            *old(mode) == Some(BlockWeightMode::FullCore) ==> *final(mode) == Some(
                BlockWeightMode::FullCore,
            ),
            // No extrinsic leaves `PotentialFullCore` behind.
            !(*final(mode) matches Some(BlockWeightMode::PotentialFullCore { .. })),
            // The claim is deposited together with the step into `FullCore`, and only then.
            claim_matches_mode(*old(system), *old(mode)) ==> claim_matches_mode(
                *final(system),
                *final(mode),
            ),
            // The index of the first transaction stays once it is set.
            keeps_first_transaction_index(*old(mode), *final(mode)),
            // No more is given back than was charged.
            refund.all_lte(cfg.weight_info.block_weight_tx_extension_max_weight),
            // A block that is not the first on its core and is pushed into `FullCore` by
            // an extrinsic that used more than it announced is filled up.
            *old(mode) matches Some(BlockWeightMode::FractionOfCore { .. }) && *final(mode) == Some(
                BlockWeightMode::FullCore,
            ) && !first_block_in_core(old(system).digest@) ==> final(system).block_weight == old(
                system,
            ).block_weight.spec_accrue(full_core_weight(), DispatchClass::Mandatory),
    {
        let (transition, refund) = Self::post_dispatch_transition(cfg, system, *mode, info);
        proof {
            lemma_use_full_core_count_push(system.digest@, use_full_core_item());
        }
        *mode = transition.mode;
        apply_transition(system, &transition);
        refund
    }

    /// The weight that the whole pipeline gives back after a dispatch.
    ///
    /// `inner` is what the inner extensions answered. Where they failed,
    /// their error is handed on and neither mode nor block change. Where
    /// they give `inner_refund` back, [`Self::post_dispatch_extrinsic`] runs
    /// and its refund is added.
    pub fn post_dispatch_details<E>(
        cfg: &Config,
        system: &mut System,
        mode: &mut Option<BlockWeightMode>,
        info: &DispatchInfo,
        inner: Result<Weight, E>,
    ) -> (outcome: Result<Weight, E>)
        ensures
            match inner {
                Ok(inner_refund) => {
                    let (transition, weight) = post_dispatch_transition_of(
                        *cfg,
                        *old(system),
                        *old(mode),
                        *info,
                    );
                    &&& outcome == Ok::<_, E>(inner_refund.saturating_add(weight))
                    &&& *final(mode) == transition.mode
                    &&& applied(*old(system), transition, *final(system))
                },
                Err(error) => {
                    &&& outcome == Err::<Weight, _>(error)
                    &&& *final(mode) == *old(mode)
                    &&& *final(system) == *old(system)
                },
            },
    {
        match inner {
            Ok(weight_refund) => {
                let extra_refund = Self::post_dispatch_extrinsic(cfg, system, mode, info);
                Ok(weight_refund.saturating_add(extra_refund))
            },
            Err(error) => Err(error),
        }
    }

    /// What is to happen after the dispatch of an extrinsic that came
    /// without the extensions' data.
    ///
    /// `inner` is what the inner extensions answered. Where they failed,
    /// their error is handed on and neither mode nor block change. Else
    /// [`Self::post_dispatch_extrinsic`] runs; its refund is dropped.
    pub fn bare_post_dispatch<E>(
        cfg: &Config,
        system: &mut System,
        mode: &mut Option<BlockWeightMode>,
        info: &DispatchInfo,
        inner: Result<(), E>,
    ) -> (outcome: Result<(), E>)
        ensures
            match inner {
                Ok(_) => {
                    let (transition, _) = post_dispatch_transition_of(
                        *cfg,
                        *old(system),
                        *old(mode),
                        *info,
                    );
                    &&& outcome is Ok
                    &&& *final(mode) == transition.mode
                    &&& applied(*old(system), transition, *final(system))
                },
                Err(error) => {
                    &&& outcome == Err::<(), _>(error)
                    &&& *final(mode) == *old(mode)
                    &&& *final(system) == *old(system)
                },
            },
    {
        match inner {
            Ok(_) => {
                let _ = Self::post_dispatch_extrinsic(cfg, system, mode, info);
                Ok(())
            },
            Err(error) => Err(error),
        }
    }
}

/// The index of the first transaction that the stored mode remembers.
pub open spec fn remembered_index(mode: Option<BlockWeightMode>) -> Option<u32> {
    match mode {
        Some(mode) => mode.first_transaction_index(),
        None => None,
    }
}

/// A mode that remembers the index of the first transaction is followed by
/// one that remembers the same index, or by `FullCore`.
pub open spec fn keeps_first_transaction_index(
    before: Option<BlockWeightMode>,
    after: Option<BlockWeightMode>,
) -> bool {
    match before {
        Some(mode) if mode.first_transaction_index() is Some => after == Some(
            BlockWeightMode::FullCore,
        ) || (after is Some && after.unwrap().first_transaction_index()
            == mode.first_transaction_index()),
        _ => true,
    }
}

} // verus!
