//! What holds of the block weight mode over a whole block.
//!
//! A block is a sequence of hook calls. Between two calls the host may
//! change the block in any way: each call comes with the block as the hook
//! finds it. The mode and the claims of the full core are changed by the
//! hooks alone.

use vstd::prelude::*;
use super::pre_inherents_hook::pre_inherents_transition_of;
use super::transaction_extension::{
    announced_weight, keeps_first_transaction_index, post_dispatch_transition_of,
    DynamicMaxBlockWeight,
};
use super::{
    class_target_weight, first_block_in_core, full_core_weight, target_block_weight_of,
    target_weight_for, BlockWeightMode, Config, Transition,
};
use crate::digest::{
    first_core_info, lemma_first_bundle_info_push, lemma_first_core_info_push, CoreInfo,
    DigestItem,
};
use crate::dispatch::DispatchInfo;
use crate::system::{use_full_core_item, System};

verus! {

/// One of the three hooks, with what it is called with.
pub enum Hook {
    /// The hook before the inherents.
    PreInherents,
    /// The hook before the dispatch of an extrinsic.
    PreValidate { info: DispatchInfo, len: usize },
    /// The hook after the dispatch of an extrinsic.
    PostDispatch { info: DispatchInfo },
}

/// A call of a hook, with the block as the hook finds it.
pub struct HookCall {
    pub system: System,
    pub hook: Hook,
}

/// What the hook of `call` decides when the stored mode is `mode`. A
/// refused extrinsic changes nothing.
pub open spec fn transition_of<S>(
    extension: DynamicMaxBlockWeight<S>,
    cfg: Config,
    mode: Option<BlockWeightMode>,
    call: HookCall,
) -> Transition {
    match call.hook {
        Hook::PreInherents => pre_inherents_transition_of(call.system, mode, cfg.target_block_rate),
        Hook::PreValidate { info, len } => match extension.pre_validate_transition_of(
            cfg,
            call.system,
            mode,
            info,
            len,
        ) {
            Ok(transition) => transition,
            Err(_) => Transition::quiet(mode),
        },
        Hook::PostDispatch { info } => post_dispatch_transition_of(cfg, call.system, mode, info).0,
    }
}

/// The stored mode after `calls`, one after the other, on a block whose
/// stored mode was `mode`.
pub open spec fn mode_after<S>(
    extension: DynamicMaxBlockWeight<S>,
    cfg: Config,
    mode: Option<BlockWeightMode>,
    calls: Seq<HookCall>,
) -> Option<BlockWeightMode>
    decreases calls.len(),
{
    if calls.len() == 0 {
        mode
    } else {
        transition_of(
            extension,
            cfg,
            mode_after(extension, cfg, mode, calls.drop_last()),
            calls.last(),
        ).mode
    }
}

/// How many claims of the full core `calls` deposit, one after the other,
/// on a block whose stored mode was `mode`.
pub open spec fn claims_deposited<S>(
    extension: DynamicMaxBlockWeight<S>,
    cfg: Config,
    mode: Option<BlockWeightMode>,
    calls: Seq<HookCall>,
) -> nat
    decreases calls.len(),
{
    if calls.len() == 0 {
        0
    } else {
        claims_deposited(extension, cfg, mode, calls.drop_last()) + if transition_of(
            extension,
            cfg,
            mode_after(extension, cfg, mode, calls.drop_last()),
            calls.last(),
        ).deposit_use_full_core {
            1nat
        } else {
            0nat
        }
    }
}

/// The hook before the inherents runs first in a block, if it runs at all.
pub open spec fn pre_inherents_runs_first(calls: Seq<HookCall>) -> bool {
    forall|i: int| 0 < i < calls.len() ==> !((#[trigger] calls[i]).hook is PreInherents)
}

/// Once the stored mode is `FullCore`, no later hook stores another: if the
/// mode is `FullCore` after the first `i` calls of a block, it is `FullCore`
/// after all of them.
pub proof fn lemma_full_core_is_never_left<S>(
    extension: DynamicMaxBlockWeight<S>,
    cfg: Config,
    mode: Option<BlockWeightMode>,
    calls: Seq<HookCall>,
    i: int,
)
    requires
        0 <= i <= calls.len(),
        mode_after(extension, cfg, mode, calls.take(i)) == Some(BlockWeightMode::FullCore),
    ensures
        mode_after(extension, cfg, mode, calls) == Some(BlockWeightMode::FullCore),
    decreases calls.len(),
{
    if i == calls.len() {
        assert(calls.take(i) =~= calls);
    } else {
        assert(calls.drop_last().take(i) =~= calls.take(i));
        lemma_full_core_is_never_left(extension, cfg, mode, calls.drop_last(), i);
    }
}

/// A block that starts without a stored mode, and in which the hook before
/// the inherents runs first, deposits one claim of the full core if it ends
/// in `FullCore`, and none if it does not.
pub proof fn lemma_one_claim_per_full_core_block<S>(
    extension: DynamicMaxBlockWeight<S>,
    cfg: Config,
    calls: Seq<HookCall>,
)
    requires
        pre_inherents_runs_first(calls),
    ensures
        claims_deposited(extension, cfg, None, calls) == if mode_after(
            extension,
            cfg,
            None,
            calls,
        ) == Some(BlockWeightMode::FullCore) {
            1nat
        } else {
            0nat
        },
    decreases calls.len(),
{
    if calls.len() > 0 {
        let before = calls.drop_last();
        assert forall|i: int| 0 < i < before.len() implies !((#[trigger] before[i]).hook
            is PreInherents) by {
            assert(before[i] == calls[i]);
        }
        lemma_one_claim_per_full_core_block(extension, cfg, before);
        if before.len() > 0 {
            assert(calls.last() == calls[calls.len() - 1]);
            assert(!(calls.last().hook is PreInherents));
        }
    }
}

/// The index of the first transaction stays once it is set: if the mode
/// remembers an index after the first `i` calls of a block, then after all
/// calls the mode remembers the same index, or is `FullCore`.
pub proof fn lemma_first_transaction_index_is_kept<S>(
    extension: DynamicMaxBlockWeight<S>,
    cfg: Config,
    mode: Option<BlockWeightMode>,
    calls: Seq<HookCall>,
    i: int,
)
    requires
        0 <= i <= calls.len(),
    ensures
        keeps_first_transaction_index(
            mode_after(extension, cfg, mode, calls.take(i)),
            mode_after(extension, cfg, mode, calls),
        ),
    decreases calls.len(),
{
    if i == calls.len() {
        assert(calls.take(i) =~= calls);
    } else {
        assert(calls.drop_last().take(i) =~= calls.take(i));
        lemma_first_transaction_index_is_kept(extension, cfg, mode, calls.drop_last(), i);
    }
}

/// The target weight of a block depends on its digest through the first
/// core info alone: digests with the same first core info give the same
/// target weight for the same number of target blocks.
pub proof fn lemma_target_block_weight_is_a_function(
    first: Seq<DigestItem>,
    second: Seq<DigestItem>,
    target_blocks: u32,
)
    requires
        first_core_info(first) == first_core_info(second),
    ensures
        target_block_weight_of(first, target_blocks) == target_block_weight_of(
            second,
            target_blocks,
        ),
{
}

/// The claim of the full core changes nothing that the hooks read from the
/// digest: after it is deposited, the target weight of the block and its
/// place on the core are as before.
pub proof fn lemma_claim_leaves_the_digest_readings(logs: Seq<DigestItem>, target_blocks: u32)
    ensures
        target_block_weight_of(logs.push(use_full_core_item()), target_blocks)
            == target_block_weight_of(logs, target_blocks),
        first_block_in_core(logs.push(use_full_core_item())) == first_block_in_core(logs),
{
    lemma_first_core_info_push(logs, use_full_core_item());
    lemma_first_bundle_info_push(logs, use_full_core_item());
}

/// No block gets more than one core: the target weight never exceeds the
/// weight of a full core.
pub proof fn lemma_target_weight_within_full_core(core_info: Option<CoreInfo>, target_blocks: u32)
    ensures
        target_weight_for(core_info, target_blocks).all_lte(full_core_weight()),
{
    if let Some(info) = core_info {
        if info.number_of_cores != 0 && target_blocks != 0 {
            let cores = info.number_of_cores as int;
            let blocks = target_blocks as int;
            assert(0 <= (cores * 10_485_760) / blocks) by (nonlinear_arith)
                requires
                    cores > 0,
                    blocks > 0,
            ;
            assert(0 <= 6_000_000_000_000int / blocks) by (nonlinear_arith)
                requires
                    blocks > 0,
            ;
            assert(0 <= (cores * 2 * 1_000_000_000_000) / blocks) by (nonlinear_arith)
                requires
                    cores > 0,
                    blocks > 0,
            ;
        }
    }
}

/// An extrinsic that announces no more than the limit of its class is
/// never refused and never sets `PotentialFullCore`.
pub proof fn lemma_within_target_is_accepted<S>(
    extension: DynamicMaxBlockWeight<S>,
    cfg: Config,
    system: System,
    mode: Option<BlockWeightMode>,
    info: DispatchInfo,
    len: usize,
)
    requires
        announced_weight(info, len).all_lte(
            class_target_weight(
                cfg.block_weights,
                info.class,
                target_block_weight_of(system.digest@, cfg.target_block_rate),
            ),
        ),
    ensures
        extension.pre_validate_transition_of(cfg, system, mode, info, len) is Ok,
        !(extension.pre_validate_transition_of(cfg, system, mode, info, len).unwrap().mode
            matches Some(BlockWeightMode::PotentialFullCore { .. })),
{
}

/// The weight given back after a dispatch is never more than the weight
/// that was charged for the extension.
pub proof fn lemma_refund_within_charge(
    cfg: Config,
    system: System,
    mode: Option<BlockWeightMode>,
    info: DispatchInfo,
)
    ensures
        post_dispatch_transition_of(cfg, system, mode, info).1.all_lte(
            cfg.weight_info.block_weight_tx_extension_max_weight,
        ),
{
}

/// A block that is not the first on its core and that a hook moves into
/// `FullCore` gets the weight of a full core registered in the same call.
/// The step out of `PotentialFullCore` after a dispatch is left out: that
/// mode is only ever set on the first block of a core.
pub proof fn lemma_full_core_outside_first_block_is_charged<S>(
    extension: DynamicMaxBlockWeight<S>,
    cfg: Config,
    mode: Option<BlockWeightMode>,
    call: HookCall,
)
    requires
        !(call.hook is PostDispatch && mode matches Some(
            BlockWeightMode::PotentialFullCore { .. },
        )),
        !first_block_in_core(call.system.digest@),
        mode != Some(BlockWeightMode::FullCore),
        transition_of(extension, cfg, mode, call).mode == Some(BlockWeightMode::FullCore),
    ensures
        transition_of(extension, cfg, mode, call).register_full_core_weight,
        transition_of(extension, cfg, mode, call).deposit_use_full_core,
{
}

/// `PotentialFullCore` is only ever set on the first block of a core.
pub proof fn lemma_potential_full_core_only_on_first_block<S>(
    extension: DynamicMaxBlockWeight<S>,
    cfg: Config,
    system: System,
    mode: Option<BlockWeightMode>,
    info: DispatchInfo,
    len: usize,
)
    requires
        extension.pre_validate_transition_of(cfg, system, mode, info, len) matches Ok(transition)
            && transition.mode matches Some(BlockWeightMode::PotentialFullCore { .. }),
    ensures
        first_block_in_core(system.digest@),
{
}

} // verus!
