use parachain_blocks::block_weight::pre_inherents_hook::DynamicMaxBlockWeightHooks;
use parachain_blocks::block_weight::transaction_extension::DynamicMaxBlockWeight;
use parachain_blocks::block_weight::{
    block_weight_over_target_block_weight, is_first_block_in_core, BlockWeightMode, Config,
    MaxParachainBlockWeight, ModeTransition, WeightInfo,
};
use parachain_blocks::digest::{BundleInfo, CoreInfo, CumulusDigestItem, Digest, DigestItem};
use parachain_blocks::dispatch::{
    BlockWeights, ConsumedWeight, DispatchClass, DispatchInfo, InvalidTransaction,
    TransactionValidityError, WeightsPerClass,
};
use parachain_blocks::system::System;
use parachain_blocks::weight::{Weight, MAX_POV_SIZE, WEIGHT_REF_TIME_PER_SECOND};

const SECOND: u64 = 1_000_000_000_000;

fn system_with_cores(num_cores: Option<u16>) -> System {
    let mut system = System::new(Digest::new());
    if let Some(number_of_cores) = num_cores {
        system.deposit_log(
            CumulusDigestItem::CoreInfo(CoreInfo {
                selector: 0,
                claim_queue_offset: 0,
                number_of_cores,
            })
            .to_digest_item(),
        );
    }
    system
}

/// One core, the block at place `index` on it, inherents applied.
fn transaction_phase(index: u32, extrinsic_index: u32) -> System {
    let mut system = system_with_cores(Some(1));
    system.deposit_log(CumulusDigestItem::BundleInfo(BundleInfo { index }).to_digest_item());
    system.inherents_applied = true;
    system.extrinsic_index = Some(extrinsic_index);
    system
}

fn no_class_limit() -> WeightsPerClass {
    WeightsPerClass { max_total: None }
}

fn config(target_block_rate: u32) -> Config {
    Config {
        block_weights: BlockWeights {
            base_block: Weight::zero(),
            normal: no_class_limit(),
            operational: no_class_limit(),
            mandatory: no_class_limit(),
        },
        weight_info: WeightInfo {
            block_weight_tx_extension_max_weight: Weight::from_parts(100, 10),
            block_weight_tx_extension_full_core: Weight::from_parts(30, 4),
            block_weight_tx_extension_stays_fraction_of_core: Weight::from_parts(60, 10),
        },
        target_block_rate,
    }
}

fn info(class: DispatchClass, ref_time: u64, proof_size: u64) -> DispatchInfo {
    DispatchInfo {
        call_weight: Weight::from_parts(ref_time, proof_size),
        extension_weight: Weight::zero(),
        class,
    }
}

fn refused() -> Result<(), TransactionValidityError> {
    Err(TransactionValidityError::Invalid(InvalidTransaction::ExhaustsResources))
}

const QUARTER: Weight = Weight { ref_time: SECOND / 2, proof_size: 2_621_440 };

#[test]
fn single_core_one_target_block() {
    let system = system_with_cores(Some(1));
    let weight = MaxParachainBlockWeight::get(&system, None, 1);
    assert_eq!(weight.ref_time(), 2 * WEIGHT_REF_TIME_PER_SECOND);
    assert_eq!(weight.proof_size(), MAX_POV_SIZE as u64);
}

#[test]
fn one_core_four_target_blocks() {
    let system = system_with_cores(Some(1));
    let weight = MaxParachainBlockWeight::get(&system, None, 4);
    assert_eq!(weight.ref_time(), 2 * WEIGHT_REF_TIME_PER_SECOND / 4);
    assert_eq!(weight.proof_size(), MAX_POV_SIZE as u64 / 4);
    assert_eq!(weight, Weight::from_parts(500_000_000_000, 2_621_440));
}

#[test]
fn three_cores_one_target_block() {
    let system = system_with_cores(Some(3));
    let weight = MaxParachainBlockWeight::get(&system, None, 1);
    // All three cores give six seconds, and one block gets one core at most.
    assert_eq!(weight.ref_time(), 2 * WEIGHT_REF_TIME_PER_SECOND);
    assert_eq!(weight.proof_size(), MAX_POV_SIZE as u64);
}

#[test]
fn two_cores_four_target_blocks() {
    let system = system_with_cores(Some(2));
    let weight = MaxParachainBlockWeight::get(&system, None, 4);
    assert_eq!(weight.ref_time(), 4 * WEIGHT_REF_TIME_PER_SECOND / 4);
    assert_eq!(weight.ref_time(), SECOND);
    assert_eq!(weight.proof_size(), 2 * MAX_POV_SIZE as u64 / 4);
}

#[test]
fn missing_core_info_gives_full_core() {
    let system = system_with_cores(None);
    for target_blocks in [0, 1, 4, 1000, u32::MAX] {
        let weight = MaxParachainBlockWeight::get(&system, None, target_blocks);
        assert_eq!(weight, Weight::from_parts(2 * SECOND, 10_485_760));
        assert_eq!(weight, MaxParachainBlockWeight::full_core_weight());
    }
}

#[test]
fn zero_cores_or_zero_target_blocks_give_full_core() {
    let full = MaxParachainBlockWeight::full_core_weight();
    assert_eq!(MaxParachainBlockWeight::get(&system_with_cores(Some(0)), None, 4), full);
    assert_eq!(MaxParachainBlockWeight::get(&system_with_cores(Some(2)), None, 0), full);
}

#[test]
fn all_cores_together_give_six_seconds_at_most() {
    // Twelve cores would give 24 s; six are shared out among four blocks.
    let system = system_with_cores(Some(12));
    let weight = MaxParachainBlockWeight::target_block_weight(&system, 4);
    assert_eq!(weight, Weight::from_parts(1_500_000_000_000, 10_485_760));
    // Among 24 blocks: a quarter of a second and half a core of proof.
    let weight = MaxParachainBlockWeight::target_block_weight(&system, 24);
    assert_eq!(weight, Weight::from_parts(250_000_000_000, 5_242_880));
    // The largest number of cores and of blocks there is.
    let weight = MaxParachainBlockWeight::target_block_weight(&system_with_cores(Some(u16::MAX)), u32::MAX);
    assert_eq!(weight, Weight::from_parts(1396, 159));
}

#[test]
fn target_depends_on_the_first_core_info_only() {
    let mut first = system_with_cores(Some(2));
    first.deposit_log(DigestItem::Other);
    first.deposit_log(
        CumulusDigestItem::CoreInfo(CoreInfo {
            selector: 1,
            claim_queue_offset: 1,
            number_of_cores: 9,
        })
        .to_digest_item(),
    );
    let mut second = System::new(Digest::new());
    second.deposit_log(DigestItem::Other);
    second.deposit_log(
        CumulusDigestItem::CoreInfo(CoreInfo {
            selector: 7,
            claim_queue_offset: 3,
            number_of_cores: 2,
        })
        .to_digest_item(),
    );
    for target_blocks in [1, 3, 4, 12] {
        assert_eq!(
            MaxParachainBlockWeight::target_block_weight(&first, target_blocks),
            MaxParachainBlockWeight::target_block_weight(&first, target_blocks)
        );
        assert_eq!(
            MaxParachainBlockWeight::target_block_weight(&first, target_blocks),
            MaxParachainBlockWeight::target_block_weight_with_digest(&second.digest, target_blocks)
        );
    }
}

#[test]
fn first_block_in_core_needs_bundle_index_zero() {
    assert!(!is_first_block_in_core(&system_with_cores(Some(1))));
    assert!(is_first_block_in_core(&transaction_phase(0, 0)));
    assert!(!is_first_block_in_core(&transaction_phase(1, 0)));
    let mut system = transaction_phase(2, 0);
    system.deposit_log(CumulusDigestItem::BundleInfo(BundleInfo { index: 0 }).to_digest_item());
    assert!(!is_first_block_in_core(&system));
}

#[test]
fn get_follows_the_mode_once_inherents_are_applied() {
    let full = MaxParachainBlockWeight::full_core_weight();
    let fraction = Some(BlockWeightMode::FractionOfCore { first_transaction_index: None });
    let potential = Some(BlockWeightMode::PotentialFullCore {
        first_transaction_index: None,
        target_weight: QUARTER,
    });

    // While inherents are applied the place on the core decides.
    let mut first = transaction_phase(0, 0);
    first.inherents_applied = false;
    assert_eq!(MaxParachainBlockWeight::get(&first, fraction, 4), full);
    let mut later = transaction_phase(1, 0);
    later.inherents_applied = false;
    assert_eq!(MaxParachainBlockWeight::get(&later, Some(BlockWeightMode::FullCore), 4), QUARTER);

    let first = transaction_phase(0, 0);
    let later = transaction_phase(1, 0);
    assert_eq!(MaxParachainBlockWeight::get(&later, Some(BlockWeightMode::FullCore), 4), full);
    assert_eq!(MaxParachainBlockWeight::get(&later, potential, 4), full);
    assert_eq!(MaxParachainBlockWeight::get(&first, fraction, 4), QUARTER);
    assert_eq!(MaxParachainBlockWeight::get(&first, None, 4), full);
    assert_eq!(MaxParachainBlockWeight::get(&later, None, 4), QUARTER);
}

#[test]
fn announced_over_budget_on_first_block_within_window() {
    let extension = DynamicMaxBlockWeight::new(());
    let cfg = config(4);
    let mut system = transaction_phase(0, 1);
    let mut mode = None;
    let call = info(DispatchClass::Normal, SECOND, 0);

    assert_eq!(extension.pre_validate_extrinsic(&cfg, &mut system, &mut mode, &call, 100), Ok(()));
    assert_eq!(
        mode,
        Some(BlockWeightMode::PotentialFullCore {
            first_transaction_index: Some(1),
            target_weight: QUARTER,
        })
    );
    assert_eq!(system.digest.count_use_full_core(), 0);

    // The extrinsic used what it announced.
    system.block_weight.normal = Weight::from_parts(SECOND, 100);
    let refund =
        DynamicMaxBlockWeight::<()>::post_dispatch_extrinsic(&cfg, &mut system, &mut mode, &call);
    assert_eq!(mode, Some(BlockWeightMode::FullCore));
    assert_eq!(system.digest.count_use_full_core(), 1);
    assert_eq!(system.digest.logs().last(), Some(&CumulusDigestItem::UseFullCore.to_digest_item()));
    assert_eq!(refund, Weight::zero());
    assert_eq!(system.block_weight.mandatory, Weight::zero());
}

#[test]
fn potential_full_core_falls_back_when_the_extrinsic_stays_small() {
    let extension = DynamicMaxBlockWeight::new(());
    let cfg = config(4);
    let mut system = transaction_phase(0, 3);
    let mut mode = Some(BlockWeightMode::FractionOfCore { first_transaction_index: Some(2) });
    let call = info(DispatchClass::Normal, 0, 2_621_341);

    // The length pushes the proof size over the target by one byte.
    assert_eq!(extension.pre_validate_extrinsic(&cfg, &mut system, &mut mode, &call, 100), Ok(()));
    assert_eq!(
        mode,
        Some(BlockWeightMode::PotentialFullCore {
            first_transaction_index: Some(2),
            target_weight: QUARTER,
        })
    );

    system.block_weight.normal = QUARTER;
    let refund =
        DynamicMaxBlockWeight::<()>::post_dispatch_extrinsic(&cfg, &mut system, &mut mode, &call);
    assert_eq!(mode, Some(BlockWeightMode::FractionOfCore { first_transaction_index: Some(2) }));
    assert_eq!(refund, Weight::zero());
    assert_eq!(system.digest.count_use_full_core(), 0);
}

#[test]
fn announced_over_budget_not_on_first_block() {
    let extension = DynamicMaxBlockWeight::new(());
    let cfg = config(4);
    let call = info(DispatchClass::Normal, SECOND, 0);

    let mut system = transaction_phase(1, 1);
    let logs_before = system.digest.logs().clone();
    let mut mode = None;
    assert_eq!(extension.pre_validate_extrinsic(&cfg, &mut system, &mut mode, &call, 100), refused());
    assert_eq!(mode, None);
    assert_eq!(system.digest.logs(), &logs_before);
    assert_eq!(system.block_weight, ConsumedWeight::new());

    let before = Some(BlockWeightMode::FractionOfCore { first_transaction_index: Some(0) });
    let mut mode = before;
    assert_eq!(extension.pre_validate_extrinsic(&cfg, &mut system, &mut mode, &call, 100), refused());
    assert_eq!(mode, before);
}

#[test]
fn announced_over_budget_outside_of_the_window() {
    let extension = DynamicMaxBlockWeight::new(());
    assert_eq!(extension.max_transaction_to_consider, 10);
    assert!(!extension.only_operational);
    let cfg = config(4);
    let call = info(DispatchClass::Normal, SECOND, 0);
    let before = Some(BlockWeightMode::FractionOfCore { first_transaction_index: Some(2) });

    let mut system = transaction_phase(0, 12);
    let mut mode = before;
    assert_eq!(extension.pre_validate_extrinsic(&cfg, &mut system, &mut mode, &call, 0), refused());
    assert_eq!(mode, before);

    let mut system = transaction_phase(0, 11);
    assert_eq!(extension.pre_validate_extrinsic(&cfg, &mut system, &mut mode, &call, 0), Ok(()));
    assert_eq!(
        mode,
        Some(BlockWeightMode::PotentialFullCore {
            first_transaction_index: Some(2),
            target_weight: QUARTER,
        })
    );

    // A smaller window.
    let narrow = DynamicMaxBlockWeight { inner: (), max_transaction_to_consider: 1, only_operational: false };
    let mut system = transaction_phase(0, 3);
    let mut mode = before;
    assert_eq!(narrow.pre_validate_extrinsic(&cfg, &mut system, &mut mode, &call, 0), refused());
    let mut system = transaction_phase(0, 2);
    assert_eq!(narrow.pre_validate_extrinsic(&cfg, &mut system, &mut mode, &call, 0), Ok(()));
}

#[test]
fn only_operational_refuses_other_classes() {
    let extension =
        DynamicMaxBlockWeight { inner: (), max_transaction_to_consider: 10, only_operational: true };
    let cfg = config(4);

    let mut system = transaction_phase(0, 1);
    let mut mode = None;
    let normal = info(DispatchClass::Normal, SECOND, 0);
    assert_eq!(extension.pre_validate_extrinsic(&cfg, &mut system, &mut mode, &normal, 0), refused());
    assert_eq!(mode, None);
    let mandatory = info(DispatchClass::Mandatory, SECOND, 0);
    assert_eq!(
        extension.pre_validate_extrinsic(&cfg, &mut system, &mut mode, &mandatory, 0),
        refused()
    );

    let operational = info(DispatchClass::Operational, SECOND, 0);
    assert_eq!(
        extension.pre_validate_extrinsic(&cfg, &mut system, &mut mode, &operational, 0),
        Ok(())
    );
    assert_eq!(
        mode,
        Some(BlockWeightMode::PotentialFullCore {
            first_transaction_index: Some(1),
            target_weight: QUARTER,
        })
    );
}

#[test]
fn announced_within_target_is_never_refused() {
    let cfg = config(4);
    for index in [0u32, 1, 5] {
        for extrinsic_index in [0u32, 1, 50] {
            for only_operational in [false, true] {
                let extension = DynamicMaxBlockWeight {
                    inner: (),
                    max_transaction_to_consider: 0,
                    only_operational,
                };
                let mut system = transaction_phase(index, extrinsic_index);
                let mut mode = None;
                // Exactly the target, length included.
                let call = info(DispatchClass::Normal, SECOND / 2, 2_621_400);
                assert_eq!(
                    extension.pre_validate_extrinsic(&cfg, &mut system, &mut mode, &call, 40),
                    Ok(())
                );
                assert_eq!(
                    mode,
                    Some(BlockWeightMode::FractionOfCore {
                        first_transaction_index: Some(extrinsic_index)
                    })
                );
            }
        }
    }
}

#[test]
fn class_limit_takes_the_place_of_the_block_target() {
    let extension = DynamicMaxBlockWeight::new(());
    let mut cfg = config(4);
    cfg.block_weights.base_block = Weight::from_parts(100_000_000_000, 621_440);
    cfg.block_weights.operational = WeightsPerClass { max_total: Some(Weight::from_parts(SECOND, 5_000_000)) };

    // Normal: the block target less the base weight.
    let mut system = transaction_phase(0, 1);
    let mut mode = None;
    let call = info(DispatchClass::Normal, 400_000_000_001, 0);
    assert_eq!(extension.pre_validate_extrinsic(&cfg, &mut system, &mut mode, &call, 0), Ok(()));
    assert_eq!(
        mode,
        Some(BlockWeightMode::PotentialFullCore {
            first_transaction_index: Some(1),
            target_weight: Weight::from_parts(400_000_000_000, 2_000_000),
        })
    );
    let mut mode = None;
    let call = info(DispatchClass::Normal, 400_000_000_000, 2_000_000);
    assert_eq!(extension.pre_validate_extrinsic(&cfg, &mut system, &mut mode, &call, 0), Ok(()));
    assert_eq!(mode, Some(BlockWeightMode::FractionOfCore { first_transaction_index: Some(1) }));

    // Operational: the limit of the class.
    let mut mode = None;
    let call = info(DispatchClass::Operational, SECOND, 5_000_000);
    assert_eq!(extension.pre_validate_extrinsic(&cfg, &mut system, &mut mode, &call, 0), Ok(()));
    assert_eq!(mode, Some(BlockWeightMode::FractionOfCore { first_transaction_index: Some(1) }));
    let mut mode = None;
    assert_eq!(extension.pre_validate_extrinsic(&cfg, &mut system, &mut mode, &call, 1), Ok(()));
    assert_eq!(
        mode,
        Some(BlockWeightMode::PotentialFullCore {
            first_transaction_index: Some(1),
            target_weight: Weight::from_parts(SECOND, 5_000_000),
        })
    );

    // A base weight above the block target leaves nothing.
    cfg.block_weights.base_block = Weight::from_parts(3 * SECOND, 0);
    let mut mode = None;
    let call = info(DispatchClass::Normal, 1, 0);
    assert_eq!(extension.pre_validate_extrinsic(&cfg, &mut system, &mut mode, &call, 0), Ok(()));
    assert_eq!(
        mode,
        Some(BlockWeightMode::PotentialFullCore {
            first_transaction_index: Some(1),
            target_weight: Weight::from_parts(0, 2_621_440),
        })
    );
}

#[test]
fn inherent_overrun() {
    let cfg = config(4);
    let extension = DynamicMaxBlockWeight::new(());
    let mut system = system_with_cores(Some(1));
    system.deposit_log(CumulusDigestItem::BundleInfo(BundleInfo { index: 0 }).to_digest_item());
    system.block_weight.mandatory = Weight::from_parts(SECOND, 0);
    assert!(block_weight_over_target_block_weight(&system, 4));

    let mut mode = None;
    assert!(DynamicMaxBlockWeightHooks::pre_inherents(&mut system, &mut mode, 4));
    assert_eq!(mode, Some(BlockWeightMode::FullCore));
    assert_eq!(system.digest.count_use_full_core(), 1);
    assert_eq!(system.block_weight.mandatory, Weight::from_parts(SECOND, 0));

    // The first extrinsic finds `FullCore` and changes nothing.
    system.extrinsic_index = Some(0);
    let logs_before = system.digest.logs().clone();
    let call = info(DispatchClass::Mandatory, 3 * SECOND, 0);
    assert_eq!(extension.pre_validate_extrinsic(&cfg, &mut system, &mut mode, &call, 100), Ok(()));
    assert_eq!(mode, Some(BlockWeightMode::FullCore));
    assert_eq!(system.digest.logs(), &logs_before);
    assert_eq!(system.digest.count_use_full_core(), 1);
}

#[test]
fn pre_inherents_leaves_a_block_within_target_alone() {
    let mut system = system_with_cores(Some(1));
    system.block_weight.mandatory = QUARTER;
    let mut mode = None;
    assert!(!DynamicMaxBlockWeightHooks::pre_inherents(&mut system, &mut mode, 4));
    assert_eq!(mode, None);
    assert_eq!(system.digest.count_use_full_core(), 0);
    assert_eq!(
        DynamicMaxBlockWeightHooks::pre_inherents_transition(&system, None, 4),
        ModeTransition { mode: None, deposit_use_full_core: false, register_full_core_weight: false }
    );
}

#[test]
fn overrun_seen_by_the_first_extrinsic() {
    let cfg = config(4);
    let extension = DynamicMaxBlockWeight::new(());
    let full = MaxParachainBlockWeight::full_core_weight();
    let call = info(DispatchClass::Mandatory, 1, 1);

    // First block on the core: the claim is all.
    let mut system = system_with_cores(Some(1));
    system.deposit_log(CumulusDigestItem::BundleInfo(BundleInfo { index: 0 }).to_digest_item());
    system.block_weight.mandatory = Weight::from_parts(SECOND, 0);
    let mut mode = None;
    assert_eq!(extension.pre_validate_extrinsic(&cfg, &mut system, &mut mode, &call, 0), Ok(()));
    assert_eq!(mode, Some(BlockWeightMode::FullCore));
    assert_eq!(system.digest.count_use_full_core(), 1);
    assert_eq!(system.block_weight.mandatory, Weight::from_parts(SECOND, 0));

    // Any other block is filled up as well.
    let mut system = system_with_cores(Some(1));
    system.deposit_log(CumulusDigestItem::BundleInfo(BundleInfo { index: 1 }).to_digest_item());
    system.block_weight.mandatory = Weight::from_parts(SECOND, 0);
    let mut mode = None;
    assert_eq!(extension.pre_validate_extrinsic(&cfg, &mut system, &mut mode, &call, 0), Ok(()));
    assert_eq!(mode, Some(BlockWeightMode::FullCore));
    assert_eq!(system.digest.count_use_full_core(), 1);
    assert_eq!(
        system.block_weight.mandatory,
        Weight::from_parts(SECOND + full.ref_time(), full.proof_size())
    );

    // A later extrinsic does not look at the consumption before its dispatch.
    let mut system = transaction_phase(1, 1);
    system.block_weight.mandatory = Weight::from_parts(SECOND, 0);
    let mut mode = None;
    assert_eq!(extension.pre_validate_extrinsic(&cfg, &mut system, &mut mode, &call, 0), Ok(()));
    assert_eq!(mode, Some(BlockWeightMode::FractionOfCore { first_transaction_index: Some(1) }));
}

#[test]
fn observed_over_budget_escalates_to_full_core() {
    let cfg = config(4);
    let call = info(DispatchClass::Normal, 1, 1);
    let full = MaxParachainBlockWeight::full_core_weight();
    let fraction = Some(BlockWeightMode::FractionOfCore { first_transaction_index: Some(1) });

    // Within the target nothing changes.
    let mut system = transaction_phase(1, 1);
    system.block_weight.normal = QUARTER;
    let mut mode = fraction;
    let refund =
        DynamicMaxBlockWeight::<()>::post_dispatch_extrinsic(&cfg, &mut system, &mut mode, &call);
    assert_eq!(mode, fraction);
    assert_eq!(refund, Weight::from_parts(40, 0));
    assert_eq!(system.digest.count_use_full_core(), 0);

    // Over the target on a later block of the core.
    system.block_weight.operational = Weight::from_parts(1, 0);
    let refund =
        DynamicMaxBlockWeight::<()>::post_dispatch_extrinsic(&cfg, &mut system, &mut mode, &call);
    assert_eq!(mode, Some(BlockWeightMode::FullCore));
    assert_eq!(refund, Weight::from_parts(40, 0));
    assert_eq!(system.digest.count_use_full_core(), 1);
    assert_eq!(system.block_weight.mandatory, full);

    // Over the target on the first block of the core.
    let mut system = transaction_phase(0, 1);
    system.block_weight.normal = Weight::from_parts(SECOND, 0);
    let mut mode = fraction;
    let refund =
        DynamicMaxBlockWeight::<()>::post_dispatch_extrinsic(&cfg, &mut system, &mut mode, &call);
    assert_eq!(mode, Some(BlockWeightMode::FullCore));
    assert_eq!(refund, Weight::from_parts(40, 0));
    assert_eq!(system.digest.count_use_full_core(), 1);
    assert_eq!(system.block_weight.mandatory, Weight::zero());
}

#[test]
fn full_core_is_never_left_and_claimed_once() {
    let cfg = config(4);
    let extension = DynamicMaxBlockWeight::new(());
    let mut system = transaction_phase(0, 1);
    let mut mode = None;
    let big = info(DispatchClass::Normal, SECOND, 0);
    let small = info(DispatchClass::Normal, 1, 1);

    assert_eq!(extension.pre_validate_extrinsic(&cfg, &mut system, &mut mode, &big, 0), Ok(()));
    system.block_weight.normal = Weight::from_parts(SECOND, 0);
    DynamicMaxBlockWeight::<()>::post_dispatch_extrinsic(&cfg, &mut system, &mut mode, &big);
    assert_eq!(mode, Some(BlockWeightMode::FullCore));

    for extrinsic_index in 2..20 {
        system.extrinsic_index = Some(extrinsic_index);
        for call in [&big, &small] {
            assert_eq!(extension.pre_validate_extrinsic(&cfg, &mut system, &mut mode, call, 5), Ok(()));
            assert_eq!(mode, Some(BlockWeightMode::FullCore));
            let refund = DynamicMaxBlockWeight::<()>::post_dispatch_extrinsic(
                &cfg,
                &mut system,
                &mut mode,
                call,
            );
            assert_eq!(refund, Weight::from_parts(70, 6));
            assert_eq!(mode, Some(BlockWeightMode::FullCore));
        }
    }
    DynamicMaxBlockWeightHooks::pre_inherents_transition(&system, mode, 4);
    assert_eq!(system.digest.count_use_full_core(), 1);
    assert_eq!(system.block_weight.mandatory, Weight::zero());
}

#[test]
fn first_transaction_index_is_set_once() {
    let cfg = config(4);
    let extension = DynamicMaxBlockWeight::new(());
    let small = info(DispatchClass::Normal, 1, 1);
    let mut system = system_with_cores(Some(1));
    system.deposit_log(CumulusDigestItem::BundleInfo(BundleInfo { index: 0 }).to_digest_item());
    let mut mode = None;

    // Two inherents.
    for extrinsic_index in 0..2 {
        system.extrinsic_index = Some(extrinsic_index);
        assert_eq!(extension.pre_validate_extrinsic(&cfg, &mut system, &mut mode, &small, 5), Ok(()));
        assert_eq!(mode, Some(BlockWeightMode::FractionOfCore { first_transaction_index: None }));
        DynamicMaxBlockWeight::<()>::post_dispatch_extrinsic(&cfg, &mut system, &mut mode, &small);
    }
    // Transactions.
    system.inherents_applied = true;
    for extrinsic_index in 2..9 {
        system.extrinsic_index = Some(extrinsic_index);
        assert_eq!(extension.pre_validate_extrinsic(&cfg, &mut system, &mut mode, &small, 5), Ok(()));
        assert_eq!(mode, Some(BlockWeightMode::FractionOfCore { first_transaction_index: Some(2) }));
        DynamicMaxBlockWeight::<()>::post_dispatch_extrinsic(&cfg, &mut system, &mut mode, &small);
        assert_eq!(mode, Some(BlockWeightMode::FractionOfCore { first_transaction_index: Some(2) }));
    }
}

#[test]
fn refund_is_what_the_taken_path_did_not_use() {
    let mut cfg = config(4);
    let call = info(DispatchClass::Normal, 1, 1);
    let mut system = transaction_phase(0, 1);

    let mut mode = None;
    assert_eq!(
        DynamicMaxBlockWeight::<()>::post_dispatch_extrinsic(&cfg, &mut system, &mut mode, &call),
        Weight::zero()
    );
    assert_eq!(mode, None);

    let mut mode = Some(BlockWeightMode::FullCore);
    assert_eq!(
        DynamicMaxBlockWeight::<()>::post_dispatch_extrinsic(&cfg, &mut system, &mut mode, &call),
        Weight::from_parts(70, 6)
    );

    // A path that is measured above the charge gives nothing back.
    cfg.weight_info.block_weight_tx_extension_full_core = Weight::from_parts(101, 4);
    assert_eq!(
        DynamicMaxBlockWeight::<()>::post_dispatch_extrinsic(&cfg, &mut system, &mut mode, &call),
        Weight::from_parts(0, 6)
    );
    assert_eq!(DynamicMaxBlockWeight::new(()).weight(&cfg), Weight::from_parts(100, 10));
}

#[test]
fn post_dispatch_details_adds_to_the_refund_of_the_inner_extensions() {
    let cfg = config(4);
    let call = info(DispatchClass::Normal, 1, 1);
    let mut system = transaction_phase(0, 1);
    let potential = Some(BlockWeightMode::PotentialFullCore {
        first_transaction_index: Some(1),
        target_weight: QUARTER,
    });

    let mut mode = potential;
    let failed: Result<Weight, u8> = Err(3);
    assert_eq!(
        DynamicMaxBlockWeight::<()>::post_dispatch_details(&cfg, &mut system, &mut mode, &call, failed),
        Err(3)
    );
    assert_eq!(mode, potential);

    let inner: Result<Weight, u8> = Ok(Weight::from_parts(u64::MAX - 10, 5));
    let mut mode = Some(BlockWeightMode::FullCore);
    assert_eq!(
        DynamicMaxBlockWeight::<()>::post_dispatch_details(&cfg, &mut system, &mut mode, &call, inner),
        Ok(Weight::from_parts(u64::MAX, 11))
    );

    let mut mode = potential;
    let failed: Result<(), u8> = Err(4);
    assert_eq!(
        DynamicMaxBlockWeight::<()>::bare_post_dispatch(&cfg, &mut system, &mut mode, &call, failed),
        Err(4)
    );
    assert_eq!(mode, potential);
    let inner: Result<(), u8> = Ok(());
    assert_eq!(
        DynamicMaxBlockWeight::<()>::bare_post_dispatch(&cfg, &mut system, &mut mode, &call, inner),
        Ok(())
    );
    assert_eq!(mode, Some(BlockWeightMode::FractionOfCore { first_transaction_index: Some(1) }));
}

#[test]
fn transitions_say_what_the_host_is_to_do() {
    let cfg = config(4);
    let extension = DynamicMaxBlockWeight::new(());
    let call = info(DispatchClass::Mandatory, 1, 1);
    let mut system = system_with_cores(Some(1));
    system.block_weight.mandatory = Weight::from_parts(SECOND, 0);

    // No bundle info: not the first block on the core.
    assert_eq!(
        extension.pre_validate_transition(&cfg, &system, None, &call, 0),
        Ok(ModeTransition {
            mode: Some(BlockWeightMode::FullCore),
            deposit_use_full_core: true,
            register_full_core_weight: true,
        })
    );
    assert_eq!(
        extension.pre_validate_transition(&cfg, &system, None, &info(DispatchClass::Normal, 0, 0), usize::MAX),
        Ok(ModeTransition {
            mode: Some(BlockWeightMode::FullCore),
            deposit_use_full_core: true,
            register_full_core_weight: true,
        })
    );
    let fraction = Some(BlockWeightMode::FractionOfCore { first_transaction_index: None });
    assert_eq!(
        DynamicMaxBlockWeight::<()>::post_dispatch_transition(&cfg, &system, fraction, &call),
        (
            ModeTransition {
                mode: Some(BlockWeightMode::FullCore),
                deposit_use_full_core: true,
                register_full_core_weight: true,
            },
            Weight::from_parts(40, 0)
        )
    );
    assert_eq!(
        extension.pre_validate_transition(&cfg, &system, Some(BlockWeightMode::FullCore), &call, 0),
        Ok(ModeTransition {
            mode: Some(BlockWeightMode::FullCore),
            deposit_use_full_core: false,
            register_full_core_weight: false,
        })
    );
    system.extrinsic_index = Some(1);
    assert_eq!(
        extension.pre_validate_transition(&cfg, &system, None, &info(DispatchClass::Normal, SECOND, 0), 0),
        Err(InvalidTransaction::ExhaustsResources)
    );
}

#[test]
fn the_claim_changes_nothing_that_is_read_from_the_digest() {
    for index in [0u32, 1] {
        let mut system = transaction_phase(index, 1);
        let target = MaxParachainBlockWeight::target_block_weight(&system, 4);
        let first = is_first_block_in_core(&system);
        system.deposit_log(CumulusDigestItem::UseFullCore.to_digest_item());
        assert_eq!(MaxParachainBlockWeight::target_block_weight(&system, 4), target);
        assert_eq!(is_first_block_in_core(&system), first);
    }
}

#[test]
fn target_never_exceeds_the_full_core() {
    let full = MaxParachainBlockWeight::full_core_weight();
    for cores in [0u16, 1, 2, 3, 4, 100, u16::MAX] {
        for target_blocks in [0u32, 1, 2, 3, 7, 12, 1000, u32::MAX] {
            let system = system_with_cores(Some(cores));
            let target = MaxParachainBlockWeight::target_block_weight(&system, target_blocks);
            assert!(target.all_lte(full));
        }
    }
}

#[test]
fn inherent_overrun_outside_of_first_block_fills_the_block() {
    let full = MaxParachainBlockWeight::full_core_weight();
    let mut system = system_with_cores(Some(1));
    system.deposit_log(CumulusDigestItem::BundleInfo(BundleInfo { index: 1 }).to_digest_item());
    system.block_weight.mandatory = Weight::from_parts(3 * SECOND, 0);

    assert_eq!(
        DynamicMaxBlockWeightHooks::pre_inherents_transition(&system, None, 4),
        ModeTransition {
            mode: Some(BlockWeightMode::FullCore),
            deposit_use_full_core: true,
            register_full_core_weight: true,
        }
    );
    let mut mode = None;
    assert!(DynamicMaxBlockWeightHooks::pre_inherents(&mut system, &mut mode, 4));
    assert_eq!(mode, Some(BlockWeightMode::FullCore));
    assert_eq!(system.digest.count_use_full_core(), 1);
    assert_eq!(system.block_weight.mandatory, Weight::from_parts(5 * SECOND, full.proof_size()));
    assert_eq!(system.block_weight.normal, Weight::zero());

    // Without bundle info the block does not count as the first either.
    let mut system = system_with_cores(Some(1));
    system.block_weight.normal = Weight::from_parts(0, 2_621_441);
    let mut mode = None;
    assert!(DynamicMaxBlockWeightHooks::pre_inherents(&mut system, &mut mode, 4));
    assert_eq!(system.block_weight.mandatory, full);

    // The first block on the core is not charged.
    let mut system = system_with_cores(Some(1));
    system.deposit_log(CumulusDigestItem::BundleInfo(BundleInfo { index: 0 }).to_digest_item());
    system.block_weight.mandatory = Weight::from_parts(3 * SECOND, 0);
    assert_eq!(
        DynamicMaxBlockWeightHooks::pre_inherents_transition(&system, None, 4),
        ModeTransition {
            mode: Some(BlockWeightMode::FullCore),
            deposit_use_full_core: true,
            register_full_core_weight: false,
        }
    );
}

#[test]
fn overrun_is_held_against_the_limit_of_the_class() {
    let extension = DynamicMaxBlockWeight::new(());
    let full = MaxParachainBlockWeight::full_core_weight();
    let mut cfg = config(4);
    cfg.block_weights.normal = WeightsPerClass { max_total: Some(Weight::from_parts(100, 100)) };
    cfg.block_weights.operational =
        WeightsPerClass { max_total: Some(Weight::from_parts(3 * SECOND, 20_000_000)) };
    let call = info(DispatchClass::Normal, 200, 0);

    // Consumed above the limit of the class, within the target of the block; not the
    // first block on the core.
    let mut system = transaction_phase(1, 0);
    system.block_weight.normal = Weight::from_parts(101, 0);
    let mut mode = None;
    assert_eq!(extension.pre_validate_extrinsic(&cfg, &mut system, &mut mode, &call, 0), Ok(()));
    assert_eq!(mode, Some(BlockWeightMode::FullCore));
    assert_eq!(system.digest.count_use_full_core(), 1);
    assert_eq!(system.block_weight.mandatory, full);

    // Consumed exactly the limit: the announcement decides, and is refused.
    let mut system = transaction_phase(1, 0);
    system.block_weight.normal = Weight::from_parts(100, 100);
    let mut mode = None;
    assert_eq!(extension.pre_validate_extrinsic(&cfg, &mut system, &mut mode, &call, 0), refused());
    assert_eq!(mode, None);
    assert_eq!(system.digest.count_use_full_core(), 0);

    // With any later index the consumption is not looked at.
    let mut system = transaction_phase(1, 1);
    system.block_weight.normal = Weight::from_parts(101, 0);
    let mut mode = None;
    assert_eq!(extension.pre_validate_extrinsic(&cfg, &mut system, &mut mode, &call, 0), refused());

    // Consumed above the target of the block, within the limit of the class.
    let mut system = transaction_phase(1, 0);
    system.block_weight.normal = Weight::from_parts(SECOND, 0);
    let mut mode = None;
    let operational = info(DispatchClass::Operational, 1, 1);
    assert_eq!(
        extension.pre_validate_extrinsic(&cfg, &mut system, &mut mode, &operational, 0),
        Ok(())
    );
    assert_eq!(mode, Some(BlockWeightMode::FractionOfCore { first_transaction_index: Some(0) }));
    assert_eq!(system.digest.count_use_full_core(), 0);
    assert_eq!(system.block_weight.mandatory, Weight::zero());

    // The base weight of the block lowers a limit that comes from the block target.
    let mut cfg = config(4);
    cfg.block_weights.base_block = Weight::from_parts(SECOND / 4, 0);
    let mut system = transaction_phase(0, 0);
    system.block_weight.normal = Weight::from_parts(SECOND / 4 + 1, 0);
    let mut mode = None;
    assert_eq!(
        extension.pre_validate_transition(&cfg, &system, mode, &info(DispatchClass::Normal, 1, 1), 0),
        Ok(ModeTransition {
            mode: Some(BlockWeightMode::FullCore),
            deposit_use_full_core: true,
            register_full_core_weight: false,
        })
    );
    system.block_weight.normal = Weight::from_parts(SECOND / 4, 0);
    assert_eq!(
        extension.pre_validate_extrinsic(&cfg, &mut system, &mut mode, &info(DispatchClass::Normal, 1, 1), 0),
        Ok(())
    );
    assert_eq!(mode, Some(BlockWeightMode::FractionOfCore { first_transaction_index: Some(0) }));
}

#[test]
fn extension_from_inner_is_new() {
    let made = DynamicMaxBlockWeight::new(7u8);
    let converted: DynamicMaxBlockWeight<u8> = 7u8.into();
    assert_eq!(converted, made);
    assert_eq!(DynamicMaxBlockWeight::from(7u8), made);
    assert_eq!(made.inner, 7);
    assert_ne!(DynamicMaxBlockWeight::from(8u8), made);
    assert_ne!(
        DynamicMaxBlockWeight { inner: 7u8, max_transaction_to_consider: 9, only_operational: false },
        made
    );

    let default: DynamicMaxBlockWeight<u8> = Default::default();
    assert_eq!(default, DynamicMaxBlockWeight::new(0u8));
    assert_eq!(default.max_transaction_to_consider, 10);
    assert!(!default.only_operational);
    assert_eq!(default.clone(), default);
}
