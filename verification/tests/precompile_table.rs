use zkos_hooks::deployer::CONTRACT_DEPLOYER_ADDRESS;
use zkos_hooks::l1_messenger::L1_MESSENGER_ADDRESS;
use zkos_hooks::l2_base_token::L2_BASE_TOKEN_ADDRESS;
use zkos_hooks::precompiles::{
    default_spec, maybe_call_custom_precompile, precompiles_for_spec,
    set_spec_changes, u64_to_address, warm_addresses, CustomPrecompile, EthPrecompile, ZkSpecId,
};
use zkos_hooks::transaction::{
    L1ToL2TransactionParts, L1_PRIORITY_TRANSACTION_TYPE, UPGRADE_TRANSACTION_TYPE,
};

#[test]
fn dispatch_by_version_and_address() {
    let other = u64_to_address(1);
    assert_eq!(
        maybe_call_custom_precompile(ZkSpecId::AtlasV1, &CONTRACT_DEPLOYER_ADDRESS, &CONTRACT_DEPLOYER_ADDRESS),
        Some((CustomPrecompile::DeployerV1, false))
    );
    assert_eq!(
        maybe_call_custom_precompile(ZkSpecId::AtlasV2, &L1_MESSENGER_ADDRESS, &other),
        Some((CustomPrecompile::L1MessengerV2, true))
    );
    assert_eq!(
        maybe_call_custom_precompile(ZkSpecId::AtlasV2, &L2_BASE_TOKEN_ADDRESS, &L2_BASE_TOKEN_ADDRESS),
        Some((CustomPrecompile::L2BaseTokenV2, false))
    );
    assert_eq!(maybe_call_custom_precompile(ZkSpecId::AtlasV2, &other, &other), None);
    assert!(set_spec_changes(ZkSpecId::AtlasV1, ZkSpecId::AtlasV2));
    assert!(!set_spec_changes(ZkSpecId::AtlasV2, ZkSpecId::AtlasV2));
    assert_eq!(default_spec(), ZkSpecId::AtlasV2);
}

#[test]
fn warm_addresses_drop_p256_and_add_blake2_and_kzg() {
    let p256 = u64_to_address(256);
    assert_eq!(p256[18], 1);
    assert_eq!(p256[19], 0);
    let inner = vec![u64_to_address(1), p256, u64_to_address(2)];
    let warm = warm_addresses(&inner);
    assert_eq!(
        warm,
        vec![u64_to_address(1), u64_to_address(2), u64_to_address(9), u64_to_address(10)]
    );
    assert_eq!(u64_to_address(0x0102030405060708)[12..], [1, 2, 3, 4, 5, 6, 7, 8]);
}

#[test]
fn precompile_set_without_blake2_and_point_evaluation() {
    let set = precompiles_for_spec(ZkSpecId::AtlasV1);
    assert_eq!(set.len(), 9);
    assert_eq!(set[0], EthPrecompile::Ecrecover);
    assert_eq!(set[8], EthPrecompile::P256VerifyOsaka);
    assert_eq!(precompiles_for_spec(ZkSpecId::AtlasV2), set);
}

#[test]
fn transaction_parts_default() {
    let p = L1ToL2TransactionParts::default();
    assert!(p.mint.is_none());
    assert!(p.refund_recipient.is_none());
    assert_eq!(p.tx_hash, [0u8; 32]);
    assert_eq!(UPGRADE_TRANSACTION_TYPE, 0x7e);
    assert_eq!(L1_PRIORITY_TRANSACTION_TYPE, 0x7f);
}
