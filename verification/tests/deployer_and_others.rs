use revm::primitives::U256;
use zkos_hooks::deployer::{
    deployer_begin, deployer_finish, CONTRACT_DEPLOYER_ADDRESS, L2_GENESIS_UPGRADE_ADDRESS,
    SET_EVM_BYTECODE_DETAILS,
};
use zkos_hooks::deployer_v1::{
    deployer_v1_begin, deployer_v1_set_finish, force_deploy_entries, force_deploy_placements,
    DeployerV1Step,
    FORCE_DEPLOY_ON_ADDRESSES,
};
use zkos_hooks::known_codes::known_codes_precompile_call;
use zkos_hooks::nonce_holder::{
    nonce_holder_begin, nonce_holder_finish, NonceHolderStep, GET_DEPLOYMENT_NONCE_SELECTOR,
    INCREMENT_DEPLOYMENT_NONCE_SELECTOR,
};
use zkos_hooks::outcome::CallStatus;
use zkos_hooks::request::CallRequest;
use zkos_hooks::gas::Gas;

fn word(x: u64) -> [u8; 32] {
    U256::from(x).to_be_bytes::<32>()
}

fn addr(last: u8) -> [u8; 20] {
    let mut a = [0u8; 20];
    a[19] = last;
    a
}

fn set_details_calldata(target: [u8; 20], hash: [u8; 32], length: u64) -> Vec<u8> {
    let mut cd = SET_EVM_BYTECODE_DETAILS.to_vec();
    cd.extend_from_slice(&[0u8; 12]);
    cd.extend_from_slice(&target);
    cd.extend_from_slice(&hash);
    cd.extend_from_slice(&word(length));
    cd.extend_from_slice(&[0u8; 32]);
    cd
}

fn request(calldata: Vec<u8>, caller: [u8; 20], gas_limit: u64) -> CallRequest {
    CallRequest { calldata, caller, value: [0u8; 32], gas_limit, is_static: false }
}

#[test]
fn deployer_places_prefix_of_bytecode() {
    let cd = set_details_calldata(addr(0x33), [7u8; 32], 3);
    let d = deployer_begin(&request(cd, L2_GENESIS_UPGRADE_ADDRESS, 10_000), false, 100)
        .ok()
        .unwrap();
    assert_eq!(d.gas.remaining, 9_900);
    assert_eq!(d.address, addr(0x33));
    assert_eq!(d.bytecode_hash, [7u8; 32]);
    assert_eq!(d.bytecode_length, 3);
    let (o, code) = deployer_finish(d, &[1, 2, 3, 4, 5], true);
    assert_eq!(o.status, CallStatus::Return);
    assert_eq!(o.gas.remaining, 9_900 - 2600);
    assert_eq!(code, Some(vec![1, 2, 3]));
    let cd = set_details_calldata(addr(0x33), [7u8; 32], 3);
    let d = deployer_begin(&request(cd, L2_GENESIS_UPGRADE_ADDRESS, 10_000), false, 100)
        .ok()
        .unwrap();
    let (o, _) = deployer_finish(d, &[1, 2, 3], false);
    assert_eq!(o.gas.remaining, 9_900 - 100);
    let cd = set_details_calldata(addr(0x33), [7u8; 32], 3);
    let d = deployer_begin(&request(cd, L2_GENESIS_UPGRADE_ADDRESS, 2_000), false, 100)
        .ok()
        .unwrap();
    let (o, code) = deployer_finish(d, &[1, 2, 3], true);
    assert_eq!(o.status, CallStatus::OutOfGas);
    assert!(code.is_none());
}

#[test]
fn deployer_refusals() {
    let cd = set_details_calldata(addr(0x33), [7u8; 32], 3);
    let o = deployer_begin(&request(cd.clone(), addr(1), 1000), false, 100).err().unwrap();
    assert_eq!(o.status, CallStatus::Revert);
    assert_eq!(o.gas.remaining, 900);
    let big = set_details_calldata(addr(0x33), [7u8; 32], 0x6001);
    let o = deployer_begin(&request(big, L2_GENESIS_UPGRADE_ADDRESS, 1000), false, 100)
        .err()
        .unwrap();
    assert_eq!(o.status, CallStatus::Revert);
    let mut req = request(cd.clone(), L2_GENESIS_UPGRADE_ADDRESS, 1000);
    req.value = word(1);
    let o = deployer_begin(&req, false, 100).err().unwrap();
    assert_eq!(o.gas.remaining, 1000);
    let o = deployer_begin(&request(cd.clone(), L2_GENESIS_UPGRADE_ADDRESS, 1000), true, 100)
        .err()
        .unwrap();
    assert_eq!(o.status, CallStatus::Revert);
    let o = deployer_begin(&request(cd, L2_GENESIS_UPGRADE_ADDRESS, 50), false, 100)
        .err()
        .unwrap();
    assert_eq!(o.status, CallStatus::OutOfGas);
    let o = deployer_begin(&request(vec![0, 0, 0, 0], L2_GENESIS_UPGRADE_ADDRESS, 500), false, 100)
        .err()
        .unwrap();
    assert_eq!(o.status, CallStatus::Revert);
    assert_eq!(CONTRACT_DEPLOYER_ADDRESS[18..], [0x80, 0x06]);
}

fn force_deploy_calldata(entries: &[([u8; 32], [u8; 20])]) -> Vec<u8> {
    // args: offset to the array, its length, then one offset per entry, then the structs
    let mut args = Vec::new();
    args.extend_from_slice(&word(32));
    args.extend_from_slice(&word(entries.len() as u64));
    let head = entries.len() as u64 * 32;
    for i in 0..entries.len() as u64 {
        args.extend_from_slice(&word(head + i * 160));
    }
    for (hash, target) in entries {
        args.extend_from_slice(hash);
        args.extend_from_slice(&[0u8; 12]);
        args.extend_from_slice(target);
        args.extend_from_slice(&word(0));
        args.extend_from_slice(&word(0));
        args.extend_from_slice(&word(0));
    }
    let mut cd = FORCE_DEPLOY_ON_ADDRESSES.to_vec();
    cd.extend(args);
    cd
}

#[test]
fn force_deploy_lists_entries() {
    let entries = [([1u8; 32], addr(1)), ([2u8; 32], addr(2))];
    let cd = force_deploy_calldata(&entries);
    match deployer_v1_begin(&request(cd.clone(), L2_GENESIS_UPGRADE_ADDRESS, 10), false) {
        DeployerV1Step::ForceDeploy { entries: found, outcome } => {
            assert_eq!(found, entries.to_vec());
            assert_eq!(outcome.status, CallStatus::Return);
            assert_eq!(outcome.gas.remaining, 9);
        }
        _ => panic!("force deployment refused"),
    }
    assert_eq!(force_deploy_entries(&cd[4..], 1), vec![entries[0]]);
    // an offset word that does not fit in a usize skips its entry
    let mut skip = cd.clone();
    skip[4 + 64 + 8] = 1;
    assert_eq!(force_deploy_entries(&skip[4..], 2), vec![entries[1]]);
    // more than 100 declared entries are refused
    let mut many = cd.clone();
    many[4 + 63] = 101;
    match deployer_v1_begin(&request(many, L2_GENESIS_UPGRADE_ADDRESS, 10), false) {
        DeployerV1Step::Finished(o) => assert_eq!(o.status, CallStatus::Revert),
        _ => panic!("too many entries accepted"),
    }
    // an entry whose struct lies past the end stops the scan
    let mut cut = cd.clone();
    cut.truncate(cut.len() - 33);
    assert_eq!(force_deploy_entries(&cut[4..], 2), vec![entries[0]]);
    match deployer_v1_begin(&request(cd, addr(3), 10), false) {
        DeployerV1Step::Finished(o) => assert_eq!(o.status, CallStatus::Revert),
        _ => panic!("wrong caller accepted"),
    }
}

#[test]
fn deployer_v1_set_details_and_other_selectors() {
    let cd = set_details_calldata(addr(4), [9u8; 32], 2);
    let d = match deployer_v1_begin(&request(cd, L2_GENESIS_UPGRADE_ADDRESS, 10), false) {
        DeployerV1Step::SetDetails(d) => d,
        _ => panic!("refused"),
    };
    assert_eq!(d.gas.remaining, 9);
    let g = d.gas;
    let (o, code) = deployer_v1_set_finish(d, &[5, 6, 7]);
    assert_eq!(o.status, CallStatus::Return);
    assert_eq!(o.gas, g);
    assert_eq!(code, Some(vec![5, 6]));
    let cd = set_details_calldata(addr(4), [9u8; 32], 4);
    let d = match deployer_v1_begin(&request(cd, L2_GENESIS_UPGRADE_ADDRESS, 10), false) {
        DeployerV1Step::SetDetails(d) => d,
        _ => panic!("refused"),
    };
    let (_, code) = deployer_v1_set_finish(d, &[5, 6, 7]);
    assert!(code.is_none());
    match deployer_v1_begin(&request(vec![1, 2, 3, 4, 5], addr(1), 10), false) {
        DeployerV1Step::Finished(o) => {
            assert_eq!(o.status, CallStatus::Return);
            assert_eq!(o.gas.remaining, 9);
        }
        _ => panic!("unknown selector not ended"),
    }
}

#[test]
fn nonce_holder_answers() {
    let mut cd = GET_DEPLOYMENT_NONCE_SELECTOR.to_vec();
    cd.extend_from_slice(&[0u8; 12]);
    cd.extend_from_slice(&addr(8));
    match nonce_holder_begin(&cd, 77) {
        NonceHolderStep::NeedNonce { address, gas } => {
            assert_eq!(address, addr(8));
            assert_eq!(gas.remaining, 77);
            let o = nonce_holder_finish(gas, Some(0x0102));
            assert_eq!(o.status, CallStatus::Return);
            assert_eq!(o.output, word(0x0102).to_vec());
        }
        _ => panic!("nonce not asked for"),
    }
    match nonce_holder_begin(&INCREMENT_DEPLOYMENT_NONCE_SELECTOR, 5) {
        NonceHolderStep::Finished(o) => assert_eq!(o.output, word(1).to_vec()),
        _ => panic!(),
    }
    match nonce_holder_begin(&[1, 2, 3, 4], 5) {
        NonceHolderStep::Finished(o) => {
            assert_eq!(o.status, CallStatus::Return);
            assert!(o.output.is_empty());
        }
        _ => panic!(),
    }
    match nonce_holder_begin(&GET_DEPLOYMENT_NONCE_SELECTOR, 5) {
        NonceHolderStep::Finished(o) => assert_eq!(o.status, CallStatus::Revert),
        _ => panic!(),
    }
    let o = nonce_holder_finish(Gas::new(1), Some(u64::MAX));
    assert_eq!(&o.output[24..], &[0xff; 8]);
}

#[test]
fn nonce_of_unloadable_account_is_zero() {
    let o = nonce_holder_finish(Gas::new(6), None);
    assert_eq!(o.status, CallStatus::Return);
    assert_eq!(o.output, [0u8; 32].to_vec());
    assert_eq!(o.gas.remaining, 6);
}

#[test]
fn force_deploy_places_known_nonempty_codes_in_order() {
    let codes: Vec<Option<Vec<u8>>> =
        vec![Some(vec![1, 2]), None, Some(vec![]), Some(vec![3]), Some(vec![4, 5, 6])];
    assert_eq!(force_deploy_placements(&codes), vec![0, 3, 4]);
    assert!(force_deploy_placements(&vec![None, Some(vec![])]).is_empty());
    assert!(force_deploy_placements(&Vec::new()).is_empty());
}

#[test]
fn known_codes_marks_everything_known() {
    let o = known_codes_precompile_call(&[0xaa, 0xbb, 0xcc, 0xdd, 1, 2], 10);
    assert_eq!(o.status, CallStatus::Return);
    assert_eq!(o.output, word(1).to_vec());
    assert_eq!(o.gas.remaining, 10);
    let o = known_codes_precompile_call(&[0xaa], 10);
    assert_eq!(o.status, CallStatus::Revert);
}
