//! The precompile table of ZKsync OS: which system hook serves an address
//! under a protocol version, and which addresses are warm from the start.
use crate::deployer::CONTRACT_DEPLOYER_ADDRESS;
use crate::l1_messenger::L1_MESSENGER_ADDRESS;
use crate::l2_base_token::L2_BASE_TOKEN_ADDRESS;
use crate::words::{Address, same_address};
use vstd::prelude::*;

verus! {

/// The protocol versions of ZKsync OS.
#[derive(PartialEq, Eq, Structural, Debug, Clone, Copy)]
pub enum ZkSpecId {
    AtlasV1,
    AtlasV2,
}

/// The system hooks that replace precompiles.
#[derive(PartialEq, Eq, Structural, Debug, Clone, Copy)]
pub enum CustomPrecompile {
    DeployerV1,
    L1MessengerV1,
    L2BaseTokenV1,
    DeployerV2,
    L1MessengerV2,
    L2BaseTokenV2,
}

/// The system address that a hook stands for.
pub open spec fn hook_address(p: CustomPrecompile) -> Address {
    match p {
        CustomPrecompile::DeployerV1 | CustomPrecompile::DeployerV2 => CONTRACT_DEPLOYER_ADDRESS,
        CustomPrecompile::L1MessengerV1 | CustomPrecompile::L1MessengerV2 => L1_MESSENGER_ADDRESS,
        CustomPrecompile::L2BaseTokenV1 | CustomPrecompile::L2BaseTokenV2 => L2_BASE_TOKEN_ADDRESS,
    }
}

/// The protocol version that a hook belongs to.
pub open spec fn hook_version(p: CustomPrecompile) -> ZkSpecId {
    match p {
        CustomPrecompile::DeployerV1
        | CustomPrecompile::L1MessengerV1
        | CustomPrecompile::L2BaseTokenV1 => ZkSpecId::AtlasV1,
        CustomPrecompile::DeployerV2
        | CustomPrecompile::L1MessengerV2
        | CustomPrecompile::L2BaseTokenV2 => ZkSpecId::AtlasV2,
    }
}

/// The hook that serves `address` under `spec`, if any.
pub open spec fn custom_precompile_spec(spec: ZkSpecId, address: Address) -> Option<
    CustomPrecompile,
> {
    if address == CONTRACT_DEPLOYER_ADDRESS {
        Some(
            if spec == ZkSpecId::AtlasV1 {
                CustomPrecompile::DeployerV1
            } else {
                CustomPrecompile::DeployerV2
            },
        )
    } else if address == L1_MESSENGER_ADDRESS {
        Some(
            if spec == ZkSpecId::AtlasV1 {
                CustomPrecompile::L1MessengerV1
            } else {
                CustomPrecompile::L1MessengerV2
            },
        )
    } else if address == L2_BASE_TOKEN_ADDRESS {
        Some(
            if spec == ZkSpecId::AtlasV1 {
                CustomPrecompile::L2BaseTokenV1
            } else {
                CustomPrecompile::L2BaseTokenV2
            },
        )
    } else {
        None
    }
}

/// The hook that a call to code at `bytecode_address` runs under `spec`,
/// and whether the call is a delegate call (its code is not that of the
/// account it runs for); `None` when no hook serves the address.
pub fn maybe_call_custom_precompile(
    spec: ZkSpecId,
    bytecode_address: &Address,
    target_address: &Address,
) -> (r: Option<(CustomPrecompile, bool)>)
    ensures
        r is Some <==> custom_precompile_spec(spec, *bytecode_address) is Some,
        r matches Some((p, is_delegate)) ==> Some(p) == custom_precompile_spec(
            spec,
            *bytecode_address,
        ) && is_delegate == (*bytecode_address != *target_address),
        r matches Some((p, _)) ==> hook_address(p) == *bytecode_address && hook_version(p) == spec,
{
    proof {
        crate::laws::law_hook_stands_for_its_address_and_version(spec, *bytecode_address);
    }
    let precompile = if same_address(bytecode_address, &CONTRACT_DEPLOYER_ADDRESS) {
        match spec {
            ZkSpecId::AtlasV1 => CustomPrecompile::DeployerV1,
            ZkSpecId::AtlasV2 => CustomPrecompile::DeployerV2,
        }
    } else if same_address(bytecode_address, &L1_MESSENGER_ADDRESS) {
        match spec {
            ZkSpecId::AtlasV1 => CustomPrecompile::L1MessengerV1,
            ZkSpecId::AtlasV2 => CustomPrecompile::L1MessengerV2,
        }
    } else if same_address(bytecode_address, &L2_BASE_TOKEN_ADDRESS) {
        match spec {
            ZkSpecId::AtlasV1 => CustomPrecompile::L2BaseTokenV1,
            ZkSpecId::AtlasV2 => CustomPrecompile::L2BaseTokenV2,
        }
    } else {
        return None;
    };
    let is_delegate = !same_address(bytecode_address, target_address);
    Some((precompile, is_delegate))
}

/// The Ethereum precompiles that ZKsync OS keeps, each in the fork variant
/// it uses.
#[derive(PartialEq, Eq, Structural, Debug, Clone, Copy)]
pub enum EthPrecompile {
    Ecrecover,
    Sha256,
    Ripemd160,
    Identity,
    ModexpBerlin,
    Bn254AddIstanbul,
    Bn254MulIstanbul,
    Bn254PairIstanbul,
    P256VerifyOsaka,
}

/// The active Ethereum precompiles of both versions: those of Cancun without
/// Blake2 and point evaluation, with P256 verification added.
pub open spec fn zk_precompile_set() -> Seq<EthPrecompile> {
    seq![
        EthPrecompile::Ecrecover,
        EthPrecompile::Sha256,
        EthPrecompile::Ripemd160,
        EthPrecompile::Identity,
        EthPrecompile::ModexpBerlin,
        EthPrecompile::Bn254AddIstanbul,
        EthPrecompile::Bn254MulIstanbul,
        EthPrecompile::Bn254PairIstanbul,
        EthPrecompile::P256VerifyOsaka,
    ]
}

/// The active Ethereum precompiles under `spec`.
pub fn precompiles_for_spec(spec: ZkSpecId) -> (r: Vec<EthPrecompile>)
    ensures
        r@ == zk_precompile_set(),
        r@.no_duplicates(),
        forall|p: EthPrecompile| #[trigger] r@.contains(p),
{
    proof {
        crate::laws::law_each_kept_precompile_active_once();
    }
    match spec {
        ZkSpecId::AtlasV1 | ZkSpecId::AtlasV2 => {
            let mut r: Vec<EthPrecompile> = Vec::new();
            r.push(EthPrecompile::Ecrecover);
            r.push(EthPrecompile::Sha256);
            r.push(EthPrecompile::Ripemd160);
            r.push(EthPrecompile::Identity);
            r.push(EthPrecompile::ModexpBerlin);
            r.push(EthPrecompile::Bn254AddIstanbul);
            r.push(EthPrecompile::Bn254MulIstanbul);
            r.push(EthPrecompile::Bn254PairIstanbul);
            r.push(EthPrecompile::P256VerifyOsaka);
            assert(r@ =~= zk_precompile_set());
            r
        },
    }
}

/// The version that a precompile table is built for by default.
pub fn default_spec() -> (s: ZkSpecId)
    ensures
        s == ZkSpecId::AtlasV2,
{
    ZkSpecId::AtlasV2
}

/// Whether switching the precompile table to `new` rebuilds it: only a
/// different version does.
pub fn set_spec_changes(current: ZkSpecId, new: ZkSpecId) -> (r: bool)
    ensures
        r == (current != new),
{
    current != new
}

/// The address whose last eight bytes hold `x` big-endian.
pub open spec fn address_from_u64(x: u64) -> Seq<u8> {
    Seq::new(
        20,
        |i: int|
            if i < 12 {
                0u8
            } else {
                ((x >> (8 * (19 - i)) as u64) & 0xff) as u8
            },
    )
}

/// The address of precompile number `x`: twelve zero bytes, then `x`
/// big-endian.
pub fn u64_to_address(x: u64) -> (a: Address)
    ensures
        a@ == address_from_u64(x),
{
    let mut a: Address = [0u8; 20];
    let mut i: usize = 12;
    while i < 20
        invariant
            12 <= i <= 20,
            forall|j: int| 0 <= j < 12 ==> a@[j] == 0,
            forall|j: int| 12 <= j < i ==> a@[j] == address_from_u64(x)[j],
        decreases 20 - i,
    {
        let shift: u64 = (8 * (19 - i)) as u64;
        a[i] = ((x >> shift) & 0xff) as u8;
        i = i + 1;
    }
    assert(a@ =~= address_from_u64(x));
    a
}

/// revm's `P256VERIFY_ADDRESS`: the number of the P256 verification
/// precompile.
#[verifier::external_body]
pub(crate) fn p256_verify_address_number() -> (n: u64)
    ensures
        n == 256,
{
    revm::precompile::secp256r1::P256VERIFY_ADDRESS
}

/// The addresses of `s` that differ from `x`, in order.
pub open spec fn without_address(s: Seq<Address>, x: Seq<u8>) -> Seq<Address>
    decreases s.len(),
{
    if s.len() == 0 {
        Seq::empty()
    } else if s.last()@ == x {
        without_address(s.drop_last(), x)
    } else {
        without_address(s.drop_last(), x).push(s.last())
    }
}

/// The addresses warmed at the start of a transaction: those of the active
/// Ethereum precompiles (`inner`), except the P256 verification precompile,
/// followed by Blake2 (9) and point evaluation (10), which are warm without
/// being active.
pub fn warm_addresses(inner: &Vec<Address>) -> (r: Vec<Address>)
    ensures
        r@.len() >= 2,
        r@.drop_last().drop_last() == without_address(inner@, address_from_u64(256)),
        r@[r@.len() - 2]@ == address_from_u64(9),
        r@[r@.len() - 1]@ == address_from_u64(10),
{
    let p256 = u64_to_address(p256_verify_address_number());
    let mut r: Vec<Address> = Vec::new();
    let mut i: usize = 0;
    while i < inner.len()
        invariant
            i <= inner@.len(),
            p256@ == address_from_u64(256),
            r@ == without_address(inner@.subrange(0, i as int), address_from_u64(256)),
        decreases inner@.len() - i,
    {
        let a = inner[i];
        assert(inner@.subrange(0, i + 1).drop_last() =~= inner@.subrange(0, i as int));
        if !same_address(&a, &p256) {
            r.push(a);
        }
        i = i + 1;
    }
    assert(inner@.subrange(0, inner@.len() as int) =~= inner@);
    let ghost kept = r@;
    r.push(u64_to_address(9));
    r.push(u64_to_address(10));
    assert(r@.drop_last().drop_last() =~= kept);
    r
}

} // verus!
