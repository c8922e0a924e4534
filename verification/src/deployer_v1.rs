//! The contract deployer hook of the first protocol version. Besides
//! `setBytecodeDetailsEVM` it serves `forceDeployOnAddresses`, by which the
//! genesis upgrade places known bytecodes on a list of addresses.
use crate::deployer::{
    BytecodeDetails,
    L2_GENESIS_UPGRADE_ADDRESS,
    SET_EVM_BYTECODE_DETAILS,
    args_of,
    decode_set_bytecode_details,
    decodes_details,
    may_set_details,
    set_details_args_ok,
};
use crate::gas::Gas;
use crate::outcome::{CallOutcome, is_out_of_gas, is_return, is_revert, oog_error, returned, revert};
use crate::request::{
    CallRequest,
    charged,
    fresh_gas,
    has_selector,
    has_selector_spec,
    refuses_delegate_or_value,
    slice_range,
};
use crate::words::{
    Address,
    Word,
    be_value,
    read_address,
    read_word,
    same_address,
    word_is_zero,
    word_to_usize,
};
use vstd::prelude::*;
use vstd::slice::slice_subrange;

verus! {

/// `forceDeployOnAddresses((bytes32,address,bool,uint256,bytes)[])`.
pub const FORCE_DEPLOY_ON_ADDRESSES: [u8; 4] = [0xe9, 0xf1, 0x8c, 0x17];

/// The most entries a force deployment handles.
pub const MAX_FORCE_DEPLOYMENTS: usize = 100;

/// A deployment of a force deployment, as byte strings: the bytecode hash
/// and the target address.
pub type DeploymentView = (Seq<u8>, Seq<u8>);

/// The number of deployments that the arguments of a force deployment
/// declare.
pub open spec fn declared_count(args: Seq<u8>) -> nat {
    be_value(args.subrange(32, 64))
}

/// The offset word of entry `i`.
pub open spec fn entry_offset(raw: Seq<u8>, i: nat) -> nat {
    be_value(raw.subrange(64 + 32 * i as int, 96 + 32 * i as int))
}

/// The deployments that entries `i..count` yield, and whether reading them
/// overflows the address arithmetic. The scan stops at the first entry whose
/// offset word, or whose struct, lies past the end of the arguments; it skips
/// an entry whose offset does not fit in a `usize`.
pub open spec fn force_deploy_scan(raw: Seq<u8>, count: nat, i: nat) -> (Seq<DeploymentView>, bool)
    decreases count - i,
{
    if i >= count {
        (Seq::empty(), false)
    } else if 96 + 32 * i > raw.len() {
        (Seq::empty(), false)
    } else {
        let off = entry_offset(raw, i);
        if off > usize::MAX {
            force_deploy_scan(raw, count, i + 1)
        } else if off + 192 > usize::MAX {
            (Seq::empty(), true)
        } else if off + 192 > raw.len() {
            (Seq::empty(), false)
        } else {
            let e = (
                raw.subrange(64 + off as int, 96 + off as int),
                raw.subrange(108 + off as int, 128 + off as int),
            );
            let rest = force_deploy_scan(raw, count, i + 1);
            (seq![e] + rest.0, rest.1)
        }
    }
}

/// Whether a force deployment passes its checks: the caller may place code,
/// the arguments hold their head, and at most 100 deployments are declared.
pub open spec fn force_deploy_accepted(req: CallRequest) -> bool {
    let args = args_of(req.calldata@);
    &&& may_set_details(req)
    &&& args.len() >= 64
    &&& declared_count(args) <= MAX_FORCE_DEPLOYMENTS
}

/// Whether reading the entries of an accepted force deployment stays within
/// the address arithmetic; an entry with an offset close to the largest
/// `usize` would overflow it.
pub open spec fn force_deploy_offsets_fit(req: CallRequest) -> bool {
    force_deploy_accepted(req) ==> !force_deploy_scan(
        args_of(req.calldata@),
        declared_count(args_of(req.calldata@)),
        0,
    ).1
}

/// The deployments of a list, as byte strings.
pub open spec fn deployments_view(v: Seq<(Word, Address)>) -> Seq<DeploymentView> {
    v.map_values(|e: (Word, Address)| (e.0@, e.1@))
}

/// The deployments that the entries of an accepted force deployment name,
/// in order. The host places, for each, the bytecode with that hash on the
/// address when the bytecode is known and not empty.
pub fn force_deploy_entries(raw: &[u8], count: usize) -> (entries: Vec<(Word, Address)>)
    requires
        count <= MAX_FORCE_DEPLOYMENTS,
        !force_deploy_scan(raw@, count as nat, 0).1,
    ensures
        deployments_view(entries@) == force_deploy_scan(raw@, count as nat, 0).0,
{
    let mut entries: Vec<(Word, Address)> = Vec::new();
    let mut i: usize = 0;
    let mut done = false;
    while i < count && !done
        invariant
            i <= count <= MAX_FORCE_DEPLOYMENTS,
            force_deploy_scan(raw@, count as nat, i as nat).1 == force_deploy_scan(
                raw@,
                count as nat,
                0,
            ).1,
            !force_deploy_scan(raw@, count as nat, 0).1,
            force_deploy_scan(raw@, count as nat, 0).0 == deployments_view(entries@)
                + force_deploy_scan(raw@, count as nat, i as nat).0,
            done ==> force_deploy_scan(raw@, count as nat, i as nat).0 == Seq::<
                DeploymentView,
            >::empty(),
        decreases 2 * (count - i) + if done { 0int } else { 1int },
    {
        let pos: usize = 64 + i * 32;
        if pos + 32 > raw.len() {
            done = true;
        } else {
            match word_to_usize(slice_subrange(raw, pos, pos + 32)) {
                None => {
                    i = i + 1;
                },
                Some(off) => {
                    if off > usize::MAX - 192 {
                        assert(force_deploy_scan(raw@, count as nat, i as nat).1);
                        assert(false);
                    }
                    let base: usize = 64 + off;
                    if base + 128 > raw.len() {
                        done = true;
                    } else {
                        let hash = read_word(raw, base);
                        let address = read_address(raw, base + 44);
                        let ghost before = entries@;
                        entries.push((hash, address));
                        assert(deployments_view(entries@) =~= deployments_view(before).push(
                            (hash@, address@),
                        ));
                        assert(deployments_view(entries@) + force_deploy_scan(
                            raw@,
                            count as nat,
                            (i + 1) as nat,
                        ).0 =~= deployments_view(before) + force_deploy_scan(
                            raw@,
                            count as nat,
                            i as nat,
                        ).0);
                        i = i + 1;
                    }
                },
            }
        }
    }
    assert(deployments_view(entries@) + Seq::<DeploymentView>::empty() =~= deployments_view(
        entries@,
    ));
    entries
}

/// Whether reading the entries `0..count` of a force deployment overflows
/// the address arithmetic.
pub fn force_deploy_overflows(raw: &[u8], count: usize) -> (r: bool)
    requires
        count <= MAX_FORCE_DEPLOYMENTS,
    ensures
        r == force_deploy_scan(raw@, count as nat, 0).1,
{
    let mut i: usize = 0;
    while i < count
        invariant
            i <= count <= MAX_FORCE_DEPLOYMENTS,
            force_deploy_scan(raw@, count as nat, i as nat).1 == force_deploy_scan(
                raw@,
                count as nat,
                0,
            ).1,
        decreases count - i,
    {
        let pos: usize = 64 + i * 32;
        if pos + 32 > raw.len() {
            return false;
        }
        match word_to_usize(slice_subrange(raw, pos, pos + 32)) {
            None => {
                i = i + 1;
            },
            Some(off) => {
                if off > usize::MAX - 192 {
                    return true;
                }
                if 64 + off + 128 > raw.len() {
                    return false;
                }
                i = i + 1;
            },
        }
    }
    false
}

/// Whether a force deployment can be read without overflow; a host checks
/// this before [`deployer_v1_begin`].
pub fn force_deploy_fits(req: &CallRequest) -> (r: bool)
    ensures
        r == force_deploy_offsets_fit(*req),
{
    if req.is_static || !same_address(&req.caller, &L2_GENESIS_UPGRADE_ADDRESS) {
        return true;
    }
    if req.calldata.len() < 68 {
        return true;
    }
    let args = slice_subrange(req.calldata.as_slice(), 4, req.calldata.len());
    let count = match word_to_usize(slice_subrange(args, 32, 64)) {
        Some(n) => n,
        None => return true,
    };
    if count > MAX_FORCE_DEPLOYMENTS {
        return true;
    }
    !force_deploy_overflows(args, count)
}

/// Whether a fetched bytecode is placed: it is known and not empty.
pub open spec fn placeable(code: Option<Vec<u8>>) -> bool {
    code matches Some(c) && c@.len() > 0
}

/// The entries among the first `n` whose bytecode is placed, in order.
pub open spec fn placed_indices(codes: Seq<Option<Vec<u8>>>, n: nat) -> Seq<usize>
    decreases n,
{
    if n == 0 {
        Seq::empty()
    } else if placeable(codes[n - 1]) {
        placed_indices(codes, (n - 1) as nat).push((n - 1) as usize)
    } else {
        placed_indices(codes, (n - 1) as nat)
    }
}

/// The entries of a force deployment whose bytecode is placed, given the
/// bytecode fetched for each entry (`None` when it is unknown): those whose
/// bytecode is known and not empty, in order. The host places them in this
/// order, so a later entry for an address wins.
pub fn force_deploy_placements(codes: &Vec<Option<Vec<u8>>>) -> (r: Vec<usize>)
    ensures
        r@ == placed_indices(codes@, codes@.len()),
{
    let mut r: Vec<usize> = Vec::new();
    let mut i: usize = 0;
    while i < codes.len()
        invariant
            i <= codes@.len(),
            r@ == placed_indices(codes@, i as nat),
        decreases codes@.len() - i,
    {
        let place = match &codes[i] {
            Some(c) => c.len() > 0,
            None => false,
        };
        if place {
            r.push(i);
        }
        i = i + 1;
    }
    r
}

/// What the first part of a deployer call of the first version decides.
pub enum DeployerV1Step {
    /// The call ends here.
    Finished(CallOutcome),
    /// A force deployment: the host places the listed bytecodes, then the
    /// call ends with `outcome`.
    ForceDeploy { entries: Vec<(Word, Address)>, outcome: CallOutcome },
    /// A `setBytecodeDetailsEVM` call: the host fetches the bytecode by its
    /// hash and resumes with [`deployer_v1_set_finish`].
    SetDetails(BytecodeDetails),
}

/// The first part of a deployer call of the first version. It refuses
/// delegate calls and calls with value and charges one unit of gas. A force
/// deployment or a `setBytecodeDetailsEVM` from the genesis upgrade with
/// accepted arguments goes on; other calls to these two are refused; any
/// other selector ends the call successfully with nothing done.
pub fn deployer_v1_begin(req: &CallRequest, is_delegate: bool) -> (r: DeployerV1Step)
    requires
        !refuses_delegate_or_value(*req, is_delegate) && req.gas_limit >= 1 && has_selector_spec(
            req.calldata@,
            FORCE_DEPLOY_ON_ADDRESSES@,
        ) ==> force_deploy_offsets_fit(*req),
    ensures
        ({
            let g0 = fresh_gas(req.gas_limit);
            let g1 = charged(g0, 1);
            let cd = req.calldata@;
            let args = args_of(cd);
            if refuses_delegate_or_value(*req, is_delegate) {
                r matches DeployerV1Step::Finished(o) && is_revert(o, g0)
            } else if req.gas_limit < 1 {
                r matches DeployerV1Step::Finished(o) && is_out_of_gas(o)
            } else if has_selector_spec(cd, FORCE_DEPLOY_ON_ADDRESSES@) {
                if !force_deploy_accepted(*req) {
                    r matches DeployerV1Step::Finished(o) && is_revert(o, g1)
                } else {
                    r matches DeployerV1Step::ForceDeploy { entries, outcome } && deployments_view(
                        entries@,
                    ) == force_deploy_scan(args, declared_count(args), 0).0 && is_return(
                        outcome,
                        Seq::<u8>::empty(),
                        g1,
                    )
                }
            } else if has_selector_spec(cd, SET_EVM_BYTECODE_DETAILS@) {
                if !may_set_details(*req) || !set_details_args_ok(args) {
                    r matches DeployerV1Step::Finished(o) && is_revert(o, g1)
                } else {
                    r matches DeployerV1Step::SetDetails(d) && decodes_details(d, args, g1)
                }
            } else if cd.len() < 4 {
                r matches DeployerV1Step::Finished(o) && is_revert(o, g1)
            } else {
                r matches DeployerV1Step::Finished(o) && is_return(o, Seq::<u8>::empty(), g1)
            }
        }),
{
    let mut gas = Gas::new(req.gas_limit);
    if is_delegate || !word_is_zero(&req.value) {
        return DeployerV1Step::Finished(revert(gas));
    }
    if !gas.record_cost(1) {
        return DeployerV1Step::Finished(oog_error());
    }
    if req.calldata.len() < 4 {
        return DeployerV1Step::Finished(revert(gas));
    }
    if has_selector(req.calldata.as_slice(), &FORCE_DEPLOY_ON_ADDRESSES) {
        if req.is_static || !same_address(&req.caller, &L2_GENESIS_UPGRADE_ADDRESS) {
            return DeployerV1Step::Finished(revert(gas));
        }
        let calldata = slice_subrange(req.calldata.as_slice(), 4, req.calldata.len());
        if calldata.len() < 64 {
            return DeployerV1Step::Finished(revert(gas));
        }
        let count = match word_to_usize(slice_subrange(calldata, 32, 64)) {
            Some(n) => n,
            None => return DeployerV1Step::Finished(revert(gas)),
        };
        if count > MAX_FORCE_DEPLOYMENTS {
            return DeployerV1Step::Finished(revert(gas));
        }
        let entries = force_deploy_entries(calldata, count);
        DeployerV1Step::ForceDeploy { entries, outcome: returned(Vec::new(), gas) }
    } else if has_selector(req.calldata.as_slice(), &SET_EVM_BYTECODE_DETAILS) {
        match decode_set_bytecode_details(req, gas) {
            Ok(d) => DeployerV1Step::SetDetails(d),
            Err(o) => DeployerV1Step::Finished(o),
        }
    } else {
        DeployerV1Step::Finished(returned(Vec::new(), gas))
    }
}

/// The rest of a `setBytecodeDetailsEVM` call of the first version, once the
/// bytecode has been fetched: the call ends successfully; the first
/// `bytecode_length` bytes of the bytecode are placed on the target address,
/// unless the bytecode is empty or shorter than that.
pub fn deployer_v1_set_finish(details: BytecodeDetails, bytecode: &[u8]) -> (r: (
    CallOutcome,
    Option<Vec<u8>>,
))
    ensures
        is_return(r.0, Seq::<u8>::empty(), details.gas),
        (bytecode@.len() == 0 || details.bytecode_length > bytecode@.len()) ==> r.1 is None,
        (bytecode@.len() != 0 && details.bytecode_length <= bytecode@.len()) ==> (r.1 matches Some(
            code,
        ) && code@ == bytecode@.subrange(0, details.bytecode_length as int)),
{
    if bytecode.len() == 0 || details.bytecode_length as usize > bytecode.len() {
        return (returned(Vec::new(), details.gas), None);
    }
    let code = slice_range(bytecode, 0, details.bytecode_length as usize);
    (returned(Vec::new(), details.gas), Some(code))
}

} // verus!
