//! The contract deployer hook: `setBytecodeDetailsEVM(address,bytes32,
//! uint32,bytes32)`, by which the genesis upgrade places bytecode on an
//! address.
use crate::gas::{Gas, cold_account_access_cost, warm_storage_read_cost};
use crate::outcome::{CallOutcome, is_out_of_gas, is_return, is_revert, oog_error, returned, revert};
use crate::request::{
    CallRequest,
    charged,
    fresh_gas,
    has_selector,
    has_selector_spec,
    refuses_delegate_or_value,
    slice_range,
};
use crate::words::{
    Address,
    Word,
    all_zero,
    all_zero_spec,
    be_value,
    read_address,
    read_word,
    same_address,
    word_is_zero,
    word_to_u32,
};
use vstd::prelude::*;
use vstd::slice::slice_subrange;

verus! {

/// `setBytecodeDetailsEVM(address,bytes32,uint32,bytes32)`.
pub const SET_EVM_BYTECODE_DETAILS: [u8; 4] = [0xf6, 0xec, 0xa0, 0xb0];

/// The address of the contract deployer (0x8006).
pub const CONTRACT_DEPLOYER_ADDRESS: Address = [
    0, 0, 0, 0, 0, 0, 0, 0, 0, 0, 0, 0, 0, 0, 0, 0, 0, 0, 0x80, 0x06,
];

/// The address of the genesis upgrade (0x800f), the only account allowed to
/// place bytecode.
pub const L2_GENESIS_UPGRADE_ADDRESS: Address = [
    0, 0, 0, 0, 0, 0, 0, 0, 0, 0, 0, 0, 0, 0, 0, 0, 0, 0, 0x80, 0x0f,
];

/// The largest bytecode that may be placed (EIP-170).
pub const MAX_CODE_SIZE: usize = 0x6000;

/// The arguments of a call: the calldata after the selector.
pub open spec fn args_of(calldata: Seq<u8>) -> Seq<u8> {
    if calldata.len() >= 4 {
        calldata.subrange(4, calldata.len() as int)
    } else {
        Seq::empty()
    }
}

/// Whether the arguments of `setBytecodeDetailsEVM` are accepted: four words,
/// a well-formed address, and a bytecode length within the limit.
pub open spec fn set_details_args_ok(args: Seq<u8>) -> bool {
    &&& args.len() >= 128
    &&& all_zero_spec(args.subrange(0, 12))
    &&& be_value(args.subrange(64, 96)) <= MAX_CODE_SIZE
}

/// Whether the caller may place bytecode with a non-static call.
pub open spec fn may_set_details(req: CallRequest) -> bool {
    !req.is_static && req.caller == L2_GENESIS_UPGRADE_ADDRESS
}

/// The decoded arguments of an accepted `setBytecodeDetailsEVM` call, and
/// the gas left after the checks.
pub struct BytecodeDetails {
    pub gas: Gas,
    pub address: Address,
    pub bytecode_hash: Word,
    pub bytecode_length: u32,
}

/// Whether `d` holds the arguments `args` decode to.
pub open spec fn decodes_details(d: BytecodeDetails, args: Seq<u8>, gas: Gas) -> bool {
    &&& d.gas == gas
    &&& d.address@ == args.subrange(12, 32)
    &&& d.bytecode_hash@ == args.subrange(32, 64)
    &&& d.bytecode_length as nat == be_value(args.subrange(64, 96))
}

/// Checks and decodes a `setBytecodeDetailsEVM` call whose selector is known,
/// once the hook has been paid for.
pub fn decode_set_bytecode_details(req: &CallRequest, gas: Gas) -> (r: Result<
    BytecodeDetails,
    CallOutcome,
>)
    requires
        req.calldata@.len() >= 4,
    ensures
        if !may_set_details(*req) || !set_details_args_ok(args_of(req.calldata@)) {
            r matches Err(o) && is_revert(o, gas)
        } else {
            r matches Ok(d) && decodes_details(d, args_of(req.calldata@), gas)
        },
{
    if req.is_static {
        return Err(revert(gas));
    }
    if !same_address(&req.caller, &L2_GENESIS_UPGRADE_ADDRESS) {
        return Err(revert(gas));
    }
    let calldata = slice_subrange(req.calldata.as_slice(), 4, req.calldata.len());
    if calldata.len() < 128 {
        return Err(revert(gas));
    }
    if !all_zero(calldata, 0, 12) {
        return Err(revert(gas));
    }
    let address = read_address(calldata, 12);
    let bytecode_hash = read_word(calldata, 32);
    let bytecode_length = match word_to_u32(slice_subrange(calldata, 64, 96)) {
        Some(l) => l,
        None => return Err(revert(gas)),
    };
    if bytecode_length as usize > MAX_CODE_SIZE {
        return Err(revert(gas));
    }
    Ok(BytecodeDetails { gas, address, bytecode_hash, bytecode_length })
}

/// The first part of a call to the contract deployer. It refuses delegate
/// calls and calls with value, charges the base cost of a hook, and accepts
/// only `setBytecodeDetailsEVM` from the genesis upgrade with well-formed
/// arguments. The host then charges the extra gas of placing
/// `bytecode_length` bytes, fetches the bytecode by its hash, and loads the
/// target account ([`deployer_finish`]).
pub fn deployer_begin(req: &CallRequest, is_delegate: bool, hook_base_cost: u64) -> (r: Result<
    BytecodeDetails,
    CallOutcome,
>)
    ensures
        ({
            let g0 = fresh_gas(req.gas_limit);
            let g1 = charged(g0, hook_base_cost);
            if refuses_delegate_or_value(*req, is_delegate) {
                r matches Err(o) && is_revert(o, g0)
            } else if hook_base_cost > req.gas_limit {
                r matches Err(o) && is_out_of_gas(o)
            } else if !has_selector_spec(req.calldata@, SET_EVM_BYTECODE_DETAILS@) || !may_set_details(
                *req,
            ) || !set_details_args_ok(args_of(req.calldata@)) {
                r matches Err(o) && is_revert(o, g1)
            } else {
                r matches Ok(d) && decodes_details(d, args_of(req.calldata@), g1)
            }
        }),
{
    let mut gas = Gas::new(req.gas_limit);
    if is_delegate || !word_is_zero(&req.value) {
        return Err(revert(gas));
    }
    if !gas.record_cost(hook_base_cost) {
        return Err(oog_error());
    }
    if req.calldata.len() < 4 {
        return Err(revert(gas));
    }
    if has_selector(req.calldata.as_slice(), &SET_EVM_BYTECODE_DETAILS) {
        decode_set_bytecode_details(req, gas)
    } else {
        Err(revert(gas))
    }
}

/// The price of the access to the target account.
pub open spec fn account_access_cost(is_cold: bool) -> u64 {
    if is_cold {
        2600
    } else {
        100
    }
}

/// The rest of a deployer call, once the extra gas has been paid, the
/// bytecode fetched and the target account loaded: charges the access to the
/// account and gives the first `bytecode_length` bytes of the bytecode to
/// place on the target address, or runs out of gas.
pub fn deployer_finish(details: BytecodeDetails, bytecode: &[u8], is_cold: bool) -> (r: (
    CallOutcome,
    Option<Vec<u8>>,
))
    requires
        details.bytecode_length <= bytecode@.len(),
    ensures
        account_access_cost(is_cold) <= details.gas.remaining ==> {
            &&& is_return(
                r.0,
                Seq::<u8>::empty(),
                charged(details.gas, account_access_cost(is_cold)),
            )
            &&& r.1 matches Some(code) && code@ == bytecode@.subrange(
                0,
                details.bytecode_length as int,
            )
        },
        account_access_cost(is_cold) > details.gas.remaining ==> is_out_of_gas(r.0) && r.1 is None,
{
    let mut gas = details.gas;
    let code = slice_range(bytecode, 0, details.bytecode_length as usize);
    let gas_for_access = if is_cold {
        cold_account_access_cost()
    } else {
        warm_storage_read_cost()
    };
    if !gas.record_cost(gas_for_access) {
        return (oog_error(), None);
    }
    (returned(Vec::new(), gas), Some(code))
}

} // verus!
