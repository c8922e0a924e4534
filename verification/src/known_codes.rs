//! The known codes storage hook: every bytecode counts as known.
use crate::gas::Gas;
use crate::outcome::{CallOutcome, is_return, is_revert, returned, revert};
use crate::request::fresh_gas;
use crate::words::{Address, push_slice, small_word, small_word_exec};
use vstd::prelude::*;

verus! {

/// The address of the known codes storage (0x8004).
pub const KNOWN_CODES_STORAGE_ADDRESS: Address = [
    0, 0, 0, 0, 0, 0, 0, 0, 0, 0, 0, 0, 0, 0, 0, 0, 0, 0, 0x80, 0x04,
];

/// A call to the known codes storage: any call with a selector is answered
/// with the marker 1 (`getMarker(bytes32)`); shorter calldata is refused. No
/// gas is charged.
pub fn known_codes_precompile_call(calldata: &[u8], gas_limit: u64) -> (o: CallOutcome)
    ensures
        calldata@.len() < 4 ==> is_revert(o, fresh_gas(gas_limit)),
        calldata@.len() >= 4 ==> is_return(o, small_word(1), fresh_gas(gas_limit)),
{
    let gas = Gas::new(gas_limit);
    if calldata.len() < 4 {
        return revert(gas);
    }
    let mut out: Vec<u8> = Vec::new();
    push_slice(&mut out, &small_word_exec(1));
    returned(out, gas)
}

} // verus!
