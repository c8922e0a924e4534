//! The nonce holder hook: `getDeploymentNonce(address)` reads the nonce of
//! an account; `incrementDeploymentNonce(address)` answers 1, the deployer
//! hook doing the actual deployment.
use crate::gas::Gas;
use crate::outcome::{CallOutcome, is_return, is_revert, returned, revert};
use crate::request::{fresh_gas, has_selector, has_selector_spec};
use crate::words::{Address, be_value, push_slice, read_address, small_word, small_word_exec, word_from_u64};
use vstd::prelude::*;

verus! {

/// The address of the nonce holder (0x8003).
pub const NONCE_HOLDER_ADDRESS: Address = [
    0, 0, 0, 0, 0, 0, 0, 0, 0, 0, 0, 0, 0, 0, 0, 0, 0, 0, 0x80, 0x03,
];

/// `getDeploymentNonce(address)`.
pub const GET_DEPLOYMENT_NONCE_SELECTOR: [u8; 4] = [0xfb, 0x1a, 0x9a, 0x57];

/// `incrementDeploymentNonce(address)`.
pub const INCREMENT_DEPLOYMENT_NONCE_SELECTOR: [u8; 4] = [0x30, 0x63, 0x95, 0xc6];

/// What the first part of a nonce holder call decides.
pub enum NonceHolderStep {
    /// The call ends here.
    Finished(CallOutcome),
    /// The host loads the account and resumes with its nonce, or with `None`
    /// when the account cannot be loaded ([`nonce_holder_finish`]).
    NeedNonce { address: Address, gas: Gas },
}

/// The first part of a call to the nonce holder, which charges no gas.
pub fn nonce_holder_begin(calldata: &[u8], gas_limit: u64) -> (r: NonceHolderStep)
    ensures
        ({
            let g = fresh_gas(gas_limit);
            if calldata@.len() < 4 {
                r matches NonceHolderStep::Finished(o) && is_revert(o, g)
            } else if has_selector_spec(calldata@, GET_DEPLOYMENT_NONCE_SELECTOR@) {
                if calldata@.len() < 36 {
                    r matches NonceHolderStep::Finished(o) && is_revert(o, g)
                } else {
                    r matches NonceHolderStep::NeedNonce { address, gas } && address@
                        == calldata@.subrange(16, 36) && gas == g
                }
            } else if has_selector_spec(calldata@, INCREMENT_DEPLOYMENT_NONCE_SELECTOR@) {
                r matches NonceHolderStep::Finished(o) && is_return(o, small_word(1), g)
            } else {
                r matches NonceHolderStep::Finished(o) && is_return(o, Seq::<u8>::empty(), g)
            }
        }),
{
    let gas = Gas::new(gas_limit);
    if calldata.len() < 4 {
        return NonceHolderStep::Finished(revert(gas));
    }
    if has_selector(calldata, &GET_DEPLOYMENT_NONCE_SELECTOR) {
        if calldata.len() < 36 {
            return NonceHolderStep::Finished(revert(gas));
        }
        let address = read_address(calldata, 16);
        NonceHolderStep::NeedNonce { address, gas }
    } else if has_selector(calldata, &INCREMENT_DEPLOYMENT_NONCE_SELECTOR) {
        let mut out: Vec<u8> = Vec::new();
        push_slice(&mut out, &small_word_exec(1));
        NonceHolderStep::Finished(returned(out, gas))
    } else {
        NonceHolderStep::Finished(returned(Vec::new(), gas))
    }
}

/// The rest of a `getDeploymentNonce` call, given the nonce of the loaded
/// account, or `None` when it could not be loaded: answers the nonce as a
/// word, 0 for an account that could not be loaded.
pub fn nonce_holder_finish(gas: Gas, nonce: Option<u64>) -> (o: CallOutcome)
    ensures
        o.status == crate::outcome::CallStatus::Return,
        o.gas == gas,
        o.output@.len() == 32,
        be_value(o.output@) == match nonce {
            Some(n) => n as nat,
            None => 0nat,
        },
{
    let n: u64 = match nonce {
        Some(n) => n,
        None => 0,
    };
    let word = word_from_u64(n);
    let mut out: Vec<u8> = Vec::new();
    push_slice(&mut out, &word);
    assert(out@ =~= word@);
    returned(out, gas)
}

} // verus!
