//! The L2 base token hook of the first protocol version: the same two
//! withdrawals, charged one unit of gas, without events of their own.
use crate::gas::Gas;
use crate::l1_messenger::{l1_message_body, valid_l1_message};
use crate::l2_base_token::{
    WITHDRAW_SELECTOR,
    WITHDRAW_WITH_MESSAGE_SELECTOR,
    decode_withdraw_with_message,
    finalize_withdrawal_call,
    is_withdraw_with_message_message,
    lemma_withdraw_message_valid,
    lemma_withdraw_with_message_message_valid,
    receiver_is_address,
    receiver_of,
    withdraw_message,
    withdraw_message_exec,
    withdraw_with_message_message_exec,
    wwm_arguments_decode,
    wwm_data,
    wwm_message_fits,
};
use crate::outcome::{CallOutcome, is_out_of_gas, is_revert, oog_error, revert};
use crate::request::{CallRequest, charged, fresh_gas, has_selector, has_selector_spec};
use crate::words::{Word, all_zero};
use vstd::prelude::*;
use vstd::slice::slice_subrange;

verus! {

/// A withdrawal of the first version whose checks have passed. The host
/// burns `amount` from the base token account and sends `payload` through
/// the L1 messenger of the same version.
pub struct V1Withdrawal {
    pub gas: Gas,
    pub amount: Word,
    pub payload: Vec<u8>,
}

/// Whether `w` is the withdrawal that a `withdraw` call plans.
pub open spec fn plans_v1_withdraw(w: V1Withdrawal, req: CallRequest, gas: Gas) -> bool {
    let receiver = receiver_of(req.calldata@);
    &&& w.gas == gas
    &&& w.amount == req.value
    &&& w.payload@ == withdraw_message(receiver, req.value@)
    &&& valid_l1_message(w.payload@)
    &&& l1_message_body(w.payload@) == finalize_withdrawal_call(receiver, req.value@)
}

/// Whether `w` is the withdrawal that a `withdrawWithMessage` call plans.
pub open spec fn plans_v1_withdraw_with_message(
    w: V1Withdrawal,
    req: CallRequest,
    gas: Gas,
) -> bool {
    let receiver = receiver_of(req.calldata@);
    let data = wwm_data(req.calldata@);
    &&& w.gas == gas
    &&& w.amount == req.value
    &&& is_withdraw_with_message_message(w.payload@, receiver, req.value@, req.caller, data)
    &&& valid_l1_message(w.payload@)
    &&& l1_message_body(w.payload@) == finalize_withdrawal_call(receiver, req.value@) + req.caller@
        + data
}

/// What a call to the base token of the first version decides in its first
/// part, given the request and whether it is a delegate call.
pub open spec fn l2_base_token_v1_begin_outcome(req: CallRequest, is_delegate: bool, r: Result<V1Withdrawal, CallOutcome>) -> bool {
    let g0 = fresh_gas(req.gas_limit);
    let g1 = charged(g0, 1);
    let cd = req.calldata@;
    if is_delegate {
        r matches Err(o) && is_revert(o, g0)
    } else if req.gas_limit < 1 {
        r matches Err(o) && is_out_of_gas(o)
    } else if req.is_static {
        r matches Err(o) && is_revert(o, g1)
    } else if has_selector_spec(cd, WITHDRAW_SELECTOR@) {
        if cd.len() > u32::MAX || cd.len() < 36 || !receiver_is_address(cd) {
            r matches Err(o) && is_revert(o, g1)
        } else {
            r matches Ok(w) && plans_v1_withdraw(w, req, g1)
        }
    } else if has_selector_spec(cd, WITHDRAW_WITH_MESSAGE_SELECTOR@) {
        if !wwm_arguments_decode(cd) || !receiver_is_address(cd) {
            r matches Err(o) && is_revert(o, g1)
        } else {
            r matches Ok(w) && plans_v1_withdraw_with_message(w, req, g1)
        }
    } else {
        r matches Err(o) && is_revert(o, g1)
    }
}

/// The first part of a call to the base token of the first version: refuses
/// delegate calls, charges one unit of gas, refuses static calls, and plans a
/// withdrawal; any other selector is refused.
pub fn l2_base_token_v1_begin(req: &CallRequest, is_delegate: bool) -> (r: Result<
    V1Withdrawal,
    CallOutcome,
>)
    requires
        !is_delegate && req.gas_limit >= 1 && !req.is_static && has_selector_spec(
            req.calldata@,
            WITHDRAW_WITH_MESSAGE_SELECTOR@,
        ) ==> wwm_message_fits(req.calldata@),
    ensures
        l2_base_token_v1_begin_outcome(*req, is_delegate, r),
{
    let mut gas = Gas::new(req.gas_limit);
    if is_delegate {
        return Err(revert(gas));
    }
    if !gas.record_cost(1) {
        return Err(oog_error());
    }
    if req.is_static {
        return Err(revert(gas));
    }
    let calldata = req.calldata.as_slice();
    if calldata.len() < 4 || calldata.len() > u32::MAX as usize {
        return Err(revert(gas));
    }
    if has_selector(calldata, &WITHDRAW_SELECTOR) {
        if calldata.len() < 36 || !all_zero(calldata, 4, 16) {
            return Err(revert(gas));
        }
        let receiver = slice_subrange(calldata, 16, 36);
        let payload = withdraw_message_exec(receiver, &req.value);
        proof {
            lemma_withdraw_message_valid(receiver@, req.value@);
        }
        Ok(V1Withdrawal { gas, amount: req.value, payload })
    } else if has_selector(calldata, &WITHDRAW_WITH_MESSAGE_SELECTOR) {
        let (data_start, data_end) = match decode_withdraw_with_message(calldata) {
            Some(range) => range,
            None => return Err(revert(gas)),
        };
        let additional_data = slice_subrange(calldata, data_start, data_end);
        if !all_zero(calldata, 4, 16) {
            return Err(revert(gas));
        }
        let receiver = slice_subrange(calldata, 16, 36);
        let payload = withdraw_with_message_message_exec(
            receiver,
            &req.value,
            &req.caller,
            additional_data,
        );
        proof {
            lemma_withdraw_with_message_message_valid(
                payload@,
                receiver@,
                req.value@,
                req.caller,
                additional_data@,
            );
        }
        Ok(V1Withdrawal { gas, amount: req.value, payload })
    } else {
        Err(revert(gas))
    }
}

} // verus!
