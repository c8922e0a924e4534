//! The L2 base token hook: `withdraw(address)` and
//! `withdrawWithMessage(address,bytes)` burn the value sent with the call
//! and send an L1 message that finalizes the withdrawal on L1.
use crate::gas::{Gas, warm_storage_read_cost};
use crate::l1_messenger::{
    L1MessageSent,
    address_word,
    describes_send,
    l1_message_body,
    l1_message_len,
    send_to_l1_charged,
    valid_l1_message,
};
use crate::outcome::{CallOutcome, is_out_of_gas, is_return, is_revert, oog_error, returned, revert};
use crate::request::{CallRequest, EvmLog, charged, fresh_gas, has_selector, has_selector_spec};
use crate::words::{
    Address,
    Word,
    all_zero,
    all_zero_spec,
    b160_to_b256,
    be_value,
    lemma_small_word_value,
    push_slice,
    push_zeros,
    small_word,
    small_word_exec,
    word_checked_sub,
    word_from_be_slice,
    word_from_u64,
    word_to_u32,
    zeros,
};
use vstd::prelude::*;
use vstd::slice::slice_subrange;

verus! {

/// The address of the L2 base token (0x800a).
pub const L2_BASE_TOKEN_ADDRESS: Address = [
    0, 0, 0, 0, 0, 0, 0, 0, 0, 0, 0, 0, 0, 0, 0, 0, 0, 0, 0x80, 0x0a,
];

/// `withdraw(address)`.
pub const WITHDRAW_SELECTOR: [u8; 4] = [0x51, 0xcf, 0xf8, 0xd9];

/// `withdrawWithMessage(address,bytes)`.
pub const WITHDRAW_WITH_MESSAGE_SELECTOR: [u8; 4] = [0x84, 0xbc, 0x3e, 0xb0];

/// `finalizeEthWithdrawal(uint256,uint256,uint16,bytes,bytes32[])` on L1.
pub const FINALIZE_ETH_WITHDRAWAL_SELECTOR: [u8; 4] = [0x6c, 0x09, 0x60, 0xf9];

/// The topic of `Withdrawal(address,address,uint256)`.
pub const WITHDRAWAL_TOPIC: Word = [
    0x27, 0x17, 0xea, 0xd6, 0xb9, 0x20, 0x0d, 0xd2, 0x35, 0xaa, 0xd4, 0x68, 0xc9, 0x80, 0x9e, 0xa4,
    0x00, 0xfe, 0x33, 0xac, 0x69, 0xb5, 0xbf, 0xaa, 0x6d, 0x3e, 0x90, 0xfc, 0x92, 0x2b, 0x63, 0x98,
];

/// The topic of `WithdrawalWithMessage(address,address,uint256,bytes)`.
pub const WITHDRAWAL_WITH_MESSAGE_TOPIC: Word = [
    0xc4, 0x05, 0xfe, 0x89, 0x58, 0x41, 0x0b, 0xba, 0xf0, 0xc7, 0x3b, 0x7a, 0x0c, 0x3e, 0x20, 0x85,
    0x9e, 0x86, 0xca, 0x16, 0x8a, 0x4c, 0x9b, 0x0d, 0xef, 0x9c, 0x54, 0xd2, 0x55, 0x5a, 0x30, 0x6b,
];

/// `n` rounded up to a multiple of 32.
pub open spec fn round_up_32(n: nat) -> nat {
    if n % 32 == 0 {
        n
    } else {
        (n + 32 - n % 32) as nat
    }
}

/// The L1 receiver that a `withdraw` or `withdrawWithMessage` call names: the
/// low 20 bytes of its first argument.
pub open spec fn receiver_of(calldata: Seq<u8>) -> Seq<u8> {
    calldata.subrange(16, 36)
}

/// Whether the first argument of the call is a well-formed address: its
/// twelve high bytes are zero.
pub open spec fn receiver_is_address(calldata: Seq<u8>) -> bool {
    all_zero_spec(calldata.subrange(4, 16))
}

/// The payload of `finalizeEthWithdrawal` on L1: selector, receiver, amount,
/// and for a withdrawal with a message, the L2 sender and the message.
pub open spec fn finalize_withdrawal_call(receiver: Seq<u8>, amount: Seq<u8>) -> Seq<u8> {
    FINALIZE_ETH_WITHDRAWAL_SELECTOR@ + receiver + amount
}

/// The ABI encoding of the L1 message of a plain withdrawal.
pub open spec fn withdraw_message(receiver: Seq<u8>, amount: Seq<u8>) -> Seq<u8> {
    small_word(32) + small_word(56) + finalize_withdrawal_call(receiver, amount) + zeros(8)
}

/// Whether `p` is the ABI encoding of the L1 message of a withdrawal with the
/// message `data`: offset 32, a length word for the 76 + `data.len()` bytes of
/// the message, the message, and zero padding to a multiple of 32 bytes.
pub open spec fn is_withdraw_with_message_message(
    p: Seq<u8>,
    receiver: Seq<u8>,
    amount: Seq<u8>,
    sender: Address,
    data: Seq<u8>,
) -> bool {
    &&& p.len() == round_up_32(140 + data.len())
    &&& p.subrange(0, 32) == small_word(32)
    &&& be_value(p.subrange(32, 64)) == 76 + data.len()
    &&& p.subrange(64, 140 + data.len() as int) == finalize_withdrawal_call(receiver, amount)
        + sender@ + data
    &&& all_zero_spec(p.subrange(140 + data.len() as int, p.len() as int))
}

/// The ABI-encoded data of a `WithdrawalWithMessage` event: the amount, the
/// offset 64, the length of the message, the message, and zero padding.
pub open spec fn is_withdrawal_with_message_event_data(
    d: Seq<u8>,
    amount: Seq<u8>,
    data: Seq<u8>,
) -> bool {
    &&& d.len() == round_up_32(96 + data.len())
    &&& d.subrange(0, 32) == amount
    &&& d.subrange(32, 64) == small_word(64)
    &&& be_value(d.subrange(64, 96)) == data.len()
    &&& d.subrange(96, 96 + data.len() as int) == data
    &&& all_zero_spec(d.subrange(96 + data.len() as int, d.len() as int))
}

/// The offset of the message argument of `withdrawWithMessage`.
pub open spec fn wwm_offset(calldata: Seq<u8>) -> nat {
    be_value(calldata.subrange(36, 68))
}

/// Where the length word of the message argument ends.
pub open spec fn wwm_length_end(calldata: Seq<u8>) -> nat {
    wwm_offset(calldata) + 36
}

/// The length that the message argument declares.
pub open spec fn wwm_data_len(calldata: Seq<u8>) -> nat {
    be_value(
        calldata.subrange(wwm_length_end(calldata) - 32, wwm_length_end(calldata) as int),
    )
}

/// The message argument of `withdrawWithMessage`.
pub open spec fn wwm_data(calldata: Seq<u8>) -> Seq<u8> {
    calldata.subrange(
        wwm_length_end(calldata) as int,
        (wwm_length_end(calldata) + wwm_data_len(calldata)) as int,
    )
}

/// Whether the arguments of a `withdrawWithMessage` call decode: the calldata
/// is short enough for 32-bit offsets, holds the two head words, and the
/// message lies within it.
pub open spec fn wwm_arguments_decode(calldata: Seq<u8>) -> bool {
    &&& calldata.len() <= u32::MAX
    &&& calldata.len() >= 68
    &&& wwm_length_end(calldata) <= calldata.len()
    &&& wwm_length_end(calldata) + wwm_data_len(calldata) <= calldata.len()
}

/// Whether the L1 message built for the call fits in 32-bit lengths; the
/// arithmetic on these lengths would overflow otherwise.
pub open spec fn wwm_message_fits(calldata: Seq<u8>) -> bool {
    wwm_arguments_decode(calldata) && receiver_is_address(calldata) ==> round_up_32(
        140 + wwm_data_len(calldata),
    ) <= u32::MAX
}

/// A withdrawal whose checks have passed. The host reads the balance of the
/// base token account and burns `amount` from it ([`burn`]), then sends
/// `payload` to L1 ([`withdrawal_send`]), appends `event` to the journal, and
/// charges the gas of that event ([`withdrawal_finish`]).
pub struct Withdrawal {
    pub gas: Gas,
    pub amount: Word,
    pub payload: Vec<u8>,
    pub message_len: u32,
    pub event: EvmLog,
}

/// Whether `w` is the withdrawal that a `withdraw` call plans.
pub open spec fn plans_withdraw(w: Withdrawal, req: CallRequest, gas: Gas) -> bool {
    let receiver = receiver_of(req.calldata@);
    &&& w.gas == gas
    &&& w.amount == req.value
    &&& w.payload@ == withdraw_message(receiver, req.value@)
    &&& valid_l1_message(w.payload@)
    &&& w.message_len == l1_message_len(w.payload@)
    &&& l1_message_body(w.payload@) == finalize_withdrawal_call(receiver, req.value@)
    &&& w.event.address == L2_BASE_TOKEN_ADDRESS
    &&& w.event.topics@.len() == 3
    &&& w.event.topics@[0] == WITHDRAWAL_TOPIC
    &&& w.event.topics@[1]@ == address_word(req.caller)
    &&& be_value(w.event.topics@[2]@) == be_value(receiver)
    &&& w.event.data@ == req.value@
}

/// Whether `w` is the withdrawal that a `withdrawWithMessage` call plans.
pub open spec fn plans_withdraw_with_message(w: Withdrawal, req: CallRequest, gas: Gas) -> bool {
    let receiver = receiver_of(req.calldata@);
    let data = wwm_data(req.calldata@);
    &&& w.gas == gas
    &&& w.amount == req.value
    &&& is_withdraw_with_message_message(w.payload@, receiver, req.value@, req.caller, data)
    &&& valid_l1_message(w.payload@)
    &&& w.message_len == l1_message_len(w.payload@)
    &&& l1_message_body(w.payload@) == finalize_withdrawal_call(receiver, req.value@) + req.caller@
        + data
    &&& w.event.address == L2_BASE_TOKEN_ADDRESS
    &&& w.event.topics@.len() == 3
    &&& w.event.topics@[0] == WITHDRAWAL_WITH_MESSAGE_TOPIC
    &&& w.event.topics@[1]@ == address_word(req.caller)
    &&& be_value(w.event.topics@[2]@) == be_value(receiver)
    &&& is_withdrawal_with_message_event_data(w.event.data@, req.value@, data)
}

/// `n` rounded up to a multiple of 32.
pub fn round_up_32_exec(n: u32) -> (r: u32)
    requires
        round_up_32(n as nat) <= u32::MAX,
    ensures
        r == round_up_32(n as nat),
{
    if n % 32 != 0 {
        n + (32 - n % 32)
    } else {
        n
    }
}

/// The encoding of a withdrawal message is accepted by the L1 messenger,
/// which sends the `finalizeEthWithdrawal` payload it carries.
pub proof fn lemma_withdraw_message_valid(receiver: Seq<u8>, amount: Seq<u8>)
    requires
        receiver.len() == 20,
        amount.len() == 32,
    ensures
        valid_l1_message(withdraw_message(receiver, amount)),
        l1_message_len(withdraw_message(receiver, amount)) == 56,
        l1_message_body(withdraw_message(receiver, amount)) == finalize_withdrawal_call(
            receiver,
            amount,
        ),
{
    let p = withdraw_message(receiver, amount);
    lemma_small_word_value(32);
    lemma_small_word_value(56);
    assert(p.subrange(0, 32) =~= small_word(32));
    assert(p.subrange(32, 64) =~= small_word(56));
    assert(p.len() == 128);
    assert(l1_message_body(p) =~= finalize_withdrawal_call(receiver, amount));
}

/// The encoding of a withdrawal with a message is accepted by the L1
/// messenger, which sends the payload it carries.
pub proof fn lemma_withdraw_with_message_message_valid(
    p: Seq<u8>,
    receiver: Seq<u8>,
    amount: Seq<u8>,
    sender: Address,
    data: Seq<u8>,
)
    requires
        receiver.len() == 20,
        amount.len() == 32,
        is_withdraw_with_message_message(p, receiver, amount, sender, data),
        p.len() <= u32::MAX,
    ensures
        valid_l1_message(p),
        l1_message_len(p) == 76 + data.len(),
        l1_message_body(p) == finalize_withdrawal_call(receiver, amount) + sender@ + data,
{
    lemma_small_word_value(32);
    assert(l1_message_body(p) =~= p.subrange(64, 140 + data.len() as int));
}

/// The message of a plain withdrawal.
pub fn withdraw_message_exec(receiver: &[u8], amount: &Word) -> (p: Vec<u8>)
    requires
        receiver@.len() == 20,
    ensures
        p@ == withdraw_message(receiver@, amount@),
{
    let mut p: Vec<u8> = Vec::new();
    push_slice(&mut p, &small_word_exec(32));
    push_slice(&mut p, &small_word_exec(56));
    push_slice(&mut p, &FINALIZE_ETH_WITHDRAWAL_SELECTOR);
    push_slice(&mut p, receiver);
    push_slice(&mut p, amount);
    push_zeros(&mut p, 8);
    assert(p@ =~= withdraw_message(receiver@, amount@));
    p
}

/// The message of a withdrawal with the message `data`.
pub fn withdraw_with_message_message_exec(
    receiver: &[u8],
    amount: &Word,
    sender: &Address,
    data: &[u8],
) -> (p: Vec<u8>)
    requires
        receiver@.len() == 20,
        round_up_32(140 + data@.len()) <= u32::MAX,
    ensures
        is_withdraw_with_message_message(p@, receiver@, amount@, *sender, data@),
{
    let length: u32 = data.len() as u32;
    let message_length: u32 = 76 + length;
    let encoded_length: u32 = round_up_32_exec(32 + 32 + message_length);
    let mut p: Vec<u8> = Vec::new();
    push_slice(&mut p, &small_word_exec(32));
    let length_word = word_from_u64(message_length as u64);
    push_slice(&mut p, &length_word);
    push_slice(&mut p, &FINALIZE_ETH_WITHDRAWAL_SELECTOR);
    push_slice(&mut p, receiver);
    push_slice(&mut p, amount);
    push_slice(&mut p, sender);
    push_slice(&mut p, data);
    let filled: usize = p.len();
    push_zeros(&mut p, encoded_length as usize - filled);
    assert(p@.subrange(0, 32) =~= small_word(32));
    assert(p@.subrange(32, 64) =~= length_word@);
    assert(p@.len() == encoded_length);
    assert(p@.subrange(64, 140 + data@.len() as int) =~= finalize_withdrawal_call(
        receiver@,
        amount@,
    ) + sender@ + data@);
    assert(p@.subrange(140 + data@.len() as int, p@.len() as int) =~= zeros(
        (encoded_length - filled) as nat,
    ));
    p
}

/// The data of a `WithdrawalWithMessage` event.
pub fn withdrawal_with_message_event_data(amount: &Word, data: &[u8]) -> (d: Vec<u8>)
    requires
        round_up_32(96 + data@.len()) <= u32::MAX,
    ensures
        is_withdrawal_with_message_event_data(d@, amount@, data@),
{
    let length: usize = data.len();
    let rem: usize = (96 + length) % 32;
    let encoded_length: usize = if rem != 0 {
        96 + length + (32 - rem)
    } else {
        96 + length
    };
    let mut d: Vec<u8> = Vec::new();
    push_slice(&mut d, amount);
    push_slice(&mut d, &small_word_exec(64));
    let length_word = word_from_u64(length as u64);
    push_slice(&mut d, &length_word);
    push_slice(&mut d, data);
    let filled: usize = d.len();
    push_zeros(&mut d, encoded_length - filled);
    assert(d@.subrange(0, 32) =~= amount@);
    assert(d@.subrange(32, 64) =~= small_word(64));
    assert(d@.subrange(64, 96) =~= length_word@);
    assert(d@.len() == encoded_length);
    assert(d@.subrange(96, 96 + data@.len() as int) =~= data@);
    assert(d@.subrange(96 + data@.len() as int, d@.len() as int) =~= zeros(
        (encoded_length - filled) as nat,
    ));
    d
}

/// The three topics of a withdrawal event.
fn withdrawal_topics(topic: Word, caller: &Address, receiver: &[u8]) -> (t: Vec<Word>)
    requires
        receiver@.len() == 20,
    ensures
        t@.len() == 3,
        t@[0] == topic,
        t@[1]@ == address_word(*caller),
        be_value(t@[2]@) == be_value(receiver@),
{
    let mut t: Vec<Word> = Vec::new();
    t.push(topic);
    t.push(b160_to_b256(caller));
    t.push(word_from_be_slice(receiver));
    t
}

/// Plans a `withdraw(address)` call: checks the receiver argument, builds
/// the L1 message and the `Withdrawal` event, and charges the read of the
/// base token balance.
fn withdraw(req: &CallRequest, gas: Gas) -> (r: Result<Withdrawal, CallOutcome>)
    requires
        has_selector_spec(req.calldata@, WITHDRAW_SELECTOR@),
    ensures
        if req.calldata@.len() > u32::MAX || req.calldata@.len() < 36 || !receiver_is_address(
            req.calldata@,
        ) {
            r matches Err(o) && is_revert(o, gas)
        } else if gas.remaining < 100 {
            r matches Err(o) && is_out_of_gas(o)
        } else {
            r matches Ok(w) && plans_withdraw(w, *req, charged(gas, 100))
        },
{
    let mut gas = gas;
    let calldata = req.calldata.as_slice();
    if calldata.len() > u32::MAX as usize || calldata.len() < 36 {
        return Err(revert(gas));
    }
    if !all_zero(calldata, 4, 16) {
        return Err(revert(gas));
    }
    let receiver = slice_subrange(calldata, 16, 36);
    let payload = withdraw_message_exec(receiver, &req.value);
    proof {
        lemma_withdraw_message_valid(receiver@, req.value@);
    }
    if !gas.record_cost(warm_storage_read_cost()) {
        return Err(oog_error());
    }
    let topics = withdrawal_topics(WITHDRAWAL_TOPIC, &req.caller, receiver);
    let mut data: Vec<u8> = Vec::new();
    push_slice(&mut data, &req.value);
    assert(data@ =~= req.value@);
    let event = EvmLog { address: L2_BASE_TOKEN_ADDRESS, topics, data };
    Ok(Withdrawal { gas, amount: req.value, payload, message_len: 56, event })
}

/// Decodes the head of a `withdrawWithMessage` call: where its message
/// argument starts and ends in the calldata, or `None` when the offsets do
/// not decode or point past the calldata.
pub fn decode_withdraw_with_message(calldata: &[u8]) -> (r: Option<(usize, usize)>)
    ensures
        r is Some <==> wwm_arguments_decode(calldata@),
        r matches Some((a, b)) ==> a == wwm_length_end(calldata@) && b == wwm_length_end(
            calldata@,
        ) + wwm_data_len(calldata@),
{
    if calldata.len() > u32::MAX as usize {
        return None;
    }
    let calldata_len: u32 = calldata.len() as u32;
    if calldata_len < 68 {
        return None;
    }
    let message_offset = match word_to_u32(slice_subrange(calldata, 36, 68)) {
        Some(o) => o,
        None => return None,
    };
    let length_encoding_end = match message_offset.checked_add(36) {
        Some(e) => e,
        None => return None,
    };
    if calldata_len < length_encoding_end {
        return None;
    }
    let length = match word_to_u32(
        slice_subrange(calldata, length_encoding_end as usize - 32, length_encoding_end as usize),
    ) {
        Some(l) => l,
        None => return None,
    };
    let message_end = match length_encoding_end.checked_add(length) {
        Some(e) => e,
        None => return None,
    };
    if calldata_len < message_end {
        return None;
    }
    Some((length_encoding_end as usize, message_end as usize))
}

/// Whether the L1 message that a `withdrawWithMessage` call would build fits
/// in 32-bit lengths; a host checks this before [`l2_base_token_begin`], as
/// the length arithmetic would overflow otherwise.
pub fn withdraw_with_message_fits(calldata: &[u8]) -> (r: bool)
    ensures
        r == wwm_message_fits(calldata@),
{
    match decode_withdraw_with_message(calldata) {
        None => true,
        Some((data_start, data_end)) => {
            if !all_zero(calldata, 4, 16) {
                return true;
            }
            let n: u64 = 140 + (data_end - data_start) as u64;
            let rounded: u64 = if n % 32 == 0 {
                n
            } else {
                n + (32 - n % 32)
            };
            rounded <= u32::MAX as u64
        },
    }
}

/// Plans a `withdrawWithMessage(address,bytes)` call: decodes the message
/// argument, checks the receiver, builds the L1 message and the
/// `WithdrawalWithMessage` event, and charges the read of the base token
/// balance.
fn withdraw_with_message(req: &CallRequest, gas: Gas) -> (r: Result<Withdrawal, CallOutcome>)
    requires
        has_selector_spec(req.calldata@, WITHDRAW_WITH_MESSAGE_SELECTOR@),
        wwm_message_fits(req.calldata@),
    ensures
        if !wwm_arguments_decode(req.calldata@) || !receiver_is_address(req.calldata@) {
            r matches Err(o) && is_revert(o, gas)
        } else if gas.remaining < 100 {
            r matches Err(o) && is_out_of_gas(o)
        } else {
            r matches Ok(w) && plans_withdraw_with_message(w, *req, charged(gas, 100))
        },
{
    let mut gas = gas;
    let calldata = req.calldata.as_slice();
    let (data_start, data_end) = match decode_withdraw_with_message(calldata) {
        Some(range) => range,
        None => return Err(revert(gas)),
    };
    let additional_data = slice_subrange(calldata, data_start, data_end);
    assert(additional_data@ == wwm_data(calldata@));
    if !all_zero(calldata, 4, 16) {
        return Err(revert(gas));
    }
    let receiver = slice_subrange(calldata, 16, 36);
    let payload = withdraw_with_message_message_exec(
        receiver,
        &req.value,
        &req.caller,
        additional_data,
    );
    proof {
        lemma_withdraw_with_message_message_valid(
            payload@,
            receiver@,
            req.value@,
            req.caller,
            additional_data@,
        );
    }
    if !gas.record_cost(warm_storage_read_cost()) {
        return Err(oog_error());
    }
    let topics = withdrawal_topics(WITHDRAWAL_WITH_MESSAGE_TOPIC, &req.caller, receiver);
    let data = withdrawal_with_message_event_data(&req.value, additional_data);
    let event = EvmLog { address: L2_BASE_TOKEN_ADDRESS, topics, data };
    Ok(
        Withdrawal {
            gas,
            amount: req.value,
            payload,
            message_len: 76 + additional_data.len() as u32,
            event,
        },
    )
}

/// What a call to the L2 base token decides in its first part, given the
/// request, whether it is a delegate call and the base cost of a hook.
pub open spec fn l2_base_token_begin_outcome(req: CallRequest, is_delegate: bool, hook_base_cost: u64, r: Result<Withdrawal, CallOutcome>) -> bool {
    let g0 = fresh_gas(req.gas_limit);
    let g1 = charged(g0, hook_base_cost);
    let g2 = charged(g1, 100);
    let cd = req.calldata@;
    if is_delegate {
        r matches Err(o) && is_revert(o, g0)
    } else if hook_base_cost > req.gas_limit {
        r matches Err(o) && is_out_of_gas(o)
    } else if req.is_static {
        r matches Err(o) && is_revert(o, g1)
    } else if has_selector_spec(cd, WITHDRAW_SELECTOR@) {
        if cd.len() > u32::MAX || cd.len() < 36 || !receiver_is_address(cd) {
            r matches Err(o) && is_revert(o, g1)
        } else if g1.remaining < 100 {
            r matches Err(o) && is_out_of_gas(o)
        } else {
            r matches Ok(w) && plans_withdraw(w, req, g2)
        }
    } else if has_selector_spec(cd, WITHDRAW_WITH_MESSAGE_SELECTOR@) {
        if !wwm_arguments_decode(cd) || !receiver_is_address(cd) {
            r matches Err(o) && is_revert(o, g1)
        } else if g1.remaining < 100 {
            r matches Err(o) && is_out_of_gas(o)
        } else {
            r matches Ok(w) && plans_withdraw_with_message(w, req, g2)
        }
    } else {
        r matches Err(o) && is_revert(o, g1)
    }
}

/// The first part of a call to the L2 base token. It refuses delegate calls,
/// charges the base cost of a hook, refuses static calls, and plans a
/// `withdraw` or `withdrawWithMessage`; any other selector is refused.
pub fn l2_base_token_begin(req: &CallRequest, is_delegate: bool, hook_base_cost: u64) -> (r: Result<
    Withdrawal,
    CallOutcome,
>)
    requires
        !is_delegate && hook_base_cost <= req.gas_limit && !req.is_static && has_selector_spec(
            req.calldata@,
            WITHDRAW_WITH_MESSAGE_SELECTOR@,
        ) ==> wwm_message_fits(req.calldata@),
    ensures
        l2_base_token_begin_outcome(*req, is_delegate, hook_base_cost, r),
{
    let mut gas = Gas::new(req.gas_limit);
    if is_delegate {
        return Err(revert(gas));
    }
    if !gas.record_cost(hook_base_cost) {
        return Err(oog_error());
    }
    if req.is_static {
        return Err(revert(gas));
    }
    if req.calldata.len() < 4 {
        return Err(revert(gas));
    }
    if has_selector(req.calldata.as_slice(), &WITHDRAW_SELECTOR) {
        withdraw(req, gas)
    } else if has_selector(req.calldata.as_slice(), &WITHDRAW_WITH_MESSAGE_SELECTOR) {
        withdraw_with_message(req, gas)
    } else {
        Err(revert(gas))
    }
}

/// Burns `amount` from `balance`: the new balance, or `None` when the
/// balance is too small.
pub fn burn(balance: &Word, amount: &Word) -> (r: Option<Word>)
    ensures
        match r {
            Some(b) => be_value(amount@) <= be_value(balance@) && be_value(b@) == be_value(balance@)
                - be_value(amount@),
            None => be_value(balance@) < be_value(amount@),
        },
{
    word_checked_sub(balance, amount)
}

/// Burns the amount of a planned withdrawal from the balance of the base
/// token account: the new balance, or, when the balance is smaller than the
/// amount, the refusal of the call with the gas left after the planning.
pub fn withdrawal_burn(gas: Gas, amount: &Word, balance: &Word) -> (r: Result<Word, CallOutcome>)
    ensures
        be_value(balance@) >= be_value(amount@) ==> (r matches Ok(b) && be_value(b@) == be_value(
            balance@,
        ) - be_value(amount@)),
        be_value(balance@) < be_value(amount@) ==> (r matches Err(o) && is_revert(o, gas)),
{
    match burn(balance, amount) {
        Some(b) => Ok(b),
        None => Err(revert(gas)),
    }
}

/// Sends the L1 message of a withdrawal whose amount has been burnt, once its
/// price is known: the L1 message gas of `message_len` bytes plus the gas of a
/// three-topic log of the payload.
pub fn withdrawal_send(w: &mut Withdrawal, cost: u64) -> (r: Result<L1MessageSent, CallOutcome>)
    requires
        valid_l1_message(old(w).payload@),
        old(w).message_len == l1_message_len(old(w).payload@),
    ensures
        final(w).amount == old(w).amount,
        final(w).event == old(w).event,
        final(w).payload@ == old(w).payload@,
        final(w).message_len == old(w).message_len,
        cost <= old(w).gas.remaining ==> {
            &&& final(w).gas == charged(old(w).gas, cost)
            &&& r matches Ok(s) && describes_send(s, old(w).payload@, L2_BASE_TOKEN_ADDRESS)
        },
        cost > old(w).gas.remaining ==> {
            &&& final(w).gas == old(w).gas
            &&& r matches Err(o) && is_out_of_gas(o)
        },
{
    let payload = w.payload.clone();
    proof {
        assert(payload@ =~= w.payload@);
    }
    send_to_l1_charged(&mut w.gas, cost, payload, w.message_len, L2_BASE_TOKEN_ADDRESS)
}

/// Ends a withdrawal whose event has been emitted: charges the gas of that
/// event and returns nothing, or runs out of gas.
pub fn withdrawal_finish(gas: Gas, event_cost: u64) -> (o: CallOutcome)
    ensures
        event_cost <= gas.remaining ==> is_return(o, Seq::<u8>::empty(), charged(gas, event_cost)),
        event_cost > gas.remaining ==> is_out_of_gas(o),
{
    let mut gas = gas;
    if !gas.record_cost(event_cost) {
        return oog_error();
    }
    returned(Vec::new(), gas)
}

} // verus!
