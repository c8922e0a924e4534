//! The L1 messenger hook (`sendToL1(bytes)`) and the sending of an
//! ABI-encoded message to L1, which the L2 base token hook shares.
use crate::gas::Gas;
use crate::outcome::{CallOutcome, is_out_of_gas, is_return, is_revert, oog_error, returned, revert};
use crate::request::{
    CallRequest,
    EvmLog,
    charged,
    fresh_gas,
    has_selector,
    has_selector_spec,
    refuses_delegate_or_value,
    tail_from,
};
use crate::words::{Address, Word, b160_to_b256, be_value, keccak256, keccak256_of, word_is_zero, word_to_u32, zeros};
use vstd::prelude::*;
use vstd::slice::slice_subrange;

verus! {

/// `sendToL1(bytes)`.
pub const SEND_TO_L1_SELECTOR: [u8; 4] = [0x62, 0xf8, 0x4b, 0x24];

/// The address of the L1 messenger (0x8008).
pub const L1_MESSENGER_ADDRESS: Address = [
    0, 0, 0, 0, 0, 0, 0, 0, 0, 0, 0, 0, 0, 0, 0, 0, 0, 0, 0x80, 0x08,
];

/// The topic of the `L1MessageSent(address,bytes32,bytes)` event.
pub const L1_MESSAGE_SENT_TOPIC: Word = [
    0x3a, 0x36, 0xe4, 0x72, 0x91, 0xf4, 0x20, 0x1f, 0xaf, 0x13, 0x7f, 0xab, 0x08, 0x1d, 0x92, 0x29,
    0x5b, 0xce, 0x2d, 0x53, 0xbe, 0x2c, 0x6c, 0xa6, 0x8b, 0xa8, 0x2c, 0x7f, 0xaa, 0x9c, 0xe2, 0x41,
];

/// The size of a serialized L2→L1 log.
pub const L2_TO_L1_LOG_SERIALIZE_SIZE: usize = 88;

/// The word that holds an address left-padded with zeros.
pub open spec fn address_word(a: Address) -> Seq<u8> {
    zeros(12) + a@
}

/// The message length that an ABI-encoded `bytes` argument declares.
pub open spec fn l1_message_len(data: Seq<u8>) -> nat {
    be_value(data.subrange(32, 64))
}

/// Whether `data` is an accepted ABI encoding of one `bytes` value: its
/// length fits in 32 bits and is a multiple of 32, the offset word is 32, and
/// the declared message fits after the length word.
pub open spec fn valid_l1_message(data: Seq<u8>) -> bool {
    &&& data.len() <= u32::MAX
    &&& data.len() >= 64
    &&& be_value(data.subrange(0, 32)) == 32
    &&& 64 + l1_message_len(data) <= data.len()
    &&& data.len() % 32 == 0
}

/// The message that an accepted encoding carries.
pub open spec fn l1_message_body(data: Seq<u8>) -> Seq<u8> {
    data.subrange(64, 64 + l1_message_len(data) as int)
}

/// What sending the encoded message `payload` on behalf of `caller` does: the
/// message hash, the `L1MessageSent` event of the messenger, and the L2→L1 log
/// (sender: the messenger, key: the caller's word, value: the hash).
pub struct L1MessageSent {
    pub hash: Word,
    pub event: EvmLog,
    pub log_sender: Address,
    pub log_key: Word,
    pub log_value: Word,
}

/// Whether `s` is what sending `payload` for `caller` does.
pub open spec fn describes_send(s: L1MessageSent, payload: Seq<u8>, caller: Address) -> bool {
    &&& s.hash@ == keccak256_of(l1_message_body(payload))
    &&& s.event.address == L1_MESSENGER_ADDRESS
    &&& s.event.topics@.len() == 3
    &&& s.event.topics@[0] == L1_MESSAGE_SENT_TOPIC
    &&& s.event.topics@[1]@ == address_word(caller)
    &&& s.event.topics@[2] == s.hash
    &&& s.event.data@ == payload
    &&& s.log_sender == L1_MESSENGER_ADDRESS
    &&& s.log_key@ == address_word(caller)
    &&& s.log_value == s.hash
}

/// Checks an ABI-encoded message; gives the declared message length when it
/// is accepted.
pub fn validate_l1_message(data: &[u8]) -> (r: Option<u32>)
    ensures
        r is Some <==> valid_l1_message(data@),
        r matches Some(n) ==> n == l1_message_len(data@),
{
    if data.len() > u32::MAX as usize {
        return None;
    }
    let len: u32 = data.len() as u32;
    if len < 32 {
        return None;
    }
    let message_offset = match word_to_u32(slice_subrange(data, 0, 32)) {
        Some(o) => o,
        None => return None,
    };
    if message_offset != 32 {
        return None;
    }
    let length_encoding_end: u32 = message_offset + 32;
    if len < length_encoding_end {
        return None;
    }
    let length = match word_to_u32(slice_subrange(data, 32, 64)) {
        Some(l) => l,
        None => return None,
    };
    let message_end = match length_encoding_end.checked_add(length) {
        Some(e) => e,
        None => return None,
    };
    if len < message_end {
        return None;
    }
    if len % 32 != 0 {
        return None;
    }
    Some(length)
}

/// Charges `cost` (the L1 message gas plus the gas of a three-topic log of
/// the payload) and, if it is paid, sends the message: it hashes the message
/// and gives the event and the L2→L1 log to record. Unpaid, the call runs out
/// of gas and nothing is sent.
pub fn send_to_l1_charged(
    gas: &mut Gas,
    cost: u64,
    payload: Vec<u8>,
    message_len: u32,
    caller: Address,
) -> (r: Result<L1MessageSent, CallOutcome>)
    requires
        valid_l1_message(payload@),
        message_len == l1_message_len(payload@),
    ensures
        cost <= old(gas).remaining ==> {
            &&& *final(gas) == charged(*old(gas), cost)
            &&& r matches Ok(s) && describes_send(s, payload@, caller)
        },
        cost > old(gas).remaining ==> {
            &&& *final(gas) == *old(gas)
            &&& r matches Err(o) && is_out_of_gas(o)
        },
{
    if !gas.record_cost(cost) {
        return Err(oog_error());
    }
    let message_end: usize = 64 + message_len as usize;
    let message = slice_subrange(payload.as_slice(), 64, message_end);
    let hash = keccak256(message);
    let caller_word = b160_to_b256(&caller);
    let mut topics: Vec<Word> = Vec::new();
    topics.push(L1_MESSAGE_SENT_TOPIC);
    topics.push(caller_word);
    topics.push(hash);
    let event = EvmLog { address: L1_MESSENGER_ADDRESS, topics, data: payload };
    Ok(
        L1MessageSent {
            hash,
            event,
            log_sender: L1_MESSENGER_ADDRESS,
            log_key: caller_word,
            log_value: hash,
        },
    )
}

/// A messenger call that has passed its checks and waits for the price of
/// sending its message: the L1 message gas of `message_len` bytes plus the
/// gas of a log with three topics and `payload.len()` bytes of data.
pub struct PendingL1Message {
    pub gas: Gas,
    pub payload: Vec<u8>,
    pub message_len: u32,
    pub caller: Address,
}

/// The first part of a call to the L1 messenger. It refuses delegate calls
/// and calls with value, charges the base cost of a hook, refuses static
/// calls and anything but `sendToL1` with a well-formed message.
pub fn l1_messenger_begin(req: &CallRequest, is_delegate: bool, hook_base_cost: u64) -> (r: Result<
    PendingL1Message,
    CallOutcome,
>)
    ensures
        ({
            let g0 = fresh_gas(req.gas_limit);
            let g1 = charged(g0, hook_base_cost);
            let payload = req.calldata@.subrange(4, req.calldata@.len() as int);
            if refuses_delegate_or_value(*req, is_delegate) {
                r matches Err(o) && is_revert(o, g0)
            } else if hook_base_cost > req.gas_limit {
                r matches Err(o) && is_out_of_gas(o)
            } else if req.is_static || !has_selector_spec(req.calldata@, SEND_TO_L1_SELECTOR@)
                || !valid_l1_message(payload) {
                r matches Err(o) && is_revert(o, g1)
            } else {
                r matches Ok(p) && p.gas == g1 && p.payload@ == payload && p.message_len
                    == l1_message_len(payload) && p.caller == req.caller
            }
        }),
{
    let mut gas = Gas::new(req.gas_limit);
    if is_delegate || !word_is_zero(&req.value) {
        return Err(revert(gas));
    }
    if !gas.record_cost(hook_base_cost) {
        return Err(oog_error());
    }
    if req.is_static {
        return Err(revert(gas));
    }
    if req.calldata.len() < 4 {
        return Err(revert(gas));
    }
    if !has_selector(req.calldata.as_slice(), &SEND_TO_L1_SELECTOR) {
        return Err(revert(gas));
    }
    let payload = tail_from(req.calldata.as_slice(), 4);
    match validate_l1_message(payload.as_slice()) {
        Some(message_len) => Ok(PendingL1Message { gas, payload, message_len, caller: req.caller }),
        None => Err(revert(gas)),
    }
}

/// The rest of a messenger call, once the price of the message is known:
/// sends it and returns its hash, or runs out of gas. When a message is sent,
/// its event and L2→L1 log come with the outcome.
pub fn l1_messenger_finish(pending: PendingL1Message, cost: u64) -> (r: (
    CallOutcome,
    Option<L1MessageSent>,
))
    requires
        valid_l1_message(pending.payload@),
        pending.message_len == l1_message_len(pending.payload@),
    ensures
        cost <= pending.gas.remaining ==> {
            &&& r.1 matches Some(s) && describes_send(s, pending.payload@, pending.caller)
            &&& is_return(r.0, keccak256_of(l1_message_body(pending.payload@)), charged(pending.gas, cost))
        },
        cost > pending.gas.remaining ==> r.1 is None && is_out_of_gas(r.0),
{
    let mut gas = pending.gas;
    match send_to_l1_charged(&mut gas, cost, pending.payload, pending.message_len, pending.caller) {
        Ok(sent) => {
            let mut output: Vec<u8> = Vec::new();
            crate::words::push_slice(&mut output, &sent.hash);
            assert(output@ =~= sent.hash@);
            (returned(output, gas), Some(sent))
        }
        Err(o) => (o, None),
    }
}

} // verus!
