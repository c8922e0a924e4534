use revm::primitives::{keccak256, U256};
use zkos_hooks::gas::Gas;
use zkos_hooks::l1_messenger::{
    l1_messenger_begin, l1_messenger_finish, send_to_l1_charged, validate_l1_message,
    L1_MESSAGE_SENT_TOPIC, L1_MESSENGER_ADDRESS, SEND_TO_L1_SELECTOR,
};
use zkos_hooks::l2_base_token::{
    burn, decode_withdraw_with_message, l2_base_token_begin, withdrawal_burn, withdrawal_finish,
    withdrawal_send,
    FINALIZE_ETH_WITHDRAWAL_SELECTOR, L2_BASE_TOKEN_ADDRESS, WITHDRAWAL_TOPIC,
    WITHDRAWAL_WITH_MESSAGE_TOPIC, WITHDRAW_SELECTOR, WITHDRAW_WITH_MESSAGE_SELECTOR,
};
use zkos_hooks::l2_base_token_v1::l2_base_token_v1_begin;
use zkos_hooks::outcome::CallStatus;
use zkos_hooks::request::CallRequest;

fn word(x: u64) -> [u8; 32] {
    U256::from(x).to_be_bytes::<32>()
}

fn addr(last: u8) -> [u8; 20] {
    let mut a = [0u8; 20];
    a[19] = last;
    a
}

fn encode_bytes(msg: &[u8]) -> Vec<u8> {
    let mut v = Vec::new();
    v.extend_from_slice(&word(32));
    v.extend_from_slice(&word(msg.len() as u64));
    v.extend_from_slice(msg);
    while v.len() % 32 != 0 {
        v.push(0);
    }
    v
}

fn request(calldata: Vec<u8>, value: u64, gas_limit: u64) -> CallRequest {
    CallRequest { calldata, caller: addr(0x42), value: word(value), gas_limit, is_static: false }
}

#[test]
fn messenger_sends_message_and_returns_its_hash() {
    let msg = b"hello L1".to_vec();
    let mut calldata = SEND_TO_L1_SELECTOR.to_vec();
    calldata.extend(encode_bytes(&msg));
    let req = request(calldata.clone(), 0, 10_000);
    let pending = match l1_messenger_begin(&req, false, 100) {
        Ok(p) => p,
        Err(_) => panic!("accepted call refused"),
    };
    assert_eq!(pending.gas.remaining, 9_900);
    assert_eq!(pending.message_len, 8);
    assert_eq!(pending.payload, calldata[4..].to_vec());
    let (outcome, sent) = l1_messenger_finish(pending, 1_000);
    let sent = sent.unwrap();
    assert_eq!(outcome.status, CallStatus::Return);
    assert_eq!(outcome.gas.remaining, 8_900);
    assert_eq!(outcome.output, keccak256(&msg).0.to_vec());
    assert_eq!(sent.hash, keccak256(&msg).0);
    assert_eq!(sent.event.address, L1_MESSENGER_ADDRESS);
    assert_eq!(sent.event.topics[0], L1_MESSAGE_SENT_TOPIC);
    let mut caller_word = [0u8; 32];
    caller_word[31] = 0x42;
    assert_eq!(sent.event.topics[1], caller_word);
    assert_eq!(sent.event.topics[2], sent.hash);
    assert_eq!(sent.event.data, calldata[4..].to_vec());
    assert_eq!(sent.log_sender, L1_MESSENGER_ADDRESS);
    assert_eq!(sent.log_key, caller_word);
    assert_eq!(sent.log_value, sent.hash);
}

#[test]
fn messenger_refusals() {
    let mut calldata = SEND_TO_L1_SELECTOR.to_vec();
    calldata.extend(encode_bytes(b"x"));
    // delegate call and call with value keep all gas
    let r = l1_messenger_begin(&request(calldata.clone(), 0, 500), true, 100);
    let o = r.err().unwrap();
    assert_eq!(o.status, CallStatus::Revert);
    assert_eq!(o.gas.remaining, 500);
    let o = l1_messenger_begin(&request(calldata.clone(), 1, 500), false, 100).err().unwrap();
    assert_eq!(o.status, CallStatus::Revert);
    assert_eq!(o.gas.remaining, 500);
    // not enough for the base cost
    let o = l1_messenger_begin(&request(calldata.clone(), 0, 99), false, 100).err().unwrap();
    assert_eq!(o.status, CallStatus::OutOfGas);
    assert_eq!(o.gas.remaining, 0);
    // static call
    let mut req = request(calldata.clone(), 0, 500);
    req.is_static = true;
    let o = l1_messenger_begin(&req, false, 100).err().unwrap();
    assert_eq!(o.status, CallStatus::Revert);
    assert_eq!(o.gas.remaining, 400);
    // unknown selector
    let mut other = calldata.clone();
    other[0] ^= 1;
    let o = l1_messenger_begin(&request(other, 0, 500), false, 100).err().unwrap();
    assert_eq!(o.status, CallStatus::Revert);
    // bad offset
    let mut bad = calldata.clone();
    bad[4 + 31] = 64;
    let o = l1_messenger_begin(&request(bad, 0, 500), false, 100).err().unwrap();
    assert_eq!(o.status, CallStatus::Revert);
    assert_eq!(o.gas.remaining, 400);
    // price of the message too high
    let p = l1_messenger_begin(&request(calldata, 0, 500), false, 100).ok().unwrap();
    let (o, sent) = l1_messenger_finish(p, 401);
    assert!(sent.is_none());
    assert_eq!(o.status, CallStatus::OutOfGas);
}

#[test]
fn message_encoding_checks() {
    let good = encode_bytes(b"abc");
    assert_eq!(validate_l1_message(&good), Some(3));
    let mut long = good.clone();
    long[63] = 40; // declares more than there is
    assert_eq!(validate_l1_message(&long), None);
    let mut unpadded = good.clone();
    unpadded.push(0);
    assert_eq!(validate_l1_message(&unpadded), None);
    assert_eq!(validate_l1_message(&good[..31]), None);
    let mut huge = good.clone();
    huge[32 + 27] = 1; // declares more than 2^32 bytes
    assert_eq!(validate_l1_message(&huge), None);
    let mut far = good.clone();
    far[27] = 1; // offset of 2^32 + 32
    assert_eq!(validate_l1_message(&far), None);
    let mut g = Gas::new(10);
    let r = send_to_l1_charged(&mut g, 11, good.clone(), 3, addr(1));
    assert!(r.is_err());
    assert_eq!(g.remaining, 10);
    let r = send_to_l1_charged(&mut g, 4, good, 3, addr(1)).ok().unwrap();
    assert_eq!(g.remaining, 6);
    assert_eq!(r.hash, keccak256(b"abc").0);
}

fn withdraw_calldata(receiver: [u8; 20]) -> Vec<u8> {
    let mut cd = WITHDRAW_SELECTOR.to_vec();
    cd.extend_from_slice(&[0u8; 12]);
    cd.extend_from_slice(&receiver);
    cd
}

fn withdraw_with_message_calldata(receiver: [u8; 20], data: &[u8]) -> Vec<u8> {
    let mut cd = WITHDRAW_WITH_MESSAGE_SELECTOR.to_vec();
    cd.extend_from_slice(&[0u8; 12]);
    cd.extend_from_slice(&receiver);
    cd.extend_from_slice(&word(64));
    cd.extend_from_slice(&word(data.len() as u64));
    cd.extend_from_slice(data);
    while (cd.len() - 4) % 32 != 0 {
        cd.push(0);
    }
    cd
}

#[test]
fn withdraw_burns_and_sends_finalize_message() {
    let receiver = addr(0x77);
    let req = request(withdraw_calldata(receiver), 1000, 10_000);
    let mut w = l2_base_token_begin(&req, false, 50).ok().unwrap();
    // hook cost and the read of the balance
    assert_eq!(w.gas.remaining, 10_000 - 50 - 100);
    assert_eq!(w.amount, word(1000));
    assert_eq!(w.payload.len(), 128);
    assert_eq!(w.payload[31], 32);
    assert_eq!(w.payload[63], 56);
    assert_eq!(&w.payload[64..68], &FINALIZE_ETH_WITHDRAWAL_SELECTOR);
    assert_eq!(&w.payload[68..88], &receiver);
    assert_eq!(&w.payload[88..120], &word(1000));
    assert_eq!(&w.payload[120..], &[0u8; 8]);
    assert_eq!(w.message_len, 56);
    assert_eq!(w.event.address, L2_BASE_TOKEN_ADDRESS);
    assert_eq!(w.event.topics[0], WITHDRAWAL_TOPIC);
    let mut receiver_word = [0u8; 32];
    receiver_word[12..].copy_from_slice(&receiver);
    assert_eq!(w.event.topics[2], receiver_word);
    assert_eq!(w.event.data, word(1000).to_vec());
    assert_eq!(burn(&word(1500), &w.amount), Some(word(500)));
    assert_eq!(burn(&word(999), &w.amount), None);
    let sent = withdrawal_send(&mut w, 300).ok().unwrap();
    assert_eq!(sent.hash, keccak256(&w.payload[64..120]).0);
    assert_eq!(sent.log_key[31], 0x0a);
    let out = withdrawal_finish(w.gas, 1000);
    assert_eq!(out.status, CallStatus::Return);
    assert!(out.output.is_empty());
    assert_eq!(out.gas.remaining, 10_000 - 50 - 100 - 300 - 1000);
    let out = withdrawal_finish(Gas::new(5), 6);
    assert_eq!(out.status, CallStatus::OutOfGas);
}

#[test]
fn withdraw_with_message_builds_padded_message_and_event() {
    let receiver = addr(0x55);
    let data = b"additional data".to_vec();
    let req = request(withdraw_with_message_calldata(receiver, &data), 7, 10_000);
    assert_eq!(decode_withdraw_with_message(&req.calldata), Some((100, 115)));
    let w = l2_base_token_begin(&req, false, 50).ok().unwrap();
    let message_length = 76 + data.len();
    assert_eq!(w.message_len as usize, message_length);
    assert_eq!(w.payload.len(), 160);
    assert_eq!(&w.payload[..32], &word(32));
    assert_eq!(&w.payload[32..64], &word(message_length as u64));
    assert_eq!(&w.payload[64..68], &FINALIZE_ETH_WITHDRAWAL_SELECTOR);
    assert_eq!(&w.payload[68..88], &receiver);
    assert_eq!(&w.payload[88..120], &word(7));
    assert_eq!(&w.payload[120..140], &addr(0x42));
    assert_eq!(&w.payload[140..155], &data[..]);
    assert!(w.payload[155..].iter().all(|b| *b == 0));
    assert_eq!(validate_l1_message(&w.payload), Some(message_length as u32));
    assert_eq!(w.event.topics[0], WITHDRAWAL_WITH_MESSAGE_TOPIC);
    assert_eq!(w.event.data.len(), 128);
    assert_eq!(&w.event.data[..32], &word(7));
    assert_eq!(&w.event.data[32..64], &word(64));
    assert_eq!(&w.event.data[64..96], &word(data.len() as u64));
    assert_eq!(&w.event.data[96..111], &data[..]);
    assert!(w.event.data[111..].iter().all(|b| *b == 0));
}

#[test]
fn base_token_refusals() {
    let cd = withdraw_calldata(addr(1));
    let o = l2_base_token_begin(&request(cd.clone(), 0, 1000), true, 50).err().unwrap();
    assert_eq!(o.status, CallStatus::Revert);
    assert_eq!(o.gas.remaining, 1000);
    let mut req = request(cd.clone(), 0, 1000);
    req.is_static = true;
    let o = l2_base_token_begin(&req, false, 50).err().unwrap();
    assert_eq!(o.gas.remaining, 950);
    let mut dirty = cd.clone();
    dirty[5] = 1; // high bytes of the receiver are not zero
    let o = l2_base_token_begin(&request(dirty, 0, 1000), false, 50).err().unwrap();
    assert_eq!(o.status, CallStatus::Revert);
    let o = l2_base_token_begin(&request(cd[..30].to_vec(), 0, 1000), false, 50).err().unwrap();
    assert_eq!(o.status, CallStatus::Revert);
    // the read of the balance is not paid for
    let o = l2_base_token_begin(&request(cd.clone(), 0, 149), false, 50).err().unwrap();
    assert_eq!(o.status, CallStatus::OutOfGas);
    let mut other = cd;
    other[0] = 0;
    let o = l2_base_token_begin(&request(other, 0, 1000), false, 50).err().unwrap();
    assert_eq!(o.status, CallStatus::Revert);
    // a message that points past the calldata
    let mut cd = withdraw_with_message_calldata(addr(1), b"abc");
    cd[4 + 32 + 31] = 0xff;
    let o = l2_base_token_begin(&request(cd, 0, 1000), false, 50).err().unwrap();
    assert_eq!(o.status, CallStatus::Revert);
}

#[test]
fn base_token_v1_plans_withdrawals() {
    let receiver = addr(9);
    let w = l2_base_token_v1_begin(&request(withdraw_calldata(receiver), 3, 10), false)
        .ok()
        .unwrap();
    assert_eq!(w.gas.remaining, 9);
    assert_eq!(w.amount, word(3));
    assert_eq!(validate_l1_message(&w.payload), Some(56));
    let w = l2_base_token_v1_begin(
        &request(withdraw_with_message_calldata(receiver, b"m"), 3, 10),
        false,
    )
    .ok()
    .unwrap();
    assert_eq!(validate_l1_message(&w.payload), Some(77));
    assert_eq!(&w.payload[120..140], &addr(0x42));
    let o = l2_base_token_v1_begin(&request(withdraw_calldata(receiver), 3, 0), false)
        .err()
        .unwrap();
    assert_eq!(o.status, CallStatus::OutOfGas);
    let o = l2_base_token_v1_begin(&request(vec![1, 2, 3], 3, 10), false).err().unwrap();
    assert_eq!(o.status, CallStatus::Revert);
    assert_eq!(o.gas.remaining, 9);
}

#[test]
fn withdrawal_burn_reverts_when_balance_is_short() {
    let gas = Gas::new(250);
    match withdrawal_burn(gas, &word(10), &word(25)) {
        Ok(b) => assert_eq!(b, word(15)),
        Err(_) => panic!("balance suffices"),
    }
    match withdrawal_burn(gas, &word(25), &word(25)) {
        Ok(b) => assert_eq!(b, word(0)),
        Err(_) => panic!("balance suffices"),
    }
    match withdrawal_burn(gas, &word(26), &word(25)) {
        Err(o) => {
            assert_eq!(o.status, CallStatus::Revert);
            assert_eq!(o.gas.remaining, 250);
            assert!(o.output.is_empty());
        }
        Ok(_) => panic!("balance is short"),
    }
}
