//! Properties that hold across the operations of the library.
use crate::chain::{L2ToL1Log, LogOp, apply_log_ops, log_entry};
use crate::deployer::{BytecodeDetails, CONTRACT_DEPLOYER_ADDRESS, args_of, decodes_details};
use crate::deployer_v1::{deployments_view, entry_offset, force_deploy_scan, placeable, placed_indices};
use crate::l1_messenger::L1_MESSENGER_ADDRESS;
use crate::l1_messenger::{L1MessageSent, address_word, describes_send};
use crate::l2_base_token::{
    FINALIZE_ETH_WITHDRAWAL_SELECTOR,
    L2_BASE_TOKEN_ADDRESS,
    WITHDRAW_SELECTOR,
    WITHDRAW_WITH_MESSAGE_SELECTOR,
    Withdrawal,
    l2_base_token_begin_outcome,
    receiver_is_address,
    wwm_arguments_decode,
    finalize_withdrawal_call,
    plans_withdraw,
    plans_withdraw_with_message,
    receiver_of,
    wwm_data,
};
use crate::gas::Gas;
use crate::request::CallRequest;
use crate::words::keccak256_of;
use crate::precompiles::{
    CustomPrecompile,
    EthPrecompile,
    ZkSpecId,
    address_from_u64,
    custom_precompile_spec,
    hook_address,
    hook_version,
    without_address,
    zk_precompile_set,
};
use crate::words::{Address, Word, be_value, zeros};
use crate::l1_messenger::l1_message_body;
use crate::l2_base_token_v1::{V1Withdrawal, l2_base_token_v1_begin_outcome};
use crate::outcome::CallOutcome;
use vstd::prelude::*;

verus! {

/// After `set_tx_number(n)`, every log that the store records, until the
/// next change of the number, carries `n`, shard 0 and the service flag, with
/// the sender, key and value it was recorded with, after the logs recorded
/// before, in order. A take hands out exactly these logs.
pub proof fn law_logs_after_set_tx_number(
    logs: Seq<L2ToL1Log>,
    tx_number: u16,
    n: u16,
    ops: Seq<LogOp>,
)
    requires
        forall|i: int| 0 <= i < ops.len() ==> #[trigger] ops[i] is Push,
    ensures
        ({
            let s = apply_log_ops(logs, tx_number, seq![LogOp::SetTxNumber(n)] + ops);
            &&& s.1 == n
            &&& s.0.len() == logs.len() + ops.len()
            &&& s.0.subrange(0, logs.len() as int) == logs
            &&& forall|k: int|
                logs.len() <= k < s.0.len() ==> {
                    let e = #[trigger] s.0[k];
                    let op = ops[k - logs.len()];
                    &&& e.tx_number_in_block == n
                    &&& e.l2_shard_id == 0
                    &&& e.is_service
                    &&& e.sender == op->sender
                    &&& e.key == op->key
                    &&& e.value == op->value
                }
        }),
    decreases ops.len(),
{
    let all = seq![LogOp::SetTxNumber(n)] + ops;
    if ops.len() == 0 {
        assert(all.drop_last() =~= Seq::<LogOp>::empty());
        assert(all.last() == LogOp::SetTxNumber(n));
        assert(apply_log_ops(logs, tx_number, Seq::<LogOp>::empty()) == (logs, tx_number));
        assert(logs.subrange(0, logs.len() as int) =~= logs);
    } else {
        let prev = ops.drop_last();
        law_logs_after_set_tx_number(logs, tx_number, n, prev);
        assert(all.drop_last() =~= seq![LogOp::SetTxNumber(n)] + prev);
        let s0 = apply_log_ops(logs, tx_number, seq![LogOp::SetTxNumber(n)] + prev);
        let s = apply_log_ops(logs, tx_number, all);
        assert(ops.last() is Push);
        assert(all.last() == ops.last());
        assert(s.0 == s0.0.push(log_entry(n, ops.last()->sender, ops.last()->key, ops.last()->value)));
        assert(s.0.subrange(0, logs.len() as int) =~= s0.0.subrange(0, logs.len() as int));
        assert forall|k: int| logs.len() <= k < s.0.len() implies {
            let e = #[trigger] s.0[k];
            let op = ops[k - logs.len()];
            &&& e.tx_number_in_block == n
            &&& e.l2_shard_id == 0
            &&& e.is_service
            &&& e.sender == op->sender
            &&& e.key == op->key
            &&& e.value == op->value
        } by {
            if k < s.0.len() - 1 {
                assert(s.0[k] == s0.0[k]);
                assert(ops[k - logs.len()] == prev[k - logs.len()]);
            }
        }
    }
}

/// The L2→L1 log that a withdrawal records is sent by the L1 messenger on
/// behalf of the base token and commits to the `finalizeEthWithdrawal`
/// payload: the receiver and the amount, and for a withdrawal with a message,
/// the L2 sender and the message.
///
/// `w` is what `l2_base_token_begin` planned for `req`; `s` is what
/// `withdrawal_send` sent for it.
pub proof fn law_withdrawal_log_commits_to_payload(
    req: CallRequest,
    gas: Gas,
    w: Withdrawal,
    s: L1MessageSent,
)
    requires
        plans_withdraw(w, req, gas) || plans_withdraw_with_message(w, req, gas),
        describes_send(s, w.payload@, L2_BASE_TOKEN_ADDRESS),
    ensures
        s.log_sender == L1_MESSENGER_ADDRESS,
        s.log_key@ == address_word(L2_BASE_TOKEN_ADDRESS),
        plans_withdraw(w, req, gas) ==> s.log_value@ == keccak256_of(
            finalize_withdrawal_call(receiver_of(req.calldata@), req.value@),
        ),
        plans_withdraw_with_message(w, req, gas) ==> s.log_value@ == keccak256_of(
            finalize_withdrawal_call(receiver_of(req.calldata@), req.value@) + req.caller@
                + wwm_data(req.calldata@),
        ),
{
}

/// A system hook serves exactly the contract deployer, the L1 messenger and
/// the L2 base token under either version, and the version picks the hook.
pub proof fn law_hooks_serve_system_addresses(spec: ZkSpecId, address: Address)
    ensures
        custom_precompile_spec(spec, address) is Some <==> (address == CONTRACT_DEPLOYER_ADDRESS
            || address == L1_MESSENGER_ADDRESS || address == L2_BASE_TOKEN_ADDRESS),
        custom_precompile_spec(ZkSpecId::AtlasV1, address) is Some
            <==> custom_precompile_spec(ZkSpecId::AtlasV2, address) is Some,
        custom_precompile_spec(ZkSpecId::AtlasV1, address) != custom_precompile_spec(
            ZkSpecId::AtlasV2,
            address,
        ) || custom_precompile_spec(ZkSpecId::AtlasV1, address) is None,
{
}

/// No address that the warm list keeps from the active precompiles is the
/// excluded one.
pub proof fn law_warm_list_excludes(s: Seq<Address>, x: Seq<u8>)
    ensures
        forall|k: int| 0 <= k < without_address(s, x).len() ==> #[trigger] without_address(s, x)[k]@
            != x,
    decreases s.len(),
{
    if s.len() > 0 {
        law_warm_list_excludes(s.drop_last(), x);
        let w = without_address(s.drop_last(), x);
        if s.last()@ != x {
            assert forall|k: int| 0 <= k < w.push(s.last()).len() implies #[trigger] w.push(
                s.last(),
            )[k]@ != x by {
                if k < w.len() {
                    assert(w.push(s.last())[k] == w[k]);
                }
            }
        }
    }
}

/// Every other address of the active precompiles stays in the warm list.
pub proof fn law_warm_list_keeps(s: Seq<Address>, x: Seq<u8>, a: Address)
    requires
        s.contains(a),
        a@ != x,
    ensures
        without_address(s, x).contains(a),
    decreases s.len(),
{
    if s.last() == a {
        assert(without_address(s, x).last() == a);
    } else {
        let k = choose|k: int| 0 <= k < s.len() && s[k] == a;
        assert(s.drop_last()[k] == a);
        law_warm_list_keeps(s.drop_last(), x, a);
        let w = without_address(s.drop_last(), x);
        let j = choose|j: int| 0 <= j < w.len() && w[j] == a;
        if s.last()@ != x {
            assert(w.push(s.last())[j] == a);
        }
    }
}

/// The addresses warmed in place of Blake2 and point evaluation are not the
/// excluded P256 address.
pub proof fn law_warm_extras_differ_from_p256()
    ensures
        address_from_u64(9) != address_from_u64(256),
        address_from_u64(10) != address_from_u64(256),
{
    assert(address_from_u64(9)[19] == 9) by (bit_vector);
    assert(address_from_u64(256)[19] == 0) by (bit_vector);
    assert(address_from_u64(10)[19] == 10) by (bit_vector);
}

/// The bytes of a fetched bytecode, empty when it is unknown.
pub open spec fn code_bytes(code: Option<Vec<u8>>) -> Seq<u8> {
    match code {
        Some(c) => c@,
        None => Seq::empty(),
    }
}

/// The codes of the accounts, `m` before, after placing the entries `idx` in
/// order.
pub open spec fn codes_after_placing(
    entries: Seq<(Word, Address)>,
    codes: Seq<Option<Vec<u8>>>,
    idx: Seq<usize>,
    m: Map<Address, Seq<u8>>,
) -> Map<Address, Seq<u8>>
    decreases idx.len(),
{
    if idx.len() == 0 {
        m
    } else {
        let k = idx.last() as int;
        codes_after_placing(entries, codes, idx.drop_last(), m).insert(
            entries[k].1,
            code_bytes(codes[k]),
        )
    }
}

/// The code of `a` after a force deployment of the first `n` entries: that
/// of the last of them that names `a` and whose bytecode is known and not
/// empty, else what `a` had before.
pub open spec fn last_placed_code(
    entries: Seq<(Word, Address)>,
    codes: Seq<Option<Vec<u8>>>,
    n: nat,
    a: Address,
    m: Map<Address, Seq<u8>>,
) -> Option<Seq<u8>>
    decreases n,
{
    if n == 0 {
        if m.contains_key(a) {
            Some(m[a])
        } else {
            None
        }
    } else if placeable(codes[n - 1]) && entries[n - 1].1 == a {
        Some(code_bytes(codes[n - 1]))
    } else {
        last_placed_code(entries, codes, (n - 1) as nat, a, m)
    }
}

/// Placing the entries that a force deployment selects, in order, leaves on
/// each address the bytecode of the last entry for it whose bytecode is known
/// and not empty; entries with an unknown or empty bytecode change nothing.
pub proof fn law_force_deploy_later_entries_win(
    entries: Seq<(Word, Address)>,
    codes: Seq<Option<Vec<u8>>>,
    n: nat,
    a: Address,
    m: Map<Address, Seq<u8>>,
)
    requires
        n <= codes.len() <= usize::MAX,
    ensures
        ({
            let after = codes_after_placing(entries, codes, placed_indices(codes, n), m);
            (if after.contains_key(a) {
                Some(after[a])
            } else {
                None
            }) == last_placed_code(entries, codes, n, a, m)
        }),
    decreases n,
{
    if n > 0 {
        law_force_deploy_later_entries_win(entries, codes, (n - 1) as nat, a, m);
        if placeable(codes[n - 1]) {
            let prev = placed_indices(codes, (n - 1) as nat);
            let idx = prev.push((n - 1) as usize);
            assert(idx.drop_last() =~= prev);
            assert(idx.last() == (n - 1) as usize);
            assert(idx.last() as int == n - 1);
        }
    }
}

/// A force deployment places at most as many bytecodes as it declares
/// entries.
pub proof fn law_force_deploy_bounded(raw: Seq<u8>, count: nat, i: nat)
    ensures
        force_deploy_scan(raw, count, i).0.len() <= if i <= count {
            count - i
        } else {
            0
        },
    decreases count - i,
{
    if i < count && 96 + 32 * i <= raw.len() {
        law_force_deploy_bounded(raw, count, i + 1);
    }
}

/// Under either version, the hook that serves an address is the one made
/// for that address in that version: the deployer hook serves the contract
/// deployer, the messenger hook the L1 messenger and the base token hook the
/// L2 base token, each of the version asked for. The three system addresses
/// are always served, and an address and a version pick one hook.
pub proof fn law_hook_stands_for_its_address_and_version(spec: ZkSpecId, address: Address)
    ensures
        custom_precompile_spec(spec, address) matches Some(p) ==> hook_address(p) == address
            && hook_version(p) == spec,
        (address == CONTRACT_DEPLOYER_ADDRESS || address == L1_MESSENGER_ADDRESS || address
            == L2_BASE_TOKEN_ADDRESS) ==> custom_precompile_spec(spec, address) is Some,
        forall|p: CustomPrecompile, q: CustomPrecompile|
            #![trigger hook_address(p), hook_address(q)]
            hook_address(p) == hook_address(q) && hook_version(p) == hook_version(q) ==> p == q,
{
    assert(CONTRACT_DEPLOYER_ADDRESS[19] == 0x06);
    assert(L1_MESSENGER_ADDRESS[19] == 0x08);
    assert(L2_BASE_TOKEN_ADDRESS[19] == 0x0a);
}

/// Both versions keep each of the nine Ethereum precompiles, every one of
/// them exactly once.
pub proof fn law_each_kept_precompile_active_once()
    ensures
        zk_precompile_set().len() == 9,
        zk_precompile_set().no_duplicates(),
        forall|p: EthPrecompile| #[trigger] zk_precompile_set().contains(p),
{
    let s = zk_precompile_set();
    assert(s[0] == EthPrecompile::Ecrecover);
    assert(s[1] == EthPrecompile::Sha256);
    assert(s[2] == EthPrecompile::Ripemd160);
    assert(s[3] == EthPrecompile::Identity);
    assert(s[4] == EthPrecompile::ModexpBerlin);
    assert(s[5] == EthPrecompile::Bn254AddIstanbul);
    assert(s[6] == EthPrecompile::Bn254MulIstanbul);
    assert(s[7] == EthPrecompile::Bn254PairIstanbul);
    assert(s[8] == EthPrecompile::P256VerifyOsaka);
    assert forall|p: EthPrecompile| #[trigger] s.contains(p) by {
        let k: int = match p {
            EthPrecompile::Ecrecover => 0,
            EthPrecompile::Sha256 => 1,
            EthPrecompile::Ripemd160 => 2,
            EthPrecompile::Identity => 3,
            EthPrecompile::ModexpBerlin => 4,
            EthPrecompile::Bn254AddIstanbul => 5,
            EthPrecompile::Bn254MulIstanbul => 6,
            EthPrecompile::Bn254PairIstanbul => 7,
            EthPrecompile::P256VerifyOsaka => 8,
        };
        assert(s[k] == p);
    }
}

/// A `setBytecodeDetailsEVM` call reads its arguments where the ABI puts
/// them: the target is the low 20 bytes of the first word, the bytecode hash
/// is the second word byte for byte and in order, and the length is the value
/// of the third word. Two calls that agree on the second word therefore ask
/// for the same bytecode, whatever their other arguments.
pub proof fn law_set_details_reads_argument_words(
    c1: Seq<u8>,
    c2: Seq<u8>,
    g1: Gas,
    g2: Gas,
    d1: BytecodeDetails,
    d2: BytecodeDetails,
)
    requires
        c1.len() >= 132,
        c2.len() >= 132,
        decodes_details(d1, args_of(c1), g1),
        decodes_details(d2, args_of(c2), g2),
    ensures
        forall|k: int| 0 <= k < 32 ==> #[trigger] d1.bytecode_hash@[k] == c1[36 + k],
        forall|k: int| 0 <= k < 20 ==> #[trigger] d1.address@[k] == c1[16 + k],
        d1.bytecode_length as nat == be_value(c1.subrange(68, 100)),
        c1.subrange(36, 68) == c2.subrange(36, 68) ==> d1.bytecode_hash@ == d2.bytecode_hash@,
{
    assert(args_of(c1).subrange(64, 96) =~= c1.subrange(68, 100));
    assert forall|k: int| 0 <= k < 32 implies #[trigger] d1.bytecode_hash@[k] == c1[36 + k] by {
        assert(d1.bytecode_hash@[k] == args_of(c1).subrange(32, 64)[k]);
    }
    assert forall|k: int| 0 <= k < 20 implies #[trigger] d1.address@[k] == c1[16 + k] by {
        assert(d1.address@[k] == args_of(c1).subrange(12, 32)[k]);
    }
    if c1.subrange(36, 68) == c2.subrange(36, 68) {
        assert(args_of(c1).subrange(32, 64) =~= c1.subrange(36, 68));
        assert(args_of(c2).subrange(32, 64) =~= c2.subrange(36, 68));
    }
}

/// The deployments that entries `i..count` yield when every entry lies
/// within the arguments: one per entry, each read at its own offset.
proof fn lemma_scan_reads_each_offset(raw: Seq<u8>, count: nat, i: nat)
    requires
        i <= count,
        raw.len() <= usize::MAX,
        96 + 32 * count <= raw.len(),
        forall|j: nat| j < count ==> #[trigger] entry_offset(raw, j) + 192 <= raw.len(),
    ensures
        !force_deploy_scan(raw, count, i).1,
        force_deploy_scan(raw, count, i).0.len() == count - i,
        forall|k: int|
            0 <= k < count - i ==> {
                let off = entry_offset(raw, (i + k) as nat);
                #[trigger] force_deploy_scan(raw, count, i).0[k] == (
                    raw.subrange(64 + off as int, 96 + off as int),
                    raw.subrange(108 + off as int, 128 + off as int),
                )
            },
    decreases count - i,
{
    if i < count {
        lemma_scan_reads_each_offset(raw, count, i + 1);
        assert(entry_offset(raw, i) + 192 <= raw.len());
        let off = entry_offset(raw, i);
        let e = (
            raw.subrange(64 + off as int, 96 + off as int),
            raw.subrange(108 + off as int, 128 + off as int),
        );
        let rest = force_deploy_scan(raw, count, i + 1);
        assert(force_deploy_scan(raw, count, i).0 == seq![e] + rest.0);
        assert forall|k: int| 0 <= k < count - i implies {
            let off = entry_offset(raw, (i + k) as nat);
            #[trigger] force_deploy_scan(raw, count, i).0[k] == (
                raw.subrange(64 + off as int, 96 + off as int),
                raw.subrange(108 + off as int, 128 + off as int),
            )
        } by {
            if k > 0 {
                assert((seq![e] + rest.0)[k] == rest.0[k - 1]);
                assert((i + 1 + (k - 1)) as nat == (i + k) as nat);
            }
        }
    }
}

/// When every entry of a force deployment lies within its arguments, the
/// list of deployments has one per entry, in order, and the k-th is read at
/// the offset that the k-th offset word gives: its bytecode hash is the first
/// word of its struct byte for byte, and its address the low 20 bytes of the
/// second word.
pub proof fn law_force_deploy_reads_each_entry_at_its_offset(
    raw: Seq<u8>,
    count: nat,
    entries: Seq<(Word, Address)>,
)
    requires
        deployments_view(entries) == force_deploy_scan(raw, count, 0).0,
        raw.len() <= usize::MAX,
        96 + 32 * count <= raw.len(),
        forall|j: nat| j < count ==> #[trigger] entry_offset(raw, j) + 192 <= raw.len(),
    ensures
        entries.len() == count,
        forall|k: int|
            0 <= k < count ==> {
                let off = entry_offset(raw, k as nat);
                &&& (#[trigger] entries[k]).0@ == raw.subrange(64 + off as int, 96 + off as int)
                &&& entries[k].1@ == raw.subrange(108 + off as int, 128 + off as int)
            },
{
    lemma_scan_reads_each_offset(raw, count, 0);
    let s = force_deploy_scan(raw, count, 0).0;
    assert(deployments_view(entries).len() == entries.len());
    assert forall|k: int| 0 <= k < count implies {
        let off = entry_offset(raw, k as nat);
        &&& (#[trigger] entries[k]).0@ == raw.subrange(64 + off as int, 96 + off as int)
        &&& entries[k].1@ == raw.subrange(108 + off as int, 128 + off as int)
    } by {
        assert(deployments_view(entries)[k] == (entries[k].0@, entries[k].1@));
        assert(s[k] == deployments_view(entries)[k]);
        assert((0 + k) as nat == k as nat);
    }
}

/// The receiver argument of a withdrawal is refused exactly when one of the
/// twelve high bytes of its word is not zero; the receiver is the twenty
/// bytes after them.
pub proof fn law_receiver_check_reads_the_high_bytes(cd: Seq<u8>)
    requires
        cd.len() >= 36,
    ensures
        receiver_is_address(cd) <==> forall|k: int| 4 <= k < 16 ==> #[trigger] cd[k] == 0,
        receiver_of(cd).len() == 20,
        forall|k: int| 0 <= k < 20 ==> #[trigger] receiver_of(cd)[k] == cd[16 + k],
{
    if forall|k: int| 4 <= k < 16 ==> #[trigger] cd[k] == 0 {
        assert forall|i: int| 0 <= i < 12 implies #[trigger] cd.subrange(4, 16)[i] == 0 by {
            assert(cd.subrange(4, 16)[i] == cd[4 + i]);
        }
    }
    if receiver_is_address(cd) {
        assert forall|k: int| 4 <= k < 16 implies #[trigger] cd[k] == 0 by {
            assert(cd.subrange(4, 16)[k - 4] == cd[k]);
        }
    }
}

/// The calldata of a withdrawal to `receiver`: the selector, twelve zero
/// bytes and the receiver.
pub open spec fn withdraw_calldata(receiver: Address) -> Seq<u8> {
    WITHDRAW_SELECTOR@ + zeros(12) + receiver@
}

/// Facts about the calldata of a withdrawal to any receiver.
proof fn lemma_withdraw_calldata(receiver: Address, rest: Seq<u8>)
    ensures
        ({
            let cd = withdraw_calldata(receiver) + rest;
            &&& cd.len() == 36 + rest.len()
            &&& receiver_is_address(cd)
            &&& receiver_of(cd) == receiver@
        }),
{
    let cd = withdraw_calldata(receiver) + rest;
    assert(cd.subrange(4, 16) =~= zeros(12));
    assert(cd.subrange(16, 36) =~= receiver@);
}

/// A call of `withdraw` to any receiver, non-static, with gas for the hook
/// and the balance read, is accepted: the L2 base token plans to burn the
/// value sent and to send `finalizeEthWithdrawal` for that receiver and
/// amount to L1.
pub proof fn law_withdraw_accepts_every_receiver(
    req: CallRequest,
    hook_base_cost: u64,
    receiver: Address,
    r: Result<Withdrawal, CallOutcome>,
)
    requires
        req.calldata@ == withdraw_calldata(receiver),
        !req.is_static,
        hook_base_cost + 100 <= req.gas_limit,
        l2_base_token_begin_outcome(req, false, hook_base_cost, r),
    ensures
        r matches Ok(w) && w.amount == req.value && w.gas.remaining == req.gas_limit
            - hook_base_cost - 100 && l1_message_body(w.payload@)
            == FINALIZE_ETH_WITHDRAWAL_SELECTOR@ + receiver@ + req.value@,
{
    lemma_withdraw_calldata(receiver, Seq::empty());
    assert(withdraw_calldata(receiver) + Seq::<u8>::empty() =~= withdraw_calldata(receiver));
    assert(req.calldata@.subrange(0, 4) =~= WITHDRAW_SELECTOR@);
}

/// The same for the base token of the first version, which charges one unit
/// of gas.
pub proof fn law_v1_withdraw_accepts_every_receiver(
    req: CallRequest,
    receiver: Address,
    r: Result<V1Withdrawal, CallOutcome>,
)
    requires
        req.calldata@ == withdraw_calldata(receiver),
        !req.is_static,
        req.gas_limit >= 1,
        l2_base_token_v1_begin_outcome(req, false, r),
    ensures
        r matches Ok(w) && w.amount == req.value && w.gas.remaining == req.gas_limit - 1
            && l1_message_body(w.payload@) == FINALIZE_ETH_WITHDRAWAL_SELECTOR@ + receiver@
            + req.value@,
{
    lemma_withdraw_calldata(receiver, Seq::empty());
    assert(withdraw_calldata(receiver) + Seq::<u8>::empty() =~= withdraw_calldata(receiver));
    assert(req.calldata@.subrange(0, 4) =~= WITHDRAW_SELECTOR@);
}

/// A call of `withdrawWithMessage` to any receiver whose message argument
/// decodes, non-static, with gas for the hook and the balance read, is
/// accepted: the L2 base token sends `finalizeEthWithdrawal` for that
/// receiver and amount, with the caller and the message, to L1.
pub proof fn law_withdraw_with_message_accepts_every_receiver(
    req: CallRequest,
    hook_base_cost: u64,
    receiver: Address,
    rest: Seq<u8>,
    r: Result<Withdrawal, CallOutcome>,
)
    requires
        req.calldata@ == WITHDRAW_WITH_MESSAGE_SELECTOR@ + zeros(12) + receiver@ + rest,
        wwm_arguments_decode(req.calldata@),
        !req.is_static,
        hook_base_cost + 100 <= req.gas_limit,
        l2_base_token_begin_outcome(req, false, hook_base_cost, r),
    ensures
        r matches Ok(w) && w.amount == req.value && w.gas.remaining == req.gas_limit
            - hook_base_cost - 100 && l1_message_body(w.payload@)
            == FINALIZE_ETH_WITHDRAWAL_SELECTOR@ + receiver@ + req.value@ + req.caller@
            + wwm_data(req.calldata@),
{
    let cd = req.calldata@;
    assert(cd.subrange(4, 16) =~= zeros(12));
    assert(cd.subrange(16, 36) =~= receiver@);
    assert(cd.subrange(0, 4) =~= WITHDRAW_WITH_MESSAGE_SELECTOR@);
    assert(cd.subrange(0, 4)[0] != WITHDRAW_SELECTOR@[0]);
}

/// The same for the base token of the first version.
pub proof fn law_v1_withdraw_with_message_accepts_every_receiver(
    req: CallRequest,
    receiver: Address,
    rest: Seq<u8>,
    r: Result<V1Withdrawal, CallOutcome>,
)
    requires
        req.calldata@ == WITHDRAW_WITH_MESSAGE_SELECTOR@ + zeros(12) + receiver@ + rest,
        wwm_arguments_decode(req.calldata@),
        !req.is_static,
        req.gas_limit >= 1,
        l2_base_token_v1_begin_outcome(req, false, r),
    ensures
        r matches Ok(w) && w.amount == req.value && w.gas.remaining == req.gas_limit - 1
            && l1_message_body(w.payload@) == FINALIZE_ETH_WITHDRAWAL_SELECTOR@ + receiver@
            + req.value@ + req.caller@ + wwm_data(req.calldata@),
{
    let cd = req.calldata@;
    assert(cd.subrange(4, 16) =~= zeros(12));
    assert(cd.subrange(16, 36) =~= receiver@);
    assert(cd.subrange(0, 4) =~= WITHDRAW_WITH_MESSAGE_SELECTOR@);
    assert(cd.subrange(0, 4)[0] != WITHDRAW_SELECTOR@[0]);
}

} // verus!
