//! L2→L1 log collection in the chain part of the execution context.
//!
//! The L1 messenger pushes one log per message; the executor sets the number
//! of the transaction before running it, and takes the collected logs after.
use crate::words::{Address, Word, be_value, word_from_u64};
use vstd::prelude::*;

verus! {

/// The formal address of the bootloader (0x8001), sender of the logs that
/// report the result of L1→L2 transactions.
pub const BOOTLOADER_FORMAL_ADDRESS: Address = [
    0, 0, 0, 0, 0, 0, 0, 0, 0, 0, 0, 0, 0, 0, 0, 0, 0, 0, 0x80, 0x01,
];

/// A structured L2→L1 log entry in the ZKsync OS protocol format.
#[derive(Clone, Copy, Debug)]
pub struct L2ToL1Log {
    pub l2_shard_id: u8,
    pub is_service: bool,
    pub tx_number_in_block: u16,
    pub sender: Address,
    pub key: Word,
    pub value: Word,
}

/// The entry that a push records in transaction `tx_number`.
pub open spec fn log_entry(tx_number: u16, sender: Address, key: Word, value: Word) -> L2ToL1Log {
    L2ToL1Log {
        l2_shard_id: 0,
        is_service: true,
        tx_number_in_block: tx_number,
        sender,
        key,
        value,
    }
}

/// Whether `value` reports the result `success`: the word denotes 1 for a
/// success and 0 for a failure.
pub open spec fn reports_result(value: Word, success: bool) -> bool {
    be_value(value@) == (if success {
        1nat
    } else {
        0nat
    })
}

/// One operation on a log store: recording a log, or setting the number of
/// the transaction that later logs belong to.
pub enum LogOp {
    Push { sender: Address, key: Word, value: Word },
    SetTxNumber(u16),
}

/// The logs and the transaction number of a store after `op`.
pub open spec fn apply_log_op(logs: Seq<L2ToL1Log>, tx_number: u16, op: LogOp) -> (
    Seq<L2ToL1Log>,
    u16,
) {
    match op {
        LogOp::Push { sender, key, value } => (
            logs.push(log_entry(tx_number, sender, key, value)),
            tx_number,
        ),
        LogOp::SetTxNumber(n) => (logs, n),
    }
}

/// The logs and the transaction number of a store after `ops`, in order.
pub open spec fn apply_log_ops(logs: Seq<L2ToL1Log>, tx_number: u16, ops: Seq<LogOp>) -> (
    Seq<L2ToL1Log>,
    u16,
)
    decreases ops.len(),
{
    if ops.len() == 0 {
        (logs, tx_number)
    } else {
        let s = apply_log_ops(logs, tx_number, ops.drop_last());
        apply_log_op(s.0, s.1, ops.last())
    }
}

/// Collects the L2→L1 logs of the current transaction.
#[derive(Debug)]
pub struct ZkChainContext {
    logs: Vec<L2ToL1Log>,
    tx_number: u16,
}

impl ZkChainContext {
    /// The logs collected so far, oldest first.
    pub closed spec fn logs(&self) -> Seq<L2ToL1Log> {
        self.logs@
    }

    /// The number of the transaction that new logs are recorded in.
    pub closed spec fn tx_number(&self) -> u16 {
        self.tx_number
    }

    /// An empty collector for transaction 0.
    pub fn new() -> (c: Self)
        ensures
            c.logs() == Seq::<L2ToL1Log>::empty(),
            c.tx_number() == 0,
    {
        ZkChainContext { logs: Vec::new(), tx_number: 0 }
    }

    /// Sets the number of the transaction about to run.
    pub fn set_tx_number(&mut self, tx_number: u16)
        ensures
            final(self).tx_number() == tx_number,
            final(self).logs() == old(self).logs(),
            (final(self).logs(), final(self).tx_number()) == apply_log_op(
                old(self).logs(),
                old(self).tx_number(),
                LogOp::SetTxNumber(tx_number),
            ),
    {
        self.tx_number = tx_number;
    }

    /// Records a log sent by `sender` in the current transaction.
    pub fn push_log(&mut self, sender: Address, key: Word, value: Word)
        ensures
            final(self).logs() == old(self).logs().push(
                log_entry(old(self).tx_number(), sender, key, value),
            ),
            final(self).tx_number() == old(self).tx_number(),
            (final(self).logs(), final(self).tx_number()) == apply_log_op(
                old(self).logs(),
                old(self).tx_number(),
                LogOp::Push { sender, key, value },
            ),
    {
        let entry = L2ToL1Log {
            l2_shard_id: 0,
            is_service: true,
            tx_number_in_block: self.tx_number,
            sender,
            key,
            value,
        };
        self.logs.push(entry);
    }

    /// Records the result of an L1→L2 transaction: sent by the bootloader,
    /// keyed by the transaction hash, valued 1 on success and 0 on failure.
    pub fn emit_l1_tx_result(&mut self, tx_hash: Word, success: bool)
        ensures
            final(self).tx_number() == old(self).tx_number(),
            final(self).logs().len() == old(self).logs().len() + 1,
            final(self).logs().drop_last() == old(self).logs(),
            ({
                let e = final(self).logs().last();
                &&& e.l2_shard_id == 0
                &&& e.is_service
                &&& e.tx_number_in_block == old(self).tx_number()
                &&& e.sender == BOOTLOADER_FORMAL_ADDRESS
                &&& e.key == tx_hash
                &&& reports_result(e.value, success)
            }),
            (final(self).logs(), final(self).tx_number()) == apply_log_op(
                old(self).logs(),
                old(self).tx_number(),
                LogOp::Push {
                    sender: BOOTLOADER_FORMAL_ADDRESS,
                    key: tx_hash,
                    value: final(self).logs().last().value,
                },
            ),
    {
        let value = word_from_u64(if success {
            1
        } else {
            0
        });
        self.push_log(BOOTLOADER_FORMAL_ADDRESS, tx_hash, value);
        assert(self.logs().drop_last() =~= old(self).logs());
    }

    /// Hands out all collected logs, oldest first, and starts afresh.
    pub fn take_logs(&mut self) -> (taken: Vec<L2ToL1Log>)
        ensures
            taken@ == old(self).logs(),
            final(self).logs() == Seq::<L2ToL1Log>::empty(),
            final(self).tx_number() == old(self).tx_number(),
    {
        let mut taken: Vec<L2ToL1Log> = Vec::new();
        std::mem::swap(&mut taken, &mut self.logs);
        taken
    }
}

impl Default for ZkChainContext {
    fn default() -> (c: Self)
        ensures
            c.logs() == Seq::<L2ToL1Log>::empty(),
            c.tx_number() == 0,
    {
        ZkChainContext::new()
    }
}

impl Clone for ZkChainContext {
    fn clone(&self) -> (c: Self)
        ensures
            c.logs() == self.logs(),
            c.tx_number() == self.tx_number(),
    {
        let mut logs: Vec<L2ToL1Log> = Vec::new();
        let mut i: usize = 0;
        while i < self.logs.len()
            invariant
                i <= self.logs@.len(),
                logs@ == self.logs@.subrange(0, i as int),
            decreases self.logs@.len() - i,
        {
            logs.push(self.logs[i]);
            i = i + 1;
            assert(logs@ =~= self.logs@.subrange(0, i as int));
        }
        assert(logs@ =~= self.logs@);
        ZkChainContext { logs, tx_number: self.tx_number }
    }
}

/// Contexts that can collect L2→L1 logs. A context that collects nothing
/// drops them.
pub trait L2ToL1LogStore {
    /// Records a log sent by `sender`.
    fn push_l2_to_l1_log(&mut self, sender: Address, key: Word, value: Word);

    /// Sets the number of the transaction about to run.
    fn set_tx_number(&mut self, tx_number: u16) {
    }

    /// Records the result of an L1→L2 transaction.
    fn emit_l1_tx_result(&mut self, tx_hash: Word, success: bool) {
    }
}

impl L2ToL1LogStore for ZkChainContext {
    fn push_l2_to_l1_log(&mut self, sender: Address, key: Word, value: Word)
        ensures
            final(self).logs() == old(self).logs().push(
                log_entry(old(self).tx_number(), sender, key, value),
            ),
            final(self).tx_number() == old(self).tx_number(),
            (final(self).logs(), final(self).tx_number()) == apply_log_op(
                old(self).logs(),
                old(self).tx_number(),
                LogOp::Push { sender, key, value },
            ),
    {
        self.push_log(sender, key, value);
    }

    fn set_tx_number(&mut self, tx_number: u16)
        ensures
            final(self).tx_number() == tx_number,
            final(self).logs() == old(self).logs(),
            (final(self).logs(), final(self).tx_number()) == apply_log_op(
                old(self).logs(),
                old(self).tx_number(),
                LogOp::SetTxNumber(tx_number),
            ),
    {
        self.tx_number = tx_number;
    }

    fn emit_l1_tx_result(&mut self, tx_hash: Word, success: bool)
        ensures
            final(self).tx_number() == old(self).tx_number(),
            final(self).logs().len() == old(self).logs().len() + 1,
            final(self).logs().drop_last() == old(self).logs(),
            final(self).logs().last().l2_shard_id == 0,
            final(self).logs().last().is_service,
            final(self).logs().last().sender == BOOTLOADER_FORMAL_ADDRESS,
            final(self).logs().last().key == tx_hash,
            final(self).logs().last().tx_number_in_block == old(self).tx_number(),
            reports_result(final(self).logs().last().value, success),
            (final(self).logs(), final(self).tx_number()) == apply_log_op(
                old(self).logs(),
                old(self).tx_number(),
                LogOp::Push {
                    sender: BOOTLOADER_FORMAL_ADDRESS,
                    key: tx_hash,
                    value: final(self).logs().last().value,
                },
            ),
    {
        ZkChainContext::emit_l1_tx_result(self, tx_hash, success);
    }
}

impl L2ToL1LogStore for () {
    fn push_l2_to_l1_log(&mut self, sender: Address, key: Word, value: Word) {
    }
}

} // verus!
