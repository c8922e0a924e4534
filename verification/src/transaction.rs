//! The parts of a transaction that only L1→L2 transactions carry.
use crate::words::{Address, Word};
use vstd::prelude::*;

verus! {

/// The type byte of an upgrade transaction.
pub const UPGRADE_TRANSACTION_TYPE: u8 = 0x7E;

/// The type byte of an L1 priority transaction.
pub const L1_PRIORITY_TRANSACTION_TYPE: u8 = 0x7f;

/// The parts of a deposit (L1→L2) transaction.
#[derive(Clone, Copy, Debug, PartialEq, Eq)]
pub struct L1ToL2TransactionParts {
    /// The value minted to the sender, as a big-endian word.
    pub mint: Option<Word>,
    /// The account refunded for unused gas.
    pub refund_recipient: Option<Address>,
    /// The trusted hash of the transaction, used for the bootloader's result
    /// log and the rolling hash of the block header. It is not checked: the
    /// caller is responsible for its value.
    pub tx_hash: Word,
}

impl Default for L1ToL2TransactionParts {
    fn default() -> (p: Self)
        ensures
            p.mint is None,
            p.refund_recipient is None,
            p.tx_hash@ == Seq::new(32, |i: int| 0u8),
    {
        let p = L1ToL2TransactionParts { mint: None, refund_recipient: None, tx_hash: [0u8; 32] };
        assert(p.tx_hash@ =~= Seq::new(32, |i: int| 0u8));
        p
    }
}

} // verus!
