//! The part of a call that the hooks read, and the pieces of work a hook
//! hands back to the execution context.
use crate::gas::Gas;
use crate::words::{Address, Word, be_value};
use vstd::prelude::*;

verus! {

/// The inputs of a call to a hook.
pub struct CallRequest {
    /// The calldata, selector first.
    pub calldata: Vec<u8>,
    /// The account that made the call.
    pub caller: Address,
    /// The value sent with the call, as a big-endian word.
    pub value: Word,
    /// The gas the call was given.
    pub gas_limit: u64,
    /// Whether the call is a static call.
    pub is_static: bool,
}

/// An event log to append to the journal.
pub struct EvmLog {
    pub address: Address,
    pub topics: Vec<Word>,
    pub data: Vec<u8>,
}

/// Whether a delegate call, or a call with value, is refused by the hooks
/// that accept neither.
pub open spec fn refuses_delegate_or_value(req: CallRequest, is_delegate: bool) -> bool {
    is_delegate || be_value(req.value@) != 0
}

/// A gas meter that has not been charged yet.
pub open spec fn fresh_gas(limit: u64) -> Gas {
    Gas { limit, remaining: limit }
}

/// The meter after charging `cost`, when that much is left.
pub open spec fn charged(g: Gas, cost: u64) -> Gas {
    Gas { limit: g.limit, remaining: (g.remaining - cost) as u64 }
}

/// Whether the calldata starts with the four bytes `sel`.
pub open spec fn has_selector_spec(calldata: Seq<u8>, sel: Seq<u8>) -> bool {
    calldata.len() >= 4 && calldata.subrange(0, 4) == sel
}

/// Whether the calldata starts with the four bytes `sel`.
pub fn has_selector(calldata: &[u8], sel: &[u8; 4]) -> (r: bool)
    ensures
        r == has_selector_spec(calldata@, sel@),
{
    if calldata.len() < 4 {
        return false;
    }
    let r = calldata[0] == sel[0] && calldata[1] == sel[1] && calldata[2] == sel[2]
        && calldata[3] == sel[3];
    if r {
        assert(calldata@.subrange(0, 4) =~= sel@);
    } else {
        assert(calldata@.subrange(0, 4) != sel@) by {
            if calldata[0] != sel[0] {
                assert(calldata@.subrange(0, 4)[0] != sel@[0]);
            } else if calldata[1] != sel[1] {
                assert(calldata@.subrange(0, 4)[1] != sel@[1]);
            } else if calldata[2] != sel[2] {
                assert(calldata@.subrange(0, 4)[2] != sel@[2]);
            } else {
                assert(calldata@.subrange(0, 4)[3] != sel@[3]);
            }
        }
    }
    r
}

/// The bytes of `data` from `from` on, as a new vector.
pub fn tail_from(data: &[u8], from: usize) -> (v: Vec<u8>)
    requires
        from <= data@.len(),
    ensures
        v@ == data@.subrange(from as int, data@.len() as int),
{
    slice_range(data, from, data.len())
}

/// The bytes of `data` in `from..to`, as a new vector.
pub fn slice_range(data: &[u8], from: usize, to: usize) -> (v: Vec<u8>)
    requires
        from <= to <= data@.len(),
    ensures
        v@ == data@.subrange(from as int, to as int),
{
    let mut v: Vec<u8> = Vec::new();
    let mut i: usize = from;
    while i < to
        invariant
            from <= i <= to <= data@.len(),
            v@ == data@.subrange(from as int, i as int),
        decreases to - i,
    {
        v.push(data[i]);
        i = i + 1;
        assert(data@.subrange(from as int, i as int) =~= data@.subrange(from as int, i - 1).push(
            data@[i - 1],
        ));
    }
    v
}

} // verus!
