//! What a hook call hands back to the interpreter.
use crate::gas::Gas;
use vstd::prelude::*;

verus! {

/// How a call ended.
#[derive(PartialEq, Eq, Structural, Debug, Clone, Copy)]
pub enum CallStatus {
    Return,
    Revert,
    OutOfGas,
}

/// The end of a call: its status, its output bytes and its gas.
pub struct CallOutcome {
    pub status: CallStatus,
    pub output: Vec<u8>,
    pub gas: Gas,
}

/// A refused call: the caller keeps what is left of its gas.
pub open spec fn is_revert(o: CallOutcome, gas: Gas) -> bool {
    &&& o.status == CallStatus::Revert
    &&& o.output@ == Seq::<u8>::empty()
    &&& o.gas == gas
}

/// A call that ran out of gas: nothing is left of it.
pub open spec fn is_out_of_gas(o: CallOutcome) -> bool {
    &&& o.status == CallStatus::OutOfGas
    &&& o.output@ == Seq::<u8>::empty()
    &&& o.gas.limit == 0
    &&& o.gas.remaining == 0
}

/// A successful call with the given output.
pub open spec fn is_return(o: CallOutcome, output: Seq<u8>, gas: Gas) -> bool {
    &&& o.status == CallStatus::Return
    &&& o.output@ == output
    &&& o.gas == gas
}

/// Refuses the call, keeping the gas as it is.
pub fn revert(gas: Gas) -> (o: CallOutcome)
    ensures
        is_revert(o, gas),
{
    CallOutcome { status: CallStatus::Revert, output: Vec::new(), gas }
}

/// Ends the call for want of gas.
pub fn oog_error() -> (o: CallOutcome)
    ensures
        is_out_of_gas(o),
{
    CallOutcome { status: CallStatus::OutOfGas, output: Vec::new(), gas: Gas::new(0) }
}

/// Ends the call successfully with `output`.
pub fn returned(output: Vec<u8>, gas: Gas) -> (o: CallOutcome)
    ensures
        is_return(o, output@, gas),
{
    CallOutcome { status: CallStatus::Return, output, gas }
}

/// Charges `cost`: the meter that remains, or the out-of-gas end of the
/// call when not enough is left.
pub fn charge(gas: Gas, cost: u64) -> (r: Result<Gas, CallOutcome>)
    ensures
        cost <= gas.remaining ==> (r matches Ok(g) && g.limit == gas.limit && g.remaining
            == gas.remaining - cost),
        cost > gas.remaining ==> (r matches Err(o) && is_out_of_gas(o)),
{
    let mut gas = gas;
    if gas.record_cost(cost) {
        Ok(gas)
    } else {
        Err(oog_error())
    }
}

} // verus!
