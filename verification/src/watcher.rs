//! One accounting interval from end to end: the daemon's lines and the
//! four counter tables in, the neighbours' debt changes out.

use crate::address::IpAddress;
use crate::counters::CounterSample;
use crate::debts::{compute_debts, is_debt_report, DebtDelta, Neighbor, Tick};
use crate::snapshot::{empty_snapshot, read_snapshot, snapshot_of, texts, ProtocolError};
use vstd::prelude::*;

verus! {

/// The metering task.
#[derive(Clone, Copy, Debug, PartialEq, Eq, Structural)]
pub struct TrafficWatcher;

impl Default for TrafficWatcher {
    fn default() -> (r: TrafficWatcher)
        ensures
            r == TrafficWatcher,
    {
        TrafficWatcher
    }
}

/// The request to meter one interval: the neighbours, each with the
/// interface that leads to it.
#[derive(Debug, PartialEq, Eq)]
pub struct Watch(pub Vec<Neighbor>);

/// Meters one interval.
///
/// The daemon's table is read from `lines`. Where it cannot be read, or
/// states no fee of the node's own, the interval is given up with that
/// error and no debt is reported. Else every neighbour's debt change is
/// reported, computed from the table's routes and fee and from the four
/// counter tables.
pub fn watch(
    lines: &Vec<String>,
    neighbors: &Vec<Neighbor>,
    own_ip: IpAddress,
    input: &Vec<CounterSample>,
    output: &Vec<CounterSample>,
    fwd_input: &Vec<CounterSample>,
    fwd_output: &Vec<CounterSample>,
) -> (r: Result<Vec<DebtDelta>, ProtocolError>)
    ensures
        match snapshot_of(texts(lines@), 0, empty_snapshot()) {
            Err(e) => r == Err::<Vec<DebtDelta>, ProtocolError>(e),
            Ok(s) => match s.local_fee {
                None => r == Err::<Vec<DebtDelta>, ProtocolError>(ProtocolError::MissingLocalFee),
                Some(fee) => r.is_ok() && is_debt_report(
                    r.unwrap()@,
                    Tick { routes: s.routes, fee: fee as nat, own: own_ip, neighbors: neighbors@ },
                    input@,
                    fwd_input@,
                    output@,
                    fwd_output@,
                ),
            },
        },
{
    match read_snapshot(lines) {
        Err(e) => Err(e),
        Ok(snapshot) => match snapshot.local_fee {
            None => Err(ProtocolError::MissingLocalFee),
            Some(fee) => Ok(
                compute_debts(
                    neighbors,
                    &snapshot.routes,
                    fee,
                    own_ip,
                    input,
                    output,
                    fwd_input,
                    fwd_output,
                ),
            ),
        },
    }
}

} // verus!
