//! The metering core: from routes, neighbours and traffic counters to one
//! signed debt change per neighbour.

use crate::address::IpAddress;
use crate::amount::{
    int256_add, int256_from_u64, int256_limit, int256_mul, int256_sub, int256_value,
};
use crate::counters::{merge_counters, CounterSample};
use crate::route::{find_route_price, route_price, route_views, Route, RouteView};
use num256::Int256;
use vstd::prelude::*;

verus! {

/// Who a peer is on the mesh and towards the ledger.
#[derive(Debug, PartialEq, Eq)]
pub struct Identity {
    pub mesh_ip: IpAddress,
    pub eth_address: [u8; 20],
    pub wg_public_key: String,
}

impl Identity {
    /// A second identity equal to this one.
    pub fn duplicate(&self) -> (r: Identity)
        ensures
            r == *self,
    {
        Identity {
            mesh_ip: self.mesh_ip,
            eth_address: self.eth_address,
            wg_public_key: self.wg_public_key.clone(),
        }
    }
}

/// A direct neighbour and the local interface that leads to it.
#[derive(Debug, PartialEq, Eq)]
pub struct Neighbor {
    pub identity: Identity,
    pub iface: String,
}

/// The change of one neighbour's balance for one interval.
#[derive(Debug, PartialEq, Eq)]
pub struct DebtDelta {
    pub from: Identity,
    pub amount: Int256,
}

/// The two directions in which traffic is billed.
#[derive(Clone, Copy, Debug, PartialEq, Eq, Structural)]
pub enum Direction {
    /// Traffic received from a neighbour.
    Inbound,
    /// Traffic sent on through a neighbour.
    Outbound,
}

/// What one accounting interval knows besides the counters.
pub struct Tick {
    pub routes: Seq<RouteView>,
    pub fee: nat,
    pub own: IpAddress,
    pub neighbors: Seq<Neighbor>,
}

/// The price per byte of traffic to `dest`: nothing for the node's own
/// address, else the advertised price of the billable route plus the
/// node's own fee. A destination without such a route has no price.
pub open spec fn price_of(routes: Seq<RouteView>, fee: nat, own: IpAddress, dest: IpAddress) -> Option<
    int,
> {
    if dest == own {
        Some(0)
    } else {
        match route_price(routes, dest) {
            Some(p) => Some(p + fee),
            None => None,
        }
    }
}

/// The mesh address of the neighbour behind `iface`: that of the last
/// neighbour listed with this interface.
pub open spec fn neighbor_on(neighbors: Seq<Neighbor>, iface: Seq<char>) -> Option<IpAddress>
    decreases neighbors.len(),
{
    if neighbors.len() == 0 {
        None
    } else {
        let n = neighbors.last();
        if n.iface@ == iface {
            Some(n.identity.mesh_ip)
        } else {
            neighbor_on(neighbors.drop_last(), iface)
        }
    }
}

/// What one sample changes in the balance of the neighbour at `who`.
///
/// A sample counts only where its destination has a price and its
/// interface leads to `who`. Inbound bytes are charged at the
/// destination's price; outbound bytes earn that price less the node's own
/// fee.
pub open spec fn charge(tick: Tick, s: CounterSample, who: IpAddress, dir: Direction) -> int {
    match (price_of(tick.routes, tick.fee, tick.own, s.dest), neighbor_on(tick.neighbors, s.iface@)) {
        (Some(p), Some(m)) => if m == who {
            match dir {
                Direction::Inbound => -(p * s.bytes),
                Direction::Outbound => (p - tick.fee) * s.bytes,
            }
        } else {
            0
        },
        _ => 0,
    }
}

/// The sum of the charges of a table's samples.
pub open spec fn table_charge(tick: Tick, samples: Seq<CounterSample>, who: IpAddress, dir: Direction) -> int
    decreases samples.len(),
{
    if samples.len() == 0 {
        0
    } else {
        table_charge(tick, samples.drop_last(), who, dir) + charge(tick, samples.last(), who, dir)
    }
}

/// The debt change of the neighbour at `who` for one interval: the charges
/// of all inbound traffic, local and forwarded, and of all outbound
/// traffic, local and forwarded.
pub open spec fn debt_delta(
    tick: Tick,
    input: Seq<CounterSample>,
    fwd_input: Seq<CounterSample>,
    output: Seq<CounterSample>,
    fwd_output: Seq<CounterSample>,
    who: IpAddress,
) -> int {
    table_charge(tick, input + fwd_input, who, Direction::Inbound) + table_charge(
        tick,
        output + fwd_output,
        who,
        Direction::Outbound,
    )
}

/// The mesh addresses of the neighbours, each once, in the order in which
/// they are first listed.
pub open spec fn ledger_keys(neighbors: Seq<Neighbor>) -> Seq<IpAddress>
    decreases neighbors.len(),
{
    if neighbors.len() == 0 {
        Seq::empty()
    } else {
        let before = ledger_keys(neighbors.drop_last());
        let ip = neighbors.last().identity.mesh_ip;
        if before.contains(ip) {
            before
        } else {
            before.push(ip)
        }
    }
}

/// The position of the last neighbour listed with the mesh address `ip`.
pub open spec fn last_listing(neighbors: Seq<Neighbor>, ip: IpAddress) -> Option<int>
    decreases neighbors.len(),
{
    if neighbors.len() == 0 {
        None
    } else if neighbors.last().identity.mesh_ip == ip {
        Some(neighbors.len() - 1)
    } else {
        last_listing(neighbors.drop_last(), ip)
    }
}

/// The largest size of one sample's charge: a price below 2^65 times a
/// byte count below 2^64.
pub open spec fn charge_bound() -> int {
    0x2_0000_0000_0000_0000int * 0x1_0000_0000_0000_0000int
}

/// The price per byte of traffic to `dest`, as the price table of one
/// interval has it.
pub fn effective_price(routes: &Vec<Route>, fee: u64, own: IpAddress, dest: IpAddress) -> (r:
    Option<Int256>)
    ensures
        match r {
            Some(p) => price_of(route_views(routes@), fee as nat, own, dest) == Some(int256_value(p)),
            None => price_of(route_views(routes@), fee as nat, own, dest).is_none(),
        },
{
    if dest == own {
        Some(int256_from_u64(0))
    } else {
        match find_route_price(routes, dest) {
            Some(p) => {
                let a = int256_from_u64(p);
                let b = int256_from_u64(fee);
                Some(int256_add(a, b))
            },
            None => None,
        }
    }
}

/// Finds the neighbour behind a local interface.
pub fn resolve_interface(neighbors: &Vec<Neighbor>, iface: &String) -> (r: Option<IpAddress>)
    ensures
        r == neighbor_on(neighbors@, iface@),
{
    let mut i: usize = neighbors.len();
    assert(neighbors@.take(i as int) =~= neighbors@);
    while i > 0
        invariant
            i <= neighbors.len(),
            neighbor_on(neighbors@, iface@) == neighbor_on(neighbors@.take(i as int), iface@),
        decreases i,
    {
        let n = &neighbors[i - 1];
        assert(neighbors@.take(i as int).last() == neighbors@[i - 1]);
        assert(neighbors@.take(i as int).drop_last() =~= neighbors@.take(i - 1));
        if n.iface == *iface {
            return Some(n.identity.mesh_ip);
        }
        i -= 1;
    }
    None
}

/// Whether a sample can be billed: its destination is the node itself or
/// has a billable route, and its interface leads to a neighbour.
pub open spec fn is_billable_sample(
    routes: Seq<RouteView>,
    own: IpAddress,
    neighbors: Seq<Neighbor>,
    s: CounterSample,
) -> bool {
    (s.dest == own || route_price(routes, s.dest).is_some()) && neighbor_on(
        neighbors,
        s.iface@,
    ).is_some()
}

/// Tells whether a sample can be billed. One that cannot is an anomaly in
/// the data: it is passed over and changes nobody's debt.
pub fn can_bill(
    neighbors: &Vec<Neighbor>,
    routes: &Vec<Route>,
    own: IpAddress,
    s: &CounterSample,
) -> (r: bool)
    ensures
        r == is_billable_sample(route_views(routes@), own, neighbors@, *s),
{
    let priced = s.dest == own || find_route_price(routes, s.dest).is_some();
    let led = resolve_interface(neighbors, &s.iface).is_some();
    priced && led
}

/// A product of two bounded non-negative numbers is bounded by the
/// product of the bounds.
proof fn lemma_product_bound(p: int, b: int, pmax: int, bmax: int)
    requires
        0 <= p <= pmax,
        0 <= b <= bmax,
    ensures
        0 <= p * b <= pmax * bmax,
{
    assert(0 <= p * b <= pmax * bmax) by (nonlinear_arith)
        requires
            0 <= p <= pmax,
            0 <= b <= bmax,
    ;
}

/// A product of a number bounded in size and a bounded non-negative
/// number is bounded in size by the product of the bounds.
proof fn lemma_signed_product_bound(m: int, b: int, mmax: int, bmax: int)
    requires
        -mmax <= m <= mmax,
        0 <= b <= bmax,
    ensures
        -(mmax * bmax) <= m * b <= mmax * bmax,
{
    assert(-(mmax * bmax) <= m * b <= mmax * bmax) by (nonlinear_arith)
        requires
            -mmax <= m <= mmax,
            0 <= b <= bmax,
    ;
}

/// The charges of as many samples as a table can hold add up to an amount
/// that an `Int256` holds.
proof fn lemma_totals_fit(i: int)
    requires
        0 <= i < 0x1_0000_0000_0000_0000int,
    ensures
        (i + 1) * charge_bound() == i * charge_bound() + charge_bound(),
        0 <= i * charge_bound(),
        2 * ((i + 1) * charge_bound()) < int256_limit(),
{
    assert((i + 1) * charge_bound() == i * charge_bound() + charge_bound()
        && 0 <= i * charge_bound()
        && 2 * ((i + 1) * charge_bound()) < int256_limit()) by (nonlinear_arith)
        requires
            0 <= i < 0x1_0000_0000_0000_0000int,
            charge_bound() == 0x2_0000_0000_0000_0000int * 0x1_0000_0000_0000_0000int,
            int256_limit() == 0x1_0000_0000_0000_0000int * 0x1_0000_0000_0000_0000int
                * 0x1_0000_0000_0000_0000int * 0x8000_0000_0000_0000int,
    ;
}

/// Computes what one sample changes in the balance of the neighbour at
/// `who`. A sample whose destination has no price, or whose interface
/// leads to no neighbour, changes nothing.
pub fn sample_charge(
    neighbors: &Vec<Neighbor>,
    routes: &Vec<Route>,
    fee: u64,
    own: IpAddress,
    s: &CounterSample,
    who: IpAddress,
    dir: Direction,
) -> (r: Int256)
    ensures
        int256_value(r) == charge(
            Tick { routes: route_views(routes@), fee: fee as nat, own, neighbors: neighbors@ },
            *s,
            who,
            dir,
        ),
        -charge_bound() <= int256_value(r) <= charge_bound(),
{
    let price = effective_price(routes, fee, own, s.dest);
    let behind = resolve_interface(neighbors, &s.iface);
    match (price, behind) {
        (Some(p), Some(m)) => {
            if m == who {
                let bytes = int256_from_u64(s.bytes);
                let zero = int256_from_u64(0);
                assert(0 <= int256_value(p) <= 0x1_ffff_ffff_ffff_fffeint);
                match dir {
                    Direction::Inbound => {
                        proof {
                            lemma_product_bound(
                                int256_value(p),
                                s.bytes as int,
                                0x2_0000_0000_0000_0000int,
                                0x1_0000_0000_0000_0000int,
                            );
                        }
                        let gross = int256_mul(p, bytes);
                        int256_sub(zero, gross)
                    },
                    Direction::Outbound => {
                        let f = int256_from_u64(fee);
                        let margin = int256_sub(p, f);
                        proof {
                            lemma_signed_product_bound(
                                int256_value(margin),
                                s.bytes as int,
                                0x2_0000_0000_0000_0000int,
                                0x1_0000_0000_0000_0000int,
                            );
                        }
                        int256_mul(margin, bytes)
                    },
                }
            } else {
                int256_from_u64(0)
            }
        },
        _ => int256_from_u64(0),
    }
}

/// Adds up the charges of a table's samples for the neighbour at `who`.
pub fn table_total(
    neighbors: &Vec<Neighbor>,
    routes: &Vec<Route>,
    fee: u64,
    own: IpAddress,
    samples: &Vec<CounterSample>,
    who: IpAddress,
    dir: Direction,
) -> (r: Int256)
    ensures
        int256_value(r) == table_charge(
            Tick { routes: route_views(routes@), fee: fee as nat, own, neighbors: neighbors@ },
            samples@,
            who,
            dir,
        ),
        -(samples.len() * charge_bound()) <= int256_value(r) <= samples.len() * charge_bound(),
{
    let ghost tick = Tick { routes: route_views(routes@), fee: fee as nat, own, neighbors: neighbors@ };
    let mut acc = int256_from_u64(0);
    let mut i: usize = 0;
    while i < samples.len()
        invariant
            i <= samples.len(),
            tick == (Tick { routes: route_views(routes@), fee: fee as nat, own, neighbors: neighbors@ }),
            int256_value(acc) == table_charge(tick, samples@.take(i as int), who, dir),
            -(i * charge_bound()) <= int256_value(acc) <= i * charge_bound(),
        decreases samples.len() - i,
    {
        let c = sample_charge(neighbors, routes, fee, own, &samples[i], who, dir);
        proof {
            assert(samples@.take(i + 1).drop_last() =~= samples@.take(i as int));
            assert(samples@.take(i + 1).last() == samples@[i as int]);
            lemma_totals_fit(i as int);
        }
        acc = int256_add(acc, c);
        i += 1;
    }
    assert(samples@.take(samples.len() as int) =~= samples@);
    acc
}

/// Whether `ip` is among `keys`.
fn contains_address(keys: &Vec<IpAddress>, ip: IpAddress) -> (r: bool)
    ensures
        r == keys@.contains(ip),
{
    let mut i: usize = 0;
    while i < keys.len()
        invariant
            i <= keys.len(),
            forall|j: int| 0 <= j < i ==> keys@[j] != ip,
        decreases keys.len() - i,
    {
        if keys[i] == ip {
            return true;
        }
        i += 1;
    }
    false
}

/// Lists the mesh addresses of the neighbours, each once, in the order in
/// which they are first listed: the keys under which debts are reported.
pub fn neighbor_addresses(neighbors: &Vec<Neighbor>) -> (keys: Vec<IpAddress>)
    ensures
        keys@ == ledger_keys(neighbors@),
{
    let mut keys: Vec<IpAddress> = Vec::new();
    let mut i: usize = 0;
    while i < neighbors.len()
        invariant
            i <= neighbors.len(),
            keys@ == ledger_keys(neighbors@.take(i as int)),
        decreases neighbors.len() - i,
    {
        let ip = neighbors[i].identity.mesh_ip;
        proof {
            assert(neighbors@.take(i + 1).drop_last() =~= neighbors@.take(i as int));
            assert(neighbors@.take(i + 1).last() == neighbors@[i as int]);
        }
        if !contains_address(&keys, ip) {
            keys.push(ip);
        }
        i += 1;
    }
    assert(neighbors@.take(neighbors.len() as int) =~= neighbors@);
    keys
}

/// Finds the last neighbour listed with the mesh address `ip`.
pub fn find_last_listing(neighbors: &Vec<Neighbor>, ip: IpAddress) -> (r: Option<usize>)
    ensures
        match r {
            Some(i) => last_listing(neighbors@, ip) == Some(i as int),
            None => last_listing(neighbors@, ip).is_none(),
        },
{
    let mut i: usize = neighbors.len();
    assert(neighbors@.take(i as int) =~= neighbors@);
    while i > 0
        invariant
            i <= neighbors.len(),
            last_listing(neighbors@, ip) == last_listing(neighbors@.take(i as int), ip),
        decreases i,
    {
        assert(neighbors@.take(i as int).last() == neighbors@[i - 1]);
        assert(neighbors@.take(i as int).drop_last() =~= neighbors@.take(i - 1));
        if neighbors[i - 1].identity.mesh_ip == ip {
            return Some(i - 1);
        }
        i -= 1;
    }
    None
}

/// A listing that is found is a position in the list, and the neighbour
/// there has the address that was looked for.
pub proof fn lemma_last_listing_is_listed(neighbors: Seq<Neighbor>, ip: IpAddress)
    ensures
        match last_listing(neighbors, ip) {
            Some(i) => 0 <= i < neighbors.len() && neighbors[i].identity.mesh_ip == ip,
            None => true,
        },
    decreases neighbors.len(),
{
    if neighbors.len() > 0 && neighbors.last().identity.mesh_ip != ip {
        lemma_last_listing_is_listed(neighbors.drop_last(), ip);
    }
}

/// Every key under which a debt is reported is the address of a listed
/// neighbour.
pub proof fn lemma_keys_are_listed(neighbors: Seq<Neighbor>, ip: IpAddress)
    requires
        ledger_keys(neighbors).contains(ip),
    ensures
        last_listing(neighbors, ip).is_some(),
    decreases neighbors.len(),
{
    if neighbors.len() > 0 && neighbors.last().identity.mesh_ip != ip {
        let before = ledger_keys(neighbors.drop_last());
        let last_ip = neighbors.last().identity.mesh_ip;
        if !before.contains(last_ip) {
            let k = choose|k: int| 0 <= k < before.push(last_ip).len() && before.push(last_ip)[k] == ip;
            assert(before[k] == ip);
        }
        lemma_keys_are_listed(neighbors.drop_last(), ip);
    }
}

/// A report holds no mesh address twice: every neighbour gets one entry.
pub proof fn law_no_address_reported_twice(neighbors: Seq<Neighbor>)
    ensures
        ledger_keys(neighbors).no_duplicates(),
    decreases neighbors.len(),
{
    if neighbors.len() > 0 {
        law_no_address_reported_twice(neighbors.drop_last());
    }
}

/// Whether `deltas` is the report of one interval: one entry for every
/// listed mesh address, in the order of first listing, each with the
/// identity of the last neighbour listed with that address and with that
/// neighbour's debt change.
pub open spec fn is_debt_report(
    deltas: Seq<DebtDelta>,
    tick: Tick,
    input: Seq<CounterSample>,
    fwd_input: Seq<CounterSample>,
    output: Seq<CounterSample>,
    fwd_output: Seq<CounterSample>,
) -> bool {
    &&& deltas.len() == ledger_keys(tick.neighbors).len()
    &&& forall|k: int|
        #![trigger deltas[k]]
        0 <= k < deltas.len() ==> {
            let who = ledger_keys(tick.neighbors)[k];
            &&& deltas[k].from.mesh_ip == who
            &&& last_listing(tick.neighbors, who).is_some()
            &&& deltas[k].from == tick.neighbors[last_listing(tick.neighbors, who).unwrap()].identity
            &&& int256_value(deltas[k].amount) == debt_delta(
                tick,
                input,
                fwd_input,
                output,
                fwd_output,
                who,
            )
        }
}

/// Computes the debt change of every neighbour for one interval.
///
/// The inbound tables are merged into one and so are the outbound tables.
/// Every listed mesh address gets one entry, in the order of first
/// listing, also where no traffic was counted for it; the entry carries the
/// identity of the last neighbour listed with that address. A sample that
/// cannot be billed changes no entry.
pub fn compute_debts(
    neighbors: &Vec<Neighbor>,
    routes: &Vec<Route>,
    local_fee: u64,
    own_ip: IpAddress,
    input: &Vec<CounterSample>,
    output: &Vec<CounterSample>,
    fwd_input: &Vec<CounterSample>,
    fwd_output: &Vec<CounterSample>,
) -> (deltas: Vec<DebtDelta>)
    ensures
        is_debt_report(
            deltas@,
            Tick {
                routes: route_views(routes@),
                fee: local_fee as nat,
                own: own_ip,
                neighbors: neighbors@,
            },
            input@,
            fwd_input@,
            output@,
            fwd_output@,
        ),
{
    let ghost tick = Tick {
        routes: route_views(routes@),
        fee: local_fee as nat,
        own: own_ip,
        neighbors: neighbors@,
    };
    let total_in = merge_counters(input, fwd_input);
    let total_out = merge_counters(output, fwd_output);
    let keys = neighbor_addresses(neighbors);
    let mut deltas: Vec<DebtDelta> = Vec::new();
    let mut k: usize = 0;
    while k < keys.len()
        invariant
            k <= keys.len(),
            keys@ == ledger_keys(neighbors@),
            total_in@ == input@ + fwd_input@,
            total_out@ == output@ + fwd_output@,
            tick == (Tick {
                routes: route_views(routes@),
                fee: local_fee as nat,
                own: own_ip,
                neighbors: neighbors@,
            }),
            deltas.len() == k,
            forall|j: int|
                #![trigger deltas@[j]]
                0 <= j < k ==> {
                    let who = keys@[j];
                    &&& deltas@[j].from.mesh_ip == who
                    &&& last_listing(neighbors@, who).is_some()
                    &&& deltas@[j].from == neighbors@[last_listing(
                        neighbors@,
                        who,
                    ).unwrap()].identity
                    &&& int256_value(deltas@[j].amount) == debt_delta(
                        tick,
                        input@,
                        fwd_input@,
                        output@,
                        fwd_output@,
                        who,
                    )
                },
        decreases keys.len() - k,
    {
        let who = keys[k];
        proof {
            assert(keys@.contains(who));
            lemma_keys_are_listed(neighbors@, who);
            lemma_last_listing_is_listed(neighbors@, who);
        }
        let listed = find_last_listing(neighbors, who);
        let at = listed.unwrap();
        let from = neighbors[at].identity.duplicate();
        let charged = table_total(
            neighbors,
            routes,
            local_fee,
            own_ip,
            &total_in,
            who,
            Direction::Inbound,
        );
        let earned = table_total(
            neighbors,
            routes,
            local_fee,
            own_ip,
            &total_out,
            who,
            Direction::Outbound,
        );
        proof {
            lemma_totals_fit(total_in.len() as int);
            lemma_totals_fit(total_out.len() as int);
        }
        let amount = int256_add(charged, earned);
        deltas.push(DebtDelta { from, amount });
        k += 1;
    }
    deltas
}

/// The charges of two tables laid end to end are the charges of the one
/// plus those of the other.
pub proof fn lemma_table_charge_concat(
    tick: Tick,
    a: Seq<CounterSample>,
    b: Seq<CounterSample>,
    who: IpAddress,
    dir: Direction,
)
    ensures
        table_charge(tick, a + b, who, dir) == table_charge(tick, a, who, dir) + table_charge(
            tick,
            b,
            who,
            dir,
        ),
    decreases b.len(),
{
    if b.len() == 0 {
        assert(a + b =~= a);
    } else {
        assert((a + b).drop_last() =~= a + b.drop_last());
        assert((a + b).last() == b.last());
        lemma_table_charge_concat(tick, a, b.drop_last(), who, dir);
    }
}

/// A table of one sample charges what the sample charges.
pub proof fn lemma_table_charge_single(tick: Tick, s: CounterSample, who: IpAddress, dir: Direction)
    ensures
        table_charge(tick, seq![s], who, dir) == charge(tick, s, who, dir),
{
    assert(seq![s].drop_last() =~= Seq::<CounterSample>::empty());
    assert(seq![s].last() == s);
    reveal_with_fuel(table_charge, 2);
}

/// With no traffic counted in any of the four tables, every neighbour's
/// debt change is zero.
pub proof fn law_idle_interval_changes_nothing(tick: Tick, who: IpAddress)
    ensures
        debt_delta(
            tick,
            Seq::empty(),
            Seq::empty(),
            Seq::empty(),
            Seq::empty(),
            who,
        ) == 0,
{
    assert(Seq::<CounterSample>::empty() + Seq::<CounterSample>::empty() =~= Seq::<
        CounterSample,
    >::empty());
}

/// Traffic received for the node's own address is free whatever the
/// routes and the fee are: such a sample charges no neighbour, and a
/// debt change is the same with it among the inbound counters as without.
pub proof fn law_own_inbound_traffic_is_free(
    tick: Tick,
    input: Seq<CounterSample>,
    fwd_input: Seq<CounterSample>,
    output: Seq<CounterSample>,
    fwd_output: Seq<CounterSample>,
    s: CounterSample,
    who: IpAddress,
)
    requires
        s.dest == tick.own,
    ensures
        charge(tick, s, who, Direction::Inbound) == 0,
        debt_delta(tick, input.push(s), fwd_input, output, fwd_output, who) == debt_delta(
            tick,
            input,
            fwd_input,
            output,
            fwd_output,
            who,
        ),
        debt_delta(tick, input, fwd_input.push(s), output, fwd_output, who) == debt_delta(
            tick,
            input,
            fwd_input,
            output,
            fwd_output,
            who,
        ),
{
    lemma_extra_sample(tick, input, fwd_input, s, who, Direction::Inbound);
}

/// Traffic sent to the node's own address is free where the node charges
/// no fee of its own.
pub proof fn law_own_outbound_traffic_is_free(
    tick: Tick,
    input: Seq<CounterSample>,
    fwd_input: Seq<CounterSample>,
    output: Seq<CounterSample>,
    fwd_output: Seq<CounterSample>,
    s: CounterSample,
    who: IpAddress,
)
    requires
        s.dest == tick.own,
        tick.fee == 0,
    ensures
        charge(tick, s, who, Direction::Outbound) == 0,
        debt_delta(tick, input, fwd_input, output.push(s), fwd_output, who) == debt_delta(
            tick,
            input,
            fwd_input,
            output,
            fwd_output,
            who,
        ),
        debt_delta(tick, input, fwd_input, output, fwd_output.push(s), who) == debt_delta(
            tick,
            input,
            fwd_input,
            output,
            fwd_output,
            who,
        ),
{
    lemma_extra_sample(tick, output, fwd_output, s, who, Direction::Outbound);
}

/// One more sample in either of two merged tables adds its own charge to
/// their total.
pub proof fn lemma_extra_sample(
    tick: Tick,
    a: Seq<CounterSample>,
    b: Seq<CounterSample>,
    s: CounterSample,
    who: IpAddress,
    dir: Direction,
)
    ensures
        table_charge(tick, a.push(s) + b, who, dir) == table_charge(tick, a + b, who, dir) + charge(
            tick,
            s,
            who,
            dir,
        ),
        table_charge(tick, a + b.push(s), who, dir) == table_charge(tick, a + b, who, dir) + charge(
            tick,
            s,
            who,
            dir,
        ),
{
    lemma_table_charge_concat(tick, a.push(s), b, who, dir);
    lemma_table_charge_concat(tick, a, b, who, dir);
    lemma_table_charge_concat(tick, a, b.push(s), who, dir);
    assert(a.push(s).drop_last() =~= a);
    assert(b.push(s).drop_last() =~= b);
}

/// With one neighbour and one billable route to a destination other than
/// the node itself, whose price with the node's fee is `P`: `b` bytes
/// counted as inbound alone change the neighbour's debt by `-P * b`, and
/// `b` bytes counted as outbound alone change it by `(P - fee) * b`.
pub proof fn law_sign_convention(tick: Tick, n: Neighbor, r: RouteView, s: CounterSample)
    requires
        tick.neighbors == seq![n],
        tick.routes == seq![r],
        r.is_billable(),
        r.prefix.addr == s.dest,
        s.dest != tick.own,
        s.iface@ == n.iface@,
    ensures
        price_of(tick.routes, tick.fee, tick.own, s.dest) == Some(r.price + tick.fee),
        debt_delta(
            tick,
            seq![s],
            Seq::empty(),
            Seq::empty(),
            Seq::empty(),
            n.identity.mesh_ip,
        ) == -((r.price + tick.fee) * s.bytes),
        debt_delta(
            tick,
            Seq::empty(),
            Seq::empty(),
            seq![s],
            Seq::empty(),
            n.identity.mesh_ip,
        ) == ((r.price + tick.fee) - tick.fee) * s.bytes,
{
    let none = Seq::<CounterSample>::empty();
    assert(seq![r].last() == r);
    assert(seq![n].last() == n);
    assert(none + none =~= none);
    assert(seq![s] + none =~= seq![s]);
    lemma_table_charge_single(tick, s, n.identity.mesh_ip, Direction::Inbound);
    lemma_table_charge_single(tick, s, n.identity.mesh_ip, Direction::Outbound);
}

/// A sample whose destination has no price, or whose interface leads to
/// no neighbour, changes nobody's debt: it charges nothing, and every debt
/// change is the same with it in any of the four tables as without it.
pub proof fn law_unresolved_sample_changes_nothing(
    tick: Tick,
    input: Seq<CounterSample>,
    fwd_input: Seq<CounterSample>,
    output: Seq<CounterSample>,
    fwd_output: Seq<CounterSample>,
    s: CounterSample,
    who: IpAddress,
    dir: Direction,
)
    requires
        !is_billable_sample(tick.routes, tick.own, tick.neighbors, s),
    ensures
        charge(tick, s, who, dir) == 0,
        debt_delta(tick, input.push(s), fwd_input, output, fwd_output, who) == debt_delta(
            tick,
            input,
            fwd_input,
            output,
            fwd_output,
            who,
        ),
        debt_delta(tick, input, fwd_input.push(s), output, fwd_output, who) == debt_delta(
            tick,
            input,
            fwd_input,
            output,
            fwd_output,
            who,
        ),
        debt_delta(tick, input, fwd_input, output.push(s), fwd_output, who) == debt_delta(
            tick,
            input,
            fwd_input,
            output,
            fwd_output,
            who,
        ),
        debt_delta(tick, input, fwd_input, output, fwd_output.push(s), who) == debt_delta(
            tick,
            input,
            fwd_input,
            output,
            fwd_output,
            who,
        ),
{
    lemma_extra_sample(tick, input, fwd_input, s, who, Direction::Inbound);
    lemma_extra_sample(tick, output, fwd_output, s, who, Direction::Outbound);
}

/// The order in which the forwarded and the local counters are merged
/// does not matter to any debt change.
pub proof fn law_merge_order_is_irrelevant(
    tick: Tick,
    input: Seq<CounterSample>,
    fwd_input: Seq<CounterSample>,
    output: Seq<CounterSample>,
    fwd_output: Seq<CounterSample>,
    who: IpAddress,
)
    ensures
        debt_delta(tick, input, fwd_input, output, fwd_output, who) == debt_delta(
            tick,
            fwd_input,
            input,
            fwd_output,
            output,
            who,
        ),
{
    lemma_table_charge_concat(tick, input, fwd_input, who, Direction::Inbound);
    lemma_table_charge_concat(tick, fwd_input, input, who, Direction::Inbound);
    lemma_table_charge_concat(tick, output, fwd_output, who, Direction::Outbound);
    lemma_table_charge_concat(tick, fwd_output, output, who, Direction::Outbound);
}

} // verus!
