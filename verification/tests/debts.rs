use num256::Int256;
use rita_core::address::{IpAddress, Prefix};
use rita_core::counters::{merge_counters, CounterSample};
use rita_core::debts::{
    can_bill, compute_debts, effective_price, neighbor_addresses, resolve_interface, sample_charge,
    table_total, DebtDelta, Direction, Identity, Neighbor,
};
use rita_core::route::{find_route_price, Route};

const DEST: IpAddress = IpAddress::V4(0x0a00_0005);
const OWN: IpAddress = IpAddress::V4(0x0a00_0009);
const N1: IpAddress = IpAddress::V4(0x0a00_0001);
const N2: IpAddress = IpAddress::V6(0xfd00_0000_0000_0000_0000_0000_0000_0002);

fn neighbor(ip: IpAddress, iface: &str, key: &str) -> Neighbor {
    Neighbor {
        identity: Identity { mesh_ip: ip, eth_address: [7u8; 20], wg_public_key: key.to_string() },
        iface: iface.to_string(),
    }
}

fn host_route(dest: IpAddress, price: u64) -> Route {
    let len = match dest {
        IpAddress::V4(_) => 32,
        IpAddress::V6(_) => 128,
    };
    Route { prefix: Prefix { addr: dest, len }, iface: "wg0".to_string(), installed: true, price }
}

fn sample(dest: IpAddress, iface: &str, bytes: u64) -> CounterSample {
    CounterSample::new(dest, iface.to_string(), bytes)
}

fn amounts(deltas: &[DebtDelta]) -> Vec<Int256> {
    deltas.iter().map(|d| d.amount).collect()
}

#[test]
fn one_neighbor_billed_in_both_directions() {
    // The destination's price is 300: the route's 250 and the fee of 50.
    let neighbors = vec![neighbor(N1, "wg0", "k")];
    let routes = vec![host_route(DEST, 250)];
    let input = vec![sample(DEST, "wg0", 1000)];
    let output = vec![sample(DEST, "wg0", 2000)];
    let deltas = compute_debts(&neighbors, &routes, 50, OWN, &input, &output, &vec![], &vec![]);
    assert_eq!(deltas.len(), 1);
    assert_eq!(deltas[0].amount, Int256::from(200000i64));
    assert_eq!(deltas[0].from.mesh_ip, N1);
    assert_eq!(deltas[0].from.wg_public_key, "k");
    assert_eq!(deltas[0].from.eth_address, [7u8; 20]);
}

#[test]
fn zero_traffic_gives_zero_for_every_neighbor() {
    let neighbors = vec![neighbor(N1, "wg0", "a"), neighbor(N2, "wg1", "b")];
    let routes = vec![host_route(DEST, 250)];
    let deltas = compute_debts(&neighbors, &routes, 50, OWN, &vec![], &vec![], &vec![], &vec![]);
    assert_eq!(amounts(&deltas), vec![Int256::from(0i64), Int256::from(0i64)]);
    assert_eq!(deltas[0].from.mesh_ip, N1);
    assert_eq!(deltas[1].from.mesh_ip, N2);
}

#[test]
fn empty_neighbor_list_gives_no_deltas() {
    let routes = vec![host_route(DEST, 250)];
    let input = vec![sample(DEST, "wg0", 1000)];
    let output = vec![sample(DEST, "wg0", 2000)];
    let deltas = compute_debts(&vec![], &routes, 50, OWN, &input, &output, &input, &output);
    assert!(deltas.is_empty());
}

#[test]
fn inbound_bytes_are_charged_at_the_destination_price() {
    let neighbors = vec![neighbor(N1, "wg0", "k")];
    let routes = vec![host_route(DEST, 7)];
    let input = vec![sample(DEST, "wg0", 11)];
    let deltas = compute_debts(&neighbors, &routes, 3, OWN, &input, &vec![], &vec![], &vec![]);
    assert_eq!(amounts(&deltas), vec![Int256::from(-110i64)]);
}

#[test]
fn outbound_bytes_earn_the_price_less_the_fee() {
    let neighbors = vec![neighbor(N1, "wg0", "k")];
    let routes = vec![host_route(DEST, 7)];
    let output = vec![sample(DEST, "wg0", 11)];
    let deltas = compute_debts(&neighbors, &routes, 3, OWN, &vec![], &output, &vec![], &vec![]);
    assert_eq!(amounts(&deltas), vec![Int256::from(77i64)]);
}

#[test]
fn inbound_traffic_for_the_node_itself_is_free() {
    let neighbors = vec![neighbor(N1, "wg0", "k")];
    let routes = vec![host_route(OWN, 900), host_route(DEST, 7)];
    let input = vec![sample(OWN, "wg0", 123456)];
    let fwd = vec![sample(OWN, "wg0", 1)];
    let deltas = compute_debts(&neighbors, &routes, 3, OWN, &input, &vec![], &fwd, &vec![]);
    assert_eq!(amounts(&deltas), vec![Int256::from(0i64)]);
}

#[test]
fn outbound_traffic_for_the_node_itself_loses_the_fee() {
    let neighbors = vec![neighbor(N1, "wg0", "k")];
    let output = vec![sample(OWN, "wg0", 10)];
    let deltas = compute_debts(&neighbors, &vec![], 3, OWN, &vec![], &output, &vec![], &vec![]);
    assert_eq!(amounts(&deltas), vec![Int256::from(-30i64)]);
    let free = compute_debts(&neighbors, &vec![], 0, OWN, &vec![], &output, &vec![], &vec![]);
    assert_eq!(amounts(&free), vec![Int256::from(0i64)]);
}

#[test]
fn unresolved_samples_change_nothing() {
    let neighbors = vec![neighbor(N1, "wg0", "a"), neighbor(N2, "wg1", "b")];
    let routes = vec![host_route(DEST, 7)];
    let input = vec![
        sample(IpAddress::V4(0x0a00_0063), "wg0", 5000),
        sample(DEST, "eth7", 5000),
        sample(DEST, "wg1", 2),
    ];
    let output = vec![sample(IpAddress::V4(0x0a00_0063), "wg1", 9), sample(DEST, "", 9)];
    let deltas = compute_debts(&neighbors, &routes, 3, OWN, &input, &output, &vec![], &vec![]);
    assert_eq!(amounts(&deltas), vec![Int256::from(0i64), Int256::from(-20i64)]);
}

#[test]
fn merge_order_does_not_matter() {
    let neighbors = vec![neighbor(N1, "wg0", "a"), neighbor(N2, "wg1", "b")];
    let routes = vec![host_route(DEST, 7), host_route(N2, 2)];
    let a = vec![sample(DEST, "wg0", 5), sample(N2, "wg1", 6)];
    let b = vec![sample(DEST, "wg0", 50), sample(DEST, "wg1", 1)];
    let c = vec![sample(N2, "wg0", 8)];
    let d = vec![sample(N2, "wg0", 80), sample(DEST, "wg1", 3)];
    let one = compute_debts(&neighbors, &routes, 3, OWN, &a, &c, &b, &d);
    let two = compute_debts(&neighbors, &routes, 3, OWN, &b, &d, &a, &c);
    // N1: -(10 * 55) + (2 * 88); N2: -(5 * 6) - (10 * 1) + (7 * 3).
    assert_eq!(amounts(&one), vec![Int256::from(-374i64), Int256::from(-19i64)]);
    assert_eq!(amounts(&one), amounts(&two));
}

#[test]
fn same_key_in_both_tables_is_summed() {
    let a = vec![sample(DEST, "wg0", 5), sample(N2, "wg1", 6)];
    let b = vec![sample(DEST, "wg0", 50)];
    let merged = merge_counters(&a, &b);
    assert_eq!(merged.len(), 3);
    let total: u64 =
        merged.iter().filter(|s| s.dest == DEST && s.iface == "wg0").map(|s| s.bytes).sum();
    assert_eq!(total, 55);
    assert_eq!(merged[1].dest, N2);
    assert_eq!(merged[1].iface, "wg1");
    assert_eq!(merged[1].bytes, 6);
    assert_eq!(merged[2].bytes, 50);
}

#[test]
fn only_installed_host_routes_are_priced() {
    let mut not_installed = host_route(DEST, 7);
    not_installed.installed = false;
    let network = Route {
        prefix: Prefix { addr: IpAddress::V4(0x0a00_0000), len: 24 },
        iface: "wg0".to_string(),
        installed: true,
        price: 9,
    };
    let v6_net = Route {
        prefix: Prefix { addr: N2, len: 64 },
        iface: "wg0".to_string(),
        installed: true,
        price: 9,
    };
    let routes = vec![not_installed, network, v6_net];
    assert_eq!(find_route_price(&routes, DEST), None);
    assert_eq!(find_route_price(&routes, IpAddress::V4(0x0a00_0000)), None);
    assert_eq!(find_route_price(&routes, N2), None);
    assert!(effective_price(&routes, 3, OWN, DEST).is_none());
    assert_eq!(effective_price(&routes, 3, OWN, OWN), Some(Int256::from(0i64)));
}

#[test]
fn last_installed_host_route_counts() {
    let routes = vec![host_route(DEST, 7), host_route(N2, 1), host_route(DEST, 9)];
    assert_eq!(find_route_price(&routes, DEST), Some(9));
    assert_eq!(find_route_price(&routes, N2), Some(1));
    assert_eq!(effective_price(&routes, 3, OWN, DEST), Some(Int256::from(12i64)));
    assert!(routes[0].is_billable());
}

#[test]
fn price_and_fee_near_the_64_bit_limit_do_not_wrap() {
    let neighbors = vec![neighbor(N1, "wg0", "k")];
    let routes = vec![host_route(DEST, u64::MAX)];
    let input = vec![sample(DEST, "wg0", u64::MAX), sample(DEST, "wg0", u64::MAX)];
    let output = vec![sample(DEST, "wg0", u64::MAX)];
    let deltas =
        compute_debts(&neighbors, &routes, u64::MAX, OWN, &input, &output, &vec![], &vec![]);
    let max = Int256::from(u64::MAX);
    let expected = max * max - (max + max) * max - (max + max) * max;
    assert_eq!(amounts(&deltas), vec![expected]);
    assert_eq!(
        effective_price(&routes, u64::MAX, OWN, DEST),
        Some(Int256::from(36893488147419103230u128))
    );
}

#[test]
fn an_interface_leads_to_the_last_neighbor_listed_with_it() {
    let neighbors = vec![neighbor(N1, "wg0", "a"), neighbor(N2, "wg0", "b")];
    assert_eq!(resolve_interface(&neighbors, &"wg0".to_string()), Some(N2));
    assert_eq!(resolve_interface(&neighbors, &"wg1".to_string()), None);
    assert_eq!(resolve_interface(&vec![], &"wg0".to_string()), None);
}

#[test]
fn an_address_listed_twice_is_reported_once() {
    let neighbors =
        vec![neighbor(N1, "wg0", "old"), neighbor(N2, "wg1", "b"), neighbor(N1, "wg2", "new")];
    assert_eq!(neighbor_addresses(&neighbors), vec![N1, N2]);
    let routes = vec![host_route(DEST, 7)];
    let input = vec![sample(DEST, "wg0", 1), sample(DEST, "wg2", 10)];
    let deltas = compute_debts(&neighbors, &routes, 3, OWN, &input, &vec![], &vec![], &vec![]);
    assert_eq!(deltas.len(), 2);
    assert_eq!(deltas[0].from.mesh_ip, N1);
    assert_eq!(deltas[0].from.wg_public_key, "new");
    assert_eq!(deltas[0].amount, Int256::from(-110i64));
    assert_eq!(deltas[1].from.mesh_ip, N2);
    assert_eq!(deltas[1].amount, Int256::from(0i64));
}

#[test]
fn one_sample_and_one_table() {
    let neighbors = vec![neighbor(N1, "wg0", "k")];
    let routes = vec![host_route(DEST, 7)];
    let s = sample(DEST, "wg0", 4);
    assert_eq!(
        sample_charge(&neighbors, &routes, 3, OWN, &s, N1, Direction::Inbound),
        Int256::from(-40i64)
    );
    assert_eq!(
        sample_charge(&neighbors, &routes, 3, OWN, &s, N1, Direction::Outbound),
        Int256::from(28i64)
    );
    assert_eq!(
        sample_charge(&neighbors, &routes, 3, OWN, &s, N2, Direction::Outbound),
        Int256::from(0i64)
    );
    let table = vec![sample(DEST, "wg0", 4), sample(DEST, "wg0", 6), sample(DEST, "wg9", 6)];
    assert_eq!(
        table_total(&neighbors, &routes, 3, OWN, &table, N1, Direction::Inbound),
        Int256::from(-100i64)
    );
    assert_eq!(s.duplicate().bytes, 4);
    assert_eq!(s.duplicate().iface, "wg0");
}

#[test]
fn a_sample_is_billable_with_a_price_and_a_neighbor() {
    let neighbors = vec![neighbor(N1, "wg0", "k")];
    let routes = vec![host_route(DEST, 7)];
    assert!(can_bill(&neighbors, &routes, OWN, &sample(DEST, "wg0", 1)));
    assert!(can_bill(&neighbors, &routes, OWN, &sample(OWN, "wg0", 1)));
    assert!(!can_bill(&neighbors, &routes, OWN, &sample(N2, "wg0", 1)));
    assert!(!can_bill(&neighbors, &routes, OWN, &sample(DEST, "wg1", 1)));
    assert!(!can_bill(&vec![], &routes, OWN, &sample(DEST, "wg0", 1)));
}
