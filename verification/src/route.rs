//! Routes as the routing daemon advertises them.

use crate::address::{IpAddress, Prefix};
use vstd::prelude::*;

verus! {

/// One advertised path to a destination prefix.
#[derive(Debug, PartialEq, Eq)]
pub struct Route {
    /// The destination network.
    pub prefix: Prefix,
    /// The local interface of the next hop.
    pub iface: String,
    /// Whether this is the path the node currently forwards on.
    pub installed: bool,
    /// The price that the path advertises.
    pub price: u64,
}

/// A route as a mathematical value, its interface name a sequence of
/// characters.
pub struct RouteView {
    pub prefix: Prefix,
    pub iface: Seq<char>,
    pub installed: bool,
    pub price: u64,
}

impl RouteView {
    /// Whether traffic to a destination can be billed by this route: it is
    /// installed and its prefix is a single host.
    pub open spec fn is_billable(self) -> bool {
        self.installed && self.prefix.spec_is_host()
    }
}

impl View for Route {
    type V = RouteView;

    open spec fn view(&self) -> RouteView {
        RouteView {
            prefix: self.prefix,
            iface: self.iface@,
            installed: self.installed,
            price: self.price,
        }
    }
}

impl Route {
    /// Whether this route is installed and leads to a single host.
    pub fn is_billable(&self) -> (r: bool)
        ensures
            r == self@.is_billable(),
    {
        self.installed && self.prefix.is_host()
    }
}

/// The routes of a list as mathematical values.
pub open spec fn route_views(routes: Seq<Route>) -> Seq<RouteView> {
    Seq::new(routes.len(), |i: int| routes[i]@)
}

/// The advertised price of the last billable route to `dest` in `routes`,
/// if there is one.
pub open spec fn route_price(routes: Seq<RouteView>, dest: IpAddress) -> Option<u64>
    decreases routes.len(),
{
    if routes.len() == 0 {
        None
    } else {
        let r = routes.last();
        if r.is_billable() && r.prefix.addr == dest {
            Some(r.price)
        } else {
            route_price(routes.drop_last(), dest)
        }
    }
}

/// Looks up the advertised price of the installed host route to `dest`.
/// Where several such routes are listed, the last one counts.
pub fn find_route_price(routes: &Vec<Route>, dest: IpAddress) -> (r: Option<u64>)
    ensures
        r == route_price(route_views(routes@), dest),
{
    let ghost all = route_views(routes@);
    let mut i: usize = routes.len();
    assert(all.take(i as int) =~= all);
    while i > 0
        invariant
            i <= routes.len(),
            all == route_views(routes@),
            route_price(all, dest) == route_price(all.take(i as int), dest),
        decreases i,
    {
        let r = &routes[i - 1];
        assert(all.take(i as int).last() == routes@[i - 1]@);
        assert(all.take(i as int).drop_last() =~= all.take(i - 1));
        if r.is_billable() && r.prefix.addr == dest {
            return Some(r.price);
        }
        i -= 1;
    }
    None
}

} // verus!
