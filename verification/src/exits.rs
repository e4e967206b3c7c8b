//! Gateway selection: which advertised gateway a device routes its
//! outbound traffic through.

use crate::address::IpAddress;
use crate::route::{find_route_price, route_price, route_views, Route, RouteView};
use crate::settings::{ExitClientSettings, RitaSettingsStruct};
use vstd::prelude::*;

verus! {

/// The order of addresses: IPv4 before IPv6, and within a family by the
/// address's number.
pub open spec fn address_before(a: IpAddress, b: IpAddress) -> bool {
    match (a, b) {
        (IpAddress::V4(x), IpAddress::V4(y)) => x < y,
        (IpAddress::V4(_), IpAddress::V6(_)) => true,
        (IpAddress::V6(_), IpAddress::V4(_)) => false,
        (IpAddress::V6(x), IpAddress::V6(y)) => x < y,
    }
}

/// How ties between gateways of one price are broken: the lower
/// registration port first, then the lower address.
pub open spec fn tie_before(a: ExitClientSettings, b: ExitClientSettings) -> bool {
    a.exit_registration_port < b.exit_registration_port || (a.exit_registration_port
        == b.exit_registration_port && address_before(a.exit_ip, b.exit_ip))
}

/// Whether gateway `a` is to be preferred to gateway `b`: a gateway with an
/// installed host route comes before one without, a cheaper route before a
/// dearer one, and ties are broken by port and address.
pub open spec fn preferred_to(routes: Seq<RouteView>, a: ExitClientSettings, b: ExitClientSettings) -> bool {
    match (route_price(routes, a.exit_ip), route_price(routes, b.exit_ip)) {
        (Some(x), Some(y)) => x < y || (x == y && tie_before(a, b)),
        (Some(_), None) => true,
        (None, Some(_)) => false,
        (None, None) => tie_before(a, b),
    }
}

/// Whether the gateway at position `i` is the one to choose: none is
/// preferred to it, and it is preferred to all that are listed before it.
pub open spec fn is_best_exit(routes: Seq<RouteView>, exits: Seq<ExitClientSettings>, i: int) -> bool {
    &&& 0 <= i < exits.len()
    &&& forall|j: int| 0 <= j < exits.len() ==> !preferred_to(routes, #[trigger] exits[j], exits[i])
    &&& forall|j: int| 0 <= j < i ==> preferred_to(routes, exits[i], #[trigger] exits[j])
}

/// Compares two addresses in the order of addresses.
fn address_less(a: IpAddress, b: IpAddress) -> (r: bool)
    ensures
        r == address_before(a, b),
{
    match (a, b) {
        (IpAddress::V4(x), IpAddress::V4(y)) => x < y,
        (IpAddress::V4(_), IpAddress::V6(_)) => true,
        (IpAddress::V6(_), IpAddress::V4(_)) => false,
        (IpAddress::V6(x), IpAddress::V6(y)) => x < y,
    }
}

/// Whether `a` wins a tie against `b`.
fn tie_less(a: &ExitClientSettings, b: &ExitClientSettings) -> (r: bool)
    ensures
        r == tie_before(*a, *b),
{
    a.exit_registration_port < b.exit_registration_port || (a.exit_registration_port
        == b.exit_registration_port && address_less(a.exit_ip, b.exit_ip))
}

/// Finds the position of the gateway to choose among `exits`, by the
/// prices of the installed host routes in `routes`.
pub fn best_exit_index(routes: &Vec<Route>, exits: &Vec<ExitClientSettings>) -> (best: usize)
    requires
        exits.len() > 0,
    ensures
        is_best_exit(route_views(routes@), exits@, best as int),
{
    let mut best: usize = 0;
    let mut best_price = find_route_price(routes, exits[0].exit_ip);
    let mut i: usize = 1;
    while i < exits.len()
        invariant
            1 <= i <= exits.len(),
            best < i,
            best_price == route_price(route_views(routes@), exits@[best as int].exit_ip),
            forall|j: int| 0 <= j < i ==> !preferred_to(route_views(routes@), #[trigger] exits@[j], exits@[best as int]),
            forall|j: int| 0 <= j < best ==> preferred_to(route_views(routes@), exits@[best as int], #[trigger] exits@[j]),
        decreases exits.len() - i,
    {
        let price = find_route_price(routes, exits[i].exit_ip);
        let better = match (price, best_price) {
            (Some(x), Some(y)) => x < y || (x == y && tie_less(&exits[i], &exits[best])),
            (Some(_), None) => true,
            (None, Some(_)) => false,
            (None, None) => tie_less(&exits[i], &exits[best]),
        };
        assert(better == preferred_to(route_views(routes@), exits@[i as int], exits@[best as int]));
        if better {
            best = i;
            best_price = price;
        }
        i += 1;
    }
    best
}

/// Chooses the gateway to use among `exits`: the one reachable by the
/// cheapest installed host route, ties broken by the lower registration
/// port and then the lower address; among gateways equal in all of these,
/// the one listed first.
pub fn find_best_exit(routes: &Vec<Route>, exits: &Vec<ExitClientSettings>) -> (chosen:
    ExitClientSettings)
    requires
        exits.len() > 0,
    ensures
        exists|i: int| is_best_exit(route_views(routes@), exits@, i) && chosen == exits@[i],
{
    let best = best_exit_index(routes, exits);
    exits[best].duplicate()
}

/// Why no gateway could be chosen.
#[derive(Clone, Copy, Debug, PartialEq, Eq, Structural)]
pub enum ConfigurationError {
    /// No gateway is advertised.
    NoCandidates,
}

/// Chooses the gateway to use among `exits` as [`find_best_exit`] does,
/// and reports an empty list of gateways as an error.
pub fn choose_best_exit(routes: &Vec<Route>, exits: &Vec<ExitClientSettings>) -> (r: Result<
    ExitClientSettings,
    ConfigurationError,
>)
    ensures
        exits@.len() == 0 ==> r == Err::<ExitClientSettings, ConfigurationError>(
            ConfigurationError::NoCandidates,
        ),
        exits@.len() > 0 ==> r.is_ok() && exists|i: int|
            is_best_exit(route_views(routes@), exits@, i) && r.unwrap() == exits@[i],
{
    if exits.len() == 0 {
        Err(ConfigurationError::NoCandidates)
    } else {
        Ok(find_best_exit(routes, exits))
    }
}

/// What a tick does about the gateway.
#[derive(Clone, Copy, Debug, PartialEq, Eq, Structural)]
pub enum ExitAction {
    /// Nothing: a gateway is already in use, or none is advertised.
    Keep,
    /// Take the only advertised gateway, without asking for routes.
    TakeOnly,
    /// Ask the routing daemon for its routes and choose by them.
    ChooseByRoutes,
}

/// Decides what a tick does about the gateway. A gateway in use is kept,
/// whatever else is advertised; with none in use, a single advertised
/// gateway is taken as it is, and several are chosen among by the routes.
pub fn plan_exit(current_is_set: bool, advertised: usize) -> (action: ExitAction)
    ensures
        action == if current_is_set || advertised == 0 {
            ExitAction::Keep
        } else if advertised == 1 {
            ExitAction::TakeOnly
        } else {
            ExitAction::ChooseByRoutes
        },
{
    if current_is_set || advertised == 0 {
        ExitAction::Keep
    } else if advertised == 1 {
        ExitAction::TakeOnly
    } else {
        ExitAction::ChooseByRoutes
    }
}

/// The task that keeps a gateway chosen.
#[derive(Clone, Copy, Debug, PartialEq, Eq, Structural)]
pub struct ExitManager;

impl Default for ExitManager {
    fn default() -> (r: ExitManager)
        ensures
            r == ExitManager,
    {
        ExitManager
    }
}

impl ExitManager {
    /// Makes sure that a gateway is chosen, where one is advertised.
    ///
    /// A gateway in use stays in use, whatever the routes say, and with no
    /// gateway advertised nothing changes. Else the best of the advertised
    /// gateways becomes the one in use. Nothing but the gateway in use is
    /// ever changed.
    pub fn handle(&self, settings: &mut RitaSettingsStruct, routes: &Vec<Route>)
        ensures
            final(settings).payment == old(settings).payment,
            final(settings).network == old(settings).network,
            final(settings).exit_tunnel_settings == old(settings).exit_tunnel_settings,
            final(settings).stats_server == old(settings).stats_server,
            final(settings).exits == old(settings).exits,
            old(settings).wf() ==> final(settings).wf(),
            old(settings).current_exit.is_some() || old(settings).exits@.len() == 0
                ==> final(settings).current_exit == old(settings).current_exit,
            old(settings).current_exit.is_none() && old(settings).exits@.len() > 0
                ==> exists|i: int|
                is_best_exit(route_views(routes@), old(settings).exits@, i)
                    && final(settings).current_exit == Some(old(settings).exits@[i]),
    {
        match plan_exit(settings.current_exit.is_some(), settings.exits.len()) {
            ExitAction::Keep => {},
            _ => {
                let chosen = find_best_exit(routes, &settings.exits);
                settings.current_exit = Some(chosen);
            },
        }
    }
}

/// The choice among given gateways by given routes is one gateway and no
/// other: two positions that both qualify are the same position.
pub proof fn law_best_exit_is_unique(
    routes: Seq<RouteView>,
    exits: Seq<ExitClientSettings>,
    i: int,
    j: int,
)
    requires
        is_best_exit(routes, exits, i),
        is_best_exit(routes, exits, j),
    ensures
        i == j,
{
    if i < j {
        assert(preferred_to(routes, exits[j], exits[i]));
        assert(!preferred_to(routes, exits[j], exits[i]));
    } else if j < i {
        assert(preferred_to(routes, exits[i], exits[j]));
        assert(!preferred_to(routes, exits[i], exits[j]));
    }
}

/// A single advertised gateway is the choice whatever the routes are.
pub proof fn law_single_exit_is_chosen(routes: Seq<RouteView>, exits: Seq<ExitClientSettings>)
    requires
        exits.len() == 1,
    ensures
        is_best_exit(routes, exits, 0),
{
}

} // verus!
