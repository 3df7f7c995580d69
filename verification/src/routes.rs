//! The routing table that a network stack starts with.
use crate::addr::{IpAddress, IpCidr, Ipv4Address, Ipv6Address};
use smoltcp::iface::Routes;
use smoltcp::wire;
use std::collections::BTreeMap;
use vstd::prelude::*;

verus! {

/// A routing table.
#[verifier::external_type_specification]
#[verifier::external_body]
pub struct ExRoutes<'a>(Routes<'a>);

/// A route: the router that it goes through, and the times, in milliseconds, until which it is
/// preferred and at which it expires; `None` stands for never.
#[derive(Debug, Clone, Copy, PartialEq, Eq)]
pub struct Route {
    pub via_router: IpAddress,
    pub preferred_until: Option<i64>,
    pub expires_at: Option<i64>,
}

impl Route {
    /// The route through `router` that never expires.
    pub open spec fn lasting(router: IpAddress) -> Route {
        Route { via_router: router, preferred_until: None, expires_at: None }
    }
}

/// The routes that a table holds, by the block of addresses each serves.
pub uninterp spec fn routes_table(routes: Routes<'static>) -> Map<IpCidr, Route>;

/// Whether a table grows as routes are added, as one over a `BTreeMap` does.
pub uninterp spec fn routes_grow(routes: Routes<'static>) -> bool;

/// All IPv4 addresses.
pub open spec fn any_ipv4() -> IpCidr {
    IpCidr { address: IpAddress::Ipv4(Ipv4Address([0u8, 0, 0, 0])), prefix_len: 0 }
}

/// All IPv6 addresses.
pub open spec fn any_ipv6() -> IpCidr {
    IpCidr {
        address: IpAddress::Ipv6(Ipv6Address([0u8, 0, 0, 0, 0, 0, 0, 0, 0, 0, 0, 0, 0, 0, 0, 0])),
        prefix_len: 0,
    }
}

/// The table with a default route through `v4`, and with one through `v6` where it is given;
/// neither ever expires.
pub open spec fn default_table(v4: Ipv4Address, v6: Option<Ipv6Address>) -> Map<IpCidr, Route> {
    let t = Map::<IpCidr, Route>::empty().insert(
        any_ipv4(),
        Route::lasting(IpAddress::Ipv4(v4)),
    );
    match v6 {
        Some(g) => t.insert(any_ipv6(), Route::lasting(IpAddress::Ipv6(g))),
        None => t,
    }
}

/// The route of `block` in `table`, if there is one.
pub open spec fn route_of(table: Map<IpCidr, Route>, block: IpCidr) -> Option<Route> {
    if table.contains_key(block) {
        Some(table[block])
    } else {
        None
    }
}

/// Calls `Routes::new` with an empty `BTreeMap`: the table is empty, and grows.
#[verifier::external_body]
fn new_routes() -> (routes: Routes<'static>)
    ensures
        routes_table(routes).dom() == Set::<IpCidr>::empty(),
        routes_grow(routes),
{
    Routes::new(BTreeMap::new())
}

/// Calls `Routes::add_default_ipv4_route`: in a table that grows, the route of all IPv4
/// addresses becomes one through `gateway` that never expires, and the route that was in its
/// place is returned.
#[verifier::external_body]
fn add_default_ipv4_route(routes: &mut Routes<'static>, gateway: Ipv4Address) -> (r: Result<
    Option<Route>,
    smoltcp::Error,
>)
    requires
        routes_grow(*old(routes)),
    ensures
        r is Ok,
        r->Ok_0 == route_of(routes_table(*old(routes)), any_ipv4()),
        routes_table(*final(routes)) == routes_table(*old(routes)).insert(
            any_ipv4(),
            Route::lasting(IpAddress::Ipv4(gateway)),
        ),
        routes_grow(*final(routes)),
{
    let previous = routes.add_default_ipv4_route(wire::Ipv4Address(gateway.0))?;
    Ok(previous.map(|route| Route {
        via_router: match route.via_router {
            wire::IpAddress::Ipv4(a) => IpAddress::Ipv4(Ipv4Address(a.0)),
            wire::IpAddress::Ipv6(a) => IpAddress::Ipv6(Ipv6Address(a.0)),
            _ => IpAddress::Unspecified,
        },
        preferred_until: route.preferred_until.map(|time| time.millis),
        expires_at: route.expires_at.map(|time| time.millis),
    }))
}

/// Calls `Routes::add_default_ipv6_route`: in a table that grows, the route of all IPv6
/// addresses becomes one through `gateway` that never expires, and the route that was in its
/// place is returned.
#[verifier::external_body]
fn add_default_ipv6_route(routes: &mut Routes<'static>, gateway: Ipv6Address) -> (r: Result<
    Option<Route>,
    smoltcp::Error,
>)
    requires
        routes_grow(*old(routes)),
    ensures
        r is Ok,
        r->Ok_0 == route_of(routes_table(*old(routes)), any_ipv6()),
        routes_table(*final(routes)) == routes_table(*old(routes)).insert(
            any_ipv6(),
            Route::lasting(IpAddress::Ipv6(gateway)),
        ),
        routes_grow(*final(routes)),
{
    let previous = routes.add_default_ipv6_route(wire::Ipv6Address(gateway.0))?;
    Ok(previous.map(|route| Route {
        via_router: match route.via_router {
            wire::IpAddress::Ipv4(a) => IpAddress::Ipv4(Ipv4Address(a.0)),
            wire::IpAddress::Ipv6(a) => IpAddress::Ipv6(Ipv6Address(a.0)),
            _ => IpAddress::Unspecified,
        },
        preferred_until: route.preferred_until.map(|time| time.millis),
        expires_at: route.expires_at.map(|time| time.millis),
    }))
}

/// The routing table of a stack: a default route for IPv4, and one for IPv6 where a gateway
/// is given. A stack without an IPv4 gateway cannot be made.
pub fn default_routes(
    default_v4_gateway: Option<Ipv4Address>,
    default_v6_gateway: Option<Ipv6Address>,
) -> (routes: Routes<'static>)
    requires
        default_v4_gateway is Some,
    ensures
        routes_table(routes) == default_table(default_v4_gateway->0, default_v6_gateway),
        routes_grow(routes),
{
    let mut routes = new_routes();
    assert(routes_table(routes) =~= Map::<IpCidr, Route>::empty());
    add_default_ipv4_route(&mut routes, default_v4_gateway.unwrap()).unwrap();
    if default_v6_gateway.is_some() {
        add_default_ipv6_route(&mut routes, default_v6_gateway.unwrap()).unwrap();
    }
    routes
}

/// The default routes of the two versions do not stand in each other's way: each block is
/// served by its own gateway, for good, and no other block is served at all.
pub proof fn lemma_default_table(v4: Ipv4Address, v6: Option<Ipv6Address>, block: IpCidr)
    ensures
        route_of(default_table(v4, v6), any_ipv4()) == Some(
            Route::lasting(IpAddress::Ipv4(v4)),
        ),
        v6 matches Some(g) ==> route_of(default_table(v4, v6), any_ipv6()) == Some(
            Route::lasting(IpAddress::Ipv6(g)),
        ),
        v6 is None ==> route_of(default_table(v4, v6), any_ipv6()) is None,
        block != any_ipv4() && block != any_ipv6() ==> route_of(
            default_table(v4, v6),
            block,
        ) is None,
{
}

} // verus!
