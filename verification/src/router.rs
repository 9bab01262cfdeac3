//! The route table of the HTTP layer: which handler serves which path.
//! The outside HTTP framework dispatches requests; this module is the
//! verified statement of that wiring, so the mapping from path to
//! handler can be checked and tested on its own.

use vstd::prelude::*;

verus! {

/// The handler a request path is dispatched to. `Customers` is the
/// business-data route, an external collaborator of this core;
/// `NotFound` stands for every path outside the table.
#[derive(Clone, Copy, PartialEq, Eq, Structural, Debug)]
pub enum RouteKind {
    Alive,
    Ready,
    Hello,
    Customers,
    NotFound,
}

pub open spec fn spec_route_of(path: Seq<char>) -> RouteKind {
    if path == "/api/check/alive"@ {
        RouteKind::Alive
    } else if path == "/api/check/ready"@ {
        RouteKind::Ready
    } else if path == "/api/test"@ {
        RouteKind::Hello
    } else if path == "/api/customers"@ {
        RouteKind::Customers
    } else {
        RouteKind::NotFound
    }
}

/// Which handler serves the given request path.
pub fn route_of(path: &String) -> (r: RouteKind)
    ensures
        r == spec_route_of(path@),
{
    if *path == "/api/check/alive".to_string() {
        RouteKind::Alive
    } else if *path == "/api/check/ready".to_string() {
        RouteKind::Ready
    } else if *path == "/api/test".to_string() {
        RouteKind::Hello
    } else if *path == "/api/customers".to_string() {
        RouteKind::Customers
    } else {
        RouteKind::NotFound
    }
}

} // verus!
