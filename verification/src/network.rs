//! The holder of the network route.

use crate::error::{BrowserError, BrowserErrorView, ErrorKind, outcome_of};
use crate::ipc::NetworkRoute;
use vstd::prelude::*;

verus! {

/// A route that a holder was asked to take, and how that ended.
pub struct RouteTaken {
    pub route: NetworkRoute,
    pub ended: Result<(), BrowserErrorView>,
}

/// What is known of a holder of the network route.
pub struct NetworkModel {
    /// The route in force.
    pub route: NetworkRoute,
    /// The routes that the holder was asked to take, oldest first.
    pub asked: Seq<RouteTaken>,
}

/// The holder after it was asked to take a route: the request is recorded
/// with its outcome; where it ended well, the route is in force; where it
/// failed, the route in force is as before.
pub open spec fn routed(
    before: NetworkModel,
    route: NetworkRoute,
    ended: Result<(), BrowserErrorView>,
) -> NetworkModel {
    NetworkModel {
        route: if ended is Ok {
            route
        } else {
            before.route
        },
        asked: before.asked.push(RouteTaken { route, ended }),
    }
}

/// A holder of the network route. Its failures are policy errors, and a
/// failure leaves the route in force as it was.
pub trait NetworkManager: Send + Sync {
    /// What is known of the holder. It is spoken of in contracts and never
    /// computed when the program runs.
    spec fn model(&self) -> NetworkModel;

    fn set_route(&mut self, route: &NetworkRoute) -> (r: Result<(), BrowserError>)
        ensures
            final(self).model() == routed(old(self).model(), *route, outcome_of(r)),
            r matches Err(e) ==> e.kind == ErrorKind::Policy,
    ;

    fn get_current_route(&self) -> (route: NetworkRoute)
        ensures
            route == self.model().route,
    ;
}

/// A holder that keeps the route and does nothing else, so that it cannot
/// fail.
pub struct DefaultNetworkManager {
    current_route: NetworkRoute,
    asked: Ghost<Seq<RouteTaken>>,
}

impl DefaultNetworkManager {
    pub fn new() -> (manager: Self)
        ensures
            manager.model() == (NetworkModel { route: NetworkRoute::Direct, asked: Seq::empty() }),
    {
        DefaultNetworkManager { current_route: NetworkRoute::Direct, asked: Ghost(Seq::empty()) }
    }
}

impl NetworkManager for DefaultNetworkManager {
    closed spec fn model(&self) -> NetworkModel {
        NetworkModel { route: self.current_route, asked: self.asked@ }
    }

    fn set_route(&mut self, route: &NetworkRoute) -> (r: Result<(), BrowserError>)
        ensures
            r is Ok,
    {
        self.current_route = *route;
        self.asked = Ghost(self.asked@.push(RouteTaken { route: *route, ended: Ok(()) }));
        Ok(())
    }

    fn get_current_route(&self) -> (route: NetworkRoute) {
        self.current_route
    }
}

} // verus!
