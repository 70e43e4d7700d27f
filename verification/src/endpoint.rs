use crate::multi_route::MultiRouteConnectionManager;
use crate::params::ConnectionParams;
use crate::throttle::{RouteState, SingleRouteThrottlingConnectionManager};
use vstd::prelude::*;

verus! {

/// A connection manager together with the connector that makes a service
/// of the stream it yields.
pub struct EndpointConnection<C, S> {
    pub manager: C,
    pub connector: S,
}

impl<S> EndpointConnection<MultiRouteConnectionManager, S> {
    /// An endpoint over the routes `connection_params`, in that order of
    /// preference. Each route gets a manager of its own, with no failure
    /// counted, and `connect_timeout` is both each route's timeout and the
    /// budget of a connect call over all of them.
    pub fn new_multi(
        connection_params: Vec<ConnectionParams>,
        connect_timeout: u64,
        service_connector: S,
    ) -> (endpoint: Self)
        ensures
            endpoint.connector == service_connector,
            endpoint.manager.budget() == connect_timeout,
            endpoint.manager.managers().len() == connection_params@.len(),
            endpoint.manager.routes().len() == connection_params@.len(),
            forall|i: int|
                0 <= i < connection_params@.len() ==> {
                    &&& (#[trigger] endpoint.manager.managers()[i]).params()
                        == connection_params@[i]
                    &&& endpoint.manager.routes()[i] == (RouteState {
                        consecutive_failures: 0,
                        cooldown_until: None,
                        connect_timeout,
                    })
                },
    {
        let ghost all = connection_params@;
        let mut rest = connection_params;
        let mut managers: Vec<SingleRouteThrottlingConnectionManager> = Vec::new();
        while rest.len() > 0
            invariant
                managers@.len() + rest@.len() == all.len(),
                rest@ == all.subrange(managers@.len() as int, all.len() as int),
                forall|j: int|
                    0 <= j < managers@.len() ==> {
                        &&& (#[trigger] managers@[j]).params() == all[j]
                        &&& managers@[j].state() == (RouteState {
                            consecutive_failures: 0,
                            cooldown_until: None,
                            connect_timeout,
                        })
                    },
            decreases rest@.len(),
        {
            let params = rest.remove(0);
            managers.push(SingleRouteThrottlingConnectionManager::new(params, connect_timeout));
            assert(rest@ =~= all.subrange(managers@.len() as int, all.len() as int));
        }
        EndpointConnection {
            manager: MultiRouteConnectionManager::new(managers, connect_timeout),
            connector: service_connector,
        }
    }
}

} // verus!
