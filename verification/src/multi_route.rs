use crate::errors::NetError;
use crate::throttle::{AttemptDecision, RouteState, SingleRouteThrottlingConnectionManager};
use vstd::prelude::*;

verus! {

/// Progress of one connect call over the routes: the moment at which its
/// budget runs out, and the first route that it has not yet looked at.
#[derive(Clone, Copy, Debug, PartialEq, Eq, Structural)]
pub struct ConnectCycle {
    pub deadline: u64,
    pub next_route: usize,
}

/// What a connect call does next.
#[derive(Clone, Copy, Debug, PartialEq, Eq, Structural)]
pub enum RouteStep {
    /// Try this route, allowing the attempt this many milliseconds.
    Attempt { route: usize, timeout_ms: u64 },
    /// Give up with this error.
    Fail(NetError),
}

/// The first route from `from` on that is not throttled at `now`, or the
/// number of routes if there is none.
pub open spec fn first_open_route(routes: Seq<RouteState>, from: int, now: u64) -> int
    decreases routes.len() - from,
{
    if from < 0 || from >= routes.len() {
        routes.len() as int
    } else if !routes[from].throttled_at(now) {
        from
    } else {
        first_open_route(routes, from + 1, now)
    }
}

/// The step that a cycle takes at `now`: out of budget with a route still
/// unseen is a timeout; otherwise the first route that is not cooling down is
/// tried, and with none left the routes are exhausted.
pub open spec fn step_at(routes: Seq<RouteState>, cycle: ConnectCycle, now: u64) -> RouteStep {
    if cycle.next_route >= routes.len() {
        RouteStep::Fail(NetError::AllRoutesExhausted)
    } else if now >= cycle.deadline {
        RouteStep::Fail(NetError::OverallTimeout)
    } else {
        let route = first_open_route(routes, cycle.next_route as int, now);
        if route >= routes.len() {
            RouteStep::Fail(NetError::AllRoutesExhausted)
        } else {
            RouteStep::Attempt {
                route: route as usize,
                timeout_ms: routes[route].connect_timeout,
            }
        }
    }
}

/// The cycle after the step at `now`: past the route that is tried, or past
/// all routes where none is.
pub open spec fn cycle_after_step(routes: Seq<RouteState>, cycle: ConnectCycle, now: u64) -> ConnectCycle {
    match step_at(routes, cycle, now) {
        RouteStep::Attempt { route, timeout_ms } => ConnectCycle {
            deadline: cycle.deadline,
            next_route: (route + 1) as usize,
        },
        RouteStep::Fail(NetError::OverallTimeout) => cycle,
        RouteStep::Fail(_) => ConnectCycle {
            deadline: cycle.deadline,
            next_route: if cycle.next_route >= routes.len() {
                cycle.next_route
            } else {
                routes.len() as usize
            },
        },
    }
}

/// The first open route lies at or behind the start of the search, is open
/// if it exists, and every route skipped on the way is throttled.
pub proof fn lemma_first_open_route(routes: Seq<RouteState>, from: int, now: u64)
    requires
        0 <= from <= routes.len(),
    ensures
        from <= first_open_route(routes, from, now) <= routes.len(),
        first_open_route(routes, from, now) < routes.len() ==> !routes[first_open_route(
            routes,
            from,
            now,
        )].throttled_at(now),
        forall|j: int|
            from <= j < first_open_route(routes, from, now) ==> (#[trigger] routes[j]).throttled_at(
                now,
            ),
    decreases routes.len() - from,
{
    if from < routes.len() && routes[from].throttled_at(now) {
        lemma_first_open_route(routes, from + 1, now);
    }
}

/// Routes in order of preference, each with its own throttling, and the
/// budget of one connect call over all of them.
pub struct MultiRouteConnectionManager {
    route_managers: Vec<SingleRouteThrottlingConnectionManager>,
    connect_timeout: u64,
}

impl MultiRouteConnectionManager {
    /// The throttling states of the routes, in order.
    pub closed spec fn routes(&self) -> Seq<RouteState> {
        Seq::new(self.route_managers@.len(), |i: int| self.route_managers@[i].state())
    }

    /// The managers of the routes, in order.
    pub closed spec fn managers(&self) -> Seq<SingleRouteThrottlingConnectionManager> {
        self.route_managers@
    }

    /// The budget of one connect call, in milliseconds.
    pub closed spec fn budget(&self) -> u64 {
        self.connect_timeout
    }

    pub fn new(
        route_managers: Vec<SingleRouteThrottlingConnectionManager>,
        connect_timeout: u64,
    ) -> (m: Self)
        ensures
            m.managers() == route_managers@,
            m.budget() == connect_timeout,
            m.routes().len() == route_managers@.len(),
            forall|i: int|
                0 <= i < route_managers@.len() ==> #[trigger] m.routes()[i]
                    == route_managers@[i].state(),
    {
        MultiRouteConnectionManager { route_managers, connect_timeout }
    }

    /// Number of routes.
    pub fn route_count(&self) -> (n: usize)
        ensures
            n == self.routes().len(),
    {
        self.route_managers.len()
    }

    /// The manager of route `route`.
    pub fn route(&self, route: usize) -> (m: &SingleRouteThrottlingConnectionManager)
        requires
            route < self.routes().len(),
        ensures
            *m == self.managers()[route as int],
            m.state() == self.routes()[route as int],
    {
        &self.route_managers[route]
    }

    /// Opens a connect call at `now`: its budget ends one overall timeout
    /// later, and the first route is next.
    pub fn begin(&self, now: u64) -> (cycle: ConnectCycle)
        ensures
            cycle.next_route == 0,
            cycle.deadline == (if now + self.budget() > u64::MAX {
                u64::MAX
            } else {
                (now + self.budget()) as u64
            }),
    {
        let deadline: u64 = if now > u64::MAX - self.connect_timeout {
            u64::MAX
        } else {
            now + self.connect_timeout
        };
        ConnectCycle { deadline, next_route: 0 }
    }

    /// Decides at `now` what the connect call does next, and moves the cycle
    /// past the route that is to be tried. Routes are taken in their listed
    /// order, each at most once in a cycle; a route that is cooling down is
    /// passed over without an attempt; no attempt is started once the budget
    /// has run out.
    pub fn next_step(&self, cycle: &mut ConnectCycle, now: u64) -> (step: RouteStep)
        ensures
            step == step_at(self.routes(), *old(cycle), now),
            *final(cycle) == cycle_after_step(self.routes(), *old(cycle), now),
            step matches RouteStep::Attempt { route, timeout_ms } ==> {
                &&& old(cycle).next_route <= route < self.routes().len()
                &&& final(cycle).next_route == route + 1
                &&& now < old(cycle).deadline
                &&& !self.routes()[route as int].throttled_at(now)
            },
    {
        let n: usize = self.route_managers.len();
        if cycle.next_route >= n {
            return RouteStep::Fail(NetError::AllRoutesExhausted);
        }
        if now >= cycle.deadline {
            return RouteStep::Fail(NetError::OverallTimeout);
        }
        let mut i: usize = cycle.next_route;
        while i < n
            invariant
                n == self.route_managers@.len(),
                n == self.routes().len(),
                *cycle == *old(cycle),
                now < cycle.deadline,
                old(cycle).next_route < n,
                old(cycle).next_route <= i <= n,
                first_open_route(self.routes(), old(cycle).next_route as int, now)
                    == first_open_route(self.routes(), i as int, now),
            decreases n - i,
        {
            assert(self.routes()[i as int] == self.route_managers@[i as int].state());
            match self.route_managers[i].before_attempt(now) {
                AttemptDecision::Attempt { timeout_ms } => {
                    cycle.next_route = i + 1;
                    return RouteStep::Attempt { route: i, timeout_ms };
                },
                AttemptDecision::Throttled => {
                    i += 1;
                },
            }
        }
        cycle.next_route = n;
        RouteStep::Fail(NetError::AllRoutesExhausted)
    }

    /// Records how the attempt on `route` ended at `now`. Only that route's
    /// throttling changes: the other routes stay as they were.
    pub fn record_outcome(&mut self, route: usize, now: u64, succeeded: bool)
        requires
            route < old(self).routes().len(),
        ensures
            final(self).budget() == old(self).budget(),
            final(self).routes() == old(self).routes().update(
                route as int,
                old(self).routes()[route as int].after_attempt(now, succeeded),
            ),
    {
        let mut managers: Vec<SingleRouteThrottlingConnectionManager> = Vec::new();
        core::mem::swap(&mut managers, &mut self.route_managers);
        let mut manager = managers.remove(route);
        let ghost rest = managers@;
        if succeeded {
            manager.on_success();
        } else {
            manager.on_failure(now);
        }
        managers.insert(route, manager);
        core::mem::swap(&mut managers, &mut self.route_managers);
        assert(self.routes() =~= old(self).routes().update(
            route as int,
            old(self).routes()[route as int].after_attempt(now, succeeded),
        ));
    }
}

/// With two routes that are free to be tried, of which the first fails and
/// the second succeeds, a connect call tries the first, then the second, and
/// then has no route left: each was tried once, in the listed order, and the
/// failure of the first left the second's throttling untouched.
pub proof fn lemma_failover_tries_each_route_once(
    routes: Seq<RouteState>,
    cycle: ConnectCycle,
    started: u64,
    first_failed: u64,
)
    requires
        routes.len() == 2,
        cycle.next_route == 0,
        started < cycle.deadline,
        first_failed < cycle.deadline,
        !routes[0].throttled_at(started),
        !routes[1].throttled_at(first_failed),
    ensures
        ({
            let first = step_at(routes, cycle, started);
            let cycle1 = cycle_after_step(routes, cycle, started);
            let routes1 = routes.update(0, routes[0].after_attempt(first_failed, false));
            let second = step_at(routes1, cycle1, first_failed);
            let cycle2 = cycle_after_step(routes1, cycle1, first_failed);
            &&& first == (RouteStep::Attempt { route: 0, timeout_ms: routes[0].connect_timeout })
            &&& second == (RouteStep::Attempt { route: 1, timeout_ms: routes[1].connect_timeout })
            &&& routes1[1] == routes[1]
            &&& cycle2.next_route == 2
            &&& forall|later: u64|
                step_at(routes1, cycle2, later) == RouteStep::Fail(NetError::AllRoutesExhausted)
        }),
{
    reveal_with_fuel(first_open_route, 3);
}

/// Once the budget has run out while a route is still unseen, the step is
/// a timeout, whatever the routes' states, and the cycle does not move: no
/// attempt is started.
pub proof fn lemma_no_attempt_after_deadline(routes: Seq<RouteState>, cycle: ConnectCycle, now: u64)
    requires
        cycle.next_route < routes.len(),
        now >= cycle.deadline,
    ensures
        step_at(routes, cycle, now) == RouteStep::Fail(NetError::OverallTimeout),
        cycle_after_step(routes, cycle, now) == cycle,
{
}

/// A step never goes back: the route it tries was not yet seen in this
/// cycle, is not cooling down, and the budget has not run out; afterwards
/// the cycle stands behind that route.
pub proof fn lemma_attempts_go_forward(routes: Seq<RouteState>, cycle: ConnectCycle, now: u64)
    requires
        routes.len() <= usize::MAX,
    ensures
        step_at(routes, cycle, now) matches RouteStep::Attempt { route, timeout_ms } ==> {
            &&& cycle.next_route <= route < routes.len()
            &&& now < cycle.deadline
            &&& !routes[route as int].throttled_at(now)
            &&& timeout_ms == routes[route as int].connect_timeout
            &&& cycle_after_step(routes, cycle, now).next_route == route + 1
        },
        cycle_after_step(routes, cycle, now).next_route >= cycle.next_route,
        cycle_after_step(routes, cycle, now).deadline == cycle.deadline,
{
    if cycle.next_route < routes.len() {
        lemma_first_open_route(routes, cycle.next_route as int, now);
    }
}

/// Within one cycle no route is tried twice and none out of order: of two
/// attempts, the later one is on a route listed behind that of the earlier
/// one, whatever happened to the routes' throttling in between.
pub proof fn lemma_routes_tried_in_listed_order(
    routes: Seq<RouteState>,
    routes_later: Seq<RouteState>,
    cycle: ConnectCycle,
    now: u64,
    later: u64,
)
    requires
        routes.len() <= usize::MAX,
        routes_later.len() == routes.len(),
    ensures
        ({
            let first = step_at(routes, cycle, now);
            let second = step_at(routes_later, cycle_after_step(routes, cycle, now), later);
            first is Attempt && second is Attempt ==> first->route < second->route
        }),
{
    lemma_attempts_go_forward(routes, cycle, now);
    lemma_attempts_go_forward(routes_later, cycle_after_step(routes, cycle, now), later);
}

} // verus!
