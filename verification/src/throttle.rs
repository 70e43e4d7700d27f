use crate::errors::NetError;
use crate::params::ConnectionParams;
use vstd::prelude::*;

verus! {

/// Cooldown after the first failure, in milliseconds.
pub const FIRST_COOLDOWN_MS: u64 = 1000;

/// Longest cooldown, in milliseconds.
pub const MAX_COOLDOWN_MS: u64 = 64000;

/// The cooldown that follows `failures` consecutive failures: none without
/// a failure, one second after the first, then doubling up to the cap.
pub open spec fn cooldown(failures: nat) -> nat
    decreases failures,
{
    if failures == 0 {
        0
    } else if failures == 1 {
        1000
    } else if 2 * cooldown((failures - 1) as nat) >= 64000 {
        64000
    } else {
        2 * cooldown((failures - 1) as nat)
    }
}

/// No run of failures gives a cooldown above the cap.
pub proof fn lemma_cooldown_is_capped(failures: nat)
    ensures
        cooldown(failures) <= 64000,
        failures >= 1 ==> cooldown(failures) >= 1000,
    decreases failures,
{
    if failures >= 2 {
        lemma_cooldown_is_capped((failures - 1) as nat);
    }
}

/// One more failure never shortens the cooldown.
pub proof fn lemma_cooldown_never_shrinks(fewer: nat, more: nat)
    requires
        fewer <= more,
    ensures
        cooldown(fewer) <= cooldown(more),
    decreases more,
{
    if fewer < more {
        lemma_cooldown_never_shrinks(fewer, (more - 1) as nat);
        lemma_cooldown_is_capped((more - 1) as nat);
    }
}

/// Once the cap is reached, every longer run of failures stays at it.
pub proof fn lemma_cooldown_settles_at_cap(reached: nat, later: nat)
    requires
        reached <= later,
        cooldown(reached) == 64000,
    ensures
        cooldown(later) == 64000,
{
    lemma_cooldown_never_shrinks(reached, later);
    lemma_cooldown_is_capped(later);
}

/// The cooldown, in milliseconds, that follows `failures` consecutive failures.
pub fn cooldown_ms(failures: u16) -> (ms: u64)
    ensures
        ms == cooldown(failures as nat),
{
    if failures == 0 {
        return 0;
    }
    let mut ms: u64 = FIRST_COOLDOWN_MS;
    let mut n: u16 = 1;
    while n < failures && ms < MAX_COOLDOWN_MS
        invariant
            1 <= n <= failures,
            ms == cooldown(n as nat),
            ms <= 64000,
        decreases failures - n,
    {
        let doubled: u64 = 2 * ms;
        ms = if doubled >= MAX_COOLDOWN_MS {
            MAX_COOLDOWN_MS
        } else {
            doubled
        };
        n += 1;
    }
    proof {
        if n < failures {
            lemma_cooldown_settles_at_cap(n as nat, failures as nat);
        }
    }
    ms
}

/// Throttling state of one route.
#[derive(Clone, Copy, Debug, PartialEq, Eq, Structural)]
pub struct RouteState {
    /// Failures since the last success.
    pub consecutive_failures: u16,
    /// Moment (ms) before which the route is not to be tried.
    pub cooldown_until: Option<u64>,
    /// Time (ms) that one attempt on this route may take.
    pub connect_timeout: u64,
}

/// What a route's manager decides when asked to connect.
#[derive(Clone, Copy, Debug, PartialEq, Eq, Structural)]
pub enum AttemptDecision {
    /// The route is cooling down: fail at once, without a network call.
    Throttled,
    /// Call the transport connector, allowing it this many milliseconds.
    Attempt { timeout_ms: u64 },
}

impl RouteState {
    /// A route is throttled at `now` while `now` lies before its cooldown's end.
    pub open spec fn throttled_at(self, now: u64) -> bool {
        self.cooldown_until is Some && now < self.cooldown_until->Some_0
    }

    pub open spec fn decision_at(self, now: u64) -> AttemptDecision {
        if self.throttled_at(now) {
            AttemptDecision::Throttled
        } else {
            AttemptDecision::Attempt { timeout_ms: self.connect_timeout }
        }
    }

    /// The state after a success: no failures counted, no cooldown pending.
    pub open spec fn after_success(self) -> RouteState {
        RouteState {
            consecutive_failures: 0,
            cooldown_until: None,
            connect_timeout: self.connect_timeout,
        }
    }

    /// The failure count after one more failure; it stops at the largest value.
    pub open spec fn failures_after_failure(self) -> u16 {
        if self.consecutive_failures == u16::MAX {
            u16::MAX
        } else {
            (self.consecutive_failures + 1) as u16
        }
    }

    /// End of the cooldown that a failure noticed at `now` opens; it stops
    /// at the largest representable moment.
    pub open spec fn cooldown_end_after_failure(self, now: u64) -> u64 {
        let end = now + cooldown(self.failures_after_failure() as nat);
        if end > u64::MAX {
            u64::MAX
        } else {
            end as u64
        }
    }

    /// The state after a failure noticed at `now`.
    pub open spec fn after_failure(self, now: u64) -> RouteState {
        RouteState {
            consecutive_failures: self.failures_after_failure(),
            cooldown_until: Some(self.cooldown_end_after_failure(now)),
            connect_timeout: self.connect_timeout,
        }
    }

    /// The state after an attempt that ended at `now`, well or not.
    pub open spec fn after_attempt(self, now: u64, succeeded: bool) -> RouteState {
        if succeeded {
            self.after_success()
        } else {
            self.after_failure(now)
        }
    }

    /// The state after `n` failures in a row, each noticed at `now`.
    pub open spec fn after_failures(self, n: nat, now: u64) -> RouteState
        decreases n,
    {
        if n == 0 {
            self
        } else {
            self.after_failures((n - 1) as nat, now).after_failure(now)
        }
    }
}

/// A cooldown is never set to end before the moment at which it is set.
pub proof fn lemma_cooldown_ends_no_earlier_than_set(state: RouteState, now: u64)
    ensures
        state.after_failure(now).cooldown_until is Some,
        state.after_failure(now).cooldown_until->Some_0 >= now,
        state.after_failure(now).consecutive_failures >= 1,
        state.after_failure(now).consecutive_failures >= state.consecutive_failures,
{
}

/// After any number of consecutive failures (at least one), a connect
/// before the cooldown's end is refused without an attempt, and a connect at
/// or after its end is let through with the route's own timeout.
pub proof fn lemma_throttled_exactly_until_cooldown_ends(
    state: RouteState,
    failures: nat,
    failed_at: u64,
    now: u64,
)
    requires
        failures >= 1,
    ensures
        ({
            let s = state.after_failures(failures, failed_at);
            &&& s.cooldown_until is Some
            &&& s.cooldown_until->Some_0 >= failed_at
            &&& now < s.cooldown_until->Some_0 ==> s.decision_at(now) == AttemptDecision::Throttled
            &&& now >= s.cooldown_until->Some_0 ==> s.decision_at(now) == (AttemptDecision::Attempt {
                timeout_ms: state.connect_timeout,
            })
        }),
{
    lemma_failures_keep_timeout(state, failures, failed_at);
}

/// Failures leave the route's timeout as it was.
pub proof fn lemma_failures_keep_timeout(state: RouteState, failures: nat, failed_at: u64)
    ensures
        state.after_failures(failures, failed_at).connect_timeout == state.connect_timeout,
    decreases failures,
{
    if failures > 0 {
        lemma_failures_keep_timeout(state, (failures - 1) as nat, failed_at);
    }
}

/// One success after any number of failures sets the failure count to zero
/// and clears the cooldown, so that the next connect is attempted whenever
/// it comes.
pub proof fn lemma_success_resets_throttling(
    state: RouteState,
    failures: nat,
    failed_at: u64,
    now: u64,
)
    ensures
        ({
            let s = state.after_failures(failures, failed_at).after_success();
            &&& s.consecutive_failures == 0
            &&& s.cooldown_until is None
            &&& s.decision_at(now) == (AttemptDecision::Attempt {
                timeout_ms: state.connect_timeout,
            })
        }),
{
    lemma_failures_keep_timeout(state, failures, failed_at);
}

/// One route with its throttling state: a circuit breaker for that route
/// alone.
pub struct SingleRouteThrottlingConnectionManager {
    connection_params: ConnectionParams,
    state: RouteState,
}

impl SingleRouteThrottlingConnectionManager {
    pub closed spec fn params(&self) -> ConnectionParams {
        self.connection_params
    }

    pub closed spec fn state(&self) -> RouteState {
        self.state
    }

    /// A manager for the route `connection_params`, with no failure counted
    /// and no cooldown pending.
    pub fn new(connection_params: ConnectionParams, connect_timeout: u64) -> (m: Self)
        ensures
            m.params() == connection_params,
            m.state() == (RouteState {
                consecutive_failures: 0,
                cooldown_until: None,
                connect_timeout,
            }),
    {
        SingleRouteThrottlingConnectionManager {
            connection_params,
            state: RouteState { consecutive_failures: 0, cooldown_until: None, connect_timeout },
        }
    }

    /// The route that this manager connects to.
    pub fn connection_params(&self) -> (p: &ConnectionParams)
        ensures
            *p == self.params(),
    {
        &self.connection_params
    }

    /// The throttling state as it stands.
    pub fn route_state(&self) -> (s: RouteState)
        ensures
            s == self.state(),
    {
        self.state
    }

    /// Decides, at `now`, whether a connect is attempted or refused as throttled.
    pub fn before_attempt(&self, now: u64) -> (d: AttemptDecision)
        ensures
            d == self.state().decision_at(now),
    {
        match self.state.cooldown_until {
            Some(until) => if now < until {
                AttemptDecision::Throttled
            } else {
                AttemptDecision::Attempt { timeout_ms: self.state.connect_timeout }
            },
            None => AttemptDecision::Attempt { timeout_ms: self.state.connect_timeout },
        }
    }

    /// Lets a connect at `now` through or refuses it: the timeout of the attempt
    /// to make, or the error of a route that is cooling down.
    pub fn check_throttle(&self, now: u64) -> (r: Result<u64, NetError>)
        ensures
            r == (if self.state().throttled_at(now) {
                Err::<u64, NetError>(NetError::RouteThrottled)
            } else {
                Ok::<u64, NetError>(self.state().connect_timeout)
            }),
    {
        match self.before_attempt(now) {
            AttemptDecision::Throttled => Err(NetError::RouteThrottled),
            AttemptDecision::Attempt { timeout_ms } => Ok(timeout_ms),
        }
    }

    /// Records a successful attempt.
    pub fn on_success(&mut self)
        ensures
            final(self).params() == old(self).params(),
            final(self).state() == old(self).state().after_success(),
    {
        self.state.consecutive_failures = 0;
        self.state.cooldown_until = None;
    }

    /// Records an attempt that failed, noticed at `now`, and opens the
    /// cooldown that the new failure count calls for.
    pub fn on_failure(&mut self, now: u64)
        ensures
            final(self).params() == old(self).params(),
            final(self).state() == old(self).state().after_failure(now),
    {
        let failures: u16 = if self.state.consecutive_failures == u16::MAX {
            u16::MAX
        } else {
            self.state.consecutive_failures + 1
        };
        let wait: u64 = cooldown_ms(failures);
        let end: u64 = if now > u64::MAX - wait {
            u64::MAX
        } else {
            now + wait
        };
        self.state.consecutive_failures = failures;
        self.state.cooldown_until = Some(end);
    }

    /// Records the outcome of an attempt that ended at `now` and hands the
    /// outcome on unchanged.
    pub fn after_attempt(&mut self, now: u64, outcome: Result<(), NetError>) -> (r: Result<
        (),
        NetError,
    >)
        ensures
            r == outcome,
            final(self).params() == old(self).params(),
            final(self).state() == old(self).state().after_attempt(now, outcome is Ok),
    {
        match outcome {
            Ok(()) => self.on_success(),
            Err(_) => self.on_failure(now),
        }
        outcome
    }
}

} // verus!
