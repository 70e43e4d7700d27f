use crate::errors::NetError;
use vstd::prelude::*;

verus! {

/// Head start, in milliseconds, that each address has over the next one.
pub const CONNECTION_ATTEMPT_DELAY_MS: u64 = 200;

/// Delay before the attempt on the address at `idx` starts.
pub open spec fn attempt_delay(idx: int) -> int {
    idx * 200
}

/// How one address behaves once its attempt has started.
#[derive(Clone, Copy, Debug)]
pub struct AttemptOutcome {
    pub reachable: bool,
    pub latency_ms: u32,
}

/// What a race ends with: the index of the winning address, if any, and the
/// time from the start of the race until the outcome is known.
#[derive(Clone, Copy, Debug)]
pub struct RaceResult {
    pub winner: Option<usize>,
    pub elapsed_ms: u64,
}

/// Moment, counted from the start of the race, at which attempt `i` completes.
pub open spec fn completion(a: Seq<AttemptOutcome>, i: int) -> int {
    attempt_delay(i) + a[i].latency_ms
}

/// Attempt `k` completes no later than attempt `j`; the earlier address wins a tie.
pub open spec fn beats(a: Seq<AttemptOutcome>, k: int, j: int) -> bool {
    completion(a, k) < completion(a, j) || (completion(a, k) == completion(a, j) && k <= j)
}

/// `k` is the reachable address whose attempt completes first.
pub open spec fn is_winner(a: Seq<AttemptOutcome>, k: int) -> bool {
    &&& 0 <= k < a.len()
    &&& a[k].reachable
    &&& forall|j: int| 0 <= j < a.len() && #[trigger] a[j].reachable ==> beats(a, k, j)
}

pub open spec fn none_reachable(a: Seq<AttemptOutcome>) -> bool {
    forall|j: int| 0 <= j < a.len() ==> !(#[trigger] a[j]).reachable
}

/// `m` is the moment at which the last attempt completes (0 for no attempts).
pub open spec fn is_last_completion(a: Seq<AttemptOutcome>, m: int) -> bool {
    &&& forall|j: int| 0 <= j < a.len() ==> #[trigger] completion(a, j) <= m
    &&& a.len() == 0 ==> m == 0
    &&& a.len() > 0 ==> exists|j: int| 0 <= j < a.len() && #[trigger] completion(a, j) == m
}

/// The delay after which the attempt on address `idx` is started: address 0
/// starts at once, each later one 200 ms after its predecessor.
pub fn attempt_delay_ms(idx: usize) -> (delay: u64)
    requires
        idx <= u32::MAX,
    ensures
        delay == attempt_delay(idx as int),
{
    let i: u64 = idx as u64;
    i * CONNECTION_ATTEMPT_DELAY_MS
}

/// The start delays of a race over `n` addresses, in address order.
pub fn staggered_delays(n: usize) -> (delays: Vec<u64>)
    requires
        n <= u32::MAX,
    ensures
        delays@.len() == n,
        forall|i: int| 0 <= i < n ==> #[trigger] delays@[i] == attempt_delay(i),
{
    let mut delays: Vec<u64> = Vec::new();
    let mut i: usize = 0;
    while i < n
        invariant
            i <= n <= u32::MAX,
            delays@.len() == i,
            forall|j: int| 0 <= j < i ==> #[trigger] delays@[j] == attempt_delay(j),
        decreases n - i,
    {
        delays.push(attempt_delay_ms(i));
        i += 1;
    }
    delays
}

/// Plays a race out on known behaviour: every attempt starts after its
/// staggered delay and runs for its latency. The first reachable attempt to
/// complete wins and ends the race at that moment; with no reachable address
/// the race ends when the last attempt has failed.
pub fn race_outcome(attempts: &Vec<AttemptOutcome>) -> (r: RaceResult)
    requires
        attempts.len() <= u32::MAX,
    ensures
        match r.winner {
            Some(k) => is_winner(attempts@, k as int) && r.elapsed_ms == completion(
                attempts@,
                k as int,
            ),
            None => none_reachable(attempts@) && is_last_completion(
                attempts@,
                r.elapsed_ms as int,
            ),
        },
{
    let mut winner: Option<usize> = None;
    let mut best: u64 = 0;
    let mut last: u64 = 0;
    let mut i: usize = 0;
    while i < attempts.len()
        invariant
            i <= attempts.len() <= u32::MAX,
            match winner {
                Some(k) => {
                    &&& k < i
                    &&& attempts@[k as int].reachable
                    &&& best == completion(attempts@, k as int)
                    &&& forall|j: int|
                        0 <= j < i && #[trigger] attempts@[j].reachable ==> beats(
                            attempts@,
                            k as int,
                            j,
                        )
                },
                None => forall|j: int| 0 <= j < i ==> !(#[trigger] attempts@[j]).reachable,
            },
            forall|j: int| 0 <= j < i ==> #[trigger] completion(attempts@, j) <= last,
            i == 0 ==> last == 0,
            i > 0 ==> exists|j: int| 0 <= j < i && #[trigger] completion(attempts@, j) == last,
        decreases attempts.len() - i,
    {
        let a: AttemptOutcome = attempts[i];
        let done: u64 = attempt_delay_ms(i) + a.latency_ms as u64;
        assert(done == completion(attempts@, i as int));
        if a.reachable {
            let better: bool = match winner {
                Some(_) => done < best,
                None => true,
            };
            if better {
                winner = Some(i);
                best = done;
            }
        }
        if i == 0 || done > last {
            last = done;
        }
        i += 1;
    }
    match winner {
        Some(_) => RaceResult { winner, elapsed_ms: best },
        None => RaceResult { winner, elapsed_ms: last },
    }
}

/// With exactly one reachable address, at index `k`, that address and no
/// other wins, and the race takes its latency on top of `k` staggering
/// delays: never less than `k` times 200 ms.
pub proof fn lemma_single_reachable_address_wins(a: Seq<AttemptOutcome>, k: int)
    requires
        0 <= k < a.len(),
        a[k].reachable,
        forall|j: int| 0 <= j < a.len() && j != k ==> !(#[trigger] a[j]).reachable,
    ensures
        is_winner(a, k),
        forall|w: int| is_winner(a, w) ==> w == k,
        !none_reachable(a),
        completion(a, k) == k * 200 + a[k].latency_ms,
        completion(a, k) >= k * 200,
{
}

/// With no reachable address nothing wins, and the race is over no later
/// than the last staggering delay plus the slowest failure.
pub proof fn lemma_unreachable_race_is_bounded(a: Seq<AttemptOutcome>, m: int, slowest: int)
    requires
        a.len() > 0,
        none_reachable(a),
        is_last_completion(a, m),
        forall|j: int| 0 <= j < a.len() ==> (#[trigger] a[j]).latency_ms <= slowest,
    ensures
        forall|w: int| !is_winner(a, w),
        m <= (a.len() - 1) * 200 + slowest,
{
    let j = choose|j: int| 0 <= j < a.len() && #[trigger] completion(a, j) == m;
    assert(a[j].latency_ms <= slowest);
}

/// What the race does next, after an attempt has reported.
#[derive(Clone, Copy, Debug, PartialEq, Eq, Structural)]
pub enum RaceStep {
    /// Some attempt is still running: keep waiting.
    Pending,
    /// The attempt on this address succeeded first: drop the others.
    Won(usize),
    /// No attempt is left.
    Lost(NetError),
}

/// Bookkeeping of one race: which attempts have failed, and the first one
/// that succeeded.
pub struct AddressRace {
    failed: Vec<bool>,
    winner: Option<usize>,
}

impl AddressRace {
    /// For each address, whether its attempt has failed.
    pub closed spec fn failed(&self) -> Seq<bool> {
        self.failed@
    }

    /// The first attempt that succeeded.
    pub closed spec fn winner(&self) -> Option<usize> {
        self.winner
    }

    /// The winner, if there is one, is one of the addresses of the race.
    pub open spec fn well_formed(&self) -> bool {
        self.winner() matches Some(w) ==> w < self.failed().len()
    }

    pub open spec fn all_failed(&self) -> bool {
        forall|j: int| 0 <= j < self.failed().len() ==> #[trigger] self.failed()[j]
    }

    /// The step that the current bookkeeping calls for.
    pub open spec fn step(&self) -> RaceStep {
        match self.winner() {
            Some(w) => RaceStep::Won(w),
            None => if self.all_failed() {
                RaceStep::Lost(NetError::AllAddressesUnreachable)
            } else {
                RaceStep::Pending
            },
        }
    }

    /// Opens a race over the `n_addresses` that name resolution gave. An
    /// empty answer is a resolution failure.
    pub fn start(n_addresses: usize) -> (r: Result<AddressRace, NetError>)
        ensures
            n_addresses == 0 <==> r is Err,
            r is Err ==> r == Err::<AddressRace, NetError>(NetError::DnsResolutionFailed),
            r is Ok ==> r->Ok_0.well_formed() && r->Ok_0.winner() is None && r->Ok_0.failed()
                == Seq::new(n_addresses as nat, |i: int| false),
    {
        if n_addresses == 0 {
            return Err(NetError::DnsResolutionFailed);
        }
        let mut failed: Vec<bool> = Vec::new();
        let mut i: usize = 0;
        while i < n_addresses
            invariant
                i <= n_addresses,
                failed@.len() == i,
                forall|j: int| 0 <= j < i ==> !(#[trigger] failed@[j]),
            decreases n_addresses - i,
        {
            failed.push(false);
            i += 1;
        }
        assert(failed@ =~= Seq::new(n_addresses as nat, |i: int| false));
        Ok(AddressRace { failed, winner: None })
    }

    /// Number of addresses in the race.
    pub fn len(&self) -> (n: usize)
        ensures
            n == self.failed().len(),
    {
        self.failed.len()
    }

    /// Records that the attempt on address `idx` failed. The failure itself
    /// is not kept: only when every attempt has failed is the race lost.
    pub fn on_failure(&mut self, idx: usize) -> (step: RaceStep)
        requires
            old(self).well_formed(),
            idx < old(self).failed().len(),
        ensures
            final(self).well_formed(),
            final(self).failed() == old(self).failed().update(idx as int, true),
            final(self).winner() == old(self).winner(),
            step == final(self).step(),
    {
        self.failed.set(idx, true);
        self.current_step()
    }

    /// Records that the attempt on address `idx` succeeded. The first
    /// success decides the race; a later one changes nothing.
    pub fn on_success(&mut self, idx: usize) -> (step: RaceStep)
        requires
            old(self).well_formed(),
            idx < old(self).failed().len(),
        ensures
            final(self).well_formed(),
            final(self).failed() == old(self).failed(),
            final(self).winner() == (if old(self).winner() is Some {
                old(self).winner()
            } else {
                Some(idx)
            }),
            step == final(self).step(),
            step is Won,
    {
        if self.winner.is_none() {
            self.winner = Some(idx);
        }
        self.current_step()
    }

    /// The step that the bookkeeping calls for as it stands.
    pub fn current_step(&self) -> (step: RaceStep)
        ensures
            step == self.step(),
    {
        match self.winner {
            Some(w) => RaceStep::Won(w),
            None => {
                let mut i: usize = 0;
                while i < self.failed.len()
                    invariant
                        self.winner is None,
                        i <= self.failed@.len(),
                        forall|j: int| 0 <= j < i ==> #[trigger] self.failed@[j],
                    decreases self.failed.len() - i,
                {
                    if !self.failed[i] {
                        assert(!self.failed()[i as int]);
                        return RaceStep::Pending;
                    }
                    i += 1;
                }
                RaceStep::Lost(NetError::AllAddressesUnreachable)
            },
        }
    }
}

} // verus!
