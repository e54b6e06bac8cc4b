//! One completion request from its first attempt to its delivery: each
//! attempt is counted, each failed one is counted as a retry and followed
//! by a switch to the next pool. A `CompletionRun` remembers where the
//! counters and the pool rotation stood when the request came in, so that
//! what a whole request does to them can be stated.
use vstd::prelude::*;
use crate::failover::{
    after_switches, instances_after_switch, lemma_switches_rotate, lines_before_switch, next_index,
    switch_message, SwitchOutcome,
};
use crate::interceptor::{failure_message, retryable, success_message, AttemptVerdict};
use crate::state::{bounded_push, log_entry, time_of_day, AppState, ProxyPoolView};

verus! {

/// Where a request stands between attempts.
#[derive(Debug, Clone, Copy, PartialEq, Eq, Structural)]
pub enum RunPhase {
    /// No attempt is under way: before the first, or after a failed one.
    Idle,
    /// An attempt has been sent and its answer is awaited.
    InFlight,
    /// An answer went to the client.
    Delivered,
}

/// A completion request in progress.
pub struct CompletionRun {
    /// Attempts begun so far.
    pub attempts: usize,
    pub phase: RunPhase,
    /// The request counter when the request came in.
    pub base_requests: Ghost<int>,
    /// The retry counter when the request came in.
    pub base_retries: Ghost<int>,
    /// The active pool when the request came in.
    pub base_index: Ghost<int>,
    /// The pool list when the request came in.
    pub pools: Ghost<Seq<ProxyPoolView>>,
    /// Switches made so far.
    pub switches: Ghost<nat>,
}

impl CompletionRun {
    /// The counters have grown by one request per attempt begun and one
    /// retry per attempt that failed.
    pub open spec fn counts_agree(&self, s: &AppState) -> bool {
        &&& self.phase != RunPhase::Idle ==> self.attempts >= 1
        &&& s.total_requests == self.base_requests@ + self.attempts
        &&& s.total_retries == self.base_retries@ + self.attempts - if self.phase
            == RunPhase::Idle {
            0int
        } else {
            1int
        }
    }

    /// The pool list is the one the request started with, and the active
    /// pool is where the switches made so far lead from the first one.
    pub open spec fn rotation_agrees(&self, s: &AppState) -> bool {
        &&& s.pools() == self.pools@
        &&& self.pools@.len() > 0 ==> s.active_pool_index == after_switches(
            self.base_index@,
            self.pools@.len() as int,
            self.switches@,
        )
    }

    /// Starts tracking a request that comes in now.
    pub fn begin(s: &AppState) -> (r: CompletionRun)
        requires
            s.proxy_pools@.len() == 0 || s.active_pool_index < s.proxy_pools@.len(),
        ensures
            r.attempts == 0,
            r.phase == RunPhase::Idle,
            r.switches@ == 0,
            r.base_requests@ == s.total_requests,
            r.base_retries@ == s.total_retries,
            r.base_index@ == s.active_pool_index,
            r.counts_agree(s),
            r.rotation_agrees(s),
    {
        CompletionRun {
            attempts: 0,
            phase: RunPhase::Idle,
            base_requests: Ghost(s.total_requests as int),
            base_retries: Ghost(s.total_retries as int),
            base_index: Ghost(s.active_pool_index as int),
            pools: Ghost(s.pools()),
            switches: Ghost(0nat),
        }
    }
}

impl AppState {
    /// Sends the next attempt of a request: one more request is counted.
    pub fn start_attempt(&mut self, run: &mut CompletionRun) -> (n: usize)
        requires
            old(run).phase == RunPhase::Idle,
            old(run).attempts < usize::MAX,
            old(self).total_requests < usize::MAX,
            old(run).counts_agree(old(self)),
            old(run).rotation_agrees(old(self)),
        ensures
            n == old(run).attempts + 1,
            final(run).attempts == n,
            final(run).phase == RunPhase::InFlight,
            final(run).base_requests == old(run).base_requests,
            final(run).base_retries == old(run).base_retries,
            final(run).base_index == old(run).base_index,
            final(run).pools == old(run).pools,
            final(run).switches == old(run).switches,
            final(run).counts_agree(final(self)),
            final(run).rotation_agrees(final(self)),
            final(self).total_requests == old(self).total_requests + 1,
            final(self).total_retries == old(self).total_retries,
            final(self).proxy_pools == old(self).proxy_pools,
            final(self).active_pool_index == old(self).active_pool_index,
            final(self).logs == old(self).logs,
            final(self).warp_instances == old(self).warp_instances,
    {
        let n = self.begin_attempt(run.attempts);
        run.attempts = n;
        run.phase = RunPhase::InFlight;
        n
    }

    /// Settles the attempt in flight by its answer's status (see
    /// `settle_attempt`): delivered, or counted as a retry.
    pub fn finish_attempt(&mut self, run: &mut CompletionRun, status: u16) -> (r: AttemptVerdict)
        requires
            old(run).phase == RunPhase::InFlight,
            retryable(status) ==> old(self).total_retries < usize::MAX,
            old(run).counts_agree(old(self)),
            old(run).rotation_agrees(old(self)),
        ensures
            r == AttemptVerdict::Deliver <==> !retryable(status),
            final(run).phase == if retryable(status) {
                RunPhase::Idle
            } else {
                RunPhase::Delivered
            },
            final(run).attempts == old(run).attempts,
            final(run).base_requests == old(run).base_requests,
            final(run).base_retries == old(run).base_retries,
            final(run).base_index == old(run).base_index,
            final(run).pools == old(run).pools,
            final(run).switches == old(run).switches,
            final(run).counts_agree(final(self)),
            final(run).rotation_agrees(final(self)),
            final(self).proxy_pools == old(self).proxy_pools,
            final(self).active_pool_index == old(self).active_pool_index,
            final(self).warp_instances == old(self).warp_instances,
            exists|stamp: Seq<char>|
                time_of_day(stamp) && final(self).log_lines() == bounded_push(
                    old(self).log_lines(),
                    log_entry(
                        stamp,
                        if retryable(status) {
                            failure_message(status, old(run).attempts)
                        } else {
                            success_message(old(run).attempts)
                        },
                    ),
                ),
            old(self).wf() ==> final(self).wf(),
    {
        let verdict = self.settle_attempt(run.attempts, status);
        run.phase = match verdict {
            AttemptVerdict::Deliver => RunPhase::Delivered,
            AttemptVerdict::Retry => RunPhase::Idle,
        };
        verdict
    }

    /// Moves to the next pool after a failed attempt (see `switch_pool`).
    pub fn fail_over(&mut self, run: &mut CompletionRun) -> (r: SwitchOutcome)
        requires
            old(run).phase == RunPhase::Idle,
            old(self).proxy_pools@.len() == 0
                || old(self).active_pool_index < old(self).proxy_pools@.len(),
            old(self).rotation_ports_fit(),
            old(run).counts_agree(old(self)),
            old(run).rotation_agrees(old(self)),
        ensures
            old(self).proxy_pools@.len() == 0 ==> r == SwitchOutcome::NoPools,
            old(self).proxy_pools@.len() == 0 ==> *final(self) == *old(self),
            old(self).proxy_pools@.len() == 0 ==> final(run).switches == old(run).switches,
            old(self).proxy_pools@.len() > 0 ==> r == (SwitchOutcome::Switched {
                renew: old(self).active_tor_number(),
            }),
            old(self).proxy_pools@.len() > 0 ==> final(run).switches@ == old(run).switches@ + 1,
            old(self).proxy_pools@.len() > 0 ==> final(self).active_pool_index == next_index(
                old(self).active_pool_index as int,
                old(self).proxy_pools@.len() as int,
            ),
            old(self).proxy_pools@.len() > 0 ==> final(self).instances() == instances_after_switch(
                old(self).instances(),
                old(self).active_tor_number(),
            ),
            old(self).proxy_pools@.len() > 0 ==> exists|a: Seq<char>, b: Seq<char>|
                time_of_day(a) && time_of_day(b) && final(self).log_lines() == bounded_push(
                    lines_before_switch(old(self).log_lines(), old(self).active_tor_number(), a),
                    log_entry(
                        b,
                        switch_message(
                            old(self).proxy_pools@[next_index(
                                old(self).active_pool_index as int,
                                old(self).proxy_pools@.len() as int,
                            )].name@,
                            (next_index(
                                old(self).active_pool_index as int,
                                old(self).proxy_pools@.len() as int,
                            ) + 1) as nat,
                            old(self).proxy_pools@.len(),
                        ),
                    ),
                ),
            final(run).phase == old(run).phase,
            final(run).attempts == old(run).attempts,
            final(run).base_requests == old(run).base_requests,
            final(run).base_retries == old(run).base_retries,
            final(run).base_index == old(run).base_index,
            final(run).pools == old(run).pools,
            final(run).counts_agree(final(self)),
            final(run).rotation_agrees(final(self)),
            final(self).proxy_pools == old(self).proxy_pools,
            final(self).total_requests == old(self).total_requests,
            final(self).total_retries == old(self).total_retries,
            old(self).wf() ==> final(self).wf(),
    {
        let ghost before = *self;
        let r = self.switch_pool();
        proof {
            if before.proxy_pools@.len() > 0 {
                run.switches = Ghost(run.switches@ + 1);
                assert(self.pools() == before.pools());
            }
        }
        r
    }
}

/// Over a whole request the counters move together: retries never exceed
/// requests when they did not before, and a delivered request that took
/// `k` attempts counted `k` requests and `k - 1` retries.
pub proof fn lemma_run_counts(run: CompletionRun, s: AppState)
    requires
        run.counts_agree(&s),
        run.base_retries@ <= run.base_requests@,
    ensures
        s.total_retries <= s.total_requests,
        run.phase == RunPhase::Delivered ==> s.total_requests - run.base_requests@
            == run.attempts && s.total_retries - run.base_retries@ == run.attempts - 1,
{
}

/// Over a whole request the active pool goes round the pool list: after
/// `k` switches it is `(i + k) mod n` from the pool `i` the request started
/// on, so after `n` switches it is that pool again.
pub proof fn lemma_run_rotation(run: CompletionRun, s: AppState)
    requires
        run.rotation_agrees(&s),
        run.pools@.len() > 0,
        0 <= run.base_index@ < run.pools@.len(),
    ensures
        s.active_pool_index == (run.base_index@ + run.switches@) % (run.pools@.len() as int),
        run.switches@ == run.pools@.len() ==> s.active_pool_index == run.base_index@,
{
    let n = run.pools@.len() as int;
    lemma_switches_rotate(run.base_index@, n, run.switches@);
    if run.switches@ == run.pools@.len() {
        vstd::arithmetic::div_mod::lemma_mod_add_multiples_vanish(run.base_index@, n);
        vstd::arithmetic::div_mod::lemma_small_mod(run.base_index@ as nat, n as nat);
    }
}

} // verus!
