//! Failover between proxy pools: the pool in use, the switch to the next
//! pool after a rate limit, and what a switch away from a Tor pool does to
//! that Tor instance's dashboard entry.
use vstd::prelude::*;
use crate::state::{
    bounded_push, log_entry, time_of_day, AppState, ProxyPool, TorInstance, TorInstanceView,
};
use crate::text::{
    append_decimal, dec, has_prefix, parse_u16, parse_u16_spec, starts_with, strip_prefixes,
    strip_repeated_prefix,
};

verus! {

broadcast use vstd::std_specs::hash::group_hash_axioms;

/// The first SOCKS port of the Tor instances; instance `n` listens on this plus `n`.
pub const TOR_SOCKS_BASE: u16 = 9050;

/// The first control port of the Tor instances; instance `n` listens on this plus `n`.
pub const TOR_CONTROL_BASE: u16 = 9060;

/// The largest Tor instance number whose control port fits in 16 bits.
pub const MAX_TOR_NUMBER: u16 = 56475;

/// The largest Tor instance number whose SOCKS port fits in 16 bits.
pub const MAX_SOCKS_TOR_NUMBER: u16 = 56485;

/// The instance number of a Tor pool: its id is `tor-` followed by a
/// `u16`, after every leading `tor-` is removed.
pub open spec fn tor_number(id: Seq<char>) -> Option<u16> {
    if has_prefix(id, "tor-"@) {
        parse_u16_spec(strip_prefixes(id, "tor-"@))
    } else {
        None
    }
}

pub open spec fn rate_limit_message(n: u16) -> Seq<char> {
    "Tor-"@ + dec(n as nat) + " hit Rate Limit! Failing over..."@
}

pub open spec fn rotating_status(n: u16) -> Seq<char> {
    "Rotating IP (Control "@ + dec((TOR_CONTROL_BASE + n) as nat) + ")"@
}

pub open spec fn switch_message(name: Seq<char>, position: nat, total: nat) -> Seq<char> {
    "SWITCH: Now using "@ + name + " (active: "@ + dec(position) + "/"@ + dec(total) + ")"@
}

pub open spec fn renewed_message(n: u16) -> Seq<char> {
    "Tor-"@ + dec(n as nat) + " successfully acquired new Identity!"@
}

pub open spec fn renewal_failed_message(n: u16) -> Seq<char> {
    "Tor-"@ + dec(n as nat) + " failed to rotate IP."@
}

/// The index that a switch moves to.
pub open spec fn next_index(i: int, len: int) -> int {
    (i + 1) % len
}

/// The log before the switch message: with a rate-limit line first when
/// the pool left was a Tor pool.
pub open spec fn lines_before_switch(
    lines: Seq<Seq<char>>,
    tor: Option<u16>,
    stamp: Seq<char>,
) -> Seq<Seq<char>> {
    match tor {
        Some(n) => bounded_push(lines, log_entry(stamp, rate_limit_message(n))),
        None => lines,
    }
}

/// The engines after leaving a pool: the Tor instance behind it, if the
/// dashboard knows it, shows that its circuit is being renewed.
pub open spec fn instances_after_switch(
    instances: Map<u16, TorInstanceView>,
    tor: Option<u16>,
) -> Map<u16, TorInstanceView> {
    match tor {
        Some(n) => if instances.contains_key((TOR_SOCKS_BASE + n) as u16) {
            instances.insert(
                (TOR_SOCKS_BASE + n) as u16,
                TorInstanceView { status: rotating_status(n), ip: None },
            )
        } else {
            instances
        },
        None => instances,
    }
}

/// One switch between two states: the pools and the counters are kept and
/// the active index moves to the next pool.
pub open spec fn switch_step(a: AppState, b: AppState) -> bool {
    &&& a.proxy_pools@.len() > 0
    &&& b.proxy_pools == a.proxy_pools
    &&& b.total_requests == a.total_requests
    &&& b.total_retries == a.total_retries
    &&& b.active_pool_index == next_index(
        a.active_pool_index as int,
        a.proxy_pools@.len() as int,
    )
}

/// What a switch did.
#[derive(Debug, PartialEq, Eq, Structural)]
pub enum SwitchOutcome {
    /// There is no pool to switch to.
    NoPools,
    /// The next pool is active; `renew` is the Tor instance whose circuit
    /// should be renewed, when the pool left was a Tor pool.
    Switched { renew: Option<u16> },
}

/// The control port through which Tor instance `n`'s circuit is renewed,
/// or `None` when `9060 + n` does not fit in 16 bits.
pub fn renewal_control_port(n: u16) -> (r: Option<u16>)
    ensures
        n <= MAX_TOR_NUMBER ==> r == Some((TOR_CONTROL_BASE + n) as u16),
        n > MAX_TOR_NUMBER ==> r is None,
{
    if n <= MAX_TOR_NUMBER {
        Some(TOR_CONTROL_BASE + n)
    } else {
        None
    }
}

/// The Tor instance number of a pool id, if it is a Tor pool.
pub fn tor_number_of(id: &str) -> (r: Option<u16>)
    ensures
        r == tor_number(id@),
{
    if starts_with(id, "tor-") {
        parse_u16(strip_repeated_prefix(id, "tor-"))
    } else {
        None
    }
}

impl AppState {
    /// The Tor instance number of the active pool, if it is a Tor pool.
    pub open spec fn active_tor_number(&self) -> Option<u16> {
        if 0 <= self.active_pool_index < self.proxy_pools@.len() {
            tor_number(self.proxy_pools@[self.active_pool_index as int].id@)
        } else {
            None
        }
    }

    /// A switch away from the active pool computes its Tor ports without
    /// overflow: the SOCKS port always, the control port when the
    /// dashboard shows an engine on that SOCKS port.
    pub open spec fn rotation_ports_fit(&self) -> bool {
        self.active_tor_number() matches Some(n) ==> {
            &&& n <= MAX_SOCKS_TOR_NUMBER
            &&& self.warp_instances@.contains_key((TOR_SOCKS_BASE + n) as u16) ==> n
                <= MAX_TOR_NUMBER
        }
    }

    /// Whether a switch away from the active pool computes its ports
    /// without overflow.
    pub fn switch_ports_fit(&self) -> (r: bool)
        requires
            self.proxy_pools@.len() == 0 || self.active_pool_index < self.proxy_pools@.len(),
        ensures
            r == self.rotation_ports_fit(),
    {
        if self.proxy_pools.len() == 0 {
            return true;
        }
        match tor_number_of(self.proxy_pools[self.active_pool_index].id.as_str()) {
            Some(n) => {
                if n > MAX_SOCKS_TOR_NUMBER {
                    return false;
                }
                let socks_port: u16 = TOR_SOCKS_BASE + n;
                !self.warp_instances.contains_key(&socks_port) || n <= MAX_TOR_NUMBER
            },
            None => true,
        }
    }

    /// A copy of the active pool, or `None` when there is no pool.
    pub fn active_pool(&self) -> (r: Option<ProxyPool>)
        requires
            self.proxy_pools@.len() == 0 || self.active_pool_index < self.proxy_pools@.len(),
        ensures
            self.proxy_pools@.len() == 0 <==> r is None,
            r matches Some(p) ==> p@ == self.proxy_pools@[self.active_pool_index as int]@,
    {
        if self.proxy_pools.len() == 0 {
            None
        } else {
            Some(self.proxy_pools[self.active_pool_index].duplicate())
        }
    }

    /// Moves to the next pool after a failure. Leaving a Tor pool logs the
    /// rate limit and marks that instance's circuit as being renewed; every
    /// switch logs which pool is now in use.
    pub fn switch_pool(&mut self) -> (r: SwitchOutcome)
        requires
            old(self).proxy_pools@.len() == 0
                || old(self).active_pool_index < old(self).proxy_pools@.len(),
            old(self).rotation_ports_fit(),
        ensures
            final(self).proxy_pools@.len() > 0
                ==> final(self).active_pool_index < final(self).proxy_pools@.len(),
            old(self).wf() ==> final(self).wf(),
            old(self).proxy_pools@.len() == 0 ==> r == SwitchOutcome::NoPools && *final(self) == *old(
                self,
            ),
            old(self).proxy_pools@.len() > 0 ==> switch_step(*old(self), *final(self)),
            old(self).proxy_pools@.len() > 0 ==> {
                let len = old(self).proxy_pools@.len();
                let tor = old(self).active_tor_number();
                let next = next_index(old(self).active_pool_index as int, len as int);
                &&& r == SwitchOutcome::Switched { renew: tor }
                &&& final(self).proxy_pools == old(self).proxy_pools
                &&& final(self).active_pool_index == next
                &&& final(self).active_tab == old(self).active_tab
                &&& final(self).total_requests == old(self).total_requests
                &&& final(self).total_retries == old(self).total_retries
                &&& final(self).last_error == old(self).last_error
                &&& final(self).instances() == instances_after_switch(old(self).instances(), tor)
                &&& exists|a: Seq<char>, b: Seq<char>|
                    time_of_day(a) && time_of_day(b) && final(self).log_lines() == bounded_push(
                        lines_before_switch(old(self).log_lines(), tor, a),
                        log_entry(
                            b,
                            switch_message(
                                old(self).proxy_pools@[next].name@,
                                (next + 1) as nat,
                                len,
                            ),
                        ),
                    )
            },
    {
        let len: usize = self.proxy_pools.len();
        if len == 0 {
            return SwitchOutcome::NoPools;
        }
        let ghost old_state = *self;
        let active_index: usize = self.active_pool_index;
        let tor = tor_number_of(self.proxy_pools[active_index].id.as_str());
        let ghost mid_lines = self.log_lines();
        let ghost mid_instances = self.instances();
        match tor {
            Some(n) => {
                let mut msg = String::from_str("Tor-");
                append_decimal(&mut msg, n as u64);
                msg.append(" hit Rate Limit! Failing over...");
                assert(msg@ == rate_limit_message(n));
                self.log(msg);
                let socks_port: u16 = TOR_SOCKS_BASE + n;
                if self.warp_instances.contains_key(&socks_port) {
                    let mut status = String::from_str("Rotating IP (Control ");
                    append_decimal(&mut status, (TOR_CONTROL_BASE + n) as u64);
                    status.append(")");
                    assert(status@ == rotating_status(n));
                    self.warp_instances.insert(socks_port, TorInstance { status, ip: None });
                    assert(self.instances() =~= instances_after_switch(mid_instances, tor));
                } else {
                    assert(self.instances() =~= instances_after_switch(mid_instances, tor));
                }
            },
            None => {
                assert(mid_lines == lines_before_switch(mid_lines, tor, seq![]));
            },
        }
        let ghost before_switch_lines = self.log_lines();
        let ghost stamp_a: Seq<char> = match tor {
            Some(n) => choose|a: Seq<char>|
                time_of_day(a) && before_switch_lines == bounded_push(
                    mid_lines,
                    log_entry(a, rate_limit_message(n)),
                ),
            None => "00:00:00"@,
        };
        proof {
            reveal_strlit("00:00:00");
            assert(time_of_day(stamp_a));
            assert(before_switch_lines == lines_before_switch(mid_lines, tor, stamp_a));
        }
        let next: usize = (active_index + 1) % len;
        self.active_pool_index = next;
        let mut msg = String::from_str("SWITCH: Now using ");
        msg.append(self.proxy_pools[next].name.as_str());
        msg.append(" (active: ");
        append_decimal(&mut msg, (next + 1) as u64);
        msg.append("/");
        append_decimal(&mut msg, len as u64);
        msg.append(")");
        assert(msg@ == switch_message(
            old_state.proxy_pools@[next as int].name@,
            (next + 1) as nat,
            len as nat,
        ));
        self.log(msg);
        SwitchOutcome::Switched { renew: tor }
    }

    /// Logs the result of renewing the circuit of Tor instance `n`.
    pub fn record_renewal(&mut self, n: u16, renewed: bool)
        ensures
            exists|stamp: Seq<char>|
                time_of_day(stamp) && final(self).log_lines() == bounded_push(
                    old(self).log_lines(),
                    log_entry(
                        stamp,
                        if renewed {
                            renewed_message(n)
                        } else {
                            renewal_failed_message(n)
                        },
                    ),
                ),
            final(self).same_except_logs(old(self)),
            old(self).wf() ==> final(self).wf(),
    {
        let mut msg = String::from_str("Tor-");
        append_decimal(&mut msg, n as u64);
        if renewed {
            msg.append(" successfully acquired new Identity!");
        } else {
            msg.append(" failed to rotate IP.");
        }
        self.log(msg);
    }
}


/// The pool that `k` switches in a row lead to.
pub open spec fn after_switches(i: int, len: int, k: nat) -> int
    decreases k,
{
    if k == 0 {
        i
    } else {
        next_index(after_switches(i, len, (k - 1) as nat), len)
    }
}

/// Switching goes round the pools in order: `k` switches from pool `i`
/// lead to pool `(i + k) mod len`, so `len` switches lead back to the start
/// and every pool is reached within `len` switches.
pub proof fn lemma_switches_rotate(i: int, len: int, k: nat)
    requires
        0 <= i < len,
    ensures
        after_switches(i, len, k) == (i + k) % len,
    decreases k,
{
    if k > 0 {
        lemma_switches_rotate(i, len, (k - 1) as nat);
        vstd::arithmetic::div_mod::lemma_add_mod_noop_right(1, i + k - 1, len);
        assert(1 + (i + k - 1) == i + k);
    } else {
        vstd::arithmetic::div_mod::lemma_small_mod(i as nat, len as nat);
    }
}

/// Every pool is reached from every other within fewer than `len` switches.
pub proof fn lemma_every_pool_reached(i: int, j: int, len: int)
    requires
        0 <= i < len,
        0 <= j < len,
    ensures
        after_switches(i, len, ((j - i + len) % len) as nat) == j,
        (j - i + len) % len < len,
{
    let k: int = (j - i + len) % len;
    lemma_switches_rotate(i, len, k as nat);
    vstd::arithmetic::div_mod::lemma_add_mod_noop(i, j - i + len, len);
    vstd::arithmetic::div_mod::lemma_small_mod(i as nat, len as nat);
    vstd::arithmetic::div_mod::lemma_mod_add_multiples_vanish(j, len);
    vstd::arithmetic::div_mod::lemma_small_mod(j as nat, len as nat);
    assert(i + (j - i + len) == j + len);
}


/// A run of switches, each made by `switch_pool` on the state the one
/// before left, goes round the pools: the `k`-th state has the pools and
/// counters of the first and its active pool is `(i + k) mod n`, so `n`
/// switches lead back to pool `i`.
pub proof fn lemma_switch_sequence(states: Seq<AppState>)
    requires
        states.len() >= 1,
        states[0].proxy_pools@.len() > 0,
        states[0].active_pool_index < states[0].proxy_pools@.len(),
        forall|k: int| 0 <= k < states.len() - 1 ==> switch_step(#[trigger] states[k], states[k + 1]),
    ensures
        forall|k: int|
            0 <= k < states.len() ==> {
                &&& (#[trigger] states[k]).proxy_pools == states[0].proxy_pools
                &&& states[k].total_requests == states[0].total_requests
                &&& states[k].total_retries == states[0].total_retries
                &&& states[k].active_pool_index == (states[0].active_pool_index + k) % (
                states[0].proxy_pools@.len() as int)
            },
        states.len() == states[0].proxy_pools@.len() + 1 ==> states[states.len() - 1].active_pool_index
            == states[0].active_pool_index,
{
    let n = states[0].proxy_pools@.len() as int;
    let i = states[0].active_pool_index as int;
    assert forall|k: int| 0 <= k < states.len() implies {
        &&& (#[trigger] states[k]).proxy_pools == states[0].proxy_pools
        &&& states[k].total_requests == states[0].total_requests
        &&& states[k].total_retries == states[0].total_retries
        &&& states[k].active_pool_index == (i + k) % n
    } by {
        lemma_switch_prefix(states, k);
        lemma_switches_rotate(i, n, k as nat);
    }
    if states.len() == n + 1 {
        lemma_switch_prefix(states, n);
        lemma_switches_rotate(i, n, n as nat);
        vstd::arithmetic::div_mod::lemma_mod_add_multiples_vanish(i, n);
        vstd::arithmetic::div_mod::lemma_small_mod(i as nat, n as nat);
    }
}

proof fn lemma_switch_prefix(states: Seq<AppState>, k: int)
    requires
        0 <= k < states.len(),
        states[0].proxy_pools@.len() > 0,
        forall|j: int| 0 <= j < states.len() - 1 ==> switch_step(#[trigger] states[j], states[j + 1]),
    ensures
        states[k].proxy_pools == states[0].proxy_pools,
        states[k].total_requests == states[0].total_requests,
        states[k].total_retries == states[0].total_retries,
        states[k].active_pool_index == after_switches(
            states[0].active_pool_index as int,
            states[0].proxy_pools@.len() as int,
            k as nat,
        ),
    decreases k,
{
    if k > 0 {
        lemma_switch_prefix(states, k - 1);
        assert(switch_step(states[k - 1], states[k]));
    }
}


/// Only ids that start with `tor-` name a Tor instance, and the number is
/// what follows the `tor-` prefixes, read as a `u16`.
pub proof fn lemma_tor_number_rule(id: Seq<char>)
    ensures
        !has_prefix(id, "tor-"@) ==> tor_number(id) is None,
        has_prefix(id, "tor-"@) ==> tor_number(id) == parse_u16_spec(strip_prefixes(id, "tor-"@)),
        tor_number(id) is Some ==> has_prefix(id, "tor-"@),
{
}

} // verus!
