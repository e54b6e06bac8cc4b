//! The WARP instances: their ports and configuration files, and their
//! entries on the dashboard while they start.
use vstd::prelude::*;
use crate::state::{
    bounded_push, log_entry, time_of_day, AppState, TorInstance, TorInstanceView,
};
use crate::text::{append_decimal, dec};

verus! {

broadcast use vstd::std_specs::hash::group_hash_axioms;

/// How many WARP instances are managed.
pub const WARP_INSTANCE_COUNT: u16 = 5;

/// The port below the first WARP instance's port; instance `i` listens on this plus `i`.
pub const WARP_PORT_BASE: u16 = 51000;

pub open spec fn warp_port_of(i: u16) -> u16 {
    (WARP_PORT_BASE + i) as u16
}

pub open spec fn warp_status(running: bool) -> Seq<char> {
    if running {
        "Running"@
    } else {
        "Starting..."@
    }
}

/// The port of WARP instance `i`.
pub fn warp_port(i: u16) -> (r: u16)
    requires
        i <= 14535,
    ensures
        r == warp_port_of(i),
{
    WARP_PORT_BASE + i
}

/// The configuration file of WARP instance `i` in a directory.
pub fn warp_conf_path(instances_dir: &str, i: u16) -> (r: String)
    ensures
        r@ == instances_dir@ + "\\warp-"@ + dec(i as nat) + ".conf"@,
{
    let mut s = String::from_str(instances_dir);
    s.append("\\warp-");
    append_decimal(&mut s, i as u64);
    s.append(".conf");
    s
}

/// The proxy program in a tools directory.
pub fn wireproxy_exe(tools_dir: &str) -> (r: String)
    ensures
        r@ == tools_dir@ + "\\wireproxy.exe"@,
{
    let mut s = String::from_str(tools_dir);
    s.append("\\wireproxy.exe");
    s
}

impl AppState {
    /// Logs that the WARP manager starts.
    pub fn record_warp_start(&mut self)
        ensures
            exists|stamp: Seq<char>|
                time_of_day(stamp) && final(self).log_lines() == bounded_push(
                    old(self).log_lines(),
                    log_entry(stamp, "WARP Manager started. Initializing instances..."@),
                ),
            final(self).same_except_logs(old(self)),
            old(self).wf() ==> final(self).wf(),
    {
        self.log(String::from_str("WARP Manager started. Initializing instances..."));
    }

    /// Shows the WARP instance on `port` as starting or as running.
    pub fn set_warp_status(&mut self, port: u16, running: bool)
        ensures
            final(self).instances() == old(self).instances().insert(
                port,
                TorInstanceView { status: warp_status(running), ip: None },
            ),
            final(self).proxy_pools == old(self).proxy_pools,
            final(self).active_pool_index == old(self).active_pool_index,
            final(self).active_tab == old(self).active_tab,
            final(self).total_requests == old(self).total_requests,
            final(self).total_retries == old(self).total_retries,
            final(self).last_error == old(self).last_error,
            final(self).logs == old(self).logs,
    {
        let status = if running {
            String::from_str("Running")
        } else {
            String::from_str("Starting...")
        };
        self.warp_instances.insert(port, TorInstance { status, ip: None });
        assert(self.instances() =~= old(self).instances().insert(
            port,
            TorInstanceView { status: warp_status(running), ip: None },
        ));
    }
}


/// The numbers of the WARP instances that are managed, in order.
pub fn warp_instance_numbers() -> (r: Vec<u16>)
    ensures
        r@ == seq![1u16, 2u16, 3u16, 4u16, 5u16],
        r@.len() == WARP_INSTANCE_COUNT,
{
    let mut v: Vec<u16> = Vec::new();
    let mut n: u16 = 1;
    while n <= WARP_INSTANCE_COUNT
        invariant
            1 <= n <= WARP_INSTANCE_COUNT + 1,
            v@ == Seq::new((n - 1) as nat, |k: int| (k + 1) as u16),
        decreases WARP_INSTANCE_COUNT + 1 - n,
    {
        v.push(n);
        n += 1;
    }
    assert(v@ =~= seq![1u16, 2u16, 3u16, 4u16, 5u16]);
    v
}

} // verus!
