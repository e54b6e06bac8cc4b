//! The Tor instances: their ports, configuration, file layout, their pools,
//! and what the dashboard shows of them as they start and report their exit
//! address.
use vstd::prelude::*;
use crate::failover::{tor_number, TOR_CONTROL_BASE, TOR_SOCKS_BASE, MAX_TOR_NUMBER};
use crate::state::{
    bounded_push, log_entry, time_of_day, AppState, ProxyPool, ProxyPoolView, TorInstance,
    TorInstanceView,
};
use crate::text::{
    append_decimal, dec, digit_value, has_prefix, lemma_dec_nonempty_digits, lemma_parse_u16_dec,
    strip_prefixes, trim, trimmed,
};

verus! {

broadcast use vstd::std_specs::hash::group_hash_axioms;

/// How many Tor instances are started.
pub const TOR_INSTANCE_COUNT: u16 = 5;

pub open spec fn socks_port_of(n: u16) -> u16 {
    (TOR_SOCKS_BASE + n) as u16
}

pub open spec fn control_port_of(n: u16) -> u16 {
    (TOR_CONTROL_BASE + n) as u16
}

pub open spec fn tor_pool_id(n: u16) -> Seq<char> {
    "tor-"@ + dec(n as nat)
}

pub open spec fn tor_pool_name(n: u16) -> Seq<char> {
    "Tor #"@ + dec(n as nat)
}

/// The SOCKS URL of a local port; host names resolve through the proxy.
pub open spec fn socks_url(port: u16) -> Seq<char> {
    "socks5h://127.0.0.1:"@ + dec(port as nat)
}

/// The pool that routes through Tor instance `n`.
pub open spec fn tor_pool_view(n: u16) -> ProxyPoolView {
    ProxyPoolView {
        id: tor_pool_id(n),
        name: tor_pool_name(n),
        url: socks_url(socks_port_of(n)),
        is_active: true,
        errors: 0,
        last_used: None,
    }
}

pub open spec fn starting_status(control: u16) -> Seq<char> {
    "Starting (Control "@ + dec(control as nat) + ")"@
}

pub open spec fn running_status(control: u16) -> Seq<char> {
    "Running (Control "@ + dec(control as nat) + ")"@
}

pub open spec fn ready_message(socks: u16, ip: Seq<char>) -> Seq<char> {
    "Tor-"@ + dec(socks as nat) + " ready. Exit Node IP: "@ + ip
}

/// The configuration file of an instance.
pub open spec fn torrc_spec(socks: u16, control: u16, data_dir: Seq<char>) -> Seq<char> {
    "SocksPort "@ + dec(socks as nat) + "\nControlPort "@ + dec(control as nat)
        + "\nDataDirectory "@ + data_dir
        + "\nExitNodes {US},{UK},{CA},{DE},{FR}\nStrictNodes 0\n"@
}

/// Where the Tor files live under a working directory.
pub struct TorLayout {
    pub tools_dir: String,
    pub tor_exe: String,
    pub archive_path: String,
    pub instances_dir: String,
}

/// The SOCKS port of Tor instance `n`.
pub fn tor_socks_port(n: u16) -> (r: u16)
    requires
        n <= MAX_TOR_NUMBER,
    ensures
        r == socks_port_of(n),
{
    TOR_SOCKS_BASE + n
}

/// The control port of Tor instance `n`, ten above its SOCKS port.
pub fn tor_control_port(n: u16) -> (r: u16)
    requires
        n <= MAX_TOR_NUMBER,
    ensures
        r == control_port_of(n),
        r == socks_port_of(n) + 10,
{
    TOR_CONTROL_BASE + n
}

/// The SOCKS URL of a local port.
pub fn local_socks_url(port: u16) -> (r: String)
    ensures
        r@ == socks_url(port),
{
    let mut s = String::from_str("socks5h://127.0.0.1:");
    append_decimal(&mut s, port as u64);
    s
}

/// The address of a local control port.
pub fn local_address(port: u16) -> (r: String)
    ensures
        r@ == "127.0.0.1:"@ + dec(port as nat),
{
    let mut s = String::from_str("127.0.0.1:");
    append_decimal(&mut s, port as u64);
    s
}

/// The configuration file of an instance with these ports and data directory.
pub fn torrc_content(socks: u16, control: u16, data_dir: &str) -> (r: String)
    ensures
        r@ == torrc_spec(socks, control, data_dir@),
{
    let mut s = String::from_str("SocksPort ");
    append_decimal(&mut s, socks as u64);
    s.append("\nControlPort ");
    append_decimal(&mut s, control as u64);
    s.append("\nDataDirectory ");
    s.append(data_dir);
    s.append("\nExitNodes {US},{UK},{CA},{DE},{FR}\nStrictNodes 0\n");
    assert(s@ =~= torrc_spec(socks, control, data_dir@));
    s
}

/// The file layout under a working directory (Windows separators).
pub fn tor_layout(cwd: &str) -> (r: TorLayout)
    ensures
        r.tools_dir@ == cwd@ + "\\tools"@,
        r.tor_exe@ == cwd@ + "\\tools"@ + "\\tor\\tor.exe"@,
        r.archive_path@ == cwd@ + "\\tools"@ + "\\tor.tar.gz"@,
        r.instances_dir@ == cwd@ + "\\instances"@,
{
    let mut tools_dir = String::from_str(cwd);
    tools_dir.append("\\tools");
    let mut tor_exe = tools_dir.clone();
    tor_exe.append("\\tor\\tor.exe");
    let mut archive_path = tools_dir.clone();
    archive_path.append("\\tor.tar.gz");
    let mut instances_dir = String::from_str(cwd);
    instances_dir.append("\\instances");
    TorLayout { tools_dir, tor_exe, archive_path, instances_dir }
}

/// The data directory of instance `n`.
pub fn instance_dir(instances_dir: &str, n: u16) -> (r: String)
    ensures
        r@ == instances_dir@ + "\\tor"@ + dec(n as nat),
{
    let mut s = String::from_str(instances_dir);
    s.append("\\tor");
    append_decimal(&mut s, n as u64);
    s
}

/// The configuration file's path in an instance's data directory.
pub fn torrc_path(instance_dir: &str) -> (r: String)
    ensures
        r@ == instance_dir@ + "\\torrc"@,
{
    let mut s = String::from_str(instance_dir);
    s.append("\\torrc");
    s
}

/// The pool that routes through Tor instance `n`.
pub fn tor_pool(n: u16) -> (r: ProxyPool)
    requires
        n <= MAX_TOR_NUMBER,
    ensures
        r@ == tor_pool_view(n),
{
    let mut id = String::from_str("tor-");
    append_decimal(&mut id, n as u64);
    let mut name = String::from_str("Tor #");
    append_decimal(&mut name, n as u64);
    let url = local_socks_url(tor_socks_port(n));
    ProxyPool { id, name, url, is_active: true, errors: 0, last_used: None }
}

impl AppState {
    /// Shows Tor instance `n` as starting and adds its pool at the end of
    /// the pool list.
    pub fn register_tor_instance(&mut self, n: u16)
        requires
            n <= MAX_TOR_NUMBER,
            old(self).proxy_pools@.len() < usize::MAX,
        ensures
            final(self).instances() == old(self).instances().insert(
                socks_port_of(n),
                TorInstanceView { status: starting_status(control_port_of(n)), ip: None },
            ),
            final(self).pools() == old(self).pools().push(tor_pool_view(n)),
            final(self).active_pool_index == old(self).active_pool_index,
            final(self).active_tab == old(self).active_tab,
            final(self).total_requests == old(self).total_requests,
            final(self).total_retries == old(self).total_retries,
            final(self).last_error == old(self).last_error,
            final(self).logs == old(self).logs,
            old(self).wf() ==> final(self).wf(),
    {
        let control: u16 = tor_control_port(n);
        let mut status = String::from_str("Starting (Control ");
        append_decimal(&mut status, control as u64);
        status.append(")");
        self.warp_instances.insert(tor_socks_port(n), TorInstance { status, ip: None });
        assert(self.instances() =~= old(self).instances().insert(
            socks_port_of(n),
            TorInstanceView { status: starting_status(control_port_of(n)), ip: None },
        ));
        let pool = tor_pool(n);
        self.proxy_pools.push(pool);
        assert(self.pools() =~= old(self).pools().push(tor_pool_view(n)));
    }

    /// Records the exit address that instance `socks` reported: it shows as
    /// running with the trimmed address (if the dashboard knows it), and the
    /// log says it is ready.
    pub fn record_exit_ip(&mut self, socks: u16, control: u16, ip: &str)
        ensures
            final(self).instances() == if old(self).instances().contains_key(socks) {
                old(self).instances().insert(
                    socks,
                    TorInstanceView { status: running_status(control), ip: Some(trimmed(ip@)) },
                )
            } else {
                old(self).instances()
            },
            exists|stamp: Seq<char>|
                time_of_day(stamp) && final(self).log_lines() == bounded_push(
                    old(self).log_lines(),
                    log_entry(stamp, ready_message(socks, trimmed(ip@))),
                ),
            final(self).proxy_pools == old(self).proxy_pools,
            final(self).active_pool_index == old(self).active_pool_index,
            final(self).active_tab == old(self).active_tab,
            final(self).total_requests == old(self).total_requests,
            final(self).total_retries == old(self).total_retries,
            final(self).last_error == old(self).last_error,
            old(self).wf() ==> final(self).wf(),
    {
        let address = trim(ip);
        if self.warp_instances.contains_key(&socks) {
            let mut status = String::from_str("Running (Control ");
            append_decimal(&mut status, control as u64);
            status.append(")");
            self.warp_instances.insert(
                socks,
                TorInstance { status, ip: Some(String::from_str(address)) },
            );
            assert(self.instances() =~= old(self).instances().insert(
                socks,
                TorInstanceView { status: running_status(control), ip: Some(trimmed(ip@)) },
            ));
        }
        let mut msg = String::from_str("Tor-");
        append_decimal(&mut msg, socks as u64);
        msg.append(" ready. Exit Node IP: ");
        msg.append(address);
        assert(msg@ =~= ready_message(socks, trimmed(ip@)));
        self.log(msg);
    }
}

/// The id of the pool registered for Tor instance `n` names `n` again: the
/// failover reads back the instance number that the registration wrote.
pub proof fn lemma_tor_pool_id_names_instance(n: u16)
    ensures
        tor_number(tor_pool_id(n)) == Some(n),
{
    reveal_strlit("tor-");
    let id = tor_pool_id(n);
    let digits = dec(n as nat);
    let p = "tor-"@;
    assert(has_prefix(id, p)) by {
        assert(id.subrange(0, 4) =~= p);
    }
    assert(id.skip(4) =~= digits);
    lemma_dec_nonempty_digits(n as nat);
    assert(digit_value(digits[0]) is Some);
    assert(!has_prefix(digits, p)) by {
        if has_prefix(digits, p) {
            assert(digits.subrange(0, 4)[0] == p[0]);
        }
    }
    assert(strip_prefixes(digits, p) == digits);
    assert(strip_prefixes(id, p) == digits);
    lemma_parse_u16_dec(n);
}


/// A rate limit on the pool registered for Tor instance `n` renews exactly
/// that instance: after registration the switch away from its pool finds
/// its entry under port `9050 + n` and marks it as rotating.
pub proof fn lemma_switch_renews_registered_instance(
    instances: Map<u16, TorInstanceView>,
    n: u16,
)
    requires
        n <= MAX_TOR_NUMBER,
    ensures
        ({
            let registered = instances.insert(
                socks_port_of(n),
                TorInstanceView { status: starting_status(control_port_of(n)), ip: None },
            );
            let after = crate::failover::instances_after_switch(
                registered,
                tor_number(tor_pool_view(n).id),
            );
            &&& after.contains_key(socks_port_of(n))
            &&& after[socks_port_of(n)] == TorInstanceView {
                status: crate::failover::rotating_status(n),
                ip: None,
            }
            &&& forall|p: u16| p != socks_port_of(n) ==> #[trigger] after.contains_key(p)
                == instances.contains_key(p) && (instances.contains_key(p) ==> after[p]
                == instances[p])
        }),
{
    lemma_tor_pool_id_names_instance(n);
}


/// Where the Tor Expert Bundle is downloaded from.
pub fn tor_bundle_url() -> (r: String)
    ensures
        r@ == "https://dist.torproject.org/torbrowser/15.0.15/tor-expert-bundle-windows-x86_64-15.0.15.tar.gz"@,
{
    String::from_str(
        "https://dist.torproject.org/torbrowser/15.0.15/tor-expert-bundle-windows-x86_64-15.0.15.tar.gz",
    )
}

/// The stages of preparing the Tor program that the log reports.
#[derive(Debug, Clone, Copy, PartialEq, Eq, Structural)]
pub enum TorProgress {
    Starting,
    Downloading,
    Extracting,
    Ready,
    DownloadFailed,
}

pub open spec fn progress_message(p: TorProgress) -> Seq<char> {
    match p {
        TorProgress::Starting => "Tor Manager starting..."@,
        TorProgress::Downloading => "tor.exe not found! Downloading Tor Expert Bundle (this may take a minute)..."@,
        TorProgress::Extracting => "Extracting Tor Bundle..."@,
        TorProgress::Ready => "Tor Bundle ready."@,
        TorProgress::DownloadFailed => "Failed to download Tor!"@,
    }
}

impl AppState {
    /// Logs a stage of preparing the Tor program.
    pub fn record_tor_progress(&mut self, p: TorProgress)
        ensures
            exists|stamp: Seq<char>|
                time_of_day(stamp) && final(self).log_lines() == bounded_push(
                    old(self).log_lines(),
                    log_entry(stamp, progress_message(p)),
                ),
            final(self).same_except_logs(old(self)),
            old(self).wf() ==> final(self).wf(),
    {
        let msg = match p {
            TorProgress::Starting => String::from_str("Tor Manager starting..."),
            TorProgress::Downloading => String::from_str(
                "tor.exe not found! Downloading Tor Expert Bundle (this may take a minute)...",
            ),
            TorProgress::Extracting => String::from_str("Extracting Tor Bundle..."),
            TorProgress::Ready => String::from_str("Tor Bundle ready."),
            TorProgress::DownloadFailed => String::from_str("Failed to download Tor!"),
        };
        self.log(msg);
    }
}


/// The numbers of the Tor instances that are set up, in order.
pub fn tor_instance_numbers() -> (r: Vec<u16>)
    ensures
        r@ == seq![1u16, 2u16, 3u16, 4u16, 5u16],
        r@.len() == TOR_INSTANCE_COUNT,
{
    let mut v: Vec<u16> = Vec::new();
    let mut n: u16 = 1;
    while n <= TOR_INSTANCE_COUNT
        invariant
            1 <= n <= TOR_INSTANCE_COUNT + 1,
            v@ == Seq::new((n - 1) as nat, |k: int| (k + 1) as u16),
        decreases TOR_INSTANCE_COUNT + 1 - n,
    {
        v.push(n);
        n += 1;
    }
    assert(v@ =~= seq![1u16, 2u16, 3u16, 4u16, 5u16]);
    v
}

/// Where an instance asks for its exit address.
pub fn exit_ip_service() -> (r: String)
    ensures
        r@ == "https://api.ipify.org"@,
{
    String::from_str("https://api.ipify.org")
}

/// How long an instance waits before asking for its exit address again.
pub const EXIT_IP_RETRY_SECS: u64 = 3;

/// What to do after asking an instance for its exit address.
#[derive(Debug, Clone, Copy, PartialEq, Eq, Structural)]
pub enum PollAction {
    /// No address came back: ask again after `EXIT_IP_RETRY_SECS` seconds.
    RetryLater,
    /// The address is recorded: ask no more.
    Stop,
}

impl AppState {
    /// Takes the answer to one request for Tor instance `n`'s exit
    /// address: an address is recorded for the engine on `n`'s SOCKS port,
    /// which then shows as running with `n`'s control port (see
    /// `record_exit_ip`), and ends the polling; no answer changes nothing
    /// and the request is made again later.
    pub fn on_tor_exit_ip_answer(&mut self, n: u16, answer: Option<&str>) -> (r: PollAction)
        requires
            n <= MAX_TOR_NUMBER,
        ensures
            answer is None ==> r == PollAction::RetryLater && *final(self) == *old(self),
            answer matches Some(ip) ==> {
                &&& r == PollAction::Stop
                &&& final(self).instances() == after_exit_ip(old(self).instances(), n, ip@)
                &&& exists|stamp: Seq<char>|
                    time_of_day(stamp) && final(self).log_lines() == bounded_push(
                        old(self).log_lines(),
                        log_entry(stamp, ready_message(socks_port_of(n), trimmed(ip@))),
                    )
                &&& final(self).proxy_pools == old(self).proxy_pools
                &&& final(self).active_pool_index == old(self).active_pool_index
                &&& final(self).total_requests == old(self).total_requests
                &&& final(self).total_retries == old(self).total_retries
            },
            old(self).wf() ==> final(self).wf(),
    {
        match answer {
            Some(ip) => {
                self.record_exit_ip(tor_socks_port(n), tor_control_port(n), ip);
                PollAction::Stop
            },
            None => PollAction::RetryLater,
        }
    }
}

/// A Tor engine's running status names the control port that belongs to
/// its SOCKS port: ten above it, and `9060 + n` for the instance `n` whose
/// pool is `tor-n`.
pub proof fn lemma_engine_ports_agree(n: u16)
    requires
        n <= MAX_TOR_NUMBER,
    ensures
        control_port_of(n) == socks_port_of(n) + 10,
        running_status(control_port_of(n)) == running_status((socks_port_of(n) + 10) as u16),
        tor_number(tor_pool_view(n).id) == Some(n),
        tor_pool_view(n).url == socks_url(socks_port_of(n)),
{
    lemma_tor_pool_id_names_instance(n);
}


/// The dashboard's entry for Tor instance `n` agrees with its ports: it is
/// on `n`'s SOCKS port and shows `n`'s control port, either still starting
/// without an address or running with one.
pub open spec fn engine_consistent(instances: Map<u16, TorInstanceView>, n: u16) -> bool {
    &&& instances.contains_key(socks_port_of(n))
    &&& {
        let e = instances[socks_port_of(n)];
        ||| e == TorInstanceView { status: starting_status(control_port_of(n)), ip: None }
        ||| e.status == running_status(control_port_of(n)) && e.ip is Some
    }
}

/// The entries after an exit address for instance `n` came in (as
/// `on_tor_exit_ip_answer` leaves them).
pub open spec fn after_exit_ip(
    instances: Map<u16, TorInstanceView>,
    n: u16,
    ip: Seq<char>,
) -> Map<u16, TorInstanceView> {
    if instances.contains_key(socks_port_of(n)) {
        instances.insert(
            socks_port_of(n),
            TorInstanceView { status: running_status(control_port_of(n)), ip: Some(trimmed(ip)) },
        )
    } else {
        instances
    }
}

/// Registering instance `n` makes its entry agree with its ports, and
/// leaves the entries of the other instances as they were.
pub proof fn lemma_registration_consistent(instances: Map<u16, TorInstanceView>, n: u16, m: u16)
    requires
        n <= MAX_TOR_NUMBER,
        m <= MAX_TOR_NUMBER,
        m != n ==> engine_consistent(instances, m),
    ensures
        engine_consistent(
            instances.insert(
                socks_port_of(n),
                TorInstanceView { status: starting_status(control_port_of(n)), ip: None },
            ),
            m,
        ),
{
}

/// An exit address for instance `n` keeps every instance's entry in
/// agreement with its ports: `n`'s now runs with an address, the others
/// are untouched.
pub proof fn lemma_exit_ip_keeps_consistent(
    instances: Map<u16, TorInstanceView>,
    n: u16,
    m: u16,
    ip: Seq<char>,
)
    requires
        n <= MAX_TOR_NUMBER,
        m <= MAX_TOR_NUMBER,
        engine_consistent(instances, m),
    ensures
        engine_consistent(after_exit_ip(instances, n, ip), m),
{
}

} // verus!
