//! The shared application state: the proxy pools, the counters of the
//! interceptor, the Tor/WARP instances shown on the dashboard, and the
//! activity log, which keeps the newest `LOG_CAPACITY` lines.
use std::collections::HashMap;
use std::collections::VecDeque;
use vstd::prelude::*;
use crate::text::digit_value;

verus! {

broadcast use vstd::std_specs::hash::group_hash_axioms;

/// How many lines the activity log keeps.
pub const LOG_CAPACITY: usize = 50;

/// An upstream proxy that requests can be routed through.
#[derive(Debug, Clone)]
pub struct ProxyPool {
    pub id: String,
    pub name: String,
    pub url: String,
    pub is_active: bool,
    pub errors: u32,
    /// When the pool was last used, as milliseconds since the Unix epoch.
    pub last_used: Option<i64>,
}

pub struct ProxyPoolView {
    pub id: Seq<char>,
    pub name: Seq<char>,
    pub url: Seq<char>,
    pub is_active: bool,
    pub errors: u32,
    pub last_used: Option<i64>,
}

impl View for ProxyPool {
    type V = ProxyPoolView;

    open spec fn view(&self) -> ProxyPoolView {
        ProxyPoolView {
            id: self.id@,
            name: self.name@,
            url: self.url@,
            is_active: self.is_active,
            errors: self.errors,
            last_used: self.last_used,
        }
    }
}

impl ProxyPool {
    /// A field-by-field copy.
    pub fn duplicate(&self) -> (r: ProxyPool)
        ensures
            r@ == self@,
    {
        ProxyPool {
            id: self.id.clone(),
            name: self.name.clone(),
            url: self.url.clone(),
            is_active: self.is_active,
            errors: self.errors,
            last_used: self.last_used,
        }
    }
}

/// A proxy engine (a Tor or WARP instance) as the dashboard shows it.
#[derive(Debug, Clone)]
pub struct TorInstance {
    pub status: String,
    pub ip: Option<String>,
}

pub struct TorInstanceView {
    pub status: Seq<char>,
    pub ip: Option<Seq<char>>,
}

pub open spec fn opt_view(o: Option<String>) -> Option<Seq<char>> {
    match o {
        Some(s) => Some(s@),
        None => None,
    }
}

impl View for TorInstance {
    type V = TorInstanceView;

    open spec fn view(&self) -> TorInstanceView {
        TorInstanceView { status: self.status@, ip: opt_view(self.ip) }
    }
}

impl TorInstance {
    /// A field-by-field copy.
    pub fn duplicate(&self) -> (r: TorInstance)
        ensures
            r@ == self@,
    {
        TorInstance {
            status: self.status.clone(),
            ip: match &self.ip {
                Some(ip) => Some(ip.clone()),
                None => None,
            },
        }
    }
}

/// The state that the interceptor, the engine managers and the dashboard share.
#[derive(Debug)]
pub struct AppState {
    pub proxy_pools: Vec<ProxyPool>,
    pub active_pool_index: usize,
    pub active_tab: usize,
    pub total_requests: usize,
    pub total_retries: usize,
    pub last_error: Option<String>,
    pub logs: VecDeque<String>,
    /// Engines by port.
    pub warp_instances: HashMap<u16, TorInstance>,
}

/// A time of day as `HH:MM:SS`.
pub open spec fn time_of_day(s: Seq<char>) -> bool {
    &&& s.len() == 8
    &&& s[2] == ':'
    &&& s[5] == ':'
    &&& forall|i: int|
        0 <= i < 8 && i != 2 && i != 5 ==> digit_value(#[trigger] s[i]) is Some
}

/// A log line: the time stamp in brackets, a space, the message.
pub open spec fn log_entry(stamp: Seq<char>, msg: Seq<char>) -> Seq<char> {
    "["@ + stamp + "] "@ + msg
}

/// The log after one more line: the oldest line leaves once the log is full.
pub open spec fn bounded_push(lines: Seq<Seq<char>>, line: Seq<char>) -> Seq<Seq<char>> {
    (if lines.len() >= LOG_CAPACITY {
        lines.drop_first()
    } else {
        lines
    }).push(line)
}

/// Calls `chrono::Utc::now()` and formats it with `%H:%M:%S`. The time
/// itself is whatever the clock says; the contract claims only the shape
/// that this format always gives (two zero-padded digits for each of hour,
/// minute and second, separated by colons).
#[verifier::external_body]
fn clock_stamp() -> (r: String)
    ensures
        time_of_day(r@),
{
    chrono::Utc::now().format("%H:%M:%S").to_string()
}

impl AppState {
    /// The log holds at most `LOG_CAPACITY` lines and the active index
    /// points into the pool list (or is 0 while the list is empty).
    pub open spec fn wf(&self) -> bool {
        &&& self.logs@.len() <= LOG_CAPACITY
        &&& self.pool_index_ok()
    }

    /// The active index points into the pool list, or is 0 while the list
    /// is empty.
    pub open spec fn pool_index_ok(&self) -> bool {
        self.active_pool_index == 0 || self.active_pool_index < self.proxy_pools@.len()
    }

    /// Whether the active index points into the pool list (or the list is
    /// empty), so that the active pool can be read.
    pub fn has_valid_pool_index(&self) -> (r: bool)
        ensures
            r == (self.proxy_pools@.len() == 0 || self.active_pool_index < self.proxy_pools@.len()),
    {
        self.proxy_pools.len() == 0 || self.active_pool_index < self.proxy_pools.len()
    }

    pub open spec fn log_lines(&self) -> Seq<Seq<char>> {
        self.logs@.map_values(|l: String| l@)
    }

    pub open spec fn pools(&self) -> Seq<ProxyPoolView> {
        self.proxy_pools@.map_values(|p: ProxyPool| p@)
    }

    pub open spec fn instances(&self) -> Map<u16, TorInstanceView> {
        self.warp_instances@.map_values(|t: TorInstance| t@)
    }

    /// All fields but the log are those of `other`.
    pub open spec fn same_except_logs(&self, other: &Self) -> bool {
        &&& self.proxy_pools == other.proxy_pools
        &&& self.active_pool_index == other.active_pool_index
        &&& self.active_tab == other.active_tab
        &&& self.total_requests == other.total_requests
        &&& self.total_retries == other.total_retries
        &&& self.last_error == other.last_error
        &&& self.warp_instances == other.warp_instances
    }

    pub fn new() -> (s: Self)
        ensures
            s.wf(),
            s.proxy_pools@.len() == 0,
            s.active_pool_index == 0,
            s.active_tab == 0,
            s.total_requests == 0,
            s.total_retries == 0,
            s.last_error is None,
            s.logs@.len() == 0,
            s.warp_instances@ == Map::<u16, TorInstance>::empty(),
    {
        AppState {
            proxy_pools: Vec::new(),
            active_pool_index: 0,
            active_tab: 0,
            total_requests: 0,
            total_retries: 0,
            last_error: None,
            logs: VecDeque::with_capacity(LOG_CAPACITY),
            warp_instances: HashMap::new(),
        }
    }

    /// Appends `[stamp] msg` to the log, dropping the oldest line first
    /// when the log is full.
    pub fn log_at(&mut self, stamp: &str, msg: String)
        ensures
            final(self).log_lines() == bounded_push(old(self).log_lines(), log_entry(stamp@, msg@)),
            final(self).same_except_logs(old(self)),
            old(self).logs@.len() <= LOG_CAPACITY ==> final(self).logs@.len() <= LOG_CAPACITY,
    {
        let ghost before = self.log_lines();
        if self.logs.len() >= LOG_CAPACITY {
            self.logs.pop_front();
        }
        let ghost kept = self.log_lines();
        assert(kept =~= (if before.len() >= LOG_CAPACITY {
            before.drop_first()
        } else {
            before
        }));
        let mut line = String::from_str("[");
        line.append(stamp);
        line.append("] ");
        line.append(msg.as_str());
        assert(line@ == log_entry(stamp@, msg@));
        self.logs.push_back(line);
        assert(self.log_lines() =~= bounded_push(before, log_entry(stamp@, msg@)));
    }

    /// Appends `msg` to the log under the current time of day.
    pub fn log(&mut self, msg: String)
        ensures
            exists|stamp: Seq<char>|
                time_of_day(stamp) && final(self).log_lines() == bounded_push(
                    old(self).log_lines(),
                    log_entry(stamp, msg@),
                ),
            final(self).same_except_logs(old(self)),
            old(self).logs@.len() <= LOG_CAPACITY ==> final(self).logs@.len() <= LOG_CAPACITY,
    {
        let stamp = clock_stamp();
        self.log_at(stamp.as_str(), msg);
    }
}


/// The log never grows past its capacity, its newest line is the one just
/// logged, and the lines before it are the newest of the earlier lines, in
/// their order.
pub proof fn lemma_log_keeps_newest(lines: Seq<Seq<char>>, line: Seq<char>)
    requires
        lines.len() <= LOG_CAPACITY,
    ensures
        bounded_push(lines, line).len() <= LOG_CAPACITY,
        bounded_push(lines, line).last() == line,
        bounded_push(lines, line).drop_last() == lines.subrange(
            lines.len() - (bounded_push(lines, line).len() - 1),
            lines.len() as int,
        ),
{
    let r = bounded_push(lines, line);
    assert(r.drop_last() =~= lines.subrange(lines.len() - (r.len() - 1), lines.len() as int));
}


/// The log after `entries` were logged one after the other.
pub open spec fn log_after(lines: Seq<Seq<char>>, entries: Seq<Seq<char>>) -> Seq<Seq<char>>
    decreases entries.len(),
{
    if entries.len() == 0 {
        lines
    } else {
        bounded_push(log_after(lines, entries.drop_last()), entries.last())
    }
}

/// The newest `LOG_CAPACITY` lines of `s`, in their order (all of them if
/// there are fewer).
pub open spec fn newest(s: Seq<Seq<char>>) -> Seq<Seq<char>> {
    if s.len() > LOG_CAPACITY {
        s.skip(s.len() - LOG_CAPACITY)
    } else {
        s
    }
}

/// Over any number of calls the log holds the newest `LOG_CAPACITY` of
/// its earlier lines and the lines logged since, in the order they were
/// logged; a log that starts empty holds the last `min(k, 50)` of `k`
/// lines logged.
pub proof fn lemma_log_keeps_newest_of_all(lines: Seq<Seq<char>>, entries: Seq<Seq<char>>)
    requires
        lines.len() <= LOG_CAPACITY,
    ensures
        log_after(lines, entries) == newest(lines + entries),
        log_after(lines, entries).len() <= LOG_CAPACITY,
        lines.len() == 0 ==> log_after(lines, entries) == newest(entries),
    decreases entries.len(),
{
    if entries.len() > 0 {
        let e = entries.last();
        let t = lines + entries.drop_last();
        lemma_log_keeps_newest_of_all(lines, entries.drop_last());
        assert(t.push(e) =~= lines + entries);
        let prev = newest(t);
        if t.len() >= LOG_CAPACITY {
            assert(prev =~= t.skip(t.len() - LOG_CAPACITY));
            assert(prev.drop_first().push(e) =~= t.push(e).skip(t.push(e).len() - LOG_CAPACITY));
        } else {
            assert(prev == t);
        }
    } else {
        assert(lines + entries =~= lines);
    }
    if lines.len() == 0 {
        assert(lines + entries =~= entries);
    }
}

} // verus!
