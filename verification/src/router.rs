//! The 9Router service: where it is looked for, how it is launched and
//! waited for, and the plan that registers the interceptor as its proxy
//! pool for OpenCode. Each step takes what the last request answered and
//! gives the next request to make.
use vstd::prelude::*;
use crate::state::{bounded_push, log_entry, opt_view, time_of_day, AppState};
use crate::text::{append_decimal, dec, same_text};

verus! {

/// The name under which the interceptor is registered as a proxy pool.
pub open spec fn pool_name() -> Seq<char> {
    "OC-Quota-Rust-Interceptor"@
}

/// The interceptor's URL, as the pool and the OpenCode strategy give it.
pub open spec fn interceptor_url() -> Seq<char> {
    "http://127.0.0.1:20131"@
}

/// How many times the launched service is looked for before giving up.
pub const LAUNCH_POLLS: u8 = 15;

/// A place where the service may answer.
pub struct ProbeTarget {
    pub port: u16,
    pub url: String,
}

/// A proxy pool as the service lists it: each field is present when the
/// listing gives it as a string.
pub struct PoolRecord {
    pub name: Option<String>,
    pub id: Option<String>,
    pub proxy_url: Option<String>,
}

pub struct PoolRecordView {
    pub name: Option<Seq<char>>,
    pub id: Option<Seq<char>>,
    pub proxy_url: Option<Seq<char>>,
}

impl View for PoolRecord {
    type V = PoolRecordView;

    open spec fn view(&self) -> PoolRecordView {
        PoolRecordView {
            name: opt_view(self.name),
            id: opt_view(self.id),
            proxy_url: opt_view(self.proxy_url),
        }
    }
}

pub open spec fn records_view(records: Seq<PoolRecord>) -> Seq<PoolRecordView> {
    records.map_values(|r: PoolRecord| r@)
}

pub open spec fn listing_view(listing: Option<Vec<PoolRecord>>) -> Option<Seq<PoolRecordView>> {
    match listing {
        Some(v) => Some(records_view(v@)),
        None => None,
    }
}

/// The position of the first pool registered under the interceptor's name.
pub open spec fn first_interceptor_pool(records: Seq<PoolRecordView>) -> Option<int>
    decreases records.len(),
{
    if records.len() == 0 {
        None
    } else {
        match first_interceptor_pool(records.drop_last()) {
            Some(i) => Some(i),
            None => if records.last().name == Some(pool_name()) {
                Some(records.len() - 1)
            } else {
                None
            },
        }
    }
}

/// What a listing says: the id of the interceptor's pool, if it has one,
/// and whether that pool points elsewhere than at the interceptor.
pub open spec fn listing_decision(listing: Option<Seq<PoolRecordView>>) -> (
    Option<Seq<char>>,
    bool,
) {
    match listing {
        Some(records) => match first_interceptor_pool(records) {
            Some(i) => (records[i].id, records[i].proxy_url != Some(interceptor_url())),
            None => (None, false),
        },
        None => (None, false),
    }
}

/// Where the registration stands.
#[derive(Debug, Clone, Copy, PartialEq, Eq, Structural)]
pub enum ConfigStage {
    /// The pools are being listed.
    Listing,
    /// A stale registration is being deleted.
    Deleting,
    /// Waiting for the deletion to settle.
    Pausing,
    /// The pool is being created.
    Creating,
    /// The OpenCode strategy is being pointed at the pool.
    Patching,
    /// Done.
    Finished,
}

/// How far a stage is along the plan.
pub open spec fn stage_rank(stage: ConfigStage) -> nat {
    match stage {
        ConfigStage::Listing => 0,
        ConfigStage::Deleting => 1,
        ConfigStage::Pausing => 2,
        ConfigStage::Creating => 3,
        ConfigStage::Patching => 4,
        ConfigStage::Finished => 5,
    }
}

/// What the last request answered.
pub enum ConfigEvent {
    /// The pool listing, or `None` when it could not be read.
    Listed(Option<Vec<PoolRecord>>),
    Deleted,
    Paused,
    /// The created pool's id, or `None` when creation gave none.
    Created(Option<String>),
    /// Whether the settings were accepted.
    Patched(bool),
}

/// The next request.
pub enum ConfigAction {
    ListPools,
    DeletePool(String),
    /// Wait half a second.
    Pause,
    CreatePool { name: String, proxy_url: String, kind: String, is_active: bool },
    /// Point OpenCode at the interceptor through this pool (none when no id
    /// is known).
    PatchSettings { base_url: String, pool_id: Option<String> },
    /// The plan is over; whether the service accepted the settings.
    Report(bool),
    /// The answer did not fit the stage: nothing to do.
    Nothing,
}

/// The registration of the interceptor with a service on `port`.
pub struct RouterConfig {
    pub port: u16,
    pub stage: ConfigStage,
    pub pool_id: Option<String>,
}

/// The launch of the service when it is not found running.
#[derive(Debug, Clone, Copy, PartialEq, Eq, Structural)]
pub enum LaunchStage {
    /// Looking whether it already runs.
    Probing,
    /// Starting it.
    Launching,
    /// Waiting for it to answer; `polls` lookups made.
    Waiting { polls: u8 },
    Done,
}

pub enum LaunchEvent {
    /// The port it answers on, if any.
    Found(Option<u16>),
    /// Whether the launch command started, with the error text if not.
    Spawned(Result<(), String>),
}

#[derive(Debug, PartialEq, Eq, Structural)]
pub enum LaunchAction {
    /// Look for the service now.
    FindPort,
    /// Start the service.
    Spawn,
    /// Wait a second, then look for it.
    WaitThenFindPort,
    /// Register the interceptor with the service on this port.
    Configure(u16),
    Stop,
    Nothing,
}

/// How the service is launched: through the command interpreter, in the
/// tray, without opening a browser.
pub struct LaunchCommand {
    pub program: String,
    pub args: Vec<String>,
}

/// The command that launches the service.
pub fn launch_command() -> (r: LaunchCommand)
    ensures
        r.program@ == "cmd"@,
        r.args@.len() == 4,
        r.args@[0]@ == "/c"@,
        r.args@[1]@ == "C:\\Users\\dell\\AppData\\Roaming\\npm\\9router.cmd"@,
        r.args@[2]@ == "--tray"@,
        r.args@[3]@ == "--no-browser"@,
{
    let mut args: Vec<String> = Vec::new();
    args.push(String::from_str("/c"));
    args.push(String::from_str("C:\\Users\\dell\\AppData\\Roaming\\npm\\9router.cmd"));
    args.push(String::from_str("--tray"));
    args.push(String::from_str("--no-browser"));
    LaunchCommand { program: String::from_str("cmd"), args }
}

pub open spec fn base_url_spec(port: u16) -> Seq<char> {
    "http://127.0.0.1:"@ + dec(port as nat)
}

/// The places where the service is looked for, in order: each port on the
/// loopback address, then under `localhost`.
pub fn probe_targets() -> (r: Vec<ProbeTarget>)
    ensures
        r@.len() == 4,
        r@[0].port == 20130 && r@[0].url@ == "http://127.0.0.1:"@ + dec(20130) + "/api/proxy-pools"@,
        r@[1].port == 20130 && r@[1].url@ == "http://localhost:"@ + dec(20130) + "/api/proxy-pools"@,
        r@[2].port == 20128 && r@[2].url@ == "http://127.0.0.1:"@ + dec(20128) + "/api/proxy-pools"@,
        r@[3].port == 20128 && r@[3].url@ == "http://localhost:"@ + dec(20128) + "/api/proxy-pools"@,
{
    let mut targets: Vec<ProbeTarget> = Vec::new();
    let ports: [u16; 2] = [20130, 20128];
    let mut k: usize = 0;
    while k < 2
        invariant
            0 <= k <= 2,
            ports@ == seq![20130u16, 20128u16],
            targets@.len() == 2 * k,
            forall|j: int|
                0 <= j < k ==> {
                    &&& (#[trigger] targets@[2 * j]).port == ports@[j]
                    &&& targets@[2 * j].url@ == "http://127.0.0.1:"@ + dec(ports@[j] as nat)
                        + "/api/proxy-pools"@
                    &&& targets@[2 * j + 1].port == ports@[j]
                    &&& targets@[2 * j + 1].url@ == "http://localhost:"@ + dec(ports@[j] as nat)
                        + "/api/proxy-pools"@
                },
        decreases 2 - k,
    {
        let port: u16 = ports[k];
        let mut a = String::from_str("http://127.0.0.1:");
        append_decimal(&mut a, port as u64);
        a.append("/api/proxy-pools");
        targets.push(ProbeTarget { port, url: a });
        let mut b = String::from_str("http://localhost:");
        append_decimal(&mut b, port as u64);
        b.append("/api/proxy-pools");
        targets.push(ProbeTarget { port, url: b });
        k += 1;
    }
    assert(targets@[2 * 0int].port == 20130);
    assert(targets@[2 * 1int].port == 20128);
    targets
}

/// The service's address on a port.
pub fn base_url(port: u16) -> (r: String)
    ensures
        r@ == base_url_spec(port),
{
    let mut s = String::from_str("http://127.0.0.1:");
    append_decimal(&mut s, port as u64);
    s
}

/// Where the pools are listed and created.
pub fn pools_url(port: u16) -> (r: String)
    ensures
        r@ == base_url_spec(port) + "/api/proxy-pools"@,
{
    let mut s = base_url(port);
    s.append("/api/proxy-pools");
    s
}

/// Where a pool is deleted.
pub fn pool_url(port: u16, id: &str) -> (r: String)
    ensures
        r@ == base_url_spec(port) + "/api/proxy-pools/"@ + id@,
{
    let mut s = base_url(port);
    s.append("/api/proxy-pools/");
    s.append(id);
    s
}

/// Where the settings are changed.
pub fn settings_url(port: u16) -> (r: String)
    ensures
        r@ == base_url_spec(port) + "/api/settings"@,
{
    let mut s = base_url(port);
    s.append("/api/settings");
    s
}

/// The position of the first pool registered under the interceptor's name.
pub fn find_interceptor_pool(records: &Vec<PoolRecord>) -> (r: Option<usize>)
    ensures
        match r {
            Some(i) => i < records@.len() && first_interceptor_pool(records_view(records@)) == Some(
                i as int,
            ),
            None => first_interceptor_pool(records_view(records@)) is None,
        },
{
    let ghost view = records_view(records@);
    let mut i: usize = 0;
    while i < records.len()
        invariant
            i <= records@.len(),
            view == records_view(records@),
            first_interceptor_pool(view.take(i as int)) is None,
        decreases records@.len() - i,
    {
        let named = match &records[i].name {
            Some(name) => same_text(name.as_str(), "OC-Quota-Rust-Interceptor"),
            None => false,
        };
        proof {
            assert(view.take(i + 1).drop_last() =~= view.take(i as int));
            assert(view.take(i + 1).last() == records@[i as int]@);
        }
        if named {
            proof {
                lemma_first_pool_extends(view, i as int);
            }
            return Some(i);
        }
        i += 1;
    }
    assert(view.take(i as int) =~= view);
    None
}

/// Once the first match lies within a prefix, it is the first match of
/// the whole sequence.
proof fn lemma_first_pool_extends(records: Seq<PoolRecordView>, i: int)
    requires
        0 <= i < records.len(),
        first_interceptor_pool(records.take(i + 1)) == Some(i),
    ensures
        first_interceptor_pool(records) == Some(i),
    decreases records.len(),
{
    if records.len() == i + 1 {
        assert(records.take(i + 1) =~= records);
    } else {
        assert(records.drop_last().take(i + 1) =~= records.take(i + 1));
        lemma_first_pool_extends(records.drop_last(), i);
    }
}

fn clone_opt(o: &Option<String>) -> (r: Option<String>)
    ensures
        opt_view(r) == opt_view(*o),
{
    match o {
        Some(s) => Some(s.clone()),
        None => None,
    }
}

impl RouterConfig {
    /// Starts the registration with the service on `port`: list the pools.
    pub fn start(port: u16) -> (r: (RouterConfig, ConfigAction))
        ensures
            r.0.port == port,
            r.0.stage == ConfigStage::Listing,
            r.0.pool_id is None,
            r.1 is ListPools,
    {
        (RouterConfig { port, stage: ConfigStage::Listing, pool_id: None }, ConfigAction::ListPools)
    }

    /// The next request, given what the last one answered. After the
    /// listing, a stale registration (the interceptor's pool pointing
    /// elsewhere) is deleted, then, after a pause, created anew; a missing
    /// one is created; a current one is kept. The settings are then patched
    /// with the pool's id, and the plan reports whether they were accepted.
    pub fn next(&mut self, event: ConfigEvent) -> (r: ConfigAction)
        ensures
            final(self).port == old(self).port,
            match (old(self).stage, event) {
                (ConfigStage::Listing, ConfigEvent::Listed(listing)) => {
                    let decision = listing_decision(listing_view(listing));
                    if decision.1 && decision.0 is Some {
                        &&& final(self).stage == ConfigStage::Deleting
                        &&& opt_view(final(self).pool_id) == decision.0
                        &&& r matches ConfigAction::DeletePool(id) && Some(id@) == decision.0
                    } else if decision.0 is None {
                        &&& final(self).stage == ConfigStage::Creating
                        &&& final(self).pool_id is None
                        &&& r matches ConfigAction::CreatePool { name, proxy_url, kind, is_active }
                            && name@ == pool_name() && proxy_url@ == interceptor_url()
                            && kind@ == "http"@ && is_active
                    } else {
                        &&& final(self).stage == ConfigStage::Patching
                        &&& opt_view(final(self).pool_id) == decision.0
                        &&& r matches ConfigAction::PatchSettings { base_url, pool_id }
                            && base_url@ == interceptor_url() && opt_view(pool_id) == decision.0
                    }
                },
                (ConfigStage::Deleting, ConfigEvent::Deleted) => {
                    &&& final(self).stage == ConfigStage::Pausing
                    &&& final(self).pool_id is None
                    &&& r is Pause
                },
                (ConfigStage::Pausing, ConfigEvent::Paused) => {
                    &&& final(self).stage == ConfigStage::Creating
                    &&& final(self).pool_id is None
                    &&& r matches ConfigAction::CreatePool { name, proxy_url, kind, is_active }
                        && name@ == pool_name() && proxy_url@ == interceptor_url() && kind@
                        == "http"@ && is_active
                },
                (ConfigStage::Creating, ConfigEvent::Created(id)) => {
                    &&& final(self).stage == ConfigStage::Patching
                    &&& opt_view(final(self).pool_id) == opt_view(id)
                    &&& r matches ConfigAction::PatchSettings { base_url, pool_id }
                        && base_url@ == interceptor_url() && opt_view(pool_id) == opt_view(id)
                },
                (ConfigStage::Patching, ConfigEvent::Patched(ok)) => {
                    &&& final(self).stage == ConfigStage::Finished
                    &&& opt_view(final(self).pool_id) == opt_view(old(self).pool_id)
                    &&& r == ConfigAction::Report(ok)
                },
                _ => {
                    &&& final(self).stage == old(self).stage
                    &&& opt_view(final(self).pool_id) == opt_view(old(self).pool_id)
                    &&& r is Nothing
                },
            },
    {
        match (self.stage, event) {
            (ConfigStage::Listing, ConfigEvent::Listed(listing)) => {
                let ghost lv = listing_view(listing);
                let mut pool_id: Option<String> = None;
                let mut needs_update = false;
                match &listing {
                    Some(records) => match find_interceptor_pool(records) {
                        Some(i) => {
                            pool_id = clone_opt(&records[i].id);
                            needs_update = match &records[i].proxy_url {
                                Some(url) => !same_text(url.as_str(), "http://127.0.0.1:20131"),
                                None => true,
                            };
                        },
                        None => {},
                    },
                    None => {},
                }
                assert(opt_view(pool_id) == listing_decision(lv).0);
                assert(needs_update == listing_decision(lv).1);
                if needs_update && pool_id.is_some() {
                    let id = clone_opt(&pool_id).unwrap();
                    self.stage = ConfigStage::Deleting;
                    self.pool_id = pool_id;
                    ConfigAction::DeletePool(id)
                } else if pool_id.is_none() {
                    self.stage = ConfigStage::Creating;
                    self.pool_id = None;
                    create_action()
                } else {
                    let sent = clone_opt(&pool_id);
                    self.stage = ConfigStage::Patching;
                    self.pool_id = pool_id;
                    ConfigAction::PatchSettings {
                        base_url: String::from_str("http://127.0.0.1:20131"),
                        pool_id: sent,
                    }
                }
            },
            (ConfigStage::Deleting, ConfigEvent::Deleted) => {
                self.stage = ConfigStage::Pausing;
                self.pool_id = None;
                ConfigAction::Pause
            },
            (ConfigStage::Pausing, ConfigEvent::Paused) => {
                self.stage = ConfigStage::Creating;
                self.pool_id = None;
                create_action()
            },
            (ConfigStage::Creating, ConfigEvent::Created(id)) => {
                let sent = clone_opt(&id);
                self.stage = ConfigStage::Patching;
                self.pool_id = id;
                ConfigAction::PatchSettings {
                    base_url: String::from_str("http://127.0.0.1:20131"),
                    pool_id: sent,
                }
            },
            (ConfigStage::Patching, ConfigEvent::Patched(ok)) => {
                self.stage = ConfigStage::Finished;
                ConfigAction::Report(ok)
            },
            _ => ConfigAction::Nothing,
        }
    }
}

fn create_action() -> (r: ConfigAction)
    ensures
        r matches ConfigAction::CreatePool { name, proxy_url, kind, is_active } && name@
            == pool_name() && proxy_url@ == interceptor_url() && kind@ == "http"@ && is_active,
{
    ConfigAction::CreatePool {
        name: String::from_str("OC-Quota-Rust-Interceptor"),
        proxy_url: String::from_str("http://127.0.0.1:20131"),
        kind: String::from_str("http"),
        is_active: true,
    }
}

pub open spec fn already_running_message(port: u16) -> Seq<char> {
    "9Router is already running on port "@ + dec(port as nat) + ". Skipping launch."@
}

pub open spec fn launch_failed_message(error: Seq<char>) -> Seq<char> {
    "Failed to start 9Router: "@ + error
}

pub open spec fn configured_message(port: u16) -> Seq<char> {
    "Auto-configured 9Router (Port "@ + dec(port as nat) + ") with Rust Proxy Pool!"@
}

/// The log after `msgs` were logged in turn, each under some time of day.
pub open spec fn logged_in_turn(
    before: Seq<Seq<char>>,
    after: Seq<Seq<char>>,
    msgs: Seq<Seq<char>>,
) -> bool
    decreases msgs.len(),
{
    if msgs.len() == 0 {
        after == before
    } else {
        exists|mid: Seq<Seq<char>>, stamp: Seq<char>|
            time_of_day(stamp) && logged_in_turn(before, mid, msgs.drop_last()) && after
                == bounded_push(mid, log_entry(stamp, msgs.last()))
    }
}

/// Looking for the service, launching it when it is not found, and waiting
/// for it to answer.
pub struct RouterLaunch {
    pub stage: LaunchStage,
}

impl RouterLaunch {
    /// Starts by looking for a running service.
    pub fn start() -> (r: (RouterLaunch, LaunchAction))
        ensures
            r.0.stage == LaunchStage::Probing,
            r.1 == LaunchAction::FindPort,
    {
        (RouterLaunch { stage: LaunchStage::Probing }, LaunchAction::FindPort)
    }

    /// The next step, given what the last one found. A running service is
    /// used as it is; otherwise it is launched and looked for once a second,
    /// at most `LAUNCH_POLLS` times. A service that is found is configured;
    /// one that cannot be started or does not answer is reported.
    pub fn next(&mut self, state: &mut AppState, event: LaunchEvent) -> (r: LaunchAction)
        ensures
            final(state).same_except_logs(old(state)),
            old(state).wf() ==> final(state).wf(),
            match (old(self).stage, event) {
                (LaunchStage::Probing, LaunchEvent::Found(Some(port))) => {
                    &&& final(self).stage == LaunchStage::Done
                    &&& r == LaunchAction::Configure(port)
                    &&& logged_in_turn(
                        old(state).log_lines(),
                        final(state).log_lines(),
                        seq![already_running_message(port)],
                    )
                },
                (LaunchStage::Probing, LaunchEvent::Found(None)) => {
                    &&& final(self).stage == LaunchStage::Launching
                    &&& r == LaunchAction::Spawn
                    &&& logged_in_turn(
                        old(state).log_lines(),
                        final(state).log_lines(),
                        seq!["Starting 9Router GUI..."@],
                    )
                },
                (LaunchStage::Launching, LaunchEvent::Spawned(Err(e))) => {
                    &&& final(self).stage == LaunchStage::Done
                    &&& r == LaunchAction::Stop
                    &&& logged_in_turn(
                        old(state).log_lines(),
                        final(state).log_lines(),
                        seq![launch_failed_message(e@), "Warning: 9Router failed to start or didn't respond in time."@],
                    )
                },
                (LaunchStage::Launching, LaunchEvent::Spawned(Ok(()))) => {
                    &&& final(self).stage == LaunchStage::Waiting { polls: 1 }
                    &&& r == LaunchAction::WaitThenFindPort
                    &&& final(state).log_lines() == old(state).log_lines()
                },
                (LaunchStage::Waiting { polls }, LaunchEvent::Found(Some(port))) => {
                    &&& final(self).stage == LaunchStage::Done
                    &&& r == LaunchAction::Configure(port)
                    &&& final(state).log_lines() == old(state).log_lines()
                },
                (LaunchStage::Waiting { polls }, LaunchEvent::Found(None)) => if polls
                    < LAUNCH_POLLS {
                    &&& final(self).stage == LaunchStage::Waiting { polls: (polls + 1) as u8 }
                    &&& r == LaunchAction::WaitThenFindPort
                    &&& final(state).log_lines() == old(state).log_lines()
                } else {
                    &&& final(self).stage == LaunchStage::Done
                    &&& r == LaunchAction::Stop
                    &&& logged_in_turn(
                        old(state).log_lines(),
                        final(state).log_lines(),
                        seq!["Warning: 9Router failed to start or didn't respond in time."@],
                    )
                },
                _ => {
                    &&& final(self).stage == old(self).stage
                    &&& r == LaunchAction::Nothing
                    &&& final(state).log_lines() == old(state).log_lines()
                },
            },
    {
        let ghost start_lines = state.log_lines();
        match (self.stage, event) {
            (LaunchStage::Probing, LaunchEvent::Found(Some(port))) => {
                let mut msg = String::from_str("9Router is already running on port ");
                append_decimal(&mut msg, port as u64);
                msg.append(". Skipping launch.");
                assert(msg@ == already_running_message(port));
                state.log(msg);
                proof {
                    lemma_logged_one(start_lines, state.log_lines(), already_running_message(port));
                }
                self.stage = LaunchStage::Done;
                LaunchAction::Configure(port)
            },
            (LaunchStage::Probing, LaunchEvent::Found(None)) => {
                state.log(String::from_str("Starting 9Router GUI..."));
                proof {
                    lemma_logged_one(start_lines, state.log_lines(), "Starting 9Router GUI..."@);
                }
                self.stage = LaunchStage::Launching;
                LaunchAction::Spawn
            },
            (LaunchStage::Launching, LaunchEvent::Spawned(Err(e))) => {
                let mut msg = String::from_str("Failed to start 9Router: ");
                msg.append(e.as_str());
                assert(msg@ == launch_failed_message(e@));
                state.log(msg);
                let ghost mid = state.log_lines();
                proof {
                    lemma_logged_one(start_lines, mid, launch_failed_message(e@));
                }
                state.log(
                    String::from_str("Warning: 9Router failed to start or didn't respond in time."),
                );
                proof {
                    let msgs = seq![launch_failed_message(e@), "Warning: 9Router failed to start or didn't respond in time."@];
                    assert(msgs.drop_last() =~= seq![launch_failed_message(e@)]);
                    let stamp = choose|stamp: Seq<char>|
                        time_of_day(stamp) && state.log_lines() == bounded_push(
                            mid,
                            log_entry(stamp, msgs.last()),
                        );
                    assert(logged_in_turn(start_lines, state.log_lines(), msgs));
                }
                self.stage = LaunchStage::Done;
                LaunchAction::Stop
            },
            (LaunchStage::Launching, LaunchEvent::Spawned(Ok(()))) => {
                self.stage = LaunchStage::Waiting { polls: 1 };
                LaunchAction::WaitThenFindPort
            },
            (LaunchStage::Waiting { polls: _ }, LaunchEvent::Found(Some(port))) => {
                self.stage = LaunchStage::Done;
                LaunchAction::Configure(port)
            },
            (LaunchStage::Waiting { polls }, LaunchEvent::Found(None)) => {
                if polls < LAUNCH_POLLS {
                    self.stage = LaunchStage::Waiting { polls: polls + 1 };
                    LaunchAction::WaitThenFindPort
                } else {
                    state.log(
                        String::from_str(
                            "Warning: 9Router failed to start or didn't respond in time.",
                        ),
                    );
                    proof {
                        lemma_logged_one(
                            start_lines,
                            state.log_lines(),
                            "Warning: 9Router failed to start or didn't respond in time."@,
                        );
                    }
                    self.stage = LaunchStage::Done;
                    LaunchAction::Stop
                }
            },
            _ => LaunchAction::Nothing,
        }
    }
}

/// One line logged under some time of day is one line logged in turn.
proof fn lemma_logged_one(before: Seq<Seq<char>>, after: Seq<Seq<char>>, msg: Seq<char>)
    requires
        exists|stamp: Seq<char>|
            time_of_day(stamp) && after == bounded_push(before, log_entry(stamp, msg)),
    ensures
        logged_in_turn(before, after, seq![msg]),
{
    let stamp = choose|stamp: Seq<char>|
        time_of_day(stamp) && after == bounded_push(before, log_entry(stamp, msg));
    assert(seq![msg].drop_last() =~= Seq::<Seq<char>>::empty());
    assert(logged_in_turn(before, before, Seq::<Seq<char>>::empty()));
    assert(seq![msg].last() == msg);
}

impl AppState {
    /// Logs whether the service accepted the interceptor's registration.
    pub fn record_router_configuration(&mut self, port: u16, accepted: bool)
        ensures
            logged_in_turn(
                old(self).log_lines(),
                final(self).log_lines(),
                seq![
                    if accepted {
                        configured_message(port)
                    } else {
                        "Warning: Failed to auto-configure 9Router settings."@
                    },
                ],
            ),
            final(self).same_except_logs(old(self)),
            old(self).wf() ==> final(self).wf(),
    {
        let ghost before = self.log_lines();
        let msg = if accepted {
            let mut m = String::from_str("Auto-configured 9Router (Port ");
            append_decimal(&mut m, port as u64);
            m.append(") with Rust Proxy Pool!");
            m
        } else {
            String::from_str("Warning: Failed to auto-configure 9Router settings.")
        };
        let ghost text = msg@;
        self.log(msg);
        proof {
            lemma_logged_one(before, self.log_lines(), text);
        }
    }
}


/// A registration that already points at the interceptor is kept: it is
/// neither deleted nor created again, and its id goes into the settings.
pub proof fn lemma_current_registration_kept(records: Seq<PoolRecordView>, i: int)
    requires
        first_interceptor_pool(records) == Some(i),
        records[i].proxy_url == Some(interceptor_url()),
        records[i].id is Some,
    ensures
        listing_decision(Some(records)) == (records[i].id, false),
{
}

/// A registration that points elsewhere is replaced: it is deleted first.
pub proof fn lemma_stale_registration_replaced(records: Seq<PoolRecordView>, i: int)
    requires
        first_interceptor_pool(records) == Some(i),
        records[i].proxy_url != Some(interceptor_url()),
        records[i].id is Some,
    ensures
        listing_decision(Some(records)) == (records[i].id, true),
{
}

/// The first match is a pool under the interceptor's name, and none before
/// it carries that name.
pub proof fn lemma_first_pool_is_first(records: Seq<PoolRecordView>)
    ensures
        first_interceptor_pool(records) matches Some(i) ==> {
            &&& 0 <= i < records.len()
            &&& records[i].name == Some(pool_name())
            &&& forall|j: int| 0 <= j < i ==> #[trigger] records[j].name != Some(pool_name())
        },
        first_interceptor_pool(records) is None ==> forall|j: int|
            0 <= j < records.len() ==> #[trigger] records[j].name != Some(pool_name()),
    decreases records.len(),
{
    if records.len() > 0 {
        lemma_first_pool_is_first(records.drop_last());
        assert forall|j: int| 0 <= j < records.len() - 1 implies #[trigger] records[j]
            == records.drop_last()[j] by {}
    }
}


/// The outcome of one probe.
#[derive(Debug, Clone, Copy, PartialEq, Eq, Structural)]
pub enum ProbeStep {
    /// The service answers on this port.
    Found(u16),
    /// Try the target at this position.
    Next(usize),
    /// No target answered.
    NotFound,
}

/// What follows the probe of target `i`: its port when it answered, else
/// the next target, else nothing found. Probing the targets in order this
/// way gives the port of the first target that answers.
pub fn probe_step(targets: &Vec<ProbeTarget>, i: usize, answered: bool) -> (r: ProbeStep)
    requires
        i < targets@.len(),
    ensures
        answered ==> r == ProbeStep::Found(targets@[i as int].port),
        !answered && i + 1 < targets@.len() ==> r == ProbeStep::Next((i + 1) as usize),
        !answered && i + 1 == targets@.len() ==> r == ProbeStep::NotFound,
{
    if answered {
        ProbeStep::Found(targets[i].port)
    } else if i < targets.len() - 1 {
        ProbeStep::Next(i + 1)
    } else {
        ProbeStep::NotFound
    }
}


/// Configuring again after a configuration that left one pool under the
/// interceptor's name, pointing at the interceptor, only patches the
/// settings with that pool's id: it deletes nothing and creates nothing,
/// so the service keeps exactly one such pool.
pub proof fn lemma_reconfiguration_keeps_pool(records: Seq<PoolRecordView>, x: int)
    requires
        0 <= x < records.len(),
        records[x].name == Some(pool_name()),
        records[x].proxy_url == Some(interceptor_url()),
        records[x].id is Some,
        forall|j: int| 0 <= j < records.len() && j != x ==> #[trigger] records[j].name != Some(
            pool_name(),
        ),
    ensures
        first_interceptor_pool(records) == Some(x),
        listing_decision(Some(records)) == (records[x].id, false),
{
    lemma_first_pool_is_first(records);
}

} // verus!
