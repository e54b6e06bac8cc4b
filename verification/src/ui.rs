//! The dashboard's rules: what each key does, how tabs and the log
//! selection move, and how the gauge, the engines and the log lines are
//! shown (which text, in which tone). Drawing itself is left to the terminal.
use vstd::prelude::*;
use crate::state::{AppState, TorInstanceView, opt_view};
use crate::text::{append_decimal, contains, dec, has_substring};
use vstd::std_specs::iter::IteratorSpec;

verus! {

broadcast use vstd::std_specs::hash::group_hash_axioms;

/// How many tabs the dashboard has: the overview and the logs.
pub const TAB_COUNT: usize = 2;

/// The two dashboards: the rotation dashboard (Tor engines, interceptor
/// counters, compact log) and the unified dashboard (success gauge,
/// activity feed, detailed log).
#[derive(Debug, Clone, Copy, PartialEq, Eq, Structural)]
pub enum Dashboard {
    Rotation,
    Unified,
}

/// The colour roles of the dashboard.
#[derive(Debug, Clone, Copy, PartialEq, Eq, Structural)]
pub enum Tone {
    Primary,
    Secondary,
    Success,
    Error,
    Warning,
    Text,
    Muted,
    Accent,
}

/// A key of the keyboard, as far as the dashboard tells keys apart.
#[derive(Debug, Clone, Copy, PartialEq, Eq, Structural)]
pub enum Key {
    Char(char),
    Tab,
    Left,
    Right,
    Up,
    Down,
    Other,
}

/// A terminal event, as far as the dashboard tells events apart.
#[derive(Debug, Clone, Copy, PartialEq, Eq, Structural)]
pub enum Input {
    /// A key event; `pressed` is false for repeats and releases.
    Key { key: Key, pressed: bool },
    ScrollUp,
    ScrollDown,
    Other,
}

/// What an event asks the dashboard to do.
#[derive(Debug, Clone, Copy, PartialEq, Eq, Structural)]
pub enum Command {
    Quit,
    NextTab,
    PreviousTab,
    SelectPrevious,
    SelectNext,
    Ignore,
}

/// The outcome of a command for the event loop.
#[derive(Debug, Clone, Copy, PartialEq, Eq, Structural)]
pub struct UiStep {
    pub quit: bool,
    pub selection: Option<usize>,
}

pub open spec fn command_spec(input: Input) -> Command {
    match input {
        Input::Key { key, pressed } => if !pressed {
            Command::Ignore
        } else {
            match key {
                Key::Char(c) => if c == 'q' {
                    Command::Quit
                } else {
                    Command::Ignore
                },
                Key::Tab => Command::NextTab,
                Key::Right => Command::NextTab,
                Key::Left => Command::PreviousTab,
                Key::Up => Command::SelectPrevious,
                Key::Down => Command::SelectNext,
                Key::Other => Command::Ignore,
            }
        },
        Input::ScrollUp => Command::SelectPrevious,
        Input::ScrollDown => Command::SelectNext,
        Input::Other => Command::Ignore,
    }
}

pub open spec fn next_tab_spec(tab: int) -> int {
    (tab + 1) % (TAB_COUNT as int)
}

pub open spec fn previous_tab_spec(tab: int) -> int {
    if tab == 0 {
        0
    } else {
        tab - 1
    }
}

/// The last index of a list of `len` lines (0 for an empty list).
pub open spec fn last_index(len: int) -> int {
    if len == 0 {
        0
    } else {
        len - 1
    }
}

pub open spec fn select_previous_spec(selection: Option<usize>) -> int {
    match selection {
        Some(i) => if i == 0 {
            0
        } else {
            i - 1
        },
        None => 0,
    }
}

pub open spec fn select_next_spec(selection: Option<usize>, len: int) -> int {
    match selection {
        Some(i) => if i >= last_index(len) {
            last_index(len)
        } else {
            i + 1
        },
        None => 0,
    }
}

/// The tone of the success gauge for a percentage.
pub open spec fn gauge_tone_spec(percent: u16) -> Tone {
    if percent > 90 {
        Tone::Success
    } else if percent > 70 {
        Tone::Warning
    } else {
        Tone::Error
    }
}

pub open spec fn gauge_label_spec(percent: u16, total: usize, retries: usize) -> Seq<char> {
    dec(percent as nat) + "% ("@ + dec(total as nat) + " Requests / "@ + dec(retries as nat)
        + " Retries)"@
}

/// The tone of an engine's status.
pub open spec fn status_tone_spec(dash: Dashboard, status: Seq<char>) -> Tone {
    if has_substring(status, "Running"@) {
        Tone::Success
    } else {
        match dash {
            Dashboard::Rotation => Tone::Warning,
            Dashboard::Unified => if has_substring(status, "Bootstrapping"@) || has_substring(
                status,
                "Starting"@,
            ) {
                Tone::Warning
            } else {
                Tone::Error
            },
        }
    }
}

pub open spec fn is_failure_line(line: Seq<char>) -> bool {
    has_substring(line, "FAIL"@) || has_substring(line, "error"@)
}

pub open spec fn is_success_line(line: Seq<char>, with_ready: bool) -> bool {
    has_substring(line, "OK"@) || has_substring(line, "successfully"@) || (with_ready
        && has_substring(line, "ready"@))
}

/// Where a log line is shown.
#[derive(Debug, Clone, Copy, PartialEq, Eq, Structural)]
pub enum LogPane {
    /// The logs tab of the rotation dashboard.
    RotationLog,
    /// The activity feed on the unified dashboard's overview.
    ActivityFeed,
    /// The logs tab of the unified dashboard.
    DetailedLog,
}

/// The tone of a log line in a pane.
pub open spec fn log_tone_spec(pane: LogPane, line: Seq<char>) -> Tone {
    match pane {
        LogPane::RotationLog => if is_failure_line(line) {
            Tone::Error
        } else if is_success_line(line, false) {
            Tone::Success
        } else if has_substring(line, "Tor-"@) {
            Tone::Accent
        } else {
            Tone::Text
        },
        LogPane::ActivityFeed => if is_failure_line(line) {
            Tone::Error
        } else if is_success_line(line, true) {
            Tone::Success
        } else if has_substring(line, "DEBUG"@) {
            Tone::Muted
        } else {
            Tone::Text
        },
        LogPane::DetailedLog => if is_failure_line(line) {
            Tone::Error
        } else if is_success_line(line, true) {
            Tone::Success
        } else if has_substring(line, "DEBUG"@) {
            Tone::Muted
        } else if has_substring(line, "Tor-"@) {
            Tone::Accent
        } else {
            Tone::Text
        },
    }
}

/// A row of the engines table.
pub struct EngineRow {
    pub port: u16,
    pub label: String,
    pub status: String,
    pub status_tone: Tone,
    pub ip: String,
    pub ip_tone: Tone,
}

pub struct EngineRowView {
    pub port: u16,
    pub label: Seq<char>,
    pub status: Seq<char>,
    pub status_tone: Tone,
    pub ip: Seq<char>,
    pub ip_tone: Tone,
}

impl View for EngineRow {
    type V = EngineRowView;

    open spec fn view(&self) -> EngineRowView {
        EngineRowView {
            port: self.port,
            label: self.label@,
            status: self.status@,
            status_tone: self.status_tone,
            ip: self.ip@,
            ip_tone: self.ip_tone,
        }
    }
}

/// The row of an engine: `Tor-` and its port, its status, its address or
/// `Waiting...` until it has one.
pub open spec fn engine_row_spec(dash: Dashboard, port: u16, inst: TorInstanceView) -> EngineRowView {
    EngineRowView {
        port,
        label: "Tor-"@ + dec(port as nat),
        status: inst.status,
        status_tone: status_tone_spec(dash, inst.status),
        ip: match inst.ip {
            Some(ip) => ip,
            None => "Waiting..."@,
        },
        ip_tone: if inst.ip is Some {
            Tone::Success
        } else {
            Tone::Muted
        },
    }
}

/// A strictly increasing sequence.
pub open spec fn strictly_increasing(s: Seq<u16>) -> bool {
    forall|i: int, j: int| 0 <= i < j < s.len() ==> s[i] < s[j]
}

/// The success gauge: how far it is filled, its tone, its label.
pub struct GaugeView {
    pub fill: u16,
    pub tone: Tone,
    pub label: String,
}

/// What an event asks the dashboard to do: `q` quits, Tab and Right move to
/// the next tab, Left to the previous one, Up and Down (and the mouse wheel)
/// move the log selection; anything else, and keys that are not presses,
/// do nothing.
pub fn command_for(input: Input) -> (r: Command)
    ensures
        r == command_spec(input),
{
    match input {
        Input::Key { key, pressed } => {
            if !pressed {
                return Command::Ignore;
            }
            match key {
                Key::Char(c) => if c == 'q' {
                    Command::Quit
                } else {
                    Command::Ignore
                },
                Key::Tab => Command::NextTab,
                Key::Right => Command::NextTab,
                Key::Left => Command::PreviousTab,
                Key::Up => Command::SelectPrevious,
                Key::Down => Command::SelectNext,
                Key::Other => Command::Ignore,
            }
        },
        Input::ScrollUp => Command::SelectPrevious,
        Input::ScrollDown => Command::SelectNext,
        Input::Other => Command::Ignore,
    }
}

/// The tab after `tab`, wrapping around.
pub fn next_tab(tab: usize) -> (r: usize)
    requires
        tab < usize::MAX,
    ensures
        r == next_tab_spec(tab as int),
{
    (tab + 1) % TAB_COUNT
}

/// The tab before `tab`, stopping at the first.
pub fn previous_tab(tab: usize) -> (r: usize)
    ensures
        r == previous_tab_spec(tab as int),
{
    if tab == 0 {
        0
    } else {
        tab - 1
    }
}

/// The log selection after moving up.
pub fn select_previous(selection: Option<usize>) -> (r: usize)
    ensures
        r == select_previous_spec(selection),
{
    match selection {
        Some(i) => if i == 0 {
            0
        } else {
            i - 1
        },
        None => 0,
    }
}

/// The log selection after moving down in a list of `len` lines.
pub fn select_next(selection: Option<usize>, len: usize) -> (r: usize)
    ensures
        r == select_next_spec(selection, len as int),
{
    let last: usize = if len == 0 {
        0
    } else {
        len - 1
    };
    match selection {
        Some(i) => if i >= last {
            last
        } else {
            i + 1
        },
        None => 0,
    }
}

/// The success gauge for a percentage and the counters it summarises.
pub fn gauge_view(percent: u16, total: usize, retries: usize) -> (r: GaugeView)
    ensures
        r.fill == if percent < 100 {
            percent
        } else {
            100
        },
        r.tone == gauge_tone_spec(percent),
        r.label@ == gauge_label_spec(percent, total, retries),
{
    let tone = if percent > 90 {
        Tone::Success
    } else if percent > 70 {
        Tone::Warning
    } else {
        Tone::Error
    };
    let mut label = String::new();
    append_decimal(&mut label, percent as u64);
    label.append("% (");
    append_decimal(&mut label, total as u64);
    label.append(" Requests / ");
    append_decimal(&mut label, retries as u64);
    label.append(" Retries)");
    assert(label@ =~= gauge_label_spec(percent, total, retries));
    GaugeView {
        fill: if percent < 100 {
            percent
        } else {
            100
        },
        tone,
        label,
    }
}

/// The tone of an engine's status on a dashboard.
pub fn status_tone(dash: Dashboard, status: &str) -> (r: Tone)
    ensures
        r == status_tone_spec(dash, status@),
{
    if contains(status, "Running") {
        Tone::Success
    } else {
        match dash {
            Dashboard::Rotation => Tone::Warning,
            Dashboard::Unified => if contains(status, "Bootstrapping") || contains(
                status,
                "Starting",
            ) {
                Tone::Warning
            } else {
                Tone::Error
            },
        }
    }
}

/// The tone of a log line in a pane.
pub fn log_tone(pane: LogPane, line: &str) -> (r: Tone)
    ensures
        r == log_tone_spec(pane, line@),
{
    let failure = contains(line, "FAIL") || contains(line, "error");
    if failure {
        return Tone::Error;
    }
    let with_ready = match pane {
        LogPane::RotationLog => false,
        _ => true,
    };
    if contains(line, "OK") || contains(line, "successfully") || (with_ready && contains(
        line,
        "ready",
    )) {
        return Tone::Success;
    }
    match pane {
        LogPane::RotationLog => if contains(line, "Tor-") {
            Tone::Accent
        } else {
            Tone::Text
        },
        LogPane::ActivityFeed => if contains(line, "DEBUG") {
            Tone::Muted
        } else {
            Tone::Text
        },
        LogPane::DetailedLog => if contains(line, "DEBUG") {
            Tone::Muted
        } else if contains(line, "Tor-") {
            Tone::Accent
        } else {
            Tone::Text
        },
    }
}

/// How many log lines fit in the activity feed: its height less the two
/// border rows.
pub open spec fn feed_rows(height: u16) -> int {
    if height >= 2 {
        height - 2
    } else {
        0
    }
}

/// Where the activity feed starts: it shows the newest lines that fit in
/// an area of this height.
pub fn feed_start(len: usize, height: u16) -> (r: usize)
    ensures
        r == if feed_rows(height) < len {
            len - feed_rows(height)
        } else {
            0
        },
{
    let shown: usize = if height >= 2 {
        (height - 2) as usize
    } else {
        0
    };
    if shown < len {
        len - shown
    } else {
        0
    }
}

/// Inserts `x` into a strictly increasing vector, unless it is there.
fn insert_sorted(v: &mut Vec<u16>, x: u16)
    requires
        strictly_increasing(old(v)@),
    ensures
        strictly_increasing(final(v)@),
        final(v)@.to_set() == old(v)@.to_set().insert(x),
{
    let mut i: usize = 0;
    while i < v.len() && v[i] < x
        invariant
            i <= v@.len(),
            v@ == old(v)@,
            strictly_increasing(v@),
            forall|j: int| 0 <= j < i ==> v@[j] < x,
        decreases v@.len() - i,
    {
        i += 1;
    }
    if i < v.len() && v[i] == x {
        assert(v@.to_set().insert(x) =~= v@.to_set()) by {
            assert(v@.contains(x)) by {
                assert(v@[i as int] == x);
            }
        }
        return;
    }
    let ghost before = v@;
    v.insert(i, x);
    assert forall|a: int, b: int| 0 <= a < b < v@.len() implies v@[a] < v@[b] by {
        if b < i {
        } else if b == i {
        } else if a < i {
            assert(v@[b] == before[b - 1]);
            assert(before[i as int] > x);
            if b - 1 > i {
                assert(before[i as int] < before[b - 1]);
            }
        } else if a == i {
            assert(v@[b] == before[b - 1]);
            if b - 1 > i {
                assert(before[i as int] < before[b - 1]);
            }
        } else {
            assert(v@[a] == before[a - 1]);
            assert(v@[b] == before[b - 1]);
        }
    }
    assert forall|y: u16| #[trigger] v@.to_set().contains(y) == before.to_set().insert(x).contains(y) by {
        if v@.contains(y) {
            let k: int = choose|k: int| 0 <= k < v@.len() && v@[k] == y;
            if k < i {
                assert(before[k] == y);
            } else if k > i {
                assert(before[k - 1] == y);
            }
        }
        if before.contains(y) {
            let k: int = choose|k: int| 0 <= k < before.len() && before[k] == y;
            if k < i {
                assert(v@[k] == y);
            } else {
                assert(v@[k + 1] == y);
            }
        }
        if y == x {
            assert(v@[i as int] == x);
        }
    }
    assert(v@.to_set() =~= before.to_set().insert(x));
}

/// Pushing onto a sequence adds the element to its set.
proof fn lemma_push_to_set(s: Seq<u16>, x: u16)
    ensures
        s.push(x).to_set() == s.to_set().insert(x),
{
    assert forall|y: u16| #[trigger] s.push(x).to_set().contains(y) == s.to_set().insert(x).contains(y) by {
        if s.push(x).contains(y) {
            let k: int = choose|k: int| 0 <= k < s.push(x).len() && s.push(x)[k] == y;
            if k < s.len() {
                assert(s[k] == y);
            }
        }
        if s.contains(y) {
            let k: int = choose|k: int| 0 <= k < s.len() && s[k] == y;
            assert(s.push(x)[k] == y);
        }
        if y == x {
            assert(s.push(x)[s.len() as int] == x);
        }
    }
    assert(s.push(x).to_set() =~= s.to_set().insert(x));
}

impl AppState {
    /// Carries out a command: the tab moves, the log selection moves within
    /// the log, or the loop is told to quit.
    pub fn apply_command(&mut self, command: Command, selection: Option<usize>) -> (r: UiStep)
        requires
            command == Command::NextTab ==> old(self).active_tab < usize::MAX,
        ensures
            r.quit == (command == Command::Quit),
            final(self).active_tab == match command {
                Command::NextTab => next_tab_spec(old(self).active_tab as int),
                Command::PreviousTab => previous_tab_spec(old(self).active_tab as int),
                _ => old(self).active_tab as int,
            },
            r.selection == match command {
                Command::SelectPrevious => Some(select_previous_spec(selection) as usize),
                Command::SelectNext => Some(
                    select_next_spec(selection, old(self).logs@.len() as int) as usize,
                ),
                _ => selection,
            },
            final(self).proxy_pools == old(self).proxy_pools,
            final(self).active_pool_index == old(self).active_pool_index,
            final(self).total_requests == old(self).total_requests,
            final(self).total_retries == old(self).total_retries,
            final(self).last_error == old(self).last_error,
            final(self).logs == old(self).logs,
            final(self).warp_instances == old(self).warp_instances,
    {
        match command {
            Command::Quit => UiStep { quit: true, selection },
            Command::NextTab => {
                self.active_tab = next_tab(self.active_tab);
                UiStep { quit: false, selection }
            },
            Command::PreviousTab => {
                self.active_tab = previous_tab(self.active_tab);
                UiStep { quit: false, selection }
            },
            Command::SelectPrevious => UiStep {
                quit: false,
                selection: Some(select_previous(selection)),
            },
            Command::SelectNext => UiStep {
                quit: false,
                selection: Some(select_next(selection, self.logs.len())),
            },
            Command::Ignore => UiStep { quit: false, selection },
        }
    }

    /// The name of the active pool, or `None` when there is no pool.
    pub fn active_pool_label(&self) -> (r: String)
        requires
            self.proxy_pools@.len() == 0 || self.active_pool_index < self.proxy_pools@.len(),
        ensures
            r@ == if self.proxy_pools@.len() == 0 {
                "None"@
            } else {
                self.proxy_pools@[self.active_pool_index as int].name@
            },
    {
        if self.proxy_pools.len() == 0 {
            String::from_str("None")
        } else {
            self.proxy_pools[self.active_pool_index].name.clone()
        }
    }

    /// The ports of the engines, in increasing order.
    pub fn engine_ports(&self) -> (r: Vec<u16>)
        ensures
            strictly_increasing(r@),
            r@.to_set() == self.warp_instances@.dom(),
    {
        let mut ports: Vec<u16> = Vec::new();
        let keys = self.warp_instances.keys();
        let ghost all = keys.remaining();
        let ghost mut seen: int = 0;
        for k in it: keys
            invariant
                strictly_increasing(ports@),
                all == it.seq(),
                seen == it.index(),
                ports@.to_set() == it.seq().take(it.index()).unref().to_set(),
        {
            insert_sorted(&mut ports, *k);
            proof {
                let i: int = it.index();
                assert(it.seq().take(i + 1).unref() =~= it.seq().take(i).unref().push(*k));
                lemma_push_to_set(it.seq().take(i).unref(), *k);
                seen = seen + 1;
            }
        }
        proof {
            assert(seen == all.len());
            assert(all.take(seen) =~= all);
        }
        ports
    }

    /// The rows of the engines table, by increasing port.
    pub fn engine_rows(&self, dash: Dashboard) -> (r: Vec<EngineRow>)
        ensures
            r@.len() == self.warp_instances@.dom().len(),
            strictly_increasing(r@.map_values(|row: EngineRow| row.port)),
            r@.map_values(|row: EngineRow| row.port).to_set() == self.warp_instances@.dom(),
            forall|i: int|
                0 <= i < r@.len() ==> #[trigger] r@[i]@ == engine_row_spec(
                    dash,
                    r@[i].port,
                    self.instances()[r@[i].port],
                ),
    {
        let ports = self.engine_ports();
        let mut rows: Vec<EngineRow> = Vec::new();
        for i in 0..ports.len()
            invariant
                strictly_increasing(ports@),
                ports@.to_set() == self.warp_instances@.dom(),
                rows@.len() == i,
                forall|j: int| 0 <= j < i ==> #[trigger] rows@[j].port == ports@[j],
                forall|j: int|
                    0 <= j < i ==> #[trigger] rows@[j]@ == engine_row_spec(
                        dash,
                        rows@[j].port,
                        self.instances()[rows@[j].port],
                    ),
        {
            let port: u16 = ports[i];
            assert(ports@.to_set().contains(port));
            match self.warp_instances.get(&port) {
                Some(inst) => {
                    let mut label = String::from_str("Tor-");
                    append_decimal(&mut label, port as u64);
                    let ip = match &inst.ip {
                        Some(ip) => ip.clone(),
                        None => String::from_str("Waiting..."),
                    };
                    let row = EngineRow {
                        port,
                        label,
                        status: inst.status.clone(),
                        status_tone: status_tone(dash, inst.status.as_str()),
                        ip,
                        ip_tone: if inst.ip.is_some() {
                            Tone::Success
                        } else {
                            Tone::Muted
                        },
                    };
                    assert(row@ == engine_row_spec(dash, port, self.instances()[port]));
                    rows.push(row);
                },
                None => {
                    assert(false);
                },
            }
        }
        proof {
            assert(rows@.map_values(|row: EngineRow| row.port) =~= ports@);
            ports@.unique_seq_to_set();
        }
        rows
    }
}


/// The tab stays one of the two: moving forward wraps round, moving back
/// stops at the first, and two steps forward come back.
pub proof fn lemma_tabs_stay(tab: int)
    requires
        0 <= tab < TAB_COUNT,
    ensures
        0 <= next_tab_spec(tab) < TAB_COUNT,
        0 <= previous_tab_spec(tab) < TAB_COUNT,
        next_tab_spec(next_tab_spec(tab)) == tab,
        previous_tab_spec(next_tab_spec(0)) == 0,
{
}

/// The log selection stays on a line of the log: from any line (or none),
/// moving up or down lands on a line, and moving down at the last line
/// stays there.
pub proof fn lemma_selection_stays_in_log(selection: Option<usize>, len: int)
    requires
        len > 0,
        selection matches Some(i) ==> i < len,
    ensures
        0 <= select_next_spec(selection, len) < len,
        0 <= select_previous_spec(selection) < len,
        selection matches Some(i) && i == len - 1 ==> select_next_spec(selection, len) == len - 1,
{
}


/// Only key presses act: a repeat or a release of any key does nothing. A
/// press of `q` quits, Tab and Right move to the next tab, Left to the
/// previous one, Up and Down move the log selection, as the mouse wheel
/// does; other keys and events do nothing.
pub proof fn lemma_command_rules(key: Key, pressed: bool)
    ensures
        !pressed ==> command_spec(Input::Key { key, pressed }) == Command::Ignore,
        pressed ==> (command_spec(Input::Key { key, pressed }) == Command::Quit <==> key
            == Key::Char('q')),
        pressed && (key == Key::Tab || key == Key::Right) ==> command_spec(
            Input::Key { key, pressed },
        ) == Command::NextTab,
        pressed && key == Key::Left ==> command_spec(Input::Key { key, pressed })
            == Command::PreviousTab,
        pressed && key == Key::Up ==> command_spec(Input::Key { key, pressed })
            == Command::SelectPrevious,
        pressed && key == Key::Down ==> command_spec(Input::Key { key, pressed })
            == Command::SelectNext,
        pressed && key == Key::Other ==> command_spec(Input::Key { key, pressed })
            == Command::Ignore,
        (key matches Key::Char(c) && c != 'q') ==> command_spec(Input::Key { key, pressed })
            == Command::Ignore,
        command_spec(Input::ScrollUp) == Command::SelectPrevious,
        command_spec(Input::ScrollDown) == Command::SelectNext,
        command_spec(Input::Other) == Command::Ignore,
{
}

/// How a log line is coloured: a line mentioning `FAIL` or `error` is an
/// error everywhere; otherwise one mentioning `OK` or `successfully` is a
/// success everywhere, and one mentioning `ready` is a success on the
/// unified dashboard; `DEBUG` lines are muted there; lines about a Tor
/// instance are accented in the logs tabs; the rest are plain text.
pub proof fn lemma_log_tone_rules(pane: LogPane, line: Seq<char>)
    ensures
        (has_substring(line, "FAIL"@) || has_substring(line, "error"@)) ==> log_tone_spec(
            pane,
            line,
        ) == Tone::Error,
        !has_substring(line, "FAIL"@) && !has_substring(line, "error"@) && (has_substring(
            line,
            "OK"@,
        ) || has_substring(line, "successfully"@)) ==> log_tone_spec(pane, line) == Tone::Success,
        pane != LogPane::RotationLog && !has_substring(line, "FAIL"@) && !has_substring(
            line,
            "error"@,
        ) && has_substring(line, "ready"@) ==> log_tone_spec(pane, line) == Tone::Success,
        log_tone_spec(pane, line) == Tone::Muted ==> pane != LogPane::RotationLog
            && has_substring(line, "DEBUG"@),
        log_tone_spec(pane, line) == Tone::Accent ==> pane != LogPane::ActivityFeed
            && has_substring(line, "Tor-"@),
        log_tone_spec(pane, line) != Tone::Primary && log_tone_spec(pane, line) != Tone::Secondary
            && log_tone_spec(pane, line) != Tone::Warning,
        !has_substring(line, "FAIL"@) && !has_substring(line, "error"@) && !has_substring(
            line,
            "OK"@,
        ) && !has_substring(line, "successfully"@) && !has_substring(line, "ready"@)
            && !has_substring(line, "DEBUG"@) && !has_substring(line, "Tor-"@) ==> log_tone_spec(
            pane,
            line,
        ) == Tone::Text,
{
}

/// An engine's row shows the engine as it is: its port as `Tor-` and the
/// port, its own status text whatever it is and whether or not it has an
/// address, and its address, or `Waiting...` until it has one; the address
/// is a success once known and muted before.
pub proof fn lemma_engine_row_shows_engine(dash: Dashboard, port: u16, inst: TorInstanceView)
    ensures
        engine_row_spec(dash, port, inst).port == port,
        engine_row_spec(dash, port, inst).label == "Tor-"@ + dec(port as nat),
        engine_row_spec(dash, port, inst).status == inst.status,
        engine_row_spec(dash, port, inst).status_tone == status_tone_spec(dash, inst.status),
        inst.ip matches Some(ip) ==> engine_row_spec(dash, port, inst).ip == ip
            && engine_row_spec(dash, port, inst).ip_tone == Tone::Success,
        inst.ip is None ==> engine_row_spec(dash, port, inst).ip == "Waiting..."@
            && engine_row_spec(dash, port, inst).ip_tone == Tone::Muted,
{
}

/// A running engine is a success on both dashboards. Any other is a
/// warning on the rotation dashboard; on the unified one it is a warning
/// while starting or bootstrapping and an error otherwise.
pub proof fn lemma_status_tone_rules(dash: Dashboard, status: Seq<char>)
    ensures
        has_substring(status, "Running"@) ==> status_tone_spec(dash, status) == Tone::Success,
        !has_substring(status, "Running"@) && dash == Dashboard::Rotation ==> status_tone_spec(
            dash,
            status,
        ) == Tone::Warning,
        !has_substring(status, "Running"@) && dash == Dashboard::Unified && (has_substring(
            status,
            "Starting"@,
        ) || has_substring(status, "Bootstrapping"@)) ==> status_tone_spec(dash, status)
            == Tone::Warning,
        !has_substring(status, "Running"@) && dash == Dashboard::Unified && !has_substring(
            status,
            "Starting"@,
        ) && !has_substring(status, "Bootstrapping"@) ==> status_tone_spec(dash, status)
            == Tone::Error,
{
}

/// The gauge is a success above 90 %, a warning above 70 %, an error
/// otherwise; it never fills past 100 % and its label names the
/// percentage and both counters.
pub proof fn lemma_gauge_rules(percent: u16, total: usize, retries: usize)
    ensures
        percent > 90 ==> gauge_tone_spec(percent) == Tone::Success,
        70 < percent <= 90 ==> gauge_tone_spec(percent) == Tone::Warning,
        percent <= 70 ==> gauge_tone_spec(percent) == Tone::Error,
        gauge_label_spec(percent, total, retries) == dec(percent as nat) + "% ("@ + dec(
            total as nat,
        ) + " Requests / "@ + dec(retries as nat) + " Retries)"@,
{
}

/// Moving the selection never skips a line: up goes one line back (staying
/// on the first), down one line on (staying on the last), and with no
/// selection either starts at the first line.
pub proof fn lemma_selection_moves_by_one(selection: Option<usize>, len: int)
    requires
        len > 0,
    ensures
        selection matches Some(i) ==> (i > 0 ==> select_previous_spec(selection) == i - 1),
        selection matches Some(i) ==> (i == 0 ==> select_previous_spec(selection) == 0),
        selection matches Some(i) ==> (i + 1 < len ==> select_next_spec(selection, len) == i + 1),
        selection matches Some(i) ==> (i + 1 >= len ==> select_next_spec(selection, len) == len
            - 1),
        selection is None ==> select_previous_spec(selection) == 0 && select_next_spec(
            selection,
            len,
        ) == 0,
{
}


/// The activity feed shows the newest lines that fit between its borders:
/// all of them when they fit, else exactly as many as the area holds
/// (its height less two), ending with the newest.
pub proof fn lemma_feed_shows_newest(len: int, height: u16)
    requires
        0 <= len,
    ensures
        feed_rows(height) >= len ==> (if feed_rows(height) < len {
            len - feed_rows(height)
        } else {
            0
        }) == 0,
        height >= 2 && len > height - 2 ==> (if feed_rows(height) < len {
            len - feed_rows(height)
        } else {
            0
        }) == len - (height - 2),
        height < 2 ==> (if feed_rows(height) < len {
            len - feed_rows(height)
        } else {
            0
        }) == len,
{
}

} // verus!
