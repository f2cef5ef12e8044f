//! The state of the viewer: its tabs with what they have loaded, the selection, the status text.

use crate::channel::{ask, unbroken, LookV, Received};
use crate::codebuild::{CodeBuildEvent, CodeBuildEventV, CodeBuildRecord, CodeBuildRecordV};
use crate::config::{Config, ConfigV, Tab, TabV};
use crate::log_tail::{
    line_of, LineSeverity, LogLine, LogTailEvent, LogTailEventV, LogTailPane, LogTailPaneV,
};
use crate::text::{copy_text, decimal, decimal_text, same_text};
use std::sync::mpsc::Receiver;
use std::time::Instant;
use vstd::prelude::*;
use vstd::string::*;

verus! {

/// What a tab shows.
#[derive(Debug, Clone, Copy, PartialEq, Eq, Structural)]
pub enum TabKind {
    Builds,
    Logs,
}

/// Why a configured tab cannot be opened.
#[derive(Debug, Clone)]
pub enum ResolveError {
    UnknownKind(String),
    MissingProject,
    MissingLogGroup,
}

/// What a `ResolveError` holds.
#[verifier::ext_equal]
pub enum ResolveErrorV {
    UnknownKind(Seq<char>),
    MissingProject,
    MissingLogGroup,
}

impl View for ResolveError {
    type V = ResolveErrorV;

    open spec fn view(&self) -> ResolveErrorV {
        match self {
            ResolveError::UnknownKind(kind) => ResolveErrorV::UnknownKind(kind@),
            ResolveError::MissingProject => ResolveErrorV::MissingProject,
            ResolveError::MissingLogGroup => ResolveErrorV::MissingLogGroup,
        }
    }
}

impl ResolveErrorV {
    /// The sentence shown for this error.
    pub open spec fn message(self) -> Seq<char> {
        match self {
            ResolveErrorV::UnknownKind(kind) => "unknown tab kind: "@ + kind,
            ResolveErrorV::MissingProject => "`project` required for kind `builds`"@,
            ResolveErrorV::MissingLogGroup => "`log_group` required for kind `logs`"@,
        }
    }
}

impl ResolveError {
    /// The sentence shown for this error.
    pub fn message(&self) -> (text: String)
        ensures
            text@ == self@.message(),
    {
        match self {
            ResolveError::UnknownKind(kind) => "unknown tab kind: ".to_string().concat(
                kind.as_str(),
            ),
            ResolveError::MissingProject => "`project` required for kind `builds`".to_string(),
            ResolveError::MissingLogGroup => "`log_group` required for kind `logs`".to_string(),
        }
    }
}

/// The kind that `s` names.
pub open spec fn kind_named(s: Seq<char>) -> Option<TabKind> {
    if s == "builds"@ {
        Some(TabKind::Builds)
    } else if s == "logs"@ {
        Some(TabKind::Logs)
    } else {
        None
    }
}

impl TabKind {
    /// The kind that `s` names.
    pub fn from_str(s: &str) -> (parsed: Result<TabKind, ResolveError>)
        ensures
            match parsed {
                Ok(kind) => kind_named(s@) == Some(kind),
                Err(e) => kind_named(s@) is None && e@ == ResolveErrorV::UnknownKind(s@),
            },
    {
        if same_text(s, "builds") {
            Ok(TabKind::Builds)
        } else if same_text(s, "logs") {
            Ok(TabKind::Logs)
        } else {
            Err(ResolveError::UnknownKind(s.to_string()))
        }
    }
}

/// What a tab is pointed at.
#[derive(Debug, Clone)]
pub struct TabSpec {
    pub kind: TabKind,
    pub region: Option<String>,
    pub project: Option<String>,
    pub log_group: Option<String>,
    pub log_stream: Option<String>,
}

/// What a `TabSpec` holds.
#[verifier::ext_equal]
pub struct TabSpecV {
    pub kind: TabKind,
    pub region: Option<Seq<char>>,
    pub project: Option<Seq<char>>,
    pub log_group: Option<Seq<char>>,
    pub log_stream: Option<Seq<char>>,
}

impl View for TabSpec {
    type V = TabSpecV;

    open spec fn view(&self) -> TabSpecV {
        TabSpecV {
            kind: self.kind,
            region: self.region.deep_view(),
            project: self.project.deep_view(),
            log_group: self.log_group.deep_view(),
            log_stream: self.log_stream.deep_view(),
        }
    }
}

/// `first` where there is one, else `second`.
pub open spec fn or_else<T>(first: Option<T>, second: Option<T>) -> Option<T> {
    match first {
        Some(x) => Some(x),
        None => second,
    }
}

/// What the configured tab `t` is pointed at, or why it cannot be opened.
pub open spec fn resolved(t: TabV, default_region: Option<Seq<char>>) -> Result<
    TabSpecV,
    ResolveErrorV,
> {
    let region = or_else(t.region, default_region);
    match kind_named(t.kind) {
        None => Err(ResolveErrorV::UnknownKind(t.kind)),
        Some(TabKind::Builds) => match t.project {
            None => Err(ResolveErrorV::MissingProject),
            Some(project) => Ok(
                TabSpecV {
                    kind: TabKind::Builds,
                    region,
                    project: Some(project),
                    log_group: None,
                    log_stream: None,
                },
            ),
        },
        Some(TabKind::Logs) => match t.log_group {
            None => Err(ResolveErrorV::MissingLogGroup),
            Some(log_group) => Ok(
                TabSpecV {
                    kind: TabKind::Logs,
                    region,
                    project: None,
                    log_group: Some(log_group),
                    log_stream: t.log_stream,
                },
            ),
        },
    }
}

impl TabSpec {
    /// What the configured tab `t` is pointed at. Its own region goes before `default_region`.
    pub fn resolve(t: &Tab, default_region: Option<&str>) -> (outcome: Result<
        TabSpec,
        ResolveError,
    >)
        ensures
            match outcome {
                Ok(spec) => resolved(t@, default_region.deep_view()) == Ok::<_, ResolveErrorV>(
                    spec@,
                ),
                Err(e) => resolved(t@, default_region.deep_view()) == Err::<TabSpecV, _>(e@),
            },
    {
        let kind = match TabKind::from_str(t.kind.as_str()) {
            Ok(kind) => kind,
            Err(e) => {
                return Err(e);
            },
        };
        let region: Option<String> = match &t.region {
            Some(own) => Some(own.clone()),
            None => match default_region {
                Some(default) => Some(default.to_string()),
                None => None,
            },
        };
        match kind {
            TabKind::Builds => match &t.project {
                None => Err(ResolveError::MissingProject),
                Some(project) => Ok(
                    TabSpec {
                        kind,
                        region,
                        project: Some(project.clone()),
                        log_group: None,
                        log_stream: None,
                    },
                ),
            },
            TabKind::Logs => match &t.log_group {
                None => Err(ResolveError::MissingLogGroup),
                Some(log_group) => Ok(
                    TabSpec {
                        kind,
                        region,
                        project: None,
                        log_group: Some(log_group.clone()),
                        log_stream: copy_text(&t.log_stream),
                    },
                ),
            },
        }
    }
}

/// What a tab has loaded.
pub enum TabData {
    Builds(BuildsTab),
    Logs(LogsTab),
}

/// The runs of a project.
pub struct BuildsTab {
    pub items: Vec<CodeBuildRecord>,
    /// The highlighted run.
    pub selected: usize,
    pub last_error: Option<String>,
    /// Whether a fetch is under way.
    pub loading: bool,
    /// Where the fetch under way reports.
    pub pending: Option<Receiver<CodeBuildEvent>>,
    pub last_fetched: Option<Instant>,
}

/// A followed log, once its tail is running.
pub struct LogsTab {
    pub pane: Option<LogTailPane>,
    /// Where the tail reports.
    pub pending: Option<Receiver<LogTailEvent>>,
    pub last_error: Option<String>,
}

/// What a `TabData` holds.
#[verifier::ext_equal]
pub enum TabDataV {
    Builds(BuildsTabV),
    Logs(LogsTabV),
}

/// What a `BuildsTab` holds.
#[verifier::ext_equal]
pub struct BuildsTabV {
    pub items: Seq<CodeBuildRecordV>,
    pub selected: nat,
    pub last_error: Option<Seq<char>>,
    pub loading: bool,
    pub pending: Option<Receiver<CodeBuildEvent>>,
    pub last_fetched: Option<Instant>,
}

/// What a `LogsTab` holds.
#[verifier::ext_equal]
pub struct LogsTabV {
    pub pane: Option<LogTailPaneV>,
    pub pending: Option<Receiver<LogTailEvent>>,
    pub last_error: Option<Seq<char>>,
}

impl View for BuildsTab {
    type V = BuildsTabV;

    open spec fn view(&self) -> BuildsTabV {
        BuildsTabV {
            items: self.items.deep_view(),
            selected: self.selected as nat,
            last_error: self.last_error.deep_view(),
            loading: self.loading,
            pending: self.pending,
            last_fetched: self.last_fetched,
        }
    }
}

impl View for LogsTab {
    type V = LogsTabV;

    open spec fn view(&self) -> LogsTabV {
        LogsTabV {
            pane: self.pane.deep_view(),
            pending: self.pending,
            last_error: self.last_error.deep_view(),
        }
    }
}

impl View for TabData {
    type V = TabDataV;

    open spec fn view(&self) -> TabDataV {
        match self {
            TabData::Builds(b) => TabDataV::Builds(b@),
            TabData::Logs(l) => TabDataV::Logs(l@),
        }
    }
}

/// A tab of the given kind that has loaded nothing yet.
pub open spec fn empty_data(kind: TabKind) -> TabDataV {
    match kind {
        TabKind::Builds => TabDataV::Builds(
            BuildsTabV {
                items: Seq::empty(),
                selected: 0,
                last_error: None,
                loading: false,
                pending: None,
                last_fetched: None,
            },
        ),
        TabKind::Logs => TabDataV::Logs(
            LogsTabV { pane: None, pending: None, last_error: None },
        ),
    }
}

impl TabData {
    /// A tab of the given kind that has loaded nothing yet.
    pub fn empty_for(kind: TabKind) -> (data: TabData)
        ensures
            data@ == empty_data(kind),
    {
        let data = match kind {
            TabKind::Builds => TabData::Builds(
                BuildsTab {
                    items: Vec::new(),
                    selected: 0,
                    last_error: None,
                    loading: false,
                    pending: None,
                    last_fetched: None,
                },
            ),
            TabKind::Logs => TabData::Logs(LogsTab { pane: None, pending: None, last_error: None }),
        };
        assert(data@ =~~= empty_data(kind));
        data
    }
}

/// `x` as the signed number with the same bits.
pub open spec fn signed(x: nat) -> int {
    if x <= isize::MAX {
        x as int
    } else {
        x - usize::MAX - 1
    }
}

/// `x` moved into the range from `low` to `high`.
pub open spec fn clamped(x: int, low: int, high: int) -> int {
    if x < low {
        low
    } else if x > high {
        high
    } else {
        x
    }
}

impl BuildsTabV {
    /// The tab after the highlight has moved by `delta` runs.
    pub open spec fn moved(self, delta: int) -> BuildsTabV {
        if self.items.len() == 0 {
            self
        } else {
            BuildsTabV {
                selected: clamped(signed(self.selected) + delta, 0, self.items.len() - 1) as nat,
                ..self
            }
        }
    }

    /// Moving by `delta` stays within the machine's signed numbers.
    pub open spec fn can_move(self, delta: int) -> bool {
        self.items.len() > 0 ==> isize::MIN <= signed(self.selected) + delta <= isize::MAX
    }

    /// The tab after `event`, taken at `now`.
    pub open spec fn after(self, event: CodeBuildEventV, now: Instant) -> BuildsTabV {
        match event {
            CodeBuildEventV::Builds(builds) => BuildsTabV {
                items: builds,
                selected: if self.selected < builds.len() {
                    self.selected
                } else if builds.len() == 0 {
                    0
                } else {
                    (builds.len() - 1) as nat
                },
                last_error: None,
                loading: false,
                last_fetched: Some(now),
                ..self
            },
            CodeBuildEventV::Failed(reason) => BuildsTabV {
                last_error: Some(reason),
                loading: false,
                ..self
            },
        }
    }

    /// The tab once the fetch that reports on `pending` has begun.
    pub open spec fn fetching(self, pending: Receiver<CodeBuildEvent>) -> BuildsTabV {
        BuildsTabV { loading: true, last_error: None, pending: Some(pending), ..self }
    }
}

/// The status text after `event` in the tab `name`.
pub open spec fn fetch_status(name: Seq<char>, event: CodeBuildEventV) -> Seq<char> {
    match event {
        CodeBuildEventV::Builds(builds) => name + " · "@ + decimal(builds.len()) + " builds"@,
        CodeBuildEventV::Failed(reason) => "error: "@ + reason,
    }
}

impl LogsTabV {
    /// The tab after `event`.
    pub open spec fn after(self, event: LogTailEventV) -> LogsTabV {
        match event {
            LogTailEventV::Line(text) => LogsTabV {
                pane: match self.pane {
                    Some(pane) => Some(pane.pushed(line_of(text))),
                    None => None,
                },
                ..self
            },
            LogTailEventV::Failed(reason) => LogsTabV { last_error: Some(reason), ..self },
            LogTailEventV::Exited(_) => self,
        }
    }

    /// Whether `event` is news: a line that no pane takes is not.
    pub open spec fn news(self, event: LogTailEventV) -> bool {
        event is Line ==> self.pane is Some
    }
}

/// Whether a tail reports nothing more after `event`.
pub open spec fn last_words(event: LogTailEventV) -> bool {
    !(event is Line)
}

impl BuildsTab {
    /// Moves the highlight by `delta` runs, as far as the first or the last.
    pub fn move_by(&mut self, delta: isize)
        requires
            old(self)@.can_move(delta as int),
        ensures
            final(self)@ == old(self)@.moved(delta as int),
    {
        if self.items.len() == 0 {
            return;
        }
        let last: i128 = self.items.len() as i128 - 1;
        let from: i128 = if self.selected <= isize::MAX as usize {
            self.selected as i128
        } else {
            self.selected as i128 - usize::MAX as i128 - 1
        };
        let to: i128 = from + delta as i128;
        self.selected = if to < 0 {
            0
        } else if to > last {
            last as usize
        } else {
            to as usize
        };
    }

    /// Takes in what the fetch of the tab `name` reports at `now`. The status text is returned.
    pub fn take_in(&mut self, event: CodeBuildEvent, now: Instant, name: &str) -> (status: String)
        ensures
            final(self)@ == old(self)@.after(event@, now),
            status@ == fetch_status(name@, event@),
    {
        match event {
            CodeBuildEvent::Builds(builds) => {
                let n: usize = builds.len();
                self.items = builds;
                self.last_error = None;
                self.loading = false;
                self.last_fetched = Some(now);
                if self.selected >= self.items.len() {
                    self.selected = self.items.len().saturating_sub(1);
                }
                name.to_string().concat(" · ").concat(decimal_text(n as u64).as_str()).concat(
                    " builds",
                )
            },
            CodeBuildEvent::Failed(reason) => {
                let status = "error: ".to_string().concat(reason.as_str());
                self.last_error = Some(reason);
                self.loading = false;
                status
            },
        }
    }
}

/// What a log tab makes of one report of its tail.
pub struct TailNews {
    /// Whether anything changed.
    pub news: bool,
    /// Whether the tail reports nothing more.
    pub last: bool,
    /// A new status text.
    pub status: Option<String>,
}

impl LogsTab {
    /// Takes in what the tail reports.
    pub fn take_in(&mut self, event: LogTailEvent) -> (outcome: TailNews)
        ensures
            final(self)@ == old(self)@.after(event@),
            outcome.news == old(self)@.news(event@),
            outcome.last == last_words(event@),
            outcome.status.deep_view() == (match event@ {
                LogTailEventV::Failed(reason) => Some("error: "@ + reason),
                _ => None,
            }),
    {
        match event {
            LogTailEvent::Line(text) => {
                let news: bool = match &mut self.pane {
                    Some(pane) => {
                        let severity = LineSeverity::classify(text.as_str());
                        pane.push(LogLine { text, severity });
                        true
                    },
                    None => false,
                };
                TailNews { news, last: false, status: None }
            },
            LogTailEvent::Failed(reason) => {
                let status = "error: ".to_string().concat(reason.as_str());
                self.last_error = Some(reason);
                TailNews { news: true, last: true, status: Some(status) }
            },
            LogTailEvent::Exited(_) => TailNews { news: true, last: true, status: None },
        }
    }
}

/// One tab.
pub struct TabState {
    pub name: String,
    pub spec: TabSpec,
    pub data: TabData,
}

/// What a `TabState` holds.
#[verifier::ext_equal]
pub struct TabStateV {
    pub name: Seq<char>,
    pub spec: TabSpecV,
    pub data: TabDataV,
}

impl View for TabState {
    type V = TabStateV;

    open spec fn view(&self) -> TabStateV {
        TabStateV { name: self.name@, spec: self.spec@, data: self.data@ }
    }
}

impl DeepView for TabState {
    type V = TabStateV;

    open spec fn deep_view(&self) -> TabStateV {
        self@
    }
}

/// The viewer.
pub struct App {
    pub cfg: Config,
    pub tabs: Vec<TabState>,
    pub active_tab: usize,
    pub status: String,
}

/// What an `App` holds.
#[verifier::ext_equal]
pub struct AppV {
    pub cfg: ConfigV,
    pub tabs: Seq<TabStateV>,
    pub active_tab: usize,
    pub status: Seq<char>,
}

impl View for App {
    type V = AppV;

    open spec fn view(&self) -> AppV {
        AppV {
            cfg: self.cfg@,
            tabs: self.tabs.deep_view(),
            active_tab: self.active_tab,
            status: self.status@,
        }
    }
}

impl AppV {
    /// The active tab is one of the tabs.
    pub open spec fn in_range(self) -> bool {
        self.active_tab < self.tabs.len()
    }

    /// The active tab.
    pub open spec fn active(self) -> TabStateV {
        self.tabs[self.active_tab as int]
    }

    /// The viewer with other data in its active tab.
    pub open spec fn with_active_data(self, data: TabDataV) -> AppV {
        AppV {
            tabs: self.tabs.update(self.active_tab as int, TabStateV { data, ..self.active() }),
            ..self
        }
    }
}

impl App {
    /// The active tab.
    pub fn active(&self) -> (tab: &TabState)
        requires
            self@.in_range(),
        ensures
            tab@ == self@.active(),
            *tab == self.tabs[self.active_tab as int],
    {
        &self.tabs[self.active_tab]
    }

    /// The active tab, to be changed. The rest of the viewer stays as it is.
    pub fn active_mut(&mut self) -> (tab: &mut TabState)
        requires
            old(self)@.in_range(),
        ensures
            *tab == old(self).tabs[old(self).active_tab as int],
            tab@ == old(self)@.active(),
            final(self)@ == (AppV {
                tabs: old(self)@.tabs.update(old(self).active_tab as int, final(tab)@),
                ..old(self)@
            }),
    {
        let i: usize = self.active_tab;
        let tab = &mut self.tabs[i];
        assert(after_borrow(self).tabs.deep_view() =~= old(self)@.tabs.update(i as int, final(tab)@));
        tab
    }
}

/// Background work that the viewer asks for.
#[derive(Debug)]
pub enum Refresh {
    /// Nothing is to be started.
    Nothing,
    /// Fetch the recent runs of `project`.
    FetchBuilds { project: String, region: Option<String> },
    /// Tail `log_group`, every stream of it where `log_stream` is `None`.
    TailLogs { log_group: String, log_stream: Option<String>, region: Option<String> },
}

/// What a `Refresh` holds.
#[verifier::ext_equal]
pub enum RefreshV {
    Nothing,
    FetchBuilds { project: Seq<char>, region: Option<Seq<char>> },
    TailLogs {
        log_group: Seq<char>,
        log_stream: Option<Seq<char>>,
        region: Option<Seq<char>>,
    },
}

impl View for Refresh {
    type V = RefreshV;

    open spec fn view(&self) -> RefreshV {
        match self {
            Refresh::Nothing => RefreshV::Nothing,
            Refresh::FetchBuilds { project, region } => RefreshV::FetchBuilds {
                project: project@,
                region: region.deep_view(),
            },
            Refresh::TailLogs { log_group, log_stream, region } => RefreshV::TailLogs {
                log_group: log_group@,
                log_stream: log_stream.deep_view(),
                region: region.deep_view(),
            },
        }
    }
}

/// The text, or the empty one where there is none.
pub open spec fn or_empty(s: Option<Seq<char>>) -> Seq<char> {
    match s {
        Some(text) => text,
        None => Seq::empty(),
    }
}

impl TabStateV {
    /// Whether a refresh has a tail to start: the tab follows a log and has no pane yet.
    pub open spec fn wants_tail(self) -> bool {
        self.data matches TabDataV::Logs(l) && l.pane is None
    }

    /// The background work that refreshes this tab.
    pub open spec fn refresh(self) -> RefreshV {
        match self.spec.kind {
            TabKind::Builds => RefreshV::FetchBuilds {
                project: or_empty(self.spec.project),
                region: self.spec.region,
            },
            TabKind::Logs => if self.wants_tail() {
                RefreshV::TailLogs {
                    log_group: or_empty(self.spec.log_group),
                    log_stream: self.spec.log_stream,
                    region: self.spec.region,
                }
            } else {
                RefreshV::Nothing
            },
        }
    }
}

/// What became of an attempt to start a tail.
#[verifier::ext_equal]
pub enum TailStartV {
    Running { pane: LogTailPaneV, pending: Receiver<LogTailEvent> },
    Refused(Seq<char>),
}

/// What became of an attempt to start a tail.
pub enum TailStart {
    /// The tail runs, fills `pane` and reports on `pending`.
    Running { pane: LogTailPane, pending: Receiver<LogTailEvent> },
    /// It could not be started, for this reason.
    Refused(String),
}

impl View for TailStart {
    type V = TailStartV;

    open spec fn view(&self) -> TailStartV {
        match self {
            TailStart::Running { pane, pending } => TailStartV::Running {
                pane: pane@,
                pending: *pending,
            },
            TailStart::Refused(reason) => TailStartV::Refused(reason@),
        }
    }
}

impl AppV {
    /// The viewer as a refresh of the active tab begins: the status text announces it.
    pub open spec fn refreshing(self) -> AppV {
        let tab = self.active();
        match tab.spec.kind {
            TabKind::Builds => AppV { status: "refreshing "@ + tab.name + "…"@, ..self },
            TabKind::Logs => if tab.wants_tail() {
                AppV { status: "starting "@ + tab.name + "…"@, ..self }
            } else {
                self
            },
        }
    }

    /// The viewer once the fetch for its active tab has begun.
    pub open spec fn fetch_started(self, pending: Receiver<CodeBuildEvent>) -> AppV {
        match self.active().data {
            TabDataV::Builds(b) => self.with_active_data(TabDataV::Builds(b.fetching(pending))),
            TabDataV::Logs(_) => self,
        }
    }

    /// The viewer once the tail for its active tab was started, or not.
    pub open spec fn tail_started(self, start: TailStartV) -> AppV {
        match self.active().data {
            TabDataV::Builds(_) => self,
            TabDataV::Logs(l) => match start {
                TailStartV::Running { pane, pending } => self.with_active_data(
                    TabDataV::Logs(
                        LogsTabV { pane: Some(pane), pending: Some(pending), last_error: None },
                    ),
                ),
                TailStartV::Refused(reason) => AppV {
                    status: "error: "@ + reason,
                    ..self.with_active_data(
                        TabDataV::Logs(LogsTabV { last_error: Some(reason), ..l }),
                    )
                },
            },
        }
    }

    /// Every configured tab can be opened.
    pub open spec fn can_open(cfg: ConfigV) -> bool {
        forall|i: int|
            0 <= i < cfg.tabs.len() ==> resolved(#[trigger] cfg.tabs[i], cfg.region) is Ok
    }

    /// The tab at `i` is the first that cannot be opened, for the reason `e`.
    pub open spec fn first_refusal(cfg: ConfigV, i: int, e: ResolveErrorV) -> bool {
        &&& 0 <= i < cfg.tabs.len()
        &&& resolved(cfg.tabs[i], cfg.region) == Err::<TabSpecV, _>(e)
        &&& forall|j: int| 0 <= j < i ==> resolved(#[trigger] cfg.tabs[j], cfg.region) is Ok
    }

    /// The tab that opens for the configured tab `t`.
    pub open spec fn opened_tab(t: TabV, default_region: Option<Seq<char>>) -> TabStateV {
        let spec = resolved(t, default_region)->Ok_0;
        TabStateV { name: t.name, spec, data: empty_data(spec.kind) }
    }

    /// The viewer on a configuration, with nothing loaded and its first tab active.
    pub open spec fn opened(cfg: ConfigV) -> AppV {
        AppV {
            cfg,
            tabs: Seq::new(cfg.tabs.len(), |i: int| Self::opened_tab(cfg.tabs[i], cfg.region)),
            active_tab: 0,
            status: Seq::empty(),
        }
    }

    /// Whether there is a tab at `idx`.
    pub open spec fn has_tab(self, idx: int) -> bool {
        0 <= idx < self.tabs.len()
    }

    /// The viewer with the tab at `idx` active.
    pub open spec fn switched(self, idx: usize) -> AppV {
        AppV { active_tab: idx, ..self }
    }

    /// Moving the selection by `delta` stays within the machine's signed numbers.
    pub open spec fn can_move(self, delta: int) -> bool {
        match self.active().data {
            TabDataV::Builds(b) => b.can_move(delta),
            TabDataV::Logs(l) => l.pane is Some ==> delta != isize::MIN,
        }
    }

    /// The viewer after its selection has moved by `delta`.
    pub open spec fn moved(self, delta: int) -> AppV {
        match self.active().data {
            TabDataV::Builds(b) => self.with_active_data(TabDataV::Builds(b.moved(delta))),
            TabDataV::Logs(l) => match l.pane {
                Some(pane) => self.with_active_data(
                    TabDataV::Logs(LogsTabV { pane: Some(pane.scrolled(delta)), ..l }),
                ),
                None => self,
            },
        }
    }

    /// The address that opening the focused run leads to.
    pub open spec fn focused_link(self) -> Option<Seq<char>> {
        match self.active().data {
            TabDataV::Builds(b) => if b.selected < b.items.len() {
                b.items[b.selected as int].logs_deep_link
            } else {
                None
            },
            TabDataV::Logs(_) => None,
        }
    }
}

/// The status text once a browser was asked for `url`.
pub open spec fn open_status(url: Seq<char>, failure: Option<Seq<char>>) -> Seq<char> {
    match failure {
        None => "opened "@ + url,
        Some(reason) => "open failed: "@ + reason,
    }
}

impl App {
    /// Opens the viewer on `cfg`. With it comes the background work that fills the first tab.
    pub fn new(cfg: Config) -> (outcome: Result<(App, Refresh), ResolveError>)
        requires
            cfg@.tabs.len() > 0,
        ensures
            outcome is Ok <==> AppV::can_open(cfg@),
            match outcome {
                Ok((app, refresh)) => {
                    &&& app@ == AppV::opened(cfg@).refreshing()
                    &&& refresh@ == AppV::opened(cfg@).active().refresh()
                },
                Err(e) => exists|i: int| AppV::first_refusal(cfg@, i, e@),
            },
    {
        let mut tabs: Vec<TabState> = Vec::with_capacity(cfg.tabs.len());
        let region: Option<&str> = match &cfg.region {
            Some(region) => Some(region.as_str()),
            None => None,
        };
        let mut i: usize = 0;
        while i < cfg.tabs.len()
            invariant
                i <= cfg.tabs.len(),
                cfg.tabs.len() == cfg@.tabs.len(),
                region.deep_view() == cfg@.region,
                tabs.len() == i,
                forall|j: int| 0 <= j < i ==> resolved(#[trigger] cfg@.tabs[j], cfg@.region) is Ok,
                forall|j: int|
                    0 <= j < i ==> (#[trigger] tabs[j])@ == AppV::opened_tab(
                        cfg@.tabs[j],
                        cfg@.region,
                    ),
            decreases cfg.tabs.len() - i,
        {
            let t = &cfg.tabs[i];
            assert(cfg@.tabs[i as int] == t@);
            match TabSpec::resolve(t, region) {
                Ok(spec) => {
                    let kind = spec.kind;
                    tabs.push(
                        TabState { name: t.name.clone(), spec, data: TabData::empty_for(kind) },
                    );
                },
                Err(e) => {
                    assert(AppV::first_refusal(cfg@, i as int, e@));
                    return Err(e);
                },
            }
            i = i + 1;
        }
        let ghost held = cfg@;
        let mut app = App { cfg, tabs, active_tab: 0, status: String::new() };
        assert(app@ =~= AppV::opened(held));
        let refresh = app.refresh_active();
        Ok((app, refresh))
    }

    /// Makes the tab at `idx` active and refreshes it. Where there is none, nothing happens.
    pub fn switch_tab(&mut self, idx: usize) -> (refresh: Refresh)
        ensures
            old(self)@.has_tab(idx as int) ==> {
                &&& final(self)@ == old(self)@.switched(idx).refreshing()
                &&& refresh@ == old(self)@.switched(idx).active().refresh()
            },
            !old(self)@.has_tab(idx as int) ==> {
                &&& *final(self) == *old(self)
                &&& refresh is Nothing
            },
    {
        if idx < self.tabs.len() {
            self.active_tab = idx;
            self.refresh_active()
        } else {
            Refresh::Nothing
        }
    }

    /// Moves the highlighted run, or scrolls the log, by `delta`.
    pub fn move_selection(&mut self, delta: isize)
        requires
            old(self)@.in_range(),
            old(self)@.can_move(delta as int),
        ensures
            final(self)@ == old(self)@.moved(delta as int),
    {
        let ghost before = self@;
        let i: usize = self.active_tab;
        let data = &mut self.tabs[i].data;
        match data {
            TabData::Builds(b) => {
                b.move_by(delta);
            },
            TabData::Logs(l) => match &mut l.pane {
                Some(pane) => {
                    pane.scroll_by(delta);
                },
                None => {},
            },
        }
        assert(self@ =~= before.moved(delta as int));
    }

    /// Begins a refresh of the active tab: the status text announces it, and the background work
    /// to start is returned. A log tab whose pane is there already has nothing to start.
    pub fn refresh_active(&mut self) -> (refresh: Refresh)
        requires
            old(self)@.in_range(),
        ensures
            final(self)@ == old(self)@.refreshing(),
            refresh@ == old(self)@.active().refresh(),
    {
        let tab = &self.tabs[self.active_tab];
        match tab.spec.kind {
            TabKind::Builds => {
                let status = "refreshing ".to_string().concat(tab.name.as_str()).concat("…");
                let project = match &tab.spec.project {
                    Some(project) => project.clone(),
                    None => String::new(),
                };
                let region = copy_text(&tab.spec.region);
                self.status = status;
                Refresh::FetchBuilds { project, region }
            },
            TabKind::Logs => {
                let needs_spawn: bool = match &tab.data {
                    TabData::Logs(l) => l.pane.is_none(),
                    TabData::Builds(_) => false,
                };
                if !needs_spawn {
                    return Refresh::Nothing;
                }
                let status = "starting ".to_string().concat(tab.name.as_str()).concat("…");
                let log_group = match &tab.spec.log_group {
                    Some(log_group) => log_group.clone(),
                    None => String::new(),
                };
                let log_stream = copy_text(&tab.spec.log_stream);
                let region = copy_text(&tab.spec.region);
                self.status = status;
                Refresh::TailLogs { log_group, log_stream, region }
            },
        }
    }

    /// Notes that the fetch for the active tab has begun and reports on `pending`.
    pub fn fetch_started(&mut self, pending: Receiver<CodeBuildEvent>)
        requires
            old(self)@.in_range(),
        ensures
            final(self)@ == old(self)@.fetch_started(pending),
    {
        let ghost before = self@;
        let i: usize = self.active_tab;
        match &mut self.tabs[i].data {
            TabData::Builds(b) => {
                b.loading = true;
                b.last_error = None;
                b.pending = Some(pending);
            },
            TabData::Logs(_) => {},
        }
        assert(self@ =~= before.fetch_started(pending));
    }

    /// Notes what became of the tail for the active tab.
    pub fn tail_started(&mut self, start: TailStart)
        requires
            old(self)@.in_range(),
        ensures
            final(self)@ == old(self)@.tail_started(start@),
    {
        let ghost before = self@;
        let i: usize = self.active_tab;
        let mut refusal: Option<String> = None;
        match &mut self.tabs[i].data {
            TabData::Builds(_) => {},
            TabData::Logs(l) => match start {
                TailStart::Running { pane, pending } => {
                    l.pane = Some(pane);
                    l.pending = Some(pending);
                    l.last_error = None;
                },
                TailStart::Refused(reason) => {
                    refusal = Some("error: ".to_string().concat(reason.as_str()));
                    l.last_error = Some(reason);
                },
            },
        }
        match refusal {
            Some(status) => {
                self.status = status;
            },
            None => {},
        }
        assert(self@ =~= before.tail_started(start@));
    }

    /// The address to open for the focused run.
    pub fn open_focused(&self) -> (url: Option<String>)
        requires
            self@.in_range(),
        ensures
            url.deep_view() == self@.focused_link(),
    {
        match &self.active().data {
            TabData::Builds(b) => if b.selected < b.items.len() {
                copy_text(&b.items[b.selected].logs_deep_link)
            } else {
                None
            },
            TabData::Logs(_) => None,
        }
    }

    /// Notes what became of opening `url`.
    pub fn opened(&mut self, url: &str, failure: Option<String>)
        ensures
            final(self)@ == (AppV {
                status: open_status(url@, failure.deep_view()),
                ..old(self)@
            }),
    {
        self.status = match failure {
            None => "opened ".to_string().concat(url),
            Some(reason) => "open failed: ".to_string().concat(reason.as_str()),
        };
    }
}

/// What one round of looking finds for a tab: the reports of its fetch, each with the time it was
/// taken, or those of its tail, and whether the channel turned out closed.
#[verifier::ext_equal]
pub struct InboxV {
    pub fetched: Seq<(CodeBuildEventV, Instant)>,
    pub tailed: Seq<LogTailEventV>,
    pub closed: bool,
}

impl BuildsTabV {
    /// The tab after the reports of its fetch, one after the other.
    pub open spec fn after_all(self, events: Seq<(CodeBuildEventV, Instant)>) -> BuildsTabV
        decreases events.len(),
    {
        if events.len() == 0 {
            self
        } else {
            self.after_all(events.drop_last()).after(events.last().0, events.last().1)
        }
    }

    /// The tab after one round of looking at its channel. A fetch reports once: the channel is
    /// kept only as long as it is open and silent.
    pub open spec fn drained(self, inbox: InboxV) -> BuildsTabV {
        if self.pending is None {
            self
        } else {
            BuildsTabV {
                pending: if inbox.fetched.len() == 0 && !inbox.closed {
                    self.pending
                } else {
                    None
                },
                ..self.after_all(inbox.fetched)
            }
        }
    }

    /// Whether that round brought anything.
    pub open spec fn drain_news(self, inbox: InboxV) -> bool {
        self.pending is Some && inbox.fetched.len() > 0
    }

    /// The status text that the round leaves, in the tab `name`.
    pub open spec fn drain_status(self, name: Seq<char>, inbox: InboxV) -> Option<Seq<char>> {
        if self.pending is None || inbox.fetched.len() == 0 {
            None
        } else {
            Some(fetch_status(name, inbox.fetched.last().0))
        }
    }
}

/// The reason of the last breakdown among the reports of a tail.
pub open spec fn last_breakdown(events: Seq<LogTailEventV>) -> Option<Seq<char>>
    decreases events.len(),
{
    if events.len() == 0 {
        None
    } else {
        match events.last() {
            LogTailEventV::Failed(reason) => Some(reason),
            _ => last_breakdown(events.drop_last()),
        }
    }
}

/// The status text that the reports of a tail leave: that of the last breakdown.
pub open spec fn breakdown_status(events: Seq<LogTailEventV>) -> Option<Seq<char>> {
    match last_breakdown(events) {
        Some(reason) => Some("error: "@ + reason),
        None => None,
    }
}

/// Whether the reports end the tail.
pub open spec fn end_of_tail(events: Seq<LogTailEventV>) -> bool {
    exists|i: int| 0 <= i < events.len() && last_words(#[trigger] events[i])
}

impl LogsTabV {
    /// The tab after the reports of its tail, one after the other.
    pub open spec fn after_all(self, events: Seq<LogTailEventV>) -> LogsTabV
        decreases events.len(),
    {
        if events.len() == 0 {
            self
        } else {
            self.after_all(events.drop_last()).after(events.last())
        }
    }

    /// The tab after one round of looking at its channel. The channel is kept as long as the tail
    /// goes on.
    pub open spec fn drained(self, inbox: InboxV) -> LogsTabV {
        if self.pending is None {
            self
        } else {
            LogsTabV {
                pending: if inbox.closed || end_of_tail(inbox.tailed) {
                    None
                } else {
                    self.pending
                },
                ..self.after_all(inbox.tailed)
            }
        }
    }

    /// Whether that round brought anything.
    pub open spec fn drain_news(self, inbox: InboxV) -> bool {
        self.pending is Some && exists|i: int|
            0 <= i < inbox.tailed.len() && self.news(#[trigger] inbox.tailed[i])
    }

    /// The status text that the round leaves.
    pub open spec fn drain_status(self, inbox: InboxV) -> Option<Seq<char>> {
        if self.pending is None {
            None
        } else {
            breakdown_status(inbox.tailed)
        }
    }
}

impl TabStateV {
    /// The tab after one round of looking at its channel.
    pub open spec fn drained(self, inbox: InboxV) -> TabStateV {
        TabStateV {
            data: match self.data {
                TabDataV::Builds(b) => TabDataV::Builds(b.drained(inbox)),
                TabDataV::Logs(l) => TabDataV::Logs(l.drained(inbox)),
            },
            ..self
        }
    }

    /// Whether that round brought anything.
    pub open spec fn drain_news(self, inbox: InboxV) -> bool {
        match self.data {
            TabDataV::Builds(b) => b.drain_news(inbox),
            TabDataV::Logs(l) => l.drain_news(inbox),
        }
    }

    /// The status text that the round leaves.
    pub open spec fn drain_status(self, inbox: InboxV) -> Option<Seq<char>> {
        match self.data {
            TabDataV::Builds(b) => b.drain_status(self.name, inbox),
            TabDataV::Logs(l) => l.drain_status(inbox),
        }
    }
}

impl AppV {
    /// The status text after one round of looking at the channels of the first `n` tabs: that of
    /// the last tab that has one to show.
    pub open spec fn status_after(self, inboxes: Seq<InboxV>, n: int) -> Seq<char>
        decreases n,
    {
        if n <= 0 {
            self.status
        } else {
            match self.tabs[n - 1].drain_status(inboxes[n - 1]) {
                Some(status) => status,
                None => self.status_after(inboxes, n - 1),
            }
        }
    }

    /// The viewer after one round of looking at the channels of all tabs.
    pub open spec fn drained(self, inboxes: Seq<InboxV>) -> AppV {
        AppV {
            tabs: Seq::new(self.tabs.len(), |i: int| self.tabs[i].drained(inboxes[i])),
            status: self.status_after(inboxes, self.tabs.len() as int),
            ..self
        }
    }

    /// Whether that round brought anything.
    pub open spec fn drain_news(self, inboxes: Seq<InboxV>) -> bool {
        exists|i: int|
            0 <= i < self.tabs.len() && (#[trigger] self.tabs[i]).drain_news(inboxes[i])
    }
}

/// What one round of looking finds for a tab.
pub struct Inbox {
    /// The reports of a fetch, each with the time it was taken.
    pub fetched: Vec<(CodeBuildEvent, Instant)>,
    /// The reports of a tail.
    pub tailed: Vec<LogTailEvent>,
    /// Whether the channel turned out closed.
    pub closed: bool,
}

/// The reports of a fetch, with their times.
pub open spec fn fetch_reports(v: Seq<(CodeBuildEvent, Instant)>) -> Seq<
    (CodeBuildEventV, Instant),
> {
    Seq::new(v.len(), |i: int| (v[i].0@, v[i].1))
}

/// The reports of a tail.
pub open spec fn tail_reports(v: Seq<LogTailEvent>) -> Seq<LogTailEventV> {
    Seq::new(v.len(), |i: int| v[i]@)
}

impl View for Inbox {
    type V = InboxV;

    open spec fn view(&self) -> InboxV {
        InboxV {
            fetched: fetch_reports(self.fetched@),
            tailed: tail_reports(self.tailed@),
            closed: self.closed,
        }
    }
}

impl DeepView for Inbox {
    type V = InboxV;

    open spec fn deep_view(&self) -> InboxV {
        self@
    }
}

impl InboxV {
    /// An inbox before anything was found.
    pub open spec fn empty() -> InboxV {
        InboxV { fetched: Seq::empty(), tailed: Seq::empty(), closed: false }
    }

    /// The inbox after one look at the channel of a fetch has found `found`, at `now`.
    pub open spec fn after_fetch_look(
        self,
        found: Received<CodeBuildEvent>,
        now: Instant,
    ) -> InboxV {
        match found {
            Received::Message(event) => InboxV { fetched: self.fetched.push((event@, now)), ..self },
            Received::Empty => self,
            Received::Disconnected => InboxV { closed: true, ..self },
        }
    }

    /// The inbox after one look at the channel of a tail has found `found`.
    pub open spec fn after_tail_look(self, found: Received<LogTailEvent>) -> InboxV {
        match found {
            Received::Message(event) => InboxV { tailed: self.tailed.push(event@), ..self },
            Received::Empty => self,
            Received::Disconnected => InboxV { closed: true, ..self },
        }
    }
}

/// Whether looks that found `found`, one after the other, went on for as long as there were
/// messages and no longer: the last one found the channel silent or closed.
pub open spec fn ended<T>(found: Seq<Received<T>>) -> bool {
    &&& found.len() > 0
    &&& forall|i: int| 0 <= i < found.len() - 1 ==> (#[trigger] found[i]) is Message
    &&& !(found.last() is Message)
}

/// What looks found.
pub open spec fn found_by<T>(looks: Seq<LookV<T>>) -> Seq<Received<T>> {
    Seq::new(looks.len(), |i: int| looks[i].found)
}

/// Looks without their times.
pub open spec fn untimed(looks: Seq<(LookV<CodeBuildEvent>, Instant)>) -> Seq<
    LookV<CodeBuildEvent>,
> {
    Seq::new(looks.len(), |i: int| looks[i].0)
}

/// The inbox that looks at the channel of a fetch fill.
pub open spec fn fetch_inbox(looks: Seq<(LookV<CodeBuildEvent>, Instant)>) -> InboxV
    decreases looks.len(),
{
    if looks.len() == 0 {
        InboxV::empty()
    } else {
        fetch_inbox(looks.drop_last()).after_fetch_look(looks.last().0.found, looks.last().1)
    }
}

/// The inbox that looks at the channel of a tail fill.
pub open spec fn tail_inbox(looks: Seq<LookV<LogTailEvent>>) -> InboxV
    decreases looks.len(),
{
    if looks.len() == 0 {
        InboxV::empty()
    } else {
        tail_inbox(looks.drop_last()).after_tail_look(looks.last().found)
    }
}

/// One round of looking for a tab.
pub enum RoundV {
    /// There is no channel to look at.
    Nothing,
    /// The looks at the channel of a fetch, each with its time.
    Fetch(Seq<(LookV<CodeBuildEvent>, Instant)>),
    /// The looks at the channel of a tail.
    Tail(Seq<LookV<LogTailEvent>>),
}

/// Whether `looks` are all looks at the channel behind `rx` in a round: one after the other, until
/// it answered that it was silent or closed.
pub open spec fn whole_round<T>(rx: Receiver<T>, looks: Seq<LookV<T>>) -> bool {
    unbroken(rx, looks) && ended(found_by(looks))
}

impl RoundV {
    /// What the round found.
    pub open spec fn inbox(self) -> InboxV {
        match self {
            RoundV::Nothing => InboxV::empty(),
            RoundV::Fetch(looks) => fetch_inbox(looks),
            RoundV::Tail(looks) => tail_inbox(looks),
        }
    }

    /// Whether this is a whole round for `tab`: all looks at its own channel, where it has one,
    /// until that answered that it was silent or closed.
    pub open spec fn whole_for(self, tab: TabStateV) -> bool {
        match tab.data {
            TabDataV::Builds(b) => if b.pending is None {
                self is Nothing
            } else {
                self matches RoundV::Fetch(looks) && whole_round(b.pending->0, untimed(looks))
            },
            TabDataV::Logs(l) => if l.pending is None {
                self is Nothing
            } else {
                self matches RoundV::Tail(looks) && whole_round(l.pending->0, looks)
            },
        }
    }
}

impl TabStateV {
    /// The tab with the handle of its channel as the looks of `round` leave it.
    pub open spec fn after_round(self, round: RoundV) -> TabStateV {
        TabStateV {
            data: match (self.data, round) {
                (TabDataV::Builds(b), RoundV::Fetch(looks)) => TabDataV::Builds(
                    BuildsTabV { pending: Some(looks.last().0.after), ..b },
                ),
                (TabDataV::Logs(l), RoundV::Tail(looks)) => TabDataV::Logs(
                    LogsTabV { pending: Some(looks.last().after), ..l },
                ),
                _ => self.data,
            },
            ..self
        }
    }
}

/// What the rounds found, tab by tab.
pub open spec fn inboxes_of(rounds: Seq<RoundV>) -> Seq<InboxV> {
    Seq::new(rounds.len(), |i: int| rounds[i].inbox())
}

impl AppV {
    /// Whether `rounds` holds one whole round for each tab.
    pub open spec fn looked_through(self, rounds: Seq<RoundV>) -> bool {
        &&& rounds.len() == self.tabs.len()
        &&& forall|i: int|
            0 <= i < self.tabs.len() ==> (#[trigger] rounds[i]).whole_for(self.tabs[i])
    }

    /// The viewer with the handles of its channels as the looks of `rounds` leave them.
    pub open spec fn after_rounds(self, rounds: Seq<RoundV>) -> AppV {
        AppV {
            tabs: Seq::new(self.tabs.len(), |i: int| self.tabs[i].after_round(rounds[i])),
            ..self
        }
    }
}

impl Inbox {
    /// An inbox before anything was found.
    fn new() -> (inbox: Inbox)
        ensures
            inbox@ == InboxV::empty(),
    {
        let inbox = Inbox { fetched: Vec::new(), tailed: Vec::new(), closed: false };
        assert(inbox@ =~= InboxV::empty());
        inbox
    }

    /// Puts in what one look at the channel of a fetch has found at `now`. Tells whether to look
    /// again: a message may be followed by more, while silence and a closed channel end the round.
    pub fn note_fetch(&mut self, found: Received<CodeBuildEvent>, now: Instant) -> (again: bool)
        ensures
            final(self)@ == old(self)@.after_fetch_look(found, now),
            again == (found is Message),
    {
        let ghost before = self@;
        let again: bool = match found {
            Received::Message(event) => {
                self.fetched.push((event, now));
                true
            },
            Received::Empty => false,
            Received::Disconnected => {
                self.closed = true;
                false
            },
        };
        assert(self@ =~= before.after_fetch_look(found, now));
        again
    }

    /// Puts in what one look at the channel of a tail has found. Tells whether to look again.
    pub fn note_tail(&mut self, found: Received<LogTailEvent>) -> (again: bool)
        ensures
            final(self)@ == old(self)@.after_tail_look(found),
            again == (found is Message),
    {
        let ghost before = self@;
        let again: bool = match found {
            Received::Message(event) => {
                self.tailed.push(event);
                true
            },
            Received::Empty => false,
            Received::Disconnected => {
                self.closed = true;
                false
            },
        };
        assert(self@ =~= before.after_tail_look(found));
        again
    }
}

/// What taking in an inbox leaves to be shown.
pub struct Delivered {
    /// Whether the inbox brought anything.
    pub news: bool,
    /// A new status text.
    pub status: Option<String>,
}

/// The reports of a fetch do not touch the channel itself.
proof fn lemma_fetch_keeps_channel(tab: BuildsTabV, events: Seq<(CodeBuildEventV, Instant)>)
    ensures
        tab.after_all(events).pending == tab.pending,
    decreases events.len(),
{
    if events.len() > 0 {
        lemma_fetch_keeps_channel(tab, events.drop_last());
    }
}

/// The reports of a tail do not touch the channel itself, nor whether there is a pane.
proof fn lemma_tail_keeps_channel(tab: LogsTabV, events: Seq<LogTailEventV>)
    ensures
        tab.after_all(events).pending == tab.pending,
        tab.after_all(events).pane is Some <==> tab.pane is Some,
    decreases events.len(),
{
    if events.len() > 0 {
        lemma_tail_keeps_channel(tab, events.drop_last());
    }
}

impl BuildsTab {
    /// Takes in the inbox of the tab `name`.
    pub fn deliver(&mut self, inbox: Inbox, name: &str) -> (outcome: Delivered)
        ensures
            final(self)@ == old(self)@.drained(inbox@),
            outcome.news == old(self)@.drain_news(inbox@),
            outcome.status.deep_view() == old(self)@.drain_status(name@, inbox@),
    {
        let mut outcome = Delivered { news: false, status: None };
        if self.pending.is_none() {
            return outcome;
        }
        let ghost before = self@;
        let ghost all = inbox@.fetched;
        let fetched = inbox.fetched;
        for report in it: fetched
            invariant
                it.seq() == fetched@,
                all == fetch_reports(fetched@),
                self@ == before.after_all(all.take(it.index())),
                outcome.news == (it.index() > 0),
                outcome.status.deep_view() == (if it.index() == 0 {
                    None
                } else {
                    Some(fetch_status(name@, all[it.index() - 1].0))
                }),
        {
            assert(all.take(it.index() + 1).drop_last() =~= all.take(it.index()));
            let status = self.take_in(report.0, report.1, name);
            outcome.status = Some(status);
            outcome.news = true;
        }
        proof {
            assert(all.take(all.len() as int) =~= all);
            lemma_fetch_keeps_channel(before, all);
        }
        if outcome.news || inbox.closed {
            self.pending = None;
        }
        outcome
    }
}

impl LogsTab {
    /// Takes in the inbox of the tab.
    pub fn deliver(&mut self, inbox: Inbox) -> (outcome: Delivered)
        ensures
            final(self)@ == old(self)@.drained(inbox@),
            outcome.news == old(self)@.drain_news(inbox@),
            outcome.status.deep_view() == old(self)@.drain_status(inbox@),
    {
        let mut outcome = Delivered { news: false, status: None };
        if self.pending.is_none() {
            return outcome;
        }
        let ghost before = self@;
        let ghost all = inbox@.tailed;
        let mut still_open: bool = !inbox.closed;
        let tailed = inbox.tailed;
        for event in it: tailed
            invariant
                it.seq() == tailed@,
                all == tail_reports(tailed@),
                self@ == before.after_all(all.take(it.index())),
                outcome.news <==> exists|i: int|
                    0 <= i < it.index() && before.news(#[trigger] all[i]),
                outcome.status.deep_view() == breakdown_status(all.take(it.index())),
                still_open <==> !inbox.closed && forall|i: int|
                    0 <= i < it.index() ==> !last_words(#[trigger] all[i]),
        {
            proof {
                assert(all.take(it.index() + 1).drop_last() =~= all.take(it.index()));
                assert(all[it.index()] == event@);
                lemma_tail_keeps_channel(before, all.take(it.index()));
            }
            let took = self.take_in(event);
            if took.news {
                outcome.news = true;
            }
            if took.last {
                still_open = false;
            }
            match took.status {
                Some(status) => {
                    outcome.status = Some(status);
                },
                None => {},
            }
        }
        proof {
            assert(all.take(all.len() as int) =~= all);
            lemma_tail_keeps_channel(before, all);
        }
        if !still_open {
            self.pending = None;
        }
        outcome
    }
}

/// Looks at the channel of a fetch until it is silent or closed. The looks made are returned beside
/// the inbox that they fill and the handle that the last one left.
fn read_fetch(rx: Receiver<CodeBuildEvent>) -> (read: (
    Inbox,
    Receiver<CodeBuildEvent>,
    Ghost<Seq<(LookV<CodeBuildEvent>, Instant)>>,
))
    ensures
        whole_round(rx, untimed(read.2@)),
        read.0@ == fetch_inbox(read.2@),
        read.1 == read.2@.last().0.after,
{
    let ghost start = rx;
    let mut rx = rx;
    let mut inbox = Inbox::new();
    let mut again: bool = true;
    let ghost mut looks = Seq::<(LookV<CodeBuildEvent>, Instant)>::empty();
    while again
        invariant
            inbox@ == fetch_inbox(looks),
            inbox.fetched.len() == inbox@.fetched.len(),
            unbroken(start, untimed(looks)),
            looks.len() == 0 ==> rx == start,
            looks.len() > 0 ==> rx == looks.last().0.after,
            again ==> forall|i: int|
                0 <= i < looks.len() ==> (#[trigger] looks[i]).0.found is Message,
            !again ==> ended(found_by(untimed(looks))),
        decreases
            usize::MAX - inbox.fetched.len(),
            if again {
                1int
            } else {
                0int
            },
    {
        let ghost held = inbox@.fetched.len();
        let ghost before = rx;
        let (found, after) = ask(rx);
        rx = after;
        let now = Instant::now();
        proof {
            let look = LookV { before, found, after };
            assert(looks.push((look, now)).drop_last() =~= looks);
            assert(untimed(looks.push((look, now))) =~= untimed(looks).push(look));
            looks = looks.push((look, now));
        }
        again = inbox.note_fetch(found, now);
        assert(inbox@.fetched.len() == if again { held + 1 } else { held });
    }
    (inbox, rx, Ghost(looks))
}

/// Looks at the channel of a tail until it is silent or closed. The looks made are returned beside
/// the inbox that they fill and the handle that the last one left.
fn read_tail(rx: Receiver<LogTailEvent>) -> (read: (
    Inbox,
    Receiver<LogTailEvent>,
    Ghost<Seq<LookV<LogTailEvent>>>,
))
    ensures
        whole_round(rx, read.2@),
        read.0@ == tail_inbox(read.2@),
        read.1 == read.2@.last().after,
{
    let ghost start = rx;
    let mut rx = rx;
    let mut inbox = Inbox::new();
    let mut again: bool = true;
    let ghost mut looks = Seq::<LookV<LogTailEvent>>::empty();
    while again
        invariant
            inbox@ == tail_inbox(looks),
            inbox.tailed.len() == inbox@.tailed.len(),
            unbroken(start, looks),
            looks.len() == 0 ==> rx == start,
            looks.len() > 0 ==> rx == looks.last().after,
            again ==> forall|i: int|
                0 <= i < looks.len() ==> (#[trigger] looks[i]).found is Message,
            !again ==> ended(found_by(looks)),
        decreases
            usize::MAX - inbox.tailed.len(),
            if again {
                1int
            } else {
                0int
            },
    {
        let ghost held = inbox@.tailed.len();
        let ghost before = rx;
        let (found, after) = ask(rx);
        rx = after;
        proof {
            let look = LookV { before, found, after };
            assert(looks.push(look).drop_last() =~= looks);
            looks = looks.push(look);
        }
        again = inbox.note_tail(found);
        assert(inbox@.tailed.len() == if again { held + 1 } else { held });
    }
    (inbox, rx, Ghost(looks))
}

impl TabState {
    /// Takes in the inbox of this tab.
    pub fn deliver(&mut self, inbox: Inbox) -> (outcome: Delivered)
        ensures
            final(self)@ == old(self)@.drained(inbox@),
            outcome.news == old(self)@.drain_news(inbox@),
            outcome.status.deep_view() == old(self)@.drain_status(inbox@),
    {
        match &mut self.data {
            TabData::Builds(b) => b.deliver(inbox, self.name.as_str()),
            TabData::Logs(l) => l.deliver(inbox),
        }
    }

    /// Looks at the channel of this tab until it is silent or closed, and puts in what each look
    /// finds. What a look finds depends on the threads behind the channel: the looks made, each at
    /// the handle that the one before it left, are returned beside the inbox that they fill. The
    /// tab keeps the handle that the last one left.
    fn look(&mut self) -> (found: (Inbox, Ghost<RoundV>))
        ensures
            found.1@.whole_for(old(self)@),
            found.0@ == found.1@.inbox(),
            final(self)@ == old(self)@.after_round(found.1@),
    {
        match &mut self.data {
            TabData::Builds(b) => match b.pending.take() {
                Some(rx) => {
                    let (inbox, rx, looks) = read_fetch(rx);
                    b.pending = Some(rx);
                    (inbox, Ghost(RoundV::Fetch(looks@)))
                },
                None => (Inbox::new(), Ghost(RoundV::Nothing)),
            },
            TabData::Logs(l) => match l.pending.take() {
                Some(rx) => {
                    let (inbox, rx, looks) = read_tail(rx);
                    l.pending = Some(rx);
                    (inbox, Ghost(RoundV::Tail(looks@)))
                },
                None => (Inbox::new(), Ghost(RoundV::Nothing)),
            },
        }
    }
}

impl App {
    /// Takes in one inbox for each tab, in their order. Tells whether they brought anything.
    pub fn deliver(&mut self, inboxes: Vec<Inbox>) -> (news: bool)
        requires
            inboxes.len() == old(self)@.tabs.len(),
        ensures
            final(self)@ == old(self)@.drained(inboxes.deep_view()),
            news == old(self)@.drain_news(inboxes.deep_view()),
    {
        let ghost before = self@;
        let ghost all = inboxes.deep_view();
        let mut news: bool = false;
        let mut i: usize = 0;
        for inbox in it: inboxes
            invariant
                it.seq() == inboxes@,
                all == inboxes.deep_view(),
                i == it.index(),
                all.len() == before.tabs.len(),
                self.tabs.len() == before.tabs.len(),
                self@.cfg == before.cfg,
                self.active_tab == before.active_tab,
                forall|j: int|
                    0 <= j < i ==> (#[trigger] self.tabs[j])@ == before.tabs[j].drained(all[j]),
                forall|j: int|
                    i <= j < self.tabs.len() ==> (#[trigger] self.tabs[j])@ == before.tabs[j],
                self.status@ == before.status_after(all, i as int),
                news <==> exists|j: int|
                    0 <= j < i && (#[trigger] before.tabs[j]).drain_news(all[j]),
        {
            assert(all[i as int] == inbox@);
            assert(self.tabs[i as int]@ == before.tabs[i as int]);
            let outcome = self.tabs[i].deliver(inbox);
            match outcome.status {
                Some(status) => {
                    self.status = status;
                },
                None => {},
            }
            if outcome.news {
                news = true;
            }
            i = i + 1;
        }
        assert(self@ =~= before.drained(all));
        news
    }

    /// Takes in what all background work has reported so far, tab by tab. Tells whether that
    /// brought anything. Every channel is looked at until it is silent or closed. What the looks
    /// find depends on the threads behind the channels: the outcome is that of delivering all that
    /// they found, in order. A channel that is kept is kept with the handle that the last look at
    /// it left, so that nothing else was taken off it.
    pub fn drain(&mut self) -> (news: bool)
        ensures
            exists|rounds: Seq<RoundV>|
                {
                    &&& #[trigger] old(self)@.looked_through(rounds)
                    &&& final(self)@ == old(self)@.after_rounds(rounds).drained(inboxes_of(rounds))
                    &&& news == old(self)@.after_rounds(rounds).drain_news(inboxes_of(rounds))
                },
    {
        let ghost before = self@;
        let mut inboxes: Vec<Inbox> = Vec::new();
        let ghost mut rounds = Seq::<RoundV>::empty();
        let mut i: usize = 0;
        while i < self.tabs.len()
            invariant
                i <= self.tabs.len(),
                inboxes.len() == i,
                rounds.len() == i,
                self.tabs.len() == before.tabs.len(),
                self@.cfg == before.cfg,
                self@.status == before.status,
                self.active_tab == before.active_tab,
                forall|j: int| 0 <= j < i ==> (#[trigger] rounds[j]).whole_for(before.tabs[j]),
                forall|j: int| 0 <= j < i ==> (#[trigger] inboxes[j])@ == rounds[j].inbox(),
                forall|j: int|
                    0 <= j < i ==> (#[trigger] self.tabs[j])@ == before.tabs[j].after_round(
                        rounds[j],
                    ),
                forall|j: int|
                    i <= j < self.tabs.len() ==> (#[trigger] self.tabs[j])@ == before.tabs[j],
            decreases self.tabs.len() - i,
        {
            assert(self.tabs[i as int]@ == before.tabs[i as int]);
            let (inbox, round) = self.tabs[i].look();
            inboxes.push(inbox);
            proof {
                rounds = rounds.push(round@);
            }
            i = i + 1;
        }
        assert(before.looked_through(rounds));
        assert(self@ =~= before.after_rounds(rounds));
        assert(inboxes.deep_view() =~= inboxes_of(rounds));
        self.deliver(inboxes)
    }
}

} // verus!
