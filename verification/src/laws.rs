//! What holds of the viewer as a whole.

use crate::app::{
    end_of_tail, fetch_inbox, found_by, inboxes_of, kind_named, last_breakdown, or_else, resolved,
    tail_inbox, untimed, AppV, BuildsTabV, InboxV, LogsTabV, RefreshV, RoundV, TabDataV, TabKind,
    TabStateV, TailStartV,
};
use crate::codebuild::{CodeBuildEvent, CodeBuildEventV, CodeBuildRecordV};
use crate::config::{
    load, Config, ConfigErrorV, ConfigFile, ConfigV, LoadError, LoadErrorV, TabV,
};
use crate::event_loop::due;
use crate::log_tail::{
    last_of, line_of, severity_of, LogLineV, LogTailEvent, LogTailEventV, LogTailPaneV, FOLLOW,
    MAX_LINES,
};
use crate::text::{blank, white_space};
use crate::ui::{builds_screen, logs_screen, BuildsScreenV, LogsScreenV};
use std::sync::mpsc::Receiver;
use std::time::Instant;
use vstd::prelude::*;

pub mod config;
pub mod followed_log;
pub mod reports;
pub mod screen;
pub mod tabs;
pub mod text;

verus! {

/// A configuration is either valid or rejected, and a rejected one for one reason only.
pub proof fn law_one_verdict(cfg: ConfigV)
    ensures
        cfg.valid() ==> forall|e: ConfigErrorV| !cfg.rejected_with(e),
        !cfg.valid() ==> exists|e: ConfigErrorV| cfg.rejected_with(e),
        forall|a: ConfigErrorV, b: ConfigErrorV|
            cfg.rejected_with(a) && cfg.rejected_with(b) ==> a == b,
{
    assert forall|a: ConfigErrorV, b: ConfigErrorV|
        cfg.rejected_with(a) && cfg.rejected_with(b) implies a == b by {
        if cfg.tabs.len() > 0 {
            let i = choose|i: int| cfg.first_error_at(i, a);
            let j = choose|j: int| cfg.first_error_at(j, b);
            if i < j {
                assert(cfg.tabs[i].error(i) is None);
            }
            if j < i {
                assert(cfg.tabs[j].error(j) is None);
            }
        }
    }
    if cfg.valid() {
        assert forall|e: ConfigErrorV| !cfg.rejected_with(e) by {
            if cfg.rejected_with(e) {
                let i = choose|i: int| cfg.first_error_at(i, e);
                assert(cfg.tabs[i].error(i) is None);
            }
        }
    } else if cfg.tabs.len() == 0 {
        assert(cfg.rejected_with(ConfigErrorV::NoTabs));
    } else {
        let bad = choose|i: int|
            0 <= i < cfg.tabs.len() && !((#[trigger] cfg.tabs[i]).error(i) is None);
        lemma_first_error(cfg, bad);
    }
}

/// Where the tab at `bad` is wrong, there is a first one that is.
proof fn lemma_first_error(cfg: ConfigV, bad: int)
    requires
        0 <= bad < cfg.tabs.len(),
        cfg.tabs[bad].error(bad) is Some,
    ensures
        exists|e: ConfigErrorV| cfg.rejected_with(e),
    decreases bad,
{
    if forall|j: int| 0 <= j < bad ==> (#[trigger] cfg.tabs[j]).error(j) is None {
        let e = cfg.tabs[bad].error(bad)->0;
        assert(cfg.first_error_at(bad, e));
        assert(cfg.rejected_with(e));
    } else {
        let earlier = choose|j: int|
            0 <= j < bad && !((#[trigger] cfg.tabs[j]).error(j) is None);
        lemma_first_error(cfg, earlier);
    }
}

/// In a valid configuration there is a tab, every tab is of a known kind, every `builds` tab has
/// a project that is not blank, and every `logs` tab such a log group.
pub proof fn law_valid_config_is_complete(cfg: ConfigV)
    requires
        cfg.valid(),
    ensures
        cfg.tabs.len() > 0,
        forall|i: int|
            0 <= i < cfg.tabs.len() ==> {
                let tab = #[trigger] cfg.tabs[i];
                match kind_named(tab.kind) {
                    Some(TabKind::Builds) => tab.project is Some && !blank(tab.project->0),
                    Some(TabKind::Logs) => tab.log_group is Some && !blank(tab.log_group->0),
                    None => false,
                }
            },
{
    assert forall|i: int| 0 <= i < cfg.tabs.len() implies {
        let tab = #[trigger] cfg.tabs[i];
        match kind_named(tab.kind) {
            Some(TabKind::Builds) => tab.project is Some && !blank(tab.project->0),
            Some(TabKind::Logs) => tab.log_group is Some && !blank(tab.log_group->0),
            None => false,
        }
    } by {
        assert(cfg.tabs[i].error(i) is None);
    }
}

/// The viewer opens on every valid configuration.
pub proof fn law_valid_config_opens(cfg: ConfigV)
    requires
        cfg.valid(),
    ensures
        cfg.tabs.len() > 0,
        AppV::can_open(cfg),
{
    assert forall|i: int| 0 <= i < cfg.tabs.len() implies resolved(
        #[trigger] cfg.tabs[i],
        cfg.region,
    ) is Ok by {
        assert(cfg.tabs[i].error(i) is None);
    }
}

/// The configuration that the template stands for, with the defaults for what it leaves out: the
/// runs of a project, and its log.
pub open spec fn template_config() -> ConfigV {
    ConfigV {
        region: None,
        refresh_interval_secs: 60,
        tabs: seq![
            TabV {
                name: "my-app builds"@,
                kind: "builds"@,
                region: None,
                project: Some("my-app"@),
                log_group: None,
                log_stream: None,
            },
            TabV {
                name: "my-app logs"@,
                kind: "logs"@,
                region: None,
                project: None,
                log_group: Some("/aws/codebuild/my-app"@),
                log_stream: None,
            },
        ],
    }
}

/// The tabs of the template keep the rules, whatever region and interval stand beside them, and the
/// viewer opens on them.
pub proof fn law_template_is_valid(cfg: ConfigV)
    requires
        cfg.tabs == template_config().tabs,
    ensures
        cfg.valid(),
        AppV::can_open(cfg),
{
    reveal_strlit("builds");
    reveal_strlit("logs");
    reveal_strlit("my-app");
    reveal_strlit("/aws/codebuild/my-app");
    assert(!white_space("my-app"@[0]));
    assert(!white_space("/aws/codebuild/my-app"@[0]));
    assert("builds"@.len() != "logs"@.len());
    assert(cfg.tabs[0].error(0) is None);
    assert(cfg.tabs[1].error(1) is None);
    law_valid_config_opens(cfg);
}

/// A first run without a file ends with the template at its place, and the next run, on the file as
/// it was written, goes on with what the template says.
pub proof fn law_template_loads_on_the_next_run(
    path: &str,
    cfg: Config,
    first: Result<Config, LoadError>,
    second: Result<Config, LoadError>,
)
    requires
        cfg@ == template_config(),
        call_ensures(load, (path, ConfigFile::Missing), first),
        call_ensures(load, (path, ConfigFile::Parsed(cfg)), second),
    ensures
        first matches Err(e) && e@ == LoadErrorV::Template(path@),
        second == Ok::<Config, LoadError>(cfg),
{
    law_template_is_valid(cfg@);
}

/// No two texts name the same kind.
pub proof fn law_kinds_have_one_name(a: Seq<char>, b: Seq<char>)
    requires
        kind_named(a) is Some,
        kind_named(a) == kind_named(b),
    ensures
        a == b,
{
}

/// The region of a tab goes before the default one, and without either there is none.
pub proof fn law_tab_region_goes_first(t: TabV, default_region: Option<Seq<char>>)
    requires
        resolved(t, default_region) is Ok,
    ensures
        t.region is Some ==> resolved(t, default_region)->Ok_0.region == t.region,
        t.region is None ==> resolved(t, default_region)->Ok_0.region == default_region,
{
}

/// An interval of zero disables the timed refresh.
pub proof fn law_zero_disables_timer(elapsed_secs: u64)
    ensures
        !due(0, elapsed_secs),
{
}

/// Once a timed refresh is due, it stays due until the time starts anew.
pub proof fn law_due_stays_due(interval_secs: u64, earlier: u64, later: u64)
    requires
        due(interval_secs, earlier),
        earlier <= later,
    ensures
        due(interval_secs, later),
{
}

/// A pane has no more lines than it may keep, each of the severity that its text gives it. Its
/// scroll position is one of its lines, the first where it has none, or the end.
pub open spec fn pane_well_formed(pane: LogTailPaneV) -> bool {
    &&& pane.lines.len() <= 5000
    &&& forall|i: int|
        0 <= i < pane.lines.len() ==> (#[trigger] pane.lines[i]).severity == severity_of(
            pane.lines[i].text,
        )
    &&& pane.scroll == FOLLOW || pane.scroll < pane.lines.len() || pane.scroll == 0
}

/// A tab holds what its kind asks for, its highlight is one of its runs, its pane is in order.
pub open spec fn tab_well_formed(tab: TabStateV) -> bool {
    match tab.data {
        TabDataV::Builds(b) => {
            &&& tab.spec.kind == TabKind::Builds
            &&& tab.spec.project is Some
            &&& b.selected < b.items.len() || b.selected == 0
        },
        TabDataV::Logs(l) => {
            &&& tab.spec.kind == TabKind::Logs
            &&& tab.spec.log_group is Some
            &&& l.pane matches Some(pane) ==> pane_well_formed(pane)
        },
    }
}

/// There is one tab for each configured one, under its name; the active tab is one of them; and
/// every tab is in order.
pub open spec fn well_formed(app: AppV) -> bool {
    &&& app.in_range()
    &&& app.tabs.len() == app.cfg.tabs.len()
    &&& forall|i: int|
        0 <= i < app.tabs.len() ==> (#[trigger] app.tabs[i]).name == app.cfg.tabs[i].name
    &&& forall|i: int| 0 <= i < app.tabs.len() ==> tab_well_formed(#[trigger] app.tabs[i])
}

/// The viewer opens in order.
pub proof fn law_opened_is_well_formed(cfg: ConfigV)
    requires
        cfg.tabs.len() > 0,
        AppV::can_open(cfg),
    ensures
        well_formed(AppV::opened(cfg)),
        well_formed(AppV::opened(cfg).refreshing()),
{
    let app = AppV::opened(cfg);
    assert forall|i: int| 0 <= i < app.tabs.len() implies tab_well_formed(
        #[trigger] app.tabs[i],
    ) by {
        assert(resolved(cfg.tabs[i], cfg.region) is Ok);
    }
}

/// Beginning a refresh keeps the viewer in order.
pub proof fn law_refresh_keeps_order(app: AppV)
    requires
        well_formed(app),
    ensures
        well_formed(app.refreshing()),
{
}

/// Switching to a tab that is there keeps the viewer in order.
pub proof fn law_switch_keeps_order(app: AppV, idx: usize)
    requires
        well_formed(app),
        app.has_tab(idx as int),
    ensures
        well_formed(app.switched(idx).refreshing()),
{
}

/// Starting a fetch keeps the viewer in order.
pub proof fn law_fetch_keeps_order(app: AppV, pending: Receiver<CodeBuildEvent>)
    requires
        well_formed(app),
    ensures
        well_formed(app.fetch_started(pending)),
{
}

/// Starting a tail with a pane in order, or failing to, keeps the viewer in order.
pub proof fn law_tail_keeps_order(app: AppV, start: TailStartV)
    requires
        well_formed(app),
        start matches TailStartV::Running { pane, pending } ==> pane_well_formed(pane),
    ensures
        well_formed(app.tail_started(start)),
{
}

/// Moving the selection keeps the viewer in order.
pub proof fn law_move_keeps_order(app: AppV, delta: int)
    requires
        well_formed(app),
        app.can_move(delta),
    ensures
        well_formed(app.moved(delta)),
{
}

/// Taking in what was reported keeps the viewer in order.
pub proof fn law_drain_keeps_order(app: AppV, inboxes: Seq<InboxV>)
    requires
        well_formed(app),
    ensures
        well_formed(app.drained(inboxes)),
{
    let after = app.drained(inboxes);
    assert forall|i: int| 0 <= i < after.tabs.len() implies tab_well_formed(
        #[trigger] after.tabs[i],
    ) by {
        let tab = app.tabs[i];
        assert(tab_well_formed(tab));
        match tab.data {
            TabDataV::Builds(b) => lemma_fetch_keeps_order(b, inboxes[i].fetched),
            TabDataV::Logs(l) => lemma_tail_keeps_order(l, inboxes[i].tailed),
        }
    }
    assert forall|i: int| 0 <= i < after.tabs.len() implies (#[trigger] after.tabs[i]).name
        == after.cfg.tabs[i].name by {
        assert(app.tabs[i].name == app.cfg.tabs[i].name);
    }
}

/// The reports of a fetch keep the highlight on a run.
proof fn lemma_fetch_keeps_order(b: BuildsTabV, events: Seq<(CodeBuildEventV, Instant)>)
    requires
        b.selected < b.items.len() || b.selected == 0,
    ensures
        b.after_all(events).selected < b.after_all(events).items.len() || b.after_all(
            events,
        ).selected == 0,
    decreases events.len(),
{
    if events.len() > 0 {
        lemma_fetch_keeps_order(b, events.drop_last());
    }
}

/// The reports of a tail keep its pane in order.
proof fn lemma_tail_keeps_order(l: LogsTabV, events: Seq<LogTailEventV>)
    requires
        l.pane matches Some(pane) ==> pane_well_formed(pane),
    ensures
        l.after_all(events).pane matches Some(pane) ==> pane_well_formed(pane),
    decreases events.len(),
{
    if events.len() > 0 {
        lemma_tail_keeps_order(l, events.drop_last());
    }
}

/// Taking in what was reported leaves the configuration, the active tab, and the name, the target
/// and the kind of every tab as they are.
pub proof fn law_drain_keeps_tabs(app: AppV, inboxes: Seq<InboxV>)
    ensures
        app.drained(inboxes).cfg == app.cfg,
        app.drained(inboxes).active_tab == app.active_tab,
        app.drained(inboxes).tabs.len() == app.tabs.len(),
        forall|i: int|
            0 <= i < app.tabs.len() ==> {
                let after = #[trigger] app.drained(inboxes).tabs[i];
                &&& after.name == app.tabs[i].name
                &&& after.spec == app.tabs[i].spec
                &&& after.data is Builds <==> app.tabs[i].data is Builds
            },
{
}

/// Whether background work still reports to the tab.
pub open spec fn listening(tab: TabStateV) -> bool {
    match tab.data {
        TabDataV::Builds(b) => b.pending is Some,
        TabDataV::Logs(l) => l.pending is Some,
    }
}

/// Where no background work is under way, a round of looking changes nothing.
pub proof fn law_quiet_drain_changes_nothing(app: AppV, inboxes: Seq<InboxV>)
    requires
        forall|i: int| 0 <= i < app.tabs.len() ==> !listening(#[trigger] app.tabs[i]),
    ensures
        app.drained(inboxes) == app,
        !app.drain_news(inboxes),
{
    lemma_quiet_status(app, inboxes, app.tabs.len() as int);
    assert(app.drained(inboxes).tabs =~= app.tabs) by {
        assert forall|i: int| 0 <= i < app.tabs.len() implies #[trigger] app.drained(
            inboxes,
        ).tabs[i] == app.tabs[i] by {
            assert(!listening(app.tabs[i]));
        }
    }
    assert forall|i: int| 0 <= i < app.tabs.len() implies !(#[trigger] app.tabs[i]).drain_news(
        inboxes[i],
    ) by {
        assert(!listening(app.tabs[i]));
    }
}

/// Where no background work is under way, the status text stays.
proof fn lemma_quiet_status(app: AppV, inboxes: Seq<InboxV>, n: int)
    requires
        n <= app.tabs.len(),
        forall|i: int| 0 <= i < app.tabs.len() ==> !listening(#[trigger] app.tabs[i]),
    ensures
        app.status_after(inboxes, n) == app.status,
    decreases n,
{
    if n > 0 {
        lemma_quiet_status(app, inboxes, n - 1);
        assert(!listening(app.tabs[n - 1]));
    }
}

/// Where background work is under way but silent, a round of looking changes nothing.
pub proof fn law_silent_drain_changes_nothing(app: AppV, inboxes: Seq<InboxV>)
    requires
        forall|i: int|
            #![trigger inboxes[i]]
            0 <= i < app.tabs.len() ==> {
                &&& inboxes[i].fetched.len() == 0
                &&& inboxes[i].tailed.len() == 0
                &&& !inboxes[i].closed
            },
    ensures
        app.drained(inboxes) == app,
        !app.drain_news(inboxes),
{
    lemma_silent_status(app, inboxes, app.tabs.len() as int);
    assert forall|i: int| 0 <= i < app.tabs.len() implies #[trigger] app.drained(inboxes).tabs[i]
        == app.tabs[i] && !app.tabs[i].drain_news(inboxes[i]) by {
        assert(!end_of_tail(inboxes[i].tailed));
    }
    assert(app.drained(inboxes).tabs =~= app.tabs);
    assert forall|i: int| 0 <= i < app.tabs.len() implies !(#[trigger] app.tabs[i]).drain_news(
        inboxes[i],
    ) by {
        assert(app.drained(inboxes).tabs[i] == app.tabs[i]);
    }
}

/// Where background work is silent, the status text stays.
proof fn lemma_silent_status(app: AppV, inboxes: Seq<InboxV>, n: int)
    requires
        n <= app.tabs.len(),
        forall|i: int|
            #![trigger inboxes[i]]
            0 <= i < app.tabs.len() ==> {
                &&& inboxes[i].fetched.len() == 0
                &&& inboxes[i].tailed.len() == 0
            },
    ensures
        app.status_after(inboxes, n) == app.status,
    decreases n,
{
    if n > 0 {
        lemma_silent_status(app, inboxes, n - 1);
        assert(inboxes[n - 1].fetched.len() == 0);
    }
}

/// Whether nothing has happened to a channel between two rounds of looking at it: the first look of
/// the second round finds what the last look of the first round found.
pub open spec fn unchanged_since(first: RoundV, second: RoundV) -> bool {
    match (first, second) {
        (RoundV::Fetch(before), RoundV::Fetch(after)) => after[0].0.found
            == before.last().0.found,
        (RoundV::Tail(before), RoundV::Tail(after)) => after[0].found == before.last().found,
        _ => true,
    }
}

/// A round of looking leaves nothing unread: where nothing has happened to any channel since,
/// another round right after it brings nothing, and what it leaves is what looking alone leaves.
pub proof fn law_second_drain_changes_nothing(
    app: AppV,
    first: Seq<RoundV>,
    second: Seq<RoundV>,
)
    requires
        app.looked_through(first),
        app.after_rounds(first).drained(inboxes_of(first)).looked_through(second),
        forall|i: int|
            0 <= i < app.tabs.len() ==> unchanged_since(#[trigger] first[i], second[i]),
    ensures
        ({
            let between = app.after_rounds(first).drained(inboxes_of(first));
            &&& between.after_rounds(second).drained(inboxes_of(second)) == between.after_rounds(
                second,
            )
            &&& !between.after_rounds(second).drain_news(inboxes_of(second))
        }),
{
    let between = app.after_rounds(first).drained(inboxes_of(first));
    assert forall|i: int|
        #![trigger inboxes_of(second)[i]]
        0 <= i < between.tabs.len() implies inboxes_of(second)[i] == InboxV::empty() by {
        lemma_second_round_is_empty(app.tabs[i], first[i], second[i]);
    }
    law_silent_drain_changes_nothing(between.after_rounds(second), inboxes_of(second));
}

/// A whole round of a tab, right after another one, finds nothing.
proof fn lemma_second_round_is_empty(tab: TabStateV, first: RoundV, second: RoundV)
    requires
        first.whole_for(tab),
        second.whole_for(tab.after_round(first).drained(first.inbox())),
        unchanged_since(first, second),
    ensures
        second.inbox() == InboxV::empty(),
{
    let between = tab.after_round(first).drained(first.inbox());
    match tab.data {
        TabDataV::Builds(b) => if between.data->Builds_0.pending is Some {
            let before = first->Fetch_0;
            let after = second->Fetch_0;
            reveal_with_fuel(fetch_inbox, 2);
            assert(found_by(untimed(before)).last() == before.last().0.found);
            assert(before.last().0.found is Empty);
            assert(found_by(untimed(after))[0] == after[0].0.found);
            assert(after.len() == 1);
            assert(after.drop_last() =~= Seq::empty());
        },
        TabDataV::Logs(l) => if between.data->Logs_0.pending is Some {
            let before = first->Tail_0;
            let after = second->Tail_0;
            reveal_with_fuel(tail_inbox, 2);
            assert(found_by(before).last() == before.last().found);
            assert(before.last().found is Empty);
            assert(found_by(after)[0] == after[0].found);
            assert(after.len() == 1);
            assert(after.drop_last() =~= Seq::empty());
        },
    }
}

/// Looking alone leaves everything as it is but the handles of the channels, and no channel is
/// gained or lost.
pub proof fn law_looking_changes_handles_only(app: AppV, rounds: Seq<RoundV>)
    requires
        app.looked_through(rounds),
    ensures
        app.after_rounds(rounds).cfg == app.cfg,
        app.after_rounds(rounds).active_tab == app.active_tab,
        app.after_rounds(rounds).status == app.status,
        app.after_rounds(rounds).tabs.len() == app.tabs.len(),
        forall|i: int|
            0 <= i < app.tabs.len() ==> {
                let after = #[trigger] app.after_rounds(rounds).tabs[i];
                &&& after.name == app.tabs[i].name
                &&& after.spec == app.tabs[i].spec
                &&& match (app.tabs[i].data, after.data) {
                    (TabDataV::Builds(a), TabDataV::Builds(b)) => {
                        &&& b == (BuildsTabV { pending: b.pending, ..a })
                        &&& b.pending is Some <==> a.pending is Some
                    },
                    (TabDataV::Logs(a), TabDataV::Logs(b)) => {
                        &&& b == (LogsTabV { pending: b.pending, ..a })
                        &&& b.pending is Some <==> a.pending is Some
                    },
                    _ => false,
                }
            },
{
    assert forall|i: int| 0 <= i < app.tabs.len() implies (#[trigger] rounds[i]).whole_for(
        app.tabs[i],
    ) by {}
    assert forall|i: int| 0 <= i < app.tabs.len() implies {
        let after = #[trigger] app.after_rounds(rounds).tabs[i];
        &&& after.name == app.tabs[i].name
        &&& after.spec == app.tabs[i].spec
        &&& match (app.tabs[i].data, after.data) {
            (TabDataV::Builds(a), TabDataV::Builds(b)) => {
                &&& b == (BuildsTabV { pending: b.pending, ..a })
                &&& b.pending is Some <==> a.pending is Some
            },
            (TabDataV::Logs(a), TabDataV::Logs(b)) => {
                &&& b == (LogsTabV { pending: b.pending, ..a })
                &&& b.pending is Some <==> a.pending is Some
            },
            _ => false,
        }
    } by {
        assert(rounds[i].whole_for(app.tabs[i]));
    }
}

/// Looking alone keeps the viewer in order.
pub proof fn law_looking_keeps_order(app: AppV, rounds: Seq<RoundV>)
    requires
        well_formed(app),
        app.looked_through(rounds),
    ensures
        well_formed(app.after_rounds(rounds)),
{
    let after = app.after_rounds(rounds);
    assert forall|i: int| 0 <= i < after.tabs.len() implies tab_well_formed(
        #[trigger] after.tabs[i],
    ) && after.tabs[i].name == after.cfg.tabs[i].name by {
        assert(rounds[i].whole_for(app.tabs[i]));
        assert(tab_well_formed(app.tabs[i]));
    }
}

/// A fetch that brings runs ends the loading: they are shown, the error and the channel are gone.
pub proof fn law_fetch_brings_builds(
    b: BuildsTabV,
    pending: Receiver<CodeBuildEvent>,
    builds: Seq<CodeBuildRecordV>,
    now: Instant,
    closed: bool,
)
    ensures
        ({
            let inbox = InboxV {
                fetched: seq![(CodeBuildEventV::Builds(builds), now)],
                tailed: Seq::empty(),
                closed,
            };
            let after = b.fetching(pending).drained(inbox);
            &&& after.items == builds
            &&& after.selected < builds.len() || builds.len() == 0 && after.selected == 0
            &&& b.selected < builds.len() ==> after.selected == b.selected
            &&& after.last_error is None
            &&& !after.loading
            &&& after.pending is None
            &&& after.last_fetched == Some(now)
        }),
{
    let events = seq![(CodeBuildEventV::Builds(builds), now)];
    assert(events.drop_last() =~= Seq::empty());
    reveal_with_fuel(BuildsTabV::after_all, 2);
}

/// A fetch that fails ends the loading too: the reason is kept, and so are the runs known before.
pub proof fn law_failed_fetch_keeps_builds(
    b: BuildsTabV,
    pending: Receiver<CodeBuildEvent>,
    reason: Seq<char>,
    now: Instant,
    closed: bool,
)
    ensures
        ({
            let inbox = InboxV {
                fetched: seq![(CodeBuildEventV::Failed(reason), now)],
                tailed: Seq::empty(),
                closed,
            };
            b.fetching(pending).drained(inbox) == (BuildsTabV {
                last_error: Some(reason),
                loading: false,
                pending: None,
                ..b
            })
        }),
{
    let events = seq![(CodeBuildEventV::Failed(reason), now)];
    assert(events.drop_last() =~= Seq::empty());
    reveal_with_fuel(BuildsTabV::after_all, 2);
}

/// A tail is started once: while there is a pane, a refresh of its tab changes nothing and starts
/// nothing.
pub proof fn law_running_tail_is_left_alone(app: AppV)
    requires
        app.in_range(),
        app.active().spec.kind == TabKind::Logs,
        app.active().data matches TabDataV::Logs(l) && l.pane is Some,
    ensures
        app.refreshing() == app,
        app.active().refresh() == RefreshV::Nothing,
{
}

/// After a tail was started for a tab, another refresh of it starts nothing.
pub proof fn law_tail_starts_once(
    app: AppV,
    pane: LogTailPaneV,
    pending: Receiver<LogTailEvent>,
)
    requires
        app.in_range(),
        app.active().spec.kind == TabKind::Logs,
        app.active().data is Logs,
    ensures
        app.tail_started(TailStartV::Running { pane, pending }).active().refresh()
            == RefreshV::Nothing,
{
}

/// After a tail was refused, another refresh tries again.
pub proof fn law_refused_tail_is_tried_again(app: AppV, reason: Seq<char>)
    requires
        app.in_range(),
        app.active().refresh() is TailLogs,
    ensures
        app.refreshing().tail_started(TailStartV::Refused(reason)).active().refresh()
            == app.active().refresh(),
{
}

/// The first refresh of a tab asks for just what is configured: the project of a `builds` tab, the
/// log group and the stream of a `logs` tab, without a stream where none is named, and the region
/// of the tab or else the default one.
pub proof fn law_refresh_asks_for_what_is_configured(cfg: ConfigV, i: int)
    requires
        AppV::can_open(cfg),
        0 <= i < cfg.tabs.len(),
    ensures
        ({
            let tab = cfg.tabs[i];
            let region = or_else(tab.region, cfg.region);
            AppV::opened(cfg).tabs[i].refresh() == (match kind_named(tab.kind)->0 {
                TabKind::Builds => RefreshV::FetchBuilds { project: tab.project->0, region },
                TabKind::Logs => RefreshV::TailLogs {
                    log_group: tab.log_group->0,
                    log_stream: tab.log_stream,
                    region,
                },
            })
        }),
{
    assert(resolved(cfg.tabs[i], cfg.region) is Ok);
}

/// A refresh of a `builds` tab asks for its project, in its region.
pub proof fn law_refresh_asks_for_project(app: AppV)
    requires
        well_formed(app),
        app.active().data is Builds,
    ensures
        app.active().refresh() == (RefreshV::FetchBuilds {
            project: app.active().spec.project->0,
            region: app.active().spec.region,
        }),
{
    assert(tab_well_formed(app.tabs[app.active_tab as int]));
}

/// Moving the selection touches the data of the active tab and nothing else.
pub proof fn law_move_touches_active_tab_only(app: AppV, delta: int)
    requires
        app.in_range(),
    ensures
        app.moved(delta).cfg == app.cfg,
        app.moved(delta).active_tab == app.active_tab,
        app.moved(delta).status == app.status,
        app.moved(delta).tabs.len() == app.tabs.len(),
        app.moved(delta).active().name == app.active().name,
        app.moved(delta).active().spec == app.active().spec,
        forall|i: int|
            0 <= i < app.tabs.len() && i != app.active_tab ==> #[trigger] app.moved(delta).tabs[i]
                == app.tabs[i],
{
}

/// Moving the highlight and moving it back leaves it where it was, unless an end stopped it.
pub proof fn law_move_and_back(b: BuildsTabV, delta: int)
    requires
        b.items.len() <= isize::MAX,
        b.selected < b.items.len(),
        0 <= b.selected + delta < b.items.len(),
    ensures
        b.moved(delta).moved(-delta) == b,
{
}

/// The highlight stops at the first and at the last run.
pub proof fn law_highlight_stops_at_ends(b: BuildsTabV, delta: int)
    requires
        0 < b.items.len() <= isize::MAX,
        b.selected < b.items.len(),
    ensures
        b.selected + delta <= 0 ==> b.moved(delta).selected == 0,
        b.selected + delta >= b.items.len() - 1 ==> b.moved(delta).selected == b.items.len() - 1,
{
}

/// Scrolling down beyond the last line makes a pane follow its log, and a pane that follows goes on
/// doing so.
pub proof fn law_scrolling_to_end_follows(pane: LogTailPaneV, delta: int)
    requires
        0 <= delta,
        pane.scroll + delta >= pane.lines.len(),
    ensures
        pane.scrolled(delta).scroll == FOLLOW,
        pane.scrolled(delta).scrolled(delta).scroll == FOLLOW,
{
}

/// Scrolling up within the lines and down again by as many leaves the pane where it was.
pub proof fn law_scroll_and_back(pane: LogTailPaneV, n: int)
    requires
        0 < n <= pane.scroll < pane.lines.len(),
        pane.lines.len() <= MAX_LINES,
    ensures
        pane.scrolled(-n).scrolled(n) == pane,
{
}

/// A window shows lines of the log, in their order, no more than it has rows, and as many as there
/// are to fill it.
pub proof fn law_window_is_filled(pane: LogTailPaneV, rows: int)
    requires
        0 < rows,
    ensures
        0 <= pane.window_start(rows) <= pane.lines.len(),
        pane.window(rows).len() == (if pane.lines.len() <= rows {
            pane.lines.len() as int
        } else {
            rows
        }),
        pane.window(rows) == pane.lines.subrange(
            pane.window_start(rows),
            pane.window_start(rows) + pane.window(rows).len(),
        ),
{
    assert(pane.window(rows) =~= pane.lines.subrange(
        pane.window_start(rows),
        pane.window_start(rows) + pane.window(rows).len(),
    ));
}

/// A pane that follows its log shows its last lines.
pub proof fn law_following_shows_last_lines(pane: LogTailPaneV, rows: int)
    requires
        0 <= rows,
        pane.scroll == FOLLOW,
    ensures
        pane.window(rows) == last_of(pane.lines, rows as nat),
{
    assert(pane.window(rows) =~= last_of(pane.lines, rows as nat));
}

/// The lines among the reports of a tail, with their severities.
pub open spec fn lines_in(events: Seq<LogTailEventV>) -> Seq<LogLineV>
    decreases events.len(),
{
    if events.len() == 0 {
        Seq::empty()
    } else {
        match events.last() {
            LogTailEventV::Line(text) => lines_in(events.drop_last()).push(
                LogLineV { text, severity: severity_of(text) },
            ),
            _ => lines_in(events.drop_last()),
        }
    }
}

/// Whatever its tail reports, a pane keeps the last lines of those that it had and those that were
/// written since, and gives up the oldest first. Without a new line it keeps what it has. The last
/// breakdown is the error that stands.
pub proof fn law_tail_keeps_last_lines(l: LogsTabV, events: Seq<LogTailEventV>)
    requires
        l.pane is Some,
    ensures
        l.after_all(events) == (LogsTabV {
            pane: Some(
                LogTailPaneV {
                    lines: if lines_in(events).len() == 0 {
                        l.pane->0.lines
                    } else {
                        last_of(l.pane->0.lines + lines_in(events), 5000)
                    },
                    ..l.pane->0
                },
            ),
            last_error: or_else(last_breakdown(events), l.last_error),
            ..l
        }),
    decreases events.len(),
{
    if events.len() > 0 {
        let fewer = events.drop_last();
        law_tail_keeps_last_lines(l, fewer);
        if let LogTailEventV::Line(text) = events.last() {
            let line = line_of(text);
            let all = l.pane->0.lines + lines_in(fewer);
            assert(all.push(line) =~= l.pane->0.lines + lines_in(events));
            if lines_in(fewer).len() == 0 {
                assert(all =~= l.pane->0.lines);
            } else {
                assert(last_of(last_of(all, 5000).push(line), 5000)
                    =~= last_of(all.push(line), 5000));
            }
        }
    }
}

/// An error is on the screen as long as it stands, whatever else the tab holds. The next fetch of a
/// `builds` tab takes it off.
pub proof fn law_error_goes_first(
    name: Seq<char>,
    b: BuildsTabV,
    l: LogsTabV,
    height: u16,
    pending: Receiver<CodeBuildEvent>,
)
    ensures
        b.last_error matches Some(error) ==> {
            &&& builds_screen(name, b) matches BuildsScreenV::Notice(notice)
            &&& notice.text == "error: "@ + error + "\n\nPress `r` to retry."@
        },
        l.last_error matches Some(error) ==> {
            &&& logs_screen(name, l, height) matches LogsScreenV::Notice(notice)
            &&& notice.text == "error: "@ + error
        },
        b.fetching(pending).last_error is None,
{
}

} // verus!
