//! What holds of the tabs: opening, switching, moving, refreshing, opening a run.

use crate::app::{
    resolved, App, AppV, Refresh, ResolveError, TabData, TabKind, TabSpec, TabState, TabStateV, TailStart,
};
use crate::codebuild::CodeBuildEvent;
use crate::config::{Config, Tab};
use crate::event_loop::{after_key, Step, Tick};
use crate::laws::config::{complete, lemma_kinds_differ};
use std::sync::mpsc::Receiver;
use vstd::prelude::*;

verus! {

/// A kind is known by its name and by no other.
pub proof fn law_kind_is_known_by_name(s: &str, parsed: Result<TabKind, ResolveError>)
    requires
        call_ensures(TabKind::from_str, (s,), parsed),
    ensures
        parsed matches Ok(kind) && kind == TabKind::Builds <==> s@ == "builds"@,
        parsed matches Ok(kind) && kind == TabKind::Logs <==> s@ == "logs"@,
        parsed matches Err(e) ==> (e matches ResolveError::UnknownKind(name) && name@ == s@),
{
    lemma_kinds_differ();
}

/// A tab is pointed at what it names: a `builds` tab at its project and nothing else, a `logs` tab
/// at its log group and its stream. Its own region counts, or else the default one.
pub proof fn law_tab_is_pointed_at_what_it_names(
    t: &Tab,
    default_region: Option<&str>,
    outcome: Result<TabSpec, ResolveError>,
)
    requires
        call_ensures(TabSpec::resolve, (t, default_region), outcome),
    ensures
        outcome is Ok <==> t.kind@ == "builds"@ && t.project is Some || t.kind@ == "logs"@
            && t.log_group is Some,
        outcome matches Ok(spec) ==> {
            &&& t.region matches Some(own) ==> (spec.region matches Some(region) && region@ == own@)
            &&& t.region is None ==> spec.region.deep_view() == default_region.deep_view()
            &&& t.kind@ == "builds"@ ==> {
                &&& spec.kind == TabKind::Builds
                &&& spec.project matches Some(project)
                &&& project@ == t.project->0@
                &&& spec.log_group is None
                &&& spec.log_stream is None
            }
            &&& t.kind@ == "logs"@ ==> {
                &&& spec.kind == TabKind::Logs
                &&& spec.log_group matches Some(group)
                &&& group@ == t.log_group->0@
                &&& spec.log_stream.deep_view() == t.log_stream.deep_view()
                &&& spec.project is None
            }
        },
        outcome matches Err(e) ==> match e {
            ResolveError::UnknownKind(kind) => {
                &&& kind@ == t.kind@
                &&& kind@ != "builds"@
                &&& kind@ != "logs"@
            },
            ResolveError::MissingProject => t.kind@ == "builds"@,
            ResolveError::MissingLogGroup => t.kind@ == "logs"@,
        },
{
    lemma_kinds_differ();
}

/// The sentence of a refusal says what is wrong with the tab.
pub proof fn law_refusal_is_told(e: &ResolveError, text: String)
    requires
        call_ensures(ResolveError::message, (e,), text),
    ensures
        match *e {
            ResolveError::UnknownKind(kind) => text@ == "unknown tab kind: "@ + kind@,
            ResolveError::MissingProject => text@ == "`project` required for kind `builds`"@,
            ResolveError::MissingLogGroup => text@ == "`log_group` required for kind `logs`"@,
        },
{
}

/// A tab that was just opened has loaded nothing: no runs, no pane, no error, nothing under way.
pub proof fn law_new_tab_is_empty(kind: TabKind, data: TabData)
    requires
        call_ensures(TabData::empty_for, (kind,), data),
    ensures
        match kind {
            TabKind::Builds => {
                &&& data matches TabData::Builds(b)
                &&& b.items.len() == 0
                &&& b.selected == 0
                &&& b.last_error is None
                &&& !b.loading
                &&& b.pending is None
                &&& b.last_fetched is None
            },
            TabKind::Logs => {
                &&& data matches TabData::Logs(l)
                &&& l.pane is None
                &&& l.pending is None
                &&& l.last_error is None
            },
        },
{
    if let TabData::Builds(b) = data {
        assert(b@.items.len() == b.items.len());
    }
}

/// Whether `refresh` is the work that refreshes `tab`: the runs of its project, or the tail of its
/// log group and stream, in its region. A log tab that has a pane needs nothing.
pub open spec fn asked_for(tab: TabState, refresh: Refresh) -> bool {
    match tab.spec.kind {
        TabKind::Builds => {
            &&& refresh matches Refresh::FetchBuilds { project, region }
            &&& tab.spec.project matches Some(named) ==> project@ == named@
            &&& tab.spec.project is None ==> project@.len() == 0
            &&& region.deep_view() == tab.spec.region.deep_view()
        },
        TabKind::Logs => if tab.data matches TabData::Logs(l) && l.pane is None {
            &&& refresh matches Refresh::TailLogs { log_group, log_stream, region }
            &&& tab.spec.log_group matches Some(named) ==> log_group@ == named@
            &&& tab.spec.log_group is None ==> log_group@.len() == 0
            &&& log_stream.deep_view() == tab.spec.log_stream.deep_view()
            &&& region.deep_view() == tab.spec.region.deep_view()
        } else {
            refresh is Nothing
        },
    }
}

/// Whether the status text `after` announces a refresh of `tab`. Where there is nothing to start,
/// it stays at `before`.
pub open spec fn announced(tab: TabState, before: Seq<char>, after: Seq<char>) -> bool {
    match tab.spec.kind {
        TabKind::Builds => after == "refreshing "@ + tab.name@ + "…"@,
        TabKind::Logs => if tab.data matches TabData::Logs(l) && l.pane is None {
            after == "starting "@ + tab.name@ + "…"@
        } else {
            after == before
        },
    }
}

/// Whether `tab` is the one that opens for the configured tab `t`: under its name, of its kind,
/// pointed at what it names, in its own region or else the default one, with nothing loaded.
pub open spec fn opened_for(tab: TabState, t: Tab, default_region: Option<String>) -> bool {
    &&& tab.name@ == t.name@
    &&& t.region is Some ==> tab.spec.region.deep_view() == t.region.deep_view()
    &&& t.region is None ==> tab.spec.region.deep_view() == default_region.deep_view()
    &&& t.kind@ == "builds"@ ==> {
        &&& tab.spec.kind == TabKind::Builds
        &&& tab.spec.project.deep_view() == t.project.deep_view()
        &&& tab.data matches TabData::Builds(b)
        &&& b.items.len() == 0
        &&& !b.loading
        &&& b.last_error is None
        &&& b.pending is None
    }
    &&& t.kind@ == "logs"@ ==> {
        &&& tab.spec.kind == TabKind::Logs
        &&& tab.spec.log_group.deep_view() == t.log_group.deep_view()
        &&& tab.spec.log_stream.deep_view() == t.log_stream.deep_view()
        &&& tab.data matches TabData::Logs(l)
        &&& l.pane is None
        &&& l.last_error is None
        &&& l.pending is None
    }
}

/// Whether a tab names enough to be opened: a project for runs, a log group for a log.
pub open spec fn names_enough(t: Tab) -> bool {
    t.kind@ == "builds"@ && t.project is Some || t.kind@ == "logs"@ && t.log_group is Some
}

/// The viewer opens just where every tab names enough, so on every complete configuration, with one
/// tab for each configured one and the first one active. It asks for the refresh of that one.
pub proof fn law_viewer_opens_a_tab_for_each(
    cfg: Config,
    outcome: Result<(App, Refresh), ResolveError>,
)
    requires
        cfg.tabs.len() > 0,
        call_ensures(App::new, (cfg,), outcome),
    ensures
        outcome is Ok <==> forall|i: int|
            0 <= i < cfg.tabs.len() ==> names_enough(#[trigger] cfg.tabs[i]),
        (forall|i: int| 0 <= i < cfg.tabs.len() ==> complete((#[trigger] cfg.tabs[i])@))
            ==> outcome is Ok,
        outcome matches Ok((app, refresh)) ==> {
            &&& app.cfg@ == cfg@
            &&& app.active_tab == 0
            &&& app.tabs.len() == cfg.tabs.len()
            &&& forall|i: int|
                0 <= i < cfg.tabs.len() ==> opened_for(
                    app.tabs[i],
                    #[trigger] cfg.tabs[i],
                    cfg.region,
                )
            &&& asked_for(app.tabs[0], refresh)
            &&& announced(app.tabs[0], Seq::empty(), app.status@)
        },
{
    lemma_kinds_differ();
    assert forall|i: int| 0 <= i < cfg.tabs.len() implies (names_enough(#[trigger] cfg.tabs[i])
        <==> resolved(cfg@.tabs[i], cfg@.region) is Ok) by {
        assert(cfg@.tabs[i] == cfg.tabs[i]@);
    }
    if forall|i: int| 0 <= i < cfg.tabs.len() ==> names_enough(#[trigger] cfg.tabs[i]) {
        assert forall|i: int| 0 <= i < cfg@.tabs.len() implies resolved(
            #[trigger] cfg@.tabs[i],
            cfg@.region,
        ) is Ok by {
            assert(names_enough(cfg.tabs[i]));
        }
    }
    if outcome is Ok {
        assert forall|i: int| 0 <= i < cfg.tabs.len() implies names_enough(
            #[trigger] cfg.tabs[i],
        ) by {
            assert(resolved(cfg@.tabs[i], cfg@.region) is Ok);
        }
    }
    if forall|i: int| 0 <= i < cfg.tabs.len() ==> complete((#[trigger] cfg.tabs[i])@) {
        assert forall|i: int| 0 <= i < cfg.tabs.len() implies names_enough(
            #[trigger] cfg.tabs[i],
        ) by {
            assert(complete(cfg.tabs[i]@));
        }
    }
    if let Ok((app, refresh)) = outcome {
        assert(app@.tabs.len() == app.tabs.len());
        assert forall|i: int| 0 <= i < cfg.tabs.len() implies opened_for(
            app.tabs[i],
            #[trigger] cfg.tabs[i],
            cfg.region,
        ) by {
            assert(app@.tabs[i] == app.tabs[i]@);
            assert(cfg@.tabs[i] == cfg.tabs[i]@);
            assert(resolved(cfg@.tabs[i], cfg@.region) is Ok);
            if let TabData::Builds(b) = app.tabs[i].data {
                assert(b@.items.len() == b.items.len());
            }
        }
        assert(app@.tabs[0] == app.tabs[0]@);
        assert(names_enough(cfg.tabs[0]));
        assert(opened_for(app.tabs[0], cfg.tabs[0], cfg.region));
    }
}

/// A viewer that does not open tells of the first tab that does not name enough.
pub proof fn law_refusal_tells_of_first_tab(cfg: Config, e: ResolveError)
    requires
        cfg.tabs.len() > 0,
        call_ensures(App::new, (cfg,), Err::<(App, Refresh), ResolveError>(e)),
    ensures
        exists|i: int|
            {
                let t = #[trigger] cfg.tabs[i];
                &&& 0 <= i < cfg.tabs.len()
                &&& !names_enough(t)
                &&& forall|j: int| 0 <= j < i ==> names_enough(#[trigger] cfg.tabs[j])
                &&& match e {
                    ResolveError::UnknownKind(kind) => {
                        &&& kind@ == t.kind@
                        &&& kind@ != "builds"@
                        &&& kind@ != "logs"@
                    },
                    ResolveError::MissingProject => t.kind@ == "builds"@,
                    ResolveError::MissingLogGroup => t.kind@ == "logs"@,
                }
            },
{
    lemma_kinds_differ();
    let i = choose|i: int| AppV::first_refusal(cfg@, i, e@);
    assert(cfg@.tabs[i] == cfg.tabs[i]@);
    assert forall|j: int| 0 <= j < i implies names_enough(#[trigger] cfg.tabs[j]) by {
        assert(cfg@.tabs[j] == cfg.tabs[j]@);
        assert(resolved(cfg@.tabs[j], cfg@.region) is Ok);
    }
    assert(!names_enough(cfg.tabs[i]));
}

/// Switching makes the tab at the index active and asks for its refresh. The tabs stay as they are.
/// Where there is no such tab, nothing changes.
pub proof fn law_switching_shows_the_tab_at_the_index(
    app: &mut App,
    idx: usize,
    refresh: Refresh,
)
    requires
        call_ensures(App::switch_tab, (app, idx), refresh),
    ensures
        final(app)@.tabs == old(app)@.tabs,
        final(app)@.cfg == old(app)@.cfg,
        idx < old(app).tabs.len() ==> {
            &&& final(app).active_tab == idx
            &&& asked_for(old(app).tabs[idx as int], refresh)
            &&& announced(old(app).tabs[idx as int], old(app).status@, final(app).status@)
        },
        idx >= old(app).tabs.len() ==> {
            &&& final(app).active_tab == old(app).active_tab
            &&& final(app)@.status == old(app)@.status
            &&& refresh is Nothing
        },
{
    assert(old(app)@.tabs.len() == old(app).tabs.len());
    if idx < old(app).tabs.len() {
        assert(old(app)@.tabs[idx as int] == old(app).tabs[idx as int]@);
    }
}

/// The active tab is the one at the active index.
pub proof fn law_active_tab_is_at_active_index(app: &App, tab: &TabState)
    requires
        app.active_tab < app.tabs.len(),
        call_ensures(App::active, (app,), tab),
    ensures
        *tab == app.tabs[app.active_tab as int],
{
}

/// A refresh begins with an announcement in the status text and asks for the work: the runs of the
/// project, or the tail of the log group. A log tab that has a pane asks for nothing and announces
/// nothing. Nothing but the status text changes.
pub proof fn law_refresh_is_announced_and_asked_for(app: &mut App, refresh: Refresh)
    requires
        old(app).active_tab < old(app).tabs.len(),
        call_ensures(App::refresh_active, (app,), refresh),
    ensures
        final(app)@.tabs == old(app)@.tabs,
        final(app)@.cfg == old(app)@.cfg,
        final(app).active_tab == old(app).active_tab,
        asked_for(old(app).tabs[old(app).active_tab as int], refresh),
        announced(
            old(app).tabs[old(app).active_tab as int],
            old(app).status@,
            final(app).status@,
        ),
{
    let i = old(app).active_tab as int;
    assert(old(app)@.tabs[i] == old(app).tabs[i]@);
}

/// The other tabs, the configuration and the active index stay as they are.
pub open spec fn only_active_tab_differs(before: App, after: App) -> bool {
    &&& after@.cfg == before@.cfg
    &&& after.active_tab == before.active_tab
    &&& after.tabs.len() == before.tabs.len()
    &&& forall|i: int|
        0 <= i < before.tabs.len() && i != before.active_tab ==> (#[trigger] after.tabs[i])@
            == before.tabs[i]@
    &&& after.tabs[after.active_tab as int].name@ == before.tabs[before.active_tab as int].name@
    &&& after.tabs[after.active_tab as int].spec@ == before.tabs[before.active_tab as int].spec@
}

/// Where the views say that only the data of the active tab differ, so it is.
proof fn lemma_only_active_tab_differs(before: App, after: App)
    requires
        before.active_tab < before.tabs.len(),
        after@.cfg == before@.cfg,
        after.active_tab == before.active_tab,
        after@.tabs == before@.tabs.update(
            before.active_tab as int,
            (TabStateV {
                data: after@.tabs[before.active_tab as int].data,
                ..before@.tabs[before.active_tab as int]
            }),
        ),
    ensures
        only_active_tab_differs(before, after),
{
    assert(after@.tabs.len() == after.tabs.len());
    assert(before@.tabs.len() == before.tabs.len());
    assert forall|i: int| 0 <= i < before.tabs.len() && i != before.active_tab implies (
    #[trigger] after.tabs[i])@ == before.tabs[i]@ by {
        assert(after@.tabs[i] == after.tabs[i]@);
        assert(before@.tabs[i] == before.tabs[i]@);
    }
    let a = before.active_tab as int;
    assert(after@.tabs[a] == after.tabs[a]@);
    assert(before@.tabs[a] == before.tabs[a]@);
}

/// While runs are fetched, the tab is loading, keeps its runs and its highlight, and shows no error.
pub proof fn law_fetch_under_way_keeps_runs(app: &mut App, pending: Receiver<CodeBuildEvent>)
    requires
        old(app).active_tab < old(app).tabs.len(),
        call_ensures(App::fetch_started, (app, pending), ()),
    ensures
        only_active_tab_differs(*old(app), *final(app)),
        final(app).status@ == old(app).status@,
        match (
            old(app).tabs[old(app).active_tab as int].data,
            final(app).tabs[old(app).active_tab as int].data,
        ) {
            (TabData::Builds(a), TabData::Builds(b)) => {
                &&& b.loading
                &&& b.last_error is None
                &&& b.pending == Some(pending)
                &&& b@.items == a@.items
                &&& b.selected == a.selected
                &&& b.last_fetched == a.last_fetched
            },
            (TabData::Logs(a), TabData::Logs(b)) => b@ == a@,
            _ => false,
        },
{
    let a = old(app).active_tab as int;
    assert(old(app)@.tabs[a] == old(app).tabs[a]@);
    assert(old(app)@.tabs.len() == old(app).tabs.len());
    assert(final(app)@.tabs =~= old(app)@.tabs.update(
        a,
        (TabStateV { data: final(app)@.tabs[a].data, ..old(app)@.tabs[a] }),
    ));
    lemma_only_active_tab_differs(*old(app), *final(app));
    assert(final(app)@.tabs[a] == final(app).tabs[a]@);
}

/// A tail that runs gives the tab its pane and its channel and takes the error off. One that was
/// refused leaves the reason, in the tab and in the status text.
pub proof fn law_start_of_a_tail_is_noted(app: &mut App, start: TailStart)
    requires
        old(app).active_tab < old(app).tabs.len(),
        call_ensures(App::tail_started, (app, start), ()),
    ensures
        only_active_tab_differs(*old(app), *final(app)),
        match (
            old(app).tabs[old(app).active_tab as int].data,
            final(app).tabs[old(app).active_tab as int].data,
        ) {
            (TabData::Logs(a), TabData::Logs(b)) => match start {
                TailStart::Running { pane, pending } => {
                    &&& b.pane matches Some(shown)
                    &&& shown@ == pane@
                    &&& b.pending == Some(pending)
                    &&& b.last_error is None
                    &&& final(app).status@ == old(app).status@
                },
                TailStart::Refused(reason) => {
                    &&& b.last_error matches Some(error)
                    &&& error@ == reason@
                    &&& b@.pane == a@.pane
                    &&& b.pending == a.pending
                    &&& final(app).status@ == "error: "@ + reason@
                },
            },
            (TabData::Builds(a), TabData::Builds(b)) => {
                &&& b@ == a@
                &&& final(app).status@ == old(app).status@
            },
            _ => false,
        },
{
    let a = old(app).active_tab as int;
    assert(old(app)@.tabs[a] == old(app).tabs[a]@);
    assert(old(app)@.tabs.len() == old(app).tabs.len());
    assert(final(app)@.tabs =~= old(app)@.tabs.update(
        a,
        (TabStateV { data: final(app)@.tabs[a].data, ..old(app)@.tabs[a] }),
    ));
    lemma_only_active_tab_differs(*old(app), *final(app));
    assert(final(app)@.tabs[a] == final(app).tabs[a]@);
}

/// Moving in a `builds` tab moves the highlight by just as many runs as asked for, up to the first
/// and down to the last run. In a `logs` tab it scrolls the pane. The runs and the lines stay.
pub proof fn law_moving_moves_by_delta(app: &mut App, delta: isize)
    requires
        old(app).active_tab < old(app).tabs.len(),
        call_ensures(App::move_selection, (app, delta), ()),
    ensures
        only_active_tab_differs(*old(app), *final(app)),
        final(app).status@ == old(app).status@,
        match (
            old(app).tabs[old(app).active_tab as int].data,
            final(app).tabs[old(app).active_tab as int].data,
        ) {
            (TabData::Builds(a), TabData::Builds(b)) => {
                &&& b@.items == a@.items
                &&& b@.last_error == a@.last_error
                &&& b.loading == a.loading
                &&& b.pending == a.pending
                &&& b.last_fetched == a.last_fetched
                &&& a.items.len() == 0 ==> b.selected == a.selected
                &&& a.items.len() > 0 && a.selected <= isize::MAX ==> {
                    &&& 0 <= a.selected + delta < a.items.len() ==> b.selected == a.selected
                        + delta
                    &&& a.selected + delta < 0 ==> b.selected == 0
                    &&& a.selected + delta >= a.items.len() ==> b.selected == a.items.len() - 1
                }
            },
            (TabData::Logs(a), TabData::Logs(b)) => {
                &&& b.pending == a.pending
                &&& b@.last_error == a@.last_error
                &&& b.pane is Some <==> a.pane is Some
                &&& a.pane is Some ==> {
                    let total = a.pane->0.lines.len() as int;
                    let from = a.pane->0.scroll as int;
                    let to = b.pane->0.scroll as int;
                    &&& b.pane->0@.lines == a.pane->0@.lines
                    &&& b.pane->0@.log_group == a.pane->0@.log_group
                    &&& b.pane->0@.log_stream == a.pane->0@.log_stream
                    &&& delta < 0 && from != usize::MAX && from + delta >= 0 ==> to == from + delta
                    &&& delta < 0 && from != usize::MAX && from + delta < 0 ==> to == 0
                    &&& delta < 0 && from == usize::MAX && total - 1 + delta >= 0 ==> to == total
                        - 1 + delta
                    &&& delta < 0 && from == usize::MAX && total - 1 + delta < 0 ==> to == 0
                    &&& delta >= 0 && from != usize::MAX && from + delta < total ==> to == from
                        + delta
                    &&& delta >= 0 && (from == usize::MAX || from + delta >= total) ==> to
                        == usize::MAX
                }
            },
            _ => false,
        },
{
    let a = old(app).active_tab as int;
    assert(old(app)@.tabs[a] == old(app).tabs[a]@);
    assert(old(app)@.tabs.len() == old(app).tabs.len());
    assert(final(app)@.tabs =~= old(app)@.tabs.update(
        a,
        (TabStateV { data: final(app)@.tabs[a].data, ..old(app)@.tabs[a] }),
    ));
    lemma_only_active_tab_differs(*old(app), *final(app));
    assert(final(app)@.tabs[a] == final(app).tabs[a]@);
    match old(app).tabs[a].data {
        TabData::Builds(b) => {
            assert(b@.items.len() == b.items.len());
        },
        TabData::Logs(l) => {
            if l.pane is Some {
                assert(l.pane->0@.lines.len() == l.pane->0.lines.len());
                assert(l@.pane->0 == l.pane->0@);
            }
        },
    }
}

/// Opening the focused run leads to the log of the highlighted run: to the address that this run
/// has, and nowhere where it has none, or where no run is highlighted.
pub proof fn law_highlighted_run_is_opened(app: &App, url: Option<String>)
    requires
        app.active_tab < app.tabs.len(),
        call_ensures(App::open_focused, (app,), url),
    ensures
        match app.tabs[app.active_tab as int].data {
            TabData::Builds(b) => {
                &&& b.selected < b.items.len() ==> url.deep_view()
                    == b.items[b.selected as int].logs_deep_link.deep_view()
                &&& b.selected >= b.items.len() ==> url is None
            },
            TabData::Logs(_) => url is None,
        },
{
    let a = app.active_tab as int;
    assert(app@.tabs[a] == app.tabs[a]@);
    if let TabData::Builds(b) = app.tabs[a].data {
        assert(b@.items.len() == b.items.len());
        if b.selected < b.items.len() {
            assert(b@.items[b.selected as int] == b.items[b.selected as int]@);
        }
    }
}

/// Two viewers whose highlighted runs have the same address open the same, whatever other runs they
/// hold and wherever the highlight stands.
pub proof fn law_other_runs_play_no_part_in_opening(
    a: &App,
    b: &App,
    of_a: Option<String>,
    of_b: Option<String>,
)
    requires
        a.active_tab < a.tabs.len(),
        b.active_tab < b.tabs.len(),
        call_ensures(App::open_focused, (a,), of_a),
        call_ensures(App::open_focused, (b,), of_b),
        match (a.tabs[a.active_tab as int].data, b.tabs[b.active_tab as int].data) {
            (TabData::Builds(x), TabData::Builds(y)) => {
                &&& x.selected < x.items.len()
                &&& y.selected < y.items.len()
                &&& x.items[x.selected as int].logs_deep_link.deep_view()
                    == y.items[y.selected as int].logs_deep_link.deep_view()
            },
            _ => false,
        },
    ensures
        of_a.deep_view() == of_b.deep_view(),
{
    law_highlighted_run_is_opened(a, of_a);
    law_highlighted_run_is_opened(b, of_b);
}

/// The status text tells what was opened, or why nothing was. Nothing else changes.
pub proof fn law_opening_is_told(app: &mut App, url: &str, failure: Option<String>)
    requires
        call_ensures(App::opened, (app, url, failure), ()),
    ensures
        failure is None ==> final(app).status@ == "opened "@ + url@,
        failure matches Some(reason) ==> final(app).status@ == "open failed: "@ + reason@,
        final(app)@.tabs == old(app)@.tabs,
        final(app)@.cfg == old(app)@.cfg,
        final(app).active_tab == old(app).active_tab,
{
}

/// The timed refresh: never with an interval of zero, else once the interval has gone by. It asks
/// for the runs of a `builds` tab, and for nothing in a `logs` tab. The tabs stay as they are.
pub proof fn law_timer_polls_builds_only(app: &mut App, elapsed_secs: u64, tick: Tick)
    requires
        old(app).active_tab < old(app).tabs.len(),
        call_ensures(App::tick, (app, elapsed_secs), tick),
    ensures
        tick is Wait <==> old(app).cfg.refresh_interval_secs == 0 || elapsed_secs < old(
            app,
        ).cfg.refresh_interval_secs,
        tick matches Tick::Restart(refresh) ==> {
            let tab = old(app).tabs[old(app).active_tab as int];
            &&& tab.spec.kind == TabKind::Builds ==> {
                &&& asked_for(tab, refresh)
                &&& announced(tab, old(app).status@, final(app).status@)
            }
            &&& tab.spec.kind == TabKind::Logs ==> {
                &&& refresh is Nothing
                &&& final(app).status@ == old(app).status@
            }
        },
        tick is Wait ==> final(app).status@ == old(app).status@,
        final(app)@.tabs == old(app)@.tabs,
        final(app)@.cfg == old(app)@.cfg,
        final(app).active_tab == old(app).active_tab,
{
    let a = old(app).active_tab as int;
    assert(old(app)@.tabs[a] == old(app).tabs[a]@);
}

/// The time to the next refresh counts anew after every key that has an action, but for the one
/// that ends the loop.
pub proof fn law_keys_restart_the_timer(action: Option<bool>, step: Step)
    requires
        call_ensures(after_key, (action,), step),
    ensures
        step == Step::Quit <==> action == Some(true),
        step == Step::RestartTimer <==> action == Some(false),
        step == Step::Continue <==> action is None,
{
}

} // verus!
