use mnml_aws_codebuild::app::{
    App, BuildsTab, Inbox, LogsTab, Refresh, ResolveError, TabData, TabKind, TabSpec, TailStart,
};
use mnml_aws_codebuild::channel::Received;
use mnml_aws_codebuild::codebuild::{BuildStatus, CodeBuildEvent, CodeBuildRecord};
use mnml_aws_codebuild::config::{Config, Tab};
use mnml_aws_codebuild::event_loop::{after_key, Step, Tick};
use mnml_aws_codebuild::log_tail::{
    LineSeverity, LogLine, LogTailEvent, LogTailPane, FOLLOW, MAX_LINES,
};
use std::sync::mpsc::channel;
use std::time::Instant;

fn builds_tab(name: &str, project: &str) -> Tab {
    Tab {
        name: name.to_string(),
        kind: "builds".to_string(),
        region: None,
        project: Some(project.to_string()),
        log_group: None,
        log_stream: None,
    }
}

fn logs_tab(name: &str, group: &str, stream: Option<&str>) -> Tab {
    Tab {
        name: name.to_string(),
        kind: "logs".to_string(),
        region: Some("eu-west-1".to_string()),
        project: None,
        log_group: Some(group.to_string()),
        log_stream: stream.map(str::to_string),
    }
}

fn config() -> Config {
    Config {
        region: Some("us-east-1".to_string()),
        refresh_interval_secs: 60,
        tabs: vec![builds_tab("b", "proj"), logs_tab("l", "/g", Some("s"))],
    }
}

fn opened() -> App {
    match App::new(config()) {
        Ok((app, _)) => app,
        Err(e) => panic!("{}", e.message()),
    }
}

fn record(n: i64) -> CodeBuildRecord {
    CodeBuildRecord {
        build_number: n,
        status: BuildStatus::Succeeded,
        status_glyph: "✓".to_string(),
        status_label: "succeeded".to_string(),
        started_at_ms: None,
        duration_ms: None,
        initiator: None,
        source_version: None,
        logs_deep_link: Some(format!("https://x/{n}")),
    }
}

fn records(n: i64) -> Vec<CodeBuildRecord> {
    (0..n).map(record).collect()
}

fn line(text: &str) -> LogLine {
    LogLine { text: text.to_string(), severity: LineSeverity::Plain }
}

fn pane(n: usize) -> LogTailPane {
    LogTailPane {
        log_group: "/g".to_string(),
        log_stream: None,
        lines: (0..n).map(|i| line(&i.to_string())).collect(),
        scroll: FOLLOW,
    }
}

fn builds(app: &mut App, i: usize) -> &mut BuildsTab {
    match &mut app.tabs[i].data {
        TabData::Builds(b) => b,
        TabData::Logs(_) => panic!("a logs tab"),
    }
}

fn logs(app: &mut App, i: usize) -> &mut LogsTab {
    match &mut app.tabs[i].data {
        TabData::Logs(l) => l,
        TabData::Builds(_) => panic!("a builds tab"),
    }
}

fn empty_inbox() -> Inbox {
    Inbox { fetched: vec![], tailed: vec![], closed: false }
}

#[test]
fn kinds_by_name() {
    assert_eq!(TabKind::from_str("builds").unwrap(), TabKind::Builds);
    assert_eq!(TabKind::from_str("logs").unwrap(), TabKind::Logs);
    let e = TabKind::from_str("Logs").unwrap_err();
    assert_eq!(e.message(), "unknown tab kind: Logs");
}

#[test]
fn resolve_takes_own_region_first() {
    let own = TabSpec::resolve(&logs_tab("l", "/g", None), Some("us-east-1")).unwrap();
    assert_eq!(own.region.as_deref(), Some("eu-west-1"));
    assert_eq!(own.log_group.as_deref(), Some("/g"));
    assert_eq!(own.log_stream, None);
    let default = TabSpec::resolve(&builds_tab("b", "p"), Some("us-east-1")).unwrap();
    assert_eq!(default.region.as_deref(), Some("us-east-1"));
    assert_eq!(TabSpec::resolve(&builds_tab("b", "p"), None).unwrap().region, None);
}

#[test]
fn resolve_keeps_only_what_the_kind_needs() {
    let mut t = builds_tab("b", "p");
    t.log_group = Some("/g".to_string());
    t.log_stream = Some("s".to_string());
    let spec = TabSpec::resolve(&t, None).unwrap();
    assert_eq!(spec.project.as_deref(), Some("p"));
    assert_eq!(spec.log_group, None);
    assert_eq!(spec.log_stream, None);
    t.kind = "logs".to_string();
    let spec = TabSpec::resolve(&t, None).unwrap();
    assert_eq!(spec.project, None);
    assert_eq!(spec.log_group.as_deref(), Some("/g"));
    assert_eq!(spec.log_stream.as_deref(), Some("s"));
}

#[test]
fn resolve_errors() {
    let mut t = builds_tab("b", "p");
    t.project = None;
    let e = TabSpec::resolve(&t, None).unwrap_err();
    assert!(matches!(e, ResolveError::MissingProject));
    assert_eq!(e.message(), "`project` required for kind `builds`");
    t.kind = "logs".to_string();
    let e = TabSpec::resolve(&t, None).unwrap_err();
    assert!(matches!(e, ResolveError::MissingLogGroup));
    assert_eq!(e.message(), "`log_group` required for kind `logs`");
    t.kind = "x".to_string();
    let e = TabSpec::resolve(&t, None).unwrap_err();
    assert_eq!(e.message(), "unknown tab kind: x");
}

#[test]
fn blank_project_resolves() {
    assert!(TabSpec::resolve(&builds_tab("b", " "), None).is_ok());
}

#[test]
fn opening_refreshes_the_first_tab() {
    let (app, refresh) = match App::new(config()) {
        Ok(x) => x,
        Err(e) => panic!("{}", e.message()),
    };
    assert_eq!(app.active_tab, 0);
    assert_eq!(app.status, "refreshing b…");
    assert_eq!(app.active().name, "b");
    match refresh {
        Refresh::FetchBuilds { project, region } => {
            assert_eq!(project, "proj");
            assert_eq!(region.as_deref(), Some("us-east-1"));
        }
        other => panic!("{:?}", other),
    }
}

#[test]
fn opening_fails_on_the_first_bad_tab() {
    let mut cfg = config();
    cfg.tabs[1].log_group = None;
    cfg.tabs.push(builds_tab("c", "p"));
    cfg.tabs[2].kind = "x".to_string();
    match App::new(cfg) {
        Err(e) => assert!(matches!(e, ResolveError::MissingLogGroup)),
        Ok(_) => panic!("opened"),
    }
}

#[test]
fn empty_tabs() {
    match TabData::empty_for(TabKind::Builds) {
        TabData::Builds(b) => {
            assert!(b.items.is_empty() && b.selected == 0 && !b.loading);
            assert!(b.last_error.is_none() && b.pending.is_none() && b.last_fetched.is_none());
        }
        TabData::Logs(_) => panic!("a logs tab"),
    }
    match TabData::empty_for(TabKind::Logs) {
        TabData::Logs(l) => {
            assert!(l.pane.is_none() && l.pending.is_none() && l.last_error.is_none())
        }
        TabData::Builds(_) => panic!("a builds tab"),
    }
}

#[test]
fn switching_starts_the_tail_once() {
    let mut app = opened();
    match app.switch_tab(1) {
        Refresh::TailLogs { log_group, log_stream, region } => {
            assert_eq!(log_group, "/g");
            assert_eq!(log_stream.as_deref(), Some("s"));
            assert_eq!(region.as_deref(), Some("eu-west-1"));
        }
        other => panic!("{:?}", other),
    }
    assert_eq!(app.active_tab, 1);
    assert_eq!(app.status, "starting l…");
    let (_tx, rx) = channel();
    app.tail_started(TailStart::Running { pane: pane(0), pending: rx });
    assert!(logs(&mut app, 1).pane.is_some());
    app.status = "kept".to_string();
    assert!(matches!(app.refresh_active(), Refresh::Nothing));
    assert_eq!(app.status, "kept");
}

#[test]
fn switching_nowhere_does_nothing() {
    let mut app = opened();
    app.status = "kept".to_string();
    assert!(matches!(app.switch_tab(2), Refresh::Nothing));
    assert_eq!(app.active_tab, 0);
    assert_eq!(app.status, "kept");
}

#[test]
fn refused_tail_is_shown_and_tried_again() {
    let mut app = opened();
    app.switch_tab(1);
    app.tail_started(TailStart::Refused("no aws".to_string()));
    assert_eq!(app.status, "error: no aws");
    assert_eq!(logs(&mut app, 1).last_error.as_deref(), Some("no aws"));
    assert!(matches!(app.refresh_active(), Refresh::TailLogs { .. }));
}

#[test]
fn active_mut_reaches_the_active_tab() {
    let mut app = opened();
    app.active_mut().name = "renamed".to_string();
    assert_eq!(app.tabs[0].name, "renamed");
    assert_eq!(app.tabs[1].name, "l");
}

#[test]
fn highlight_moves_and_stops() {
    let mut app = opened();
    app.move_selection(1);
    assert_eq!(builds(&mut app, 0).selected, 0);
    builds(&mut app, 0).items = records(3);
    app.move_selection(1);
    assert_eq!(builds(&mut app, 0).selected, 1);
    app.move_selection(-1);
    assert_eq!(builds(&mut app, 0).selected, 0);
    app.move_selection(-5);
    assert_eq!(builds(&mut app, 0).selected, 0);
    app.move_selection(50);
    assert_eq!(builds(&mut app, 0).selected, 2);
}

#[test]
fn log_scrolls_and_follows() {
    let mut app = opened();
    app.switch_tab(1);
    app.move_selection(3);
    let (_tx, rx) = channel();
    app.tail_started(TailStart::Running { pane: pane(10), pending: rx });
    let scroll = |app: &mut App| logs(app, 1).pane.as_ref().unwrap().scroll;
    app.move_selection(1);
    assert_eq!(scroll(&mut app), FOLLOW);
    app.move_selection(-1);
    assert_eq!(scroll(&mut app), 8);
    app.move_selection(-20);
    assert_eq!(scroll(&mut app), 0);
    app.move_selection(4);
    assert_eq!(scroll(&mut app), 4);
    app.move_selection(5);
    assert_eq!(scroll(&mut app), 9);
    app.move_selection(1);
    assert_eq!(scroll(&mut app), FOLLOW);
}

#[test]
fn empty_log_scrolls_to_its_start() {
    let mut p = pane(0);
    p.scroll_by(-1);
    assert_eq!(p.scroll, 0);
    p.scroll_by(0);
    assert_eq!(p.scroll, FOLLOW);
}

#[test]
fn fetch_marks_the_tab_as_loading() {
    let mut app = opened();
    builds(&mut app, 0).last_error = Some("old".to_string());
    let (_tx, rx) = channel();
    app.fetch_started(rx);
    let b = builds(&mut app, 0);
    assert!(b.loading && b.last_error.is_none() && b.pending.is_some());
}

#[test]
fn drain_takes_in_builds() {
    let mut app = opened();
    let (tx, rx) = channel();
    app.fetch_started(rx);
    assert!(!app.drain());
    assert!(builds(&mut app, 0).pending.is_some());
    builds(&mut app, 0).selected = 7;
    tx.send(CodeBuildEvent::Builds(records(3))).unwrap();
    assert!(app.drain());
    assert_eq!(app.status, "b · 3 builds");
    let b = builds(&mut app, 0);
    assert_eq!(b.items.len(), 3);
    assert_eq!(b.selected, 2);
    assert!(!b.loading && b.pending.is_none() && b.last_error.is_none());
    assert!(b.last_fetched.is_some());
    assert!(!app.drain());
}

#[test]
fn drain_of_no_builds_highlights_the_first() {
    let mut app = opened();
    let (tx, rx) = channel();
    app.fetch_started(rx);
    builds(&mut app, 0).selected = 7;
    tx.send(CodeBuildEvent::Builds(vec![])).unwrap();
    assert!(app.drain());
    assert_eq!(app.status, "b · 0 builds");
    assert_eq!(builds(&mut app, 0).selected, 0);
}

#[test]
fn drain_takes_in_a_failed_fetch() {
    let mut app = opened();
    builds(&mut app, 0).items = records(2);
    let (tx, rx) = channel();
    app.fetch_started(rx);
    tx.send(CodeBuildEvent::Failed("denied".to_string())).unwrap();
    assert!(app.drain());
    assert_eq!(app.status, "error: denied");
    let b = builds(&mut app, 0);
    assert_eq!(b.last_error.as_deref(), Some("denied"));
    assert_eq!(b.items.len(), 2);
    assert!(!b.loading && b.pending.is_none());
}

#[test]
fn drain_lets_go_of_a_closed_channel() {
    let mut app = opened();
    let (tx, rx) = channel::<CodeBuildEvent>();
    app.fetch_started(rx);
    drop(tx);
    assert!(!app.drain());
    let b = builds(&mut app, 0);
    assert!(b.pending.is_none());
    assert!(b.loading);
}

#[test]
fn drain_takes_in_lines_until_the_tail_ends() {
    let mut app = opened();
    app.switch_tab(1);
    let (tx, rx) = channel();
    app.tail_started(TailStart::Running { pane: pane(0), pending: rx });
    tx.send(LogTailEvent::Line("one".to_string())).unwrap();
    tx.send(LogTailEvent::Line("two".to_string())).unwrap();
    assert!(app.drain());
    assert!(logs(&mut app, 1).pending.is_some());
    assert!(!app.drain());
    tx.send(LogTailEvent::Exited(Some(0))).unwrap();
    tx.send(LogTailEvent::Line("three".to_string())).unwrap();
    assert!(app.drain());
    let l = logs(&mut app, 1);
    assert!(l.pending.is_none());
    let texts: Vec<&str> =
        l.pane.as_ref().unwrap().lines.iter().map(|x| x.text.as_str()).collect();
    assert_eq!(texts, vec!["one", "two", "three"]);
}

#[test]
fn lines_are_classified() {
    assert_eq!(LineSeverity::classify("[error] no"), LineSeverity::Error);
    assert_eq!(LineSeverity::classify("Fatal"), LineSeverity::Error);
    assert_eq!(LineSeverity::classify("info: 1 warning, 1 error"), LineSeverity::Error);
    assert_eq!(LineSeverity::classify("INFO WARNING"), LineSeverity::Warn);
    assert_eq!(LineSeverity::classify("é info"), LineSeverity::Info);
    assert_eq!(LineSeverity::classify("debug"), LineSeverity::Debug);
    assert_eq!(LineSeverity::classify("x trace"), LineSeverity::Debug);
    assert_eq!(LineSeverity::classify("erro r"), LineSeverity::Plain);
    assert_eq!(LineSeverity::classify(""), LineSeverity::Plain);

    let mut app = opened();
    app.switch_tab(1);
    let (tx, rx) = channel();
    app.tail_started(TailStart::Running { pane: pane(0), pending: rx });
    tx.send(LogTailEvent::Line("WARN: low".to_string())).unwrap();
    assert!(app.drain());
    let shown = &logs(&mut app, 1).pane.as_ref().unwrap().lines[0];
    assert_eq!((shown.text.as_str(), shown.severity), ("WARN: low", LineSeverity::Warn));
}

#[test]
fn drain_takes_in_a_broken_tail() {
    let mut app = opened();
    app.switch_tab(1);
    let (tx, rx) = channel();
    app.tail_started(TailStart::Running { pane: pane(0), pending: rx });
    tx.send(LogTailEvent::Failed("gone".to_string())).unwrap();
    assert!(app.drain());
    assert_eq!(app.status, "error: gone");
    let l = logs(&mut app, 1);
    assert_eq!(l.last_error.as_deref(), Some("gone"));
    assert!(l.pending.is_none() && l.pane.is_some());
}

#[test]
fn lines_without_a_pane_are_no_news() {
    let mut app = opened();
    let (tx, rx) = channel();
    logs(&mut app, 1).pending = Some(rx);
    tx.send(LogTailEvent::Line("lost".to_string())).unwrap();
    assert!(!app.drain());
    assert!(logs(&mut app, 1).pending.is_some());
}

#[test]
fn drain_leaves_nothing_unread() {
    let mut app = opened();
    let (tx, rx) = channel();
    app.fetch_started(rx);
    app.switch_tab(1);
    let (tail, tail_rx) = channel();
    app.tail_started(TailStart::Running { pane: pane(3), pending: tail_rx });
    tx.send(CodeBuildEvent::Failed("first".to_string())).unwrap();
    tx.send(CodeBuildEvent::Builds(records(2))).unwrap();
    for i in 0..100 {
        tail.send(LogTailEvent::Line(format!("new {i}"))).unwrap();
    }
    assert!(app.drain());
    assert_eq!(builds(&mut app, 0).items.len(), 2);
    assert_eq!(logs(&mut app, 1).pane.as_ref().unwrap().lines.len(), 103);
    app.status = "kept".to_string();
    assert!(!app.drain());
    assert_eq!(app.status, "kept");
    assert_eq!(app.active_tab, 1);
    assert_eq!(builds(&mut app, 0).items.len(), 2);
    let l = logs(&mut app, 1);
    assert!(l.pending.is_some());
    assert_eq!(l.pane.as_ref().unwrap().lines[102].text, "new 99");
}

#[test]
fn mixed_reports_of_a_tail() {
    let mut app = opened();
    app.switch_tab(1);
    let (_tx, rx) = channel();
    app.tail_started(TailStart::Running { pane: pane(MAX_LINES + 10), pending: rx });
    let mut inbox = empty_inbox();
    inbox.tailed.push(LogTailEvent::Failed("one".to_string()));
    assert!(app.deliver(vec![empty_inbox(), inbox]));
    assert_eq!(logs(&mut app, 1).pane.as_ref().unwrap().lines.len(), MAX_LINES + 10);
    let (_tx, rx) = channel();
    logs(&mut app, 1).pending = Some(rx);
    let mut inbox = empty_inbox();
    inbox.tailed.push(LogTailEvent::Line("a".to_string()));
    inbox.tailed.push(LogTailEvent::Failed("two".to_string()));
    inbox.tailed.push(LogTailEvent::Line("b".to_string()));
    inbox.tailed.push(LogTailEvent::Exited(None));
    assert!(app.deliver(vec![empty_inbox(), inbox]));
    let l = logs(&mut app, 1);
    assert_eq!(l.last_error.as_deref(), Some("two"));
    let lines = &l.pane.as_ref().unwrap().lines;
    assert_eq!(lines.len(), MAX_LINES);
    assert_eq!(lines[0].text, "12");
    assert_eq!(lines[MAX_LINES - 2].text, "a");
    assert_eq!(lines[MAX_LINES - 1].text, "b");
}

#[test]
fn last_tab_with_news_sets_the_status() {
    let mut app = opened();
    let (tx, rx) = channel();
    app.fetch_started(rx);
    let (tail, tail_rx) = channel();
    logs(&mut app, 1).pending = Some(tail_rx);
    tx.send(CodeBuildEvent::Builds(vec![])).unwrap();
    tail.send(LogTailEvent::Failed("gone".to_string())).unwrap();
    assert!(app.drain());
    assert_eq!(app.status, "error: gone");
}

#[test]
fn each_look_is_noted() {
    let now = Instant::now();
    let mut inbox = empty_inbox();
    assert!(inbox.note_fetch(Received::Message(CodeBuildEvent::Failed("x".to_string())), now));
    assert!(!inbox.note_fetch(Received::Empty, now));
    assert_eq!((inbox.fetched.len(), inbox.tailed.len(), inbox.closed), (1, 0, false));
    assert!(matches!(&inbox.fetched[0], (CodeBuildEvent::Failed(e), t) if e == "x" && *t == now));
    assert!(!inbox.note_fetch(Received::Disconnected, now));
    assert_eq!((inbox.fetched.len(), inbox.closed), (1, true));

    let mut inbox = empty_inbox();
    assert!(inbox.note_tail(Received::Message(LogTailEvent::Line("one".to_string()))));
    assert!(inbox.note_tail(Received::Message(LogTailEvent::Exited(None))));
    assert!(!inbox.note_tail(Received::Empty));
    assert_eq!((inbox.fetched.len(), inbox.tailed.len(), inbox.closed), (0, 2, false));
    assert!(matches!(&inbox.tailed[0], LogTailEvent::Line(l) if l == "one"));
    assert!(!inbox.note_tail(Received::Disconnected));
    assert_eq!((inbox.tailed.len(), inbox.closed), (2, true));
}

#[test]
fn deliver_needs_a_pending_channel() {
    let mut app = opened();
    app.status = "kept".to_string();
    let mut inbox = empty_inbox();
    inbox.fetched.push((CodeBuildEvent::Builds(records(1)), Instant::now()));
    assert!(!app.deliver(vec![inbox, empty_inbox()]));
    assert_eq!(app.status, "kept");
    assert!(builds(&mut app, 0).items.is_empty());
}

#[test]
fn last_report_of_a_fetch_counts() {
    let mut app = opened();
    let (_tx, rx) = channel();
    app.fetch_started(rx);
    let now = Instant::now();
    let mut inbox = empty_inbox();
    inbox.fetched.push((CodeBuildEvent::Failed("first".to_string()), now));
    inbox.fetched.push((CodeBuildEvent::Builds(records(2)), now));
    assert!(app.deliver(vec![inbox, empty_inbox()]));
    assert_eq!(app.status, "b · 2 builds");
    let b = builds(&mut app, 0);
    assert_eq!(b.last_fetched, Some(now));
    assert_eq!(b.last_error, None);
}

#[test]
fn oldest_lines_go_first() {
    let mut p = pane(MAX_LINES);
    p.push(line("new"));
    assert_eq!(p.lines.len(), MAX_LINES);
    assert_eq!(p.lines[0].text, "1");
    assert_eq!(p.lines[MAX_LINES - 1].text, "new");
    let mut long = pane(MAX_LINES + 10);
    long.push(line("new"));
    assert_eq!(long.lines.len(), MAX_LINES);
    assert_eq!(long.lines[0].text, "11");
}

#[test]
fn focused_run_is_opened() {
    let mut app = opened();
    assert_eq!(app.open_focused(), None);
    builds(&mut app, 0).items = records(2);
    builds(&mut app, 0).selected = 1;
    assert_eq!(app.open_focused().as_deref(), Some("https://x/1"));
    builds(&mut app, 0).items[1].logs_deep_link = None;
    assert_eq!(app.open_focused(), None);
    builds(&mut app, 0).selected = 2;
    assert_eq!(app.open_focused(), None);
    app.switch_tab(1);
    assert_eq!(app.open_focused(), None);
}

#[test]
fn opening_is_told() {
    let mut app = opened();
    app.opened("https://x/1", None);
    assert_eq!(app.status, "opened https://x/1");
    app.opened("https://x/1", Some("no browser".to_string()));
    assert_eq!(app.status, "open failed: no browser");
}

#[test]
fn timer_refreshes_builds_only() {
    let mut app = opened();
    app.status = "kept".to_string();
    assert!(matches!(app.tick(59), Tick::Wait));
    assert_eq!(app.status, "kept");
    assert!(matches!(app.tick(60), Tick::Restart(Refresh::FetchBuilds { .. })));
    assert_eq!(app.status, "refreshing b…");
    app.switch_tab(1);
    app.status = "kept".to_string();
    assert!(matches!(app.tick(61), Tick::Restart(Refresh::Nothing)));
    assert_eq!(app.status, "kept");
    app.cfg.refresh_interval_secs = 0;
    assert!(matches!(app.tick(u64::MAX), Tick::Wait));
}

#[test]
fn keys_lead_on() {
    assert_eq!(after_key(None), Step::Continue);
    assert_eq!(after_key(Some(false)), Step::RestartTimer);
    assert_eq!(after_key(Some(true)), Step::Quit);
}
