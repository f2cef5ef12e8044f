use mnml_aws_codebuild::app::{App, BuildsTab, LogsTab, TabData};
use mnml_aws_codebuild::codebuild::{BuildStatus, CodeBuildRecord};
use mnml_aws_codebuild::config::{Config, Tab};
use mnml_aws_codebuild::log_tail::{LineSeverity, LogLine, LogTailPane, FOLLOW};
use mnml_aws_codebuild::ui::{
    build_row, draw, draw_builds_table, draw_logs, draw_status, draw_tabs, format_ms,
    severity_color, status_color, Area, Body, BuildsScreen, Color, LogsScreen, Style, StyledText,
    FIRST_SECOND, LAST_SECOND,
};

fn fg(color: Color) -> Style {
    Style { fg: Some(color), bg: None, bold: false, dim: false }
}

fn empty_builds() -> BuildsTab {
    BuildsTab {
        items: vec![],
        selected: 0,
        last_error: None,
        loading: false,
        pending: None,
        last_fetched: None,
    }
}

fn record() -> CodeBuildRecord {
    CodeBuildRecord {
        build_number: 42,
        status: BuildStatus::Fault,
        status_glyph: "✗".to_string(),
        status_label: "fault".to_string(),
        started_at_ms: Some(1_431_648_061_999),
        duration_ms: Some(61_999),
        initiator: Some("me".to_string()),
        source_version: Some("0123456789abcdef".to_string()),
        logs_deep_link: None,
    }
}

fn texts(cells: &[StyledText]) -> Vec<&str> {
    cells.iter().map(|c| c.text.as_str()).collect()
}

fn pane(n: usize, scroll: usize) -> LogTailPane {
    LogTailPane {
        log_group: "/g".to_string(),
        log_stream: None,
        lines: (0..n)
            .map(|i| LogLine { text: i.to_string(), severity: LineSeverity::Info })
            .collect(),
        scroll,
    }
}

fn logs(pane: Option<LogTailPane>) -> LogsTab {
    LogsTab { pane, pending: None, last_error: None }
}

fn shown(pane: LogTailPane, height: u16) -> Vec<String> {
    match draw_logs("l", &logs(Some(pane)), height) {
        LogsScreen::Lines { lines, .. } => lines.into_iter().map(|l| l.text).collect(),
        other => panic!("{:?}", other),
    }
}

fn app() -> App {
    let tab = |name: &str, kind: &str| Tab {
        name: name.to_string(),
        kind: kind.to_string(),
        region: None,
        project: Some("p".to_string()),
        log_group: Some("/g".to_string()),
        log_stream: None,
    };
    let cfg = Config {
        region: None,
        refresh_interval_secs: 60,
        tabs: vec![tab("b", "builds"), tab("l", "logs")],
    };
    match App::new(cfg) {
        Ok((app, _)) => app,
        Err(e) => panic!("{}", e.message()),
    }
}

#[test]
fn times_in_utc() {
    assert_eq!(format_ms(1_431_648_000_000), "2015-05-15 00:00");
    assert_eq!(format_ms(0), "1970-01-01 00:00");
    assert_eq!(format_ms(-1), "1970-01-01 00:00");
    assert_eq!(format_ms(-1000), "1969-12-31 23:59");
    assert_eq!(format_ms(i64::MAX), "—");
    assert_eq!(format_ms(i64::MIN), "—");
}

#[test]
fn times_reach_as_far_as_dates() {
    assert_eq!(format_ms(FIRST_SECOND * 1000), "-262143-01-01 00:00");
    assert_eq!(format_ms((FIRST_SECOND - 1) * 1000), "—");
    assert_eq!(format_ms(LAST_SECOND * 1000), "+262142-12-31 23:59");
    assert_eq!(format_ms((LAST_SECOND + 1) * 1000), "—");
}

#[test]
fn row_of_a_run() {
    let r = record();
    let cells = build_row(&r, "then".to_string());
    assert_eq!(texts(&cells), vec!["#42", "✗ fault", "then", "61s", "me", "0123456789ab"]);
    assert_eq!(cells[0].style, fg(Color::Yellow));
    assert_eq!(cells[1].style, fg(Color::Red));
    assert_eq!(cells[2].style, Style { fg: None, bg: None, bold: false, dim: false });
}

#[test]
fn row_of_an_unknown_run() {
    let mut r = record();
    r.duration_ms = None;
    r.initiator = None;
    r.source_version = None;
    assert_eq!(texts(&build_row(&r, "—".to_string()))[2..], ["—", "—", "—", "—"]);
    r.duration_ms = Some(-1500);
    assert_eq!(build_row(&r, "—".to_string())[3].text, "-1s");
}

#[test]
fn colours() {
    assert_eq!(status_color(BuildStatus::Succeeded), Color::Green);
    assert_eq!(status_color(BuildStatus::Failed), Color::Red);
    assert_eq!(status_color(BuildStatus::Fault), Color::Red);
    assert_eq!(status_color(BuildStatus::TimedOut), Color::Red);
    assert_eq!(status_color(BuildStatus::InProgress), Color::Cyan);
    assert_eq!(status_color(BuildStatus::Stopped), Color::Yellow);
    assert_eq!(status_color(BuildStatus::Other), Color::Gray);
    assert_eq!(severity_color(LineSeverity::Error), Color::Red);
    assert_eq!(severity_color(LineSeverity::Warn), Color::Yellow);
    assert_eq!(severity_color(LineSeverity::Info), Color::Cyan);
    assert_eq!(severity_color(LineSeverity::Debug), Color::DarkGray);
    assert_eq!(severity_color(LineSeverity::Plain), Color::Gray);
}

#[test]
fn notices_of_a_builds_tab() {
    let notice = |b: &BuildsTab| match draw_builds_table("b", b) {
        BuildsScreen::Notice(n) => (n.text, n.style),
        other => panic!("{:?}", other),
    };
    let mut b = empty_builds();
    assert_eq!(
        notice(&b),
        ("(no recent builds for this project)".to_string(), fg(Color::DarkGray))
    );
    b.loading = true;
    assert_eq!(notice(&b), ("loading…".to_string(), fg(Color::DarkGray)));
    b.items.push(record());
    b.last_error = Some("denied".to_string());
    assert_eq!(
        notice(&b),
        ("error: denied\n\nPress `r` to retry.".to_string(), fg(Color::Red))
    );
}

#[test]
fn table_of_builds() {
    let mut b = empty_builds();
    b.items.push(record());
    b.items.push(record());
    b.items[1].started_at_ms = None;
    b.selected = 1;
    b.loading = true;
    match draw_builds_table("my tab", &b) {
        BuildsScreen::Table(t) => {
            assert_eq!(t.title, " my tab ");
            assert_eq!(t.header, ["#", "STATUS", "STARTED", "DUR", "INITIATOR", "SOURCE"]);
            assert_eq!(t.widths, vec![10, 14, 20, 8, 28, 14]);
            assert_eq!(t.rows.len(), 2);
            assert_eq!(t.rows[0][2].text, "2015-05-15 00:01");
            assert_eq!(t.rows[1][2].text, "—");
            assert_eq!(t.symbol, "▸ ");
            assert_eq!(t.selected, 1);
            assert_eq!(t.highlight.bg, Some(Color::DarkGray));
            assert!(t.highlight.bold && t.header_style.bold);
        }
        other => panic!("{:?}", other),
    }
}

#[test]
fn notices_of_a_logs_tab() {
    match draw_logs("l", &logs(None), 10) {
        LogsScreen::Notice(n) => assert_eq!(n.text, "(spawning aws logs tail…)"),
        other => panic!("{:?}", other),
    }
    let mut l = logs(Some(pane(3, FOLLOW)));
    l.last_error = Some("gone".to_string());
    match draw_logs("l", &l, 10) {
        LogsScreen::Notice(n) => {
            assert_eq!(n.text, "error: gone");
            assert_eq!(n.style, fg(Color::Red));
        }
        other => panic!("{:?}", other),
    }
}

#[test]
fn window_on_a_log() {
    assert_eq!(shown(pane(5, FOLLOW), 5), ["2", "3", "4"]);
    assert_eq!(shown(pane(5, FOLLOW), 50), ["0", "1", "2", "3", "4"]);
    assert_eq!(shown(pane(5, 1), 4), ["1", "2"]);
    assert_eq!(shown(pane(5, 4), 5), ["2", "3", "4"]);
    assert_eq!(shown(pane(5, 99), 3), ["4"]);
    assert!(shown(pane(5, 2), 2).is_empty());
    assert!(shown(pane(5, 2), 0).is_empty());
    assert!(shown(pane(0, FOLLOW), 5).is_empty());
    assert!(shown(pane(0, 0), 5).is_empty());
}

#[test]
fn lines_and_title_of_a_log() {
    let mut p = pane(1, FOLLOW);
    match draw_logs("l", &logs(Some(pane(1, FOLLOW))), 5) {
        LogsScreen::Lines { title, lines } => {
            assert_eq!(title, " l · /g ");
            assert_eq!(lines[0].style, fg(Color::Cyan));
        }
        other => panic!("{:?}", other),
    }
    p.log_stream = Some("s".to_string());
    match draw_logs("l", &logs(Some(p)), 5) {
        LogsScreen::Lines { title, .. } => assert_eq!(title, " l · s "),
        other => panic!("{:?}", other),
    }
}

#[test]
fn strip_of_tabs() {
    let mut app = app();
    assert_eq!(draw_tabs(&app).labels, ["1.b", "2.l"]);
    match &mut app.tabs[0].data {
        TabData::Builds(b) => b.loading = true,
        TabData::Logs(_) => panic!("a logs tab"),
    }
    assert_eq!(draw_tabs(&app).labels, ["1.b · loading", "2.l"]);
    match &mut app.tabs[0].data {
        TabData::Builds(b) => b.items = vec![record(), record()],
        TabData::Logs(_) => panic!("a logs tab"),
    }
    match &mut app.tabs[1].data {
        TabData::Logs(l) => l.pane = Some(pane(0, FOLLOW)),
        TabData::Builds(_) => panic!("a builds tab"),
    }
    app.switch_tab(1);
    let strip = draw_tabs(&app);
    assert_eq!(strip.labels, ["1.b (2)", "2.l · tailing"]);
    assert_eq!(strip.title, " aws ");
    assert_eq!(strip.selected, 1);
    assert_eq!(
        strip.highlight,
        Style { fg: Some(Color::Black), bg: Some(Color::Cyan), bold: true, dim: false }
    );
}

#[test]
fn status_line_names_the_keys() {
    let app = app();
    let line = draw_status(&app);
    assert_eq!(
        texts(&line),
        vec![
            " refreshing b… ",
            " 1-9 tab · ↑↓/jk move · Enter/o open · y yank URL · L logs · r refresh · q quit "
        ]
    );
    assert_eq!(line[0].style, fg(Color::White));
    assert!(line[1].style.dim);
}

#[test]
fn screen_is_stacked() {
    let app = app();
    for (y, height) in (5..=300u16).map(|h| (0, h)).chain([(7, 24), (0, 65535), (65000, 535)]) {
        let size = Area { x: 2, y, width: 80, height };
        let screen = draw(&app, size);
        assert_eq!(screen.bands.tabs, Area { x: 2, y, width: 80, height: 3 });
        assert_eq!(screen.bands.body, Area { x: 2, y: y + 3, width: 80, height: height - 4 });
        assert_eq!(
            screen.bands.status,
            Area { x: 2, y: y + (height - 1), width: 80, height: 1 }
        );
    }
}

#[test]
fn low_screen_is_filled_from_the_top() {
    let app = app();
    for height in 0..8u16 {
        for y in [0u16, 9, 65528, 65530, 65533, 65535] {
            for width in 0..40u16 {
                let bands = draw(&app, Area { x: 1, y, width, height }).bands;
                let rows = y.saturating_add(height) - y;
                for part in [bands.tabs, bands.body, bands.status] {
                    assert_eq!((part.x, part.width), (1, width));
                }
                assert_eq!(bands.tabs.y, y);
                assert_eq!(bands.body.y, bands.tabs.y + bands.tabs.height);
                assert_eq!(bands.status.y, bands.body.y + bands.body.height);
                assert_eq!(bands.status.y + bands.status.height, y + rows);
                assert!(bands.tabs.height <= 3 && bands.status.height <= 1);
                if rows <= 5 {
                    assert_eq!(bands.body.height, rows.min(1));
                }
                if rows == 3 || rows == 4 {
                    assert_eq!((bands.tabs.height, bands.status.height), (rows - 2, 1));
                }
                if rows >= 5 {
                    assert_eq!((bands.tabs.height, bands.status.height), (3, 1));
                }
            }
        }
    }
}

#[test]
fn screen_shows_the_active_tab() {
    let mut app = app();
    let size = Area { x: 0, y: 0, width: 80, height: 9 };
    assert!(matches!(draw(&app, size).body, Body::Builds(BuildsScreen::Notice(_))));
    app.switch_tab(1);
    match &mut app.tabs[1].data {
        TabData::Logs(l) => l.pane = Some(pane(10, FOLLOW)),
        TabData::Builds(_) => panic!("a builds tab"),
    }
    match draw(&app, size).body {
        Body::Logs(LogsScreen::Lines { lines, .. }) => {
            assert_eq!(texts(&lines), vec!["7", "8", "9"])
        }
        other => panic!("{:?}", other),
    }
}
