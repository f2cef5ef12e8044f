//! What holds of the screen and of the report on the configuration.

use crate::app::{App, BuildsTab, LogsTab, TabData, TabState};
use crate::codebuild::{BuildStatus, CodeBuildRecord};
use crate::config::Config;
use crate::laws::text::{
    lemma_decimal_reads_back, lemma_signed_decimal_reads_back, number_in, well_written,
};
use crate::log_tail::LineSeverity;
use crate::report::{debug_text, report};
use crate::text::{decimal, signed_decimal};
use crate::ui::{
    body_rows_of, build_row, builds_screen, draw, draw_body, draw_builds_table, draw_logs, draw_status, draw_tabs, format_ms,
    logs_screen, quotient, record_start, severity_color, status_color, tab_suffix, utc_text, Area, Body, BuildsScreen,
    BuildsTable, Color, LogsScreen, Screen, Style, StyledText,
    TabStrip,
};
use vstd::prelude::*;

verus! {

/// A foreground colour and nothing else.
pub open spec fn painted(fg: Color) -> Style {
    Style { fg: Some(fg), bg: None, bold: false, dim: false }
}

/// Each state of a run has its colour.
pub proof fn law_colour_of_a_run(status: BuildStatus, color: Color)
    requires
        call_ensures(status_color, (status,), color),
    ensures
        color == Color::Green <==> status == BuildStatus::Succeeded,
        color == Color::Red <==> status == BuildStatus::Failed || status == BuildStatus::Fault
            || status == BuildStatus::TimedOut,
        color == Color::Cyan <==> status == BuildStatus::InProgress,
        color == Color::Yellow <==> status == BuildStatus::Stopped,
        color == Color::Gray <==> status == BuildStatus::Other,
{
}

/// Each severity has its colour.
pub proof fn law_colour_of_a_line(severity: LineSeverity, color: Color)
    requires
        call_ensures(severity_color, (severity,), color),
    ensures
        color == Color::Red <==> severity == LineSeverity::Error,
        color == Color::Yellow <==> severity == LineSeverity::Warn,
        color == Color::Cyan <==> severity == LineSeverity::Info,
        color == Color::DarkGray <==> severity == LineSeverity::Debug,
        color == Color::Gray <==> severity == LineSeverity::Plain,
{
}

/// A quotient is what is left when the divisor is taken off towards zero as often as it goes.
pub proof fn law_quotient_rounds_towards_zero(a: int, b: int)
    requires
        b > 0,
    ensures
        a >= 0 ==> quotient(a, b) * b <= a < quotient(a, b) * b + b,
        a <= 0 ==> quotient(a, b) * b - b < a <= quotient(a, b) * b,
{
    if a >= 0 {
        vstd::arithmetic::div_mod::lemma_fundamental_div_mod(a, b);
        vstd::arithmetic::div_mod::lemma_mod_bound(a, b);
        assert(b * (a / b) == (a / b) * b) by (nonlinear_arith);
    } else {
        vstd::arithmetic::div_mod::lemma_fundamental_div_mod(-a, b);
        vstd::arithmetic::div_mod::lemma_mod_bound(-a, b);
        assert(b * ((-a) / b) == -((-((-a) / b)) * b)) by (nonlinear_arith);
    }
}

/// A start is written as the second in which it lies, parts of a second cut off towards 1970. A
/// dash stands for a second that has no date.
pub proof fn law_start_is_written_by_the_second(ms: i64, text: String, secs: i64)
    requires
        call_ensures(format_ms, (ms,), text),
        ms >= 0 ==> secs * 1000 <= ms < secs * 1000 + 1000,
        ms <= 0 ==> secs * 1000 - 1000 < ms <= secs * 1000,
    ensures
        utc_text(secs, "%Y-%m-%d %H:%M"@) matches Some(written) ==> text@ == written,
        utc_text(secs, "%Y-%m-%d %H:%M"@) is None ==> text@ == "—"@,
{
    law_quotient_rounds_towards_zero(ms as int, 1000);
    let q = quotient(ms as int, 1000);
    assert(q == secs);
}

/// A run is shown as a row of six cells: its number, its status in the colour of the status, the
/// start as given, the duration in whole seconds, who started it, and the beginning of its source
/// version. A dash stands for what is not known.
pub proof fn law_row_tells_of_its_run(
    record: &CodeBuildRecord,
    started: String,
    cells: Vec<StyledText>,
    color: Color,
)
    requires
        call_ensures(build_row, (record, started), cells),
        call_ensures(status_color, (record.status,), color),
    ensures
        cells.len() == 6,
        cells[0].text@.len() > 0 && cells[0].text@[0] == '#',
        record.build_number >= 0 ==> well_written(cells[0].text@.skip(1)) && number_in(
            cells[0].text@.skip(1),
        ) == record.build_number,
        record.build_number < 0 ==> cells[0].text@.len() > 1 && cells[0].text@[1] == '-'
            && well_written(cells[0].text@.skip(2)) && number_in(cells[0].text@.skip(2))
            == -record.build_number,
        cells[0].style == painted(Color::Yellow),
        cells[1].text@ == record.status_glyph@ + " "@ + record.status_label@,
        cells[1].style == painted(color),
        cells[2].text@ == started@,
        record.duration_ms is None ==> cells[3].text@ == "—"@,
        record.duration_ms matches Some(ms) && ms >= 0 ==> exists|secs: Seq<char>|
            {
                &&& #[trigger] well_written(secs)
                &&& number_in(secs) * 1000 <= record.duration_ms->0 < number_in(secs) * 1000 + 1000
                &&& cells[3].text@ == secs + "s"@
            },
        record.duration_ms matches Some(ms) && ms < 0 ==> exists|secs: Seq<char>|
            {
                &&& #[trigger] well_written(secs)
                &&& -number_in(secs) * 1000 - 1000 < record.duration_ms->0 <= -number_in(secs)
                    * 1000
                &&& number_in(secs) == 0 ==> cells[3].text@ == secs + "s"@
                &&& number_in(secs) > 0 ==> cells[3].text@ == seq!['-'] + secs + "s"@
            },
        record.initiator matches Some(initiator) ==> cells[4].text@ == initiator@,
        record.initiator is None ==> cells[4].text@ == "—"@,
        record.source_version matches Some(version) ==> {
            &&& cells[5].text@.is_prefix_of(version@)
            &&& cells[5].text@.len() <= 12
            &&& cells[5].text@.len() == 12 || cells[5].text@ == version@
        },
        record.source_version is None ==> cells[5].text@ == "—"@,
        forall|i: int|
            2 <= i < 6 ==> (#[trigger] cells[i]).style == (Style {
                fg: None,
                bg: None,
                bold: false,
                dim: false,
            }),
{
    let shown = cells.deep_view();
    assert(shown.len() == 6);
    assert forall|i: int| 0 <= i < 6 implies #[trigger] shown[i] == cells[i]@ by {}
    assert(shown[0] == cells[0]@);
    assert(shown[1] == cells[1]@);
    assert(shown[2] == cells[2]@);
    assert(shown[3] == cells[3]@);
    assert(shown[4] == cells[4]@);
    assert(shown[5] == cells[5]@);
    reveal_strlit("#");
    let number = signed_decimal(record.build_number as int);
    lemma_signed_decimal_reads_back(record.build_number as int);
    assert(cells[0].text@.skip(1) =~= number);
    if record.build_number < 0 {
        assert(cells[0].text@.skip(2) =~= number.skip(1));
    }
    if let Some(ms) = record.duration_ms {
        if ms >= 0 {
            let q = quotient(ms as int, 1000);
            law_quotient_rounds_towards_zero(ms as int, 1000);
            lemma_signed_decimal_reads_back(q);
            assert(well_written(signed_decimal(q)));
        } else {
            let q = quotient(ms as int, 1000);
            law_quotient_rounds_towards_zero(ms as int, 1000);
            lemma_decimal_reads_back((-q) as nat);
            assert(well_written(decimal((-q) as nat)));
        }
    }
}

/// The body of a `builds` tab. An error is shown before all else. Without an error, a tab that has
/// runs shows the table of them, one row for each in their order, whether or not a fetch is under
/// way. Only a tab without runs shows that it is loading, or that there are none.
pub proof fn law_runs_are_shown_as_a_table(name: &str, b: &BuildsTab, screen: BuildsScreen)
    requires
        call_ensures(draw_builds_table, (name, b), screen),
    ensures
        b.last_error matches Some(error) ==> {
            &&& screen matches BuildsScreen::Notice(notice)
            &&& notice.text@ == "error: "@ + error@ + "\n\nPress `r` to retry."@
            &&& notice.style == painted(Color::Red)
        },
        b.last_error is None && b.items.len() > 0 ==> {
            &&& screen matches BuildsScreen::Table(table)
            &&& table.rows.len() == b.items.len()
            &&& table.selected == b.selected
            &&& table.title@ == " "@ + name@ + " "@
        },
        b.last_error is None && b.items.len() == 0 ==> {
            &&& screen matches BuildsScreen::Notice(notice)
            &&& b.loading ==> notice.text@ == "loading…"@
            &&& !b.loading ==> notice.text@ == "(no recent builds for this project)"@
            &&& notice.style == painted(Color::DarkGray)
        },
{
    assert(b@.items.len() == b.items.len());
    if let BuildsScreen::Table(table) = screen {
        assert(table@.rows.len() == table.rows.len());
    }
}

/// The row at `i` is that of the run at `i`, with its start written as it is for that run alone, or
/// a dash where the start is not known.
pub proof fn law_row_is_that_of_its_run(
    name: &str,
    b: &BuildsTab,
    table: BuildsTable,
    i: int,
    started: String,
    cells: Vec<StyledText>,
)
    requires
        call_ensures(draw_builds_table, (name, b), BuildsScreen::Table(table)),
        0 <= i < b.items.len(),
        b.items[i].started_at_ms matches Some(ms) ==> call_ensures(format_ms, (ms,), started),
        b.items[i].started_at_ms is None ==> started@ == "—"@,
        call_ensures(build_row, (&b.items[i], started), cells),
    ensures
        table.rows.len() == b.items.len(),
        table.rows[i].deep_view() == cells.deep_view(),
{
    let screen = BuildsScreen::Table(table);
    assert(b@.items.len() == b.items.len());
    assert(b@.items[i] == b.items[i]@);
    assert(table@.rows.len() == table.rows.len());
    assert(table@.rows[i] == table.rows[i].deep_view());
    assert(started@ == record_start(b.items[i]@));
}

/// The table has a header over six columns of fixed width and marks the highlighted row.
pub proof fn law_table_has_its_columns(name: &str, b: &BuildsTab, table: BuildsTable)
    requires
        call_ensures(draw_builds_table, (name, b), BuildsScreen::Table(table)),
    ensures
        table.header.deep_view() == seq![
            "#"@,
            "STATUS"@,
            "STARTED"@,
            "DUR"@,
            "INITIATOR"@,
            "SOURCE"@,
        ],
        table.widths@ == seq![10u16, 14u16, 20u16, 8u16, 28u16, 14u16],
        table.header_style == (Style { bold: true, ..painted(Color::DarkGray) }),
        table.highlight == (Style {
            fg: None,
            bg: Some(Color::DarkGray),
            bold: true,
            dim: false,
        }),
        table.symbol@ == "▸ "@,
{
    let screen = BuildsScreen::Table(table);
    assert(screen@ == builds_screen(name@, b@));
}

/// The body of a `logs` tab. An error is shown before all else. Without a pane the tail is being
/// started. Else the lines in view are shown, inside the border, in the order of the log: from the
/// scroll position on, or the last ones where the pane follows or too few lie below that position.
pub proof fn law_log_is_shown_from_scroll_position(
    name: &str,
    l: &LogsTab,
    height: u16,
    screen: LogsScreen,
)
    requires
        call_ensures(draw_logs, (name, l, height), screen),
    ensures
        l.last_error matches Some(error) ==> {
            &&& screen matches LogsScreen::Notice(notice)
            &&& notice.text@ == "error: "@ + error@
            &&& notice.style == painted(Color::Red)
        },
        l.last_error is None && l.pane is None ==> {
            &&& screen matches LogsScreen::Notice(notice)
            &&& notice.text@ == "(spawning aws logs tail…)"@
            &&& notice.style == painted(Color::DarkGray)
        },
        l.last_error is None && l.pane is Some ==> {
            let pane = l.pane->0;
            let total = pane.lines.len() as int;
            let rows = height - 2;
            &&& screen matches LogsScreen::Lines { title, lines }
            &&& pane.log_stream matches Some(stream) ==> title@ == " "@ + name@ + " · "@ + stream@
                + " "@
            &&& pane.log_stream is None ==> title@ == " "@ + name@ + " · "@ + pane.log_group@
                + " "@
            &&& rows <= 0 ==> lines.len() == 0
            &&& 0 < rows && total <= rows ==> {
                &&& lines.len() == total
                &&& forall|i: int|
                    0 <= i < lines.len() ==> (#[trigger] lines[i]).text@ == pane.lines[i].text@
            }
            &&& 0 < rows < total && pane.scroll != usize::MAX && pane.scroll + rows <= total ==> {
                &&& lines.len() == rows
                &&& forall|i: int|
                    0 <= i < lines.len() ==> (#[trigger] lines[i]).text@ == pane.lines[pane.scroll
                        + i].text@
            }
            &&& 0 < rows < total && (pane.scroll == usize::MAX || pane.scroll + rows > total) ==> {
                &&& lines.len() == rows
                &&& forall|i: int|
                    0 <= i < lines.len() ==> (#[trigger] lines[i]).text@ == pane.lines[total - rows
                        + i].text@
            }
        },
{
    if l.last_error is None && l.pane is Some {
        let pane = l.pane->0;
        let rows = height - 2;
        assert(l@.pane->0 == pane@);
        assert(pane@.lines.len() == pane.lines.len());
        if let LogsScreen::Lines { title, lines } = screen {
            let shown = if rows <= 0 { 0int } else { rows };
            let window = pane@.window(shown);
            let start = pane@.window_start(shown);
            assert(lines.deep_view().len() == window.len());
            assert forall|i: int| 0 <= i < lines.len() implies (#[trigger] lines[i]).text@
                == pane.lines[start + i].text@ by {
                assert(lines.deep_view()[i] == lines[i]@);
                assert(window[i] == pane@.lines[start + i]);
                assert(pane@.lines[start + i] == pane.lines[start + i]@);
            }
        }
    }
}

/// Every line in view has the colour of its severity.
pub proof fn law_lines_have_their_colours(
    name: &str,
    l: &LogsTab,
    height: u16,
    title: String,
    lines: Vec<StyledText>,
    i: int,
)
    requires
        call_ensures(draw_logs, (name, l, height), (LogsScreen::Lines { title, lines })),
        0 <= i < lines.len(),
    ensures
        l.pane is Some,
        exists|k: int|
            {
                &&& 0 <= k < l.pane->0.lines.len()
                &&& (#[trigger] l.pane->0.lines[k]).text@ == lines[i].text@
                &&& match l.pane->0.lines[k].severity {
                    LineSeverity::Error => lines[i].style == painted(Color::Red),
                    LineSeverity::Warn => lines[i].style == painted(Color::Yellow),
                    LineSeverity::Info => lines[i].style == painted(Color::Cyan),
                    LineSeverity::Debug => lines[i].style == painted(Color::DarkGray),
                    LineSeverity::Plain => lines[i].style == painted(Color::Gray),
                }
            },
{
    let screen = LogsScreen::Lines { title, lines };
    let pane = l.pane->0;
    assert(l@.pane->0 == pane@);
    assert(pane@.lines.len() == pane.lines.len());
    let rows = body_rows_of(height);
    let window = pane@.window(rows);
    let k = pane@.window_start(rows) + i;
    assert(screen@ == logs_screen(name@, l@, height));
    assert(lines.deep_view().len() == window.len());
    assert(lines.deep_view()[i] == lines[i]@);
    assert(window[i] == pane@.lines[k]);
    assert(pane@.lines[k] == pane.lines[k]@);
    assert(pane.lines[k].text@ == lines[i].text@);
}

/// The strip has one label for each tab, in their order: its number, counted from one, its name,
/// and how it stands. The active tab is the selected one.
pub proof fn law_strip_has_a_label_for_each_tab(app: &App, strip: TabStrip, i: int)
    requires
        call_ensures(draw_tabs, (app,), strip),
        0 <= i < app.tabs.len(),
    ensures
        strip.selected == app.active_tab,
        strip.title@ == " aws "@,
        strip.highlight == (Style {
            fg: Some(Color::Black),
            bg: Some(Color::Cyan),
            bold: true,
            dim: false,
        }),
        strip.labels.len() == app.tabs.len(),
        exists|place: Seq<char>, state: Seq<char>|
            {
                &&& #[trigger] well_written(place)
                &&& number_in(place) == i + 1
                &&& strip.labels[i]@ == #[trigger] (place + "."@ + app.tabs[i].name@ + state)
                &&& match app.tabs[i].data {
                    TabData::Builds(b) => if b.items.len() > 0 {
                        exists|count: Seq<char>|
                            {
                                &&& #[trigger] well_written(count)
                                &&& number_in(count) == b.items.len()
                                &&& state == " ("@ + count + ")"@
                            }
                    } else if b.loading {
                        state == " · loading"@
                    } else {
                        state.len() == 0
                    },
                    TabData::Logs(l) => if l.pane is Some {
                        state == " · tailing"@
                    } else {
                        state.len() == 0
                    },
                }
            },
{
    let tab = app.tabs[i];
    assert(app@.tabs.len() == app.tabs.len());
    assert(app@.tabs[i] == tab@);
    assert(strip@.labels.len() == strip.labels.len());
    assert(strip@.labels[i] == strip.labels[i]@);
    let place = decimal((i + 1) as nat);
    let state = tab_suffix(tab@.data);
    lemma_decimal_reads_back((i + 1) as nat);
    if let TabData::Builds(b) = tab.data {
        assert(b@.items.len() == b.items.len());
        if b.items.len() > 0 {
            lemma_decimal_reads_back(b.items.len() as nat);
            assert(well_written(decimal(b.items.len() as nat)));
        }
    }
    assert(strip.labels[i]@ == place + "."@ + tab.name@ + state);
}

/// The status line shows the status text, whatever it is, and then the keys, always the same.
pub proof fn law_status_line_shows_the_status(
    a: &App,
    b: &App,
    of_a: Vec<StyledText>,
    of_b: Vec<StyledText>,
)
    requires
        call_ensures(draw_status, (a,), of_a),
        call_ensures(draw_status, (b,), of_b),
    ensures
        of_a.len() == 2,
        of_a[0].text@ == " "@ + a.status@ + " "@,
        of_a[0].style == painted(Color::White),
        of_b.len() == 2,
        of_a[1].text@ == of_b[1].text@,
        of_a[1].style == of_b[1].style,
        of_a[1].style == (Style { dim: true, ..painted(Color::DarkGray) }),
{
    assert(of_a.deep_view().len() == 2);
    assert(of_b.deep_view().len() == 2);
    assert(of_a.deep_view()[0] == of_a[0]@);
    assert(of_a.deep_view()[1] == of_a[1]@);
    assert(of_b.deep_view()[1] == of_b[1]@);
}

/// The body shows the tab that it is drawn for, by its kind.
pub proof fn law_body_shows_its_tab(
    tab: &TabState,
    height: u16,
    body: Body,
    builds: BuildsScreen,
    logs: LogsScreen,
)
    requires
        call_ensures(draw_body, (tab, height), body),
        tab.data matches TabData::Builds(b) ==> exists|name: &str|
            name@ == tab.name@ && #[trigger] call_ensures(draw_builds_table, (name, &b), builds),
        tab.data matches TabData::Logs(l) ==> exists|name: &str|
            name@ == tab.name@ && #[trigger] call_ensures(draw_logs, (name, &l, height), logs),
    ensures
        tab.data is Builds ==> (body matches Body::Builds(screen) && screen@ == builds@),
        tab.data is Logs ==> (body matches Body::Logs(screen) && screen@ == logs@),
{
}

/// The screen shows the active tab between the strip and the status line. The three take up the
/// whole screen, one below the other, as wide as it is.
pub proof fn law_screen_shows_active_tab(
    app: &App,
    size: Area,
    screen: Screen,
    strip: TabStrip,
    body: Body,
    status: Vec<StyledText>,
)
    requires
        app.active_tab < app.tabs.len(),
        call_ensures(draw, (app, size), screen),
        call_ensures(draw_tabs, (app,), strip),
        call_ensures(
            draw_body,
            (&app.tabs[app.active_tab as int], screen.bands.body.height),
            body,
        ),
        call_ensures(draw_status, (app,), status),
        size.y + size.height <= u16::MAX,
    ensures
        screen.tabs@ == strip@,
        screen.body@ == body@,
        screen.status.deep_view() == status.deep_view(),
        ({
            let tabs = screen.bands.tabs;
            let middle = screen.bands.body;
            let line = screen.bands.status;
            &&& tabs.x == size.x && middle.x == size.x && line.x == size.x
            &&& tabs.width == size.width && middle.width == size.width && line.width == size.width
            &&& tabs.y == size.y
            &&& middle.y == tabs.y + tabs.height
            &&& line.y == middle.y + middle.height
            &&& line.y + line.height == size.y + size.height
            &&& size.height >= 5 ==> tabs.height == 3 && line.height == 1
            &&& size.height >= 3 ==> line.height == 1
            &&& 1 <= size.height <= 5 ==> middle.height == 1
        }),
{
    assert(app@.tabs[app.active_tab as int] == app.tabs[app.active_tab as int]@);
}

/// The report names the file, the region, the interval, and then every tab in order, counted from
/// one, with its name, its kind and what it is pointed at.
pub proof fn law_report_tells_of_every_tab(path: &str, cfg: &Config, lines: Vec<String>, i: int)
    requires
        call_ensures(report, (path, cfg), lines),
        0 <= i < cfg.tabs.len(),
    ensures
        lines.len() == cfg.tabs.len() + 4,
        lines[0]@ == "config: "@ + path@,
        lines[1]@ == "region: "@ + debug_text(cfg.region.deep_view()),
        exists|secs: Seq<char>|
            {
                &&& #[trigger] well_written(secs)
                &&& number_in(secs) == cfg.refresh_interval_secs
                &&& lines[2]@ == "refresh_interval_secs: "@ + secs
            },
        exists|place: Seq<char>|
            {
                let tab = cfg.tabs[i];
                &&& #[trigger] well_written(place)
                &&& number_in(place) == i + 1
                &&& lines[3 + i]@ == "  tab "@ + place + " ("@ + tab.name@ + "): kind="@ + tab.kind@
                    + " project="@ + debug_text(tab.project.deep_view()) + " log_group="@
                    + debug_text(tab.log_group.deep_view()) + " log_stream="@ + debug_text(
                    tab.log_stream.deep_view(),
                )
            },
        lines[lines.len() - 1]@ == "(auth: defers to the `aws` CLI's own credential chain)"@,
{
    let all = lines.deep_view();
    assert(cfg@.tabs.len() == cfg.tabs.len());
    assert(cfg@.tabs[i] == cfg.tabs[i]@);
    assert(all.len() == lines.len());
    assert(all[0] == lines[0]@);
    assert(all[1] == lines[1]@);
    assert(all[2] == lines[2]@);
    assert(all[3 + i] == lines[3 + i]@);
    assert(all[lines.len() - 1] == lines[lines.len() - 1]@);
    lemma_decimal_reads_back(cfg.refresh_interval_secs as nat);
    lemma_decimal_reads_back((i + 1) as nat);
    assert(well_written(decimal(cfg.refresh_interval_secs as nat)));
    assert(well_written(decimal((i + 1) as nat)));
}

} // verus!
