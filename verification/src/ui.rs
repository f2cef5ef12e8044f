//! What the screen shows: texts, colours and places, ready to be painted.

use crate::app::{App, AppV, BuildsTab, BuildsTabV, LogsTab, LogsTabV, TabData, TabDataV, TabState, TabStateV};
use crate::codebuild::{BuildStatus, CodeBuildRecord, CodeBuildRecordV};
use crate::log_tail::{LineSeverity, LogLineV, LogTailPane, LogTailPaneV};
use crate::text::{decimal, decimal_text, prefix, prefix_text, signed_decimal, signed_decimal_text};
use chrono::TimeZone;
use ratatui::layout::{Constraint, Direction, Layout, Rect};
use vstd::prelude::*;
use vstd::string::*;

verus! {

/// The colours in use.
#[derive(Debug, Clone, Copy, PartialEq, Eq, Structural)]
pub enum Color {
    Black,
    Red,
    Green,
    Yellow,
    Cyan,
    White,
    Gray,
    DarkGray,
}

/// How a text is painted. `None` leaves a colour as it is.
#[derive(Debug, Clone, Copy, PartialEq, Eq)]
pub struct Style {
    pub fg: Option<Color>,
    pub bg: Option<Color>,
    pub bold: bool,
    pub dim: bool,
}

/// A text with its style.
#[derive(Debug)]
pub struct StyledText {
    pub text: String,
    pub style: Style,
}

/// What a `StyledText` holds.
#[verifier::ext_equal]
pub struct StyledV {
    pub text: Seq<char>,
    pub style: Style,
}

impl View for StyledText {
    type V = StyledV;

    open spec fn view(&self) -> StyledV {
        StyledV { text: self.text@, style: self.style }
    }
}

impl DeepView for StyledText {
    type V = StyledV;

    open spec fn deep_view(&self) -> StyledV {
        self@
    }
}

/// No colour and no emphasis.
pub open spec fn plain_style() -> Style {
    Style { fg: None, bg: None, bold: false, dim: false }
}

/// A foreground colour alone.
pub open spec fn colored(fg: Color) -> Style {
    Style { fg: Some(fg), bg: None, bold: false, dim: false }
}

/// No colour and no emphasis.
fn plain() -> (style: Style)
    ensures
        style == plain_style(),
{
    Style { fg: None, bg: None, bold: false, dim: false }
}

/// A foreground colour alone.
fn color(fg: Color) -> (style: Style)
    ensures
        style == colored(fg),
{
    Style { fg: Some(fg), bg: None, bold: false, dim: false }
}

/// The colour of a build status.
pub open spec fn status_color_of(status: BuildStatus) -> Color {
    match status {
        BuildStatus::Succeeded => Color::Green,
        BuildStatus::Failed | BuildStatus::Fault | BuildStatus::TimedOut => Color::Red,
        BuildStatus::InProgress => Color::Cyan,
        BuildStatus::Stopped => Color::Yellow,
        BuildStatus::Other => Color::Gray,
    }
}

/// The colour of a build status.
pub fn status_color(status: BuildStatus) -> (color: Color)
    ensures
        color == status_color_of(status),
{
    match status {
        BuildStatus::Succeeded => Color::Green,
        BuildStatus::Failed | BuildStatus::Fault | BuildStatus::TimedOut => Color::Red,
        BuildStatus::InProgress => Color::Cyan,
        BuildStatus::Stopped => Color::Yellow,
        BuildStatus::Other => Color::Gray,
    }
}

/// The colour of a log line.
pub open spec fn severity_color_of(severity: LineSeverity) -> Color {
    match severity {
        LineSeverity::Error => Color::Red,
        LineSeverity::Warn => Color::Yellow,
        LineSeverity::Info => Color::Cyan,
        LineSeverity::Debug => Color::DarkGray,
        LineSeverity::Plain => Color::Gray,
    }
}

/// The colour of a log line.
pub fn severity_color(severity: LineSeverity) -> (color: Color)
    ensures
        color == severity_color_of(severity),
{
    match severity {
        LineSeverity::Error => Color::Red,
        LineSeverity::Warn => Color::Yellow,
        LineSeverity::Info => Color::Cyan,
        LineSeverity::Debug => Color::DarkGray,
        LineSeverity::Plain => Color::Gray,
    }
}

/// How times are written: date, hour and minute.
pub const MINUTE_FORMAT: &'static str = "%Y-%m-%d %H:%M";

/// The first second that `chrono` has a date for, -262143-01-01 00:00:00 UTC.
pub const FIRST_SECOND: i64 = -8334601228800;

/// The last second that `chrono` has a date for, 262142-12-31 23:59:59 UTC.
pub const LAST_SECOND: i64 = 8210266876799;

/// The second `secs` after 1970-01-01 00:00:00 UTC, written in the format `format`.
pub uninterp spec fn utc_text(secs: i64, format: Seq<char>) -> Option<Seq<char>>;

/// `chrono`'s `Utc.timestamp_opt` with no part of a second, then `DateTime::format`: the second
/// `secs` after 1970-01-01 00:00:00 UTC, written as `format` says. There is a text for every
/// second of the years that `chrono` has, and for no other. The text depends on the second and
/// the format alone. Only `MINUTE_FORMAT` is admitted, since a format that `chrono` does not know
/// makes it panic.
#[verifier::external_body]
fn utc_format(secs: i64, format: &str) -> (text: Option<String>)
    requires
        format@ == MINUTE_FORMAT@,
    ensures
        text.deep_view() == utc_text(secs, format@),
        text is Some <==> FIRST_SECOND <= secs <= LAST_SECOND,
{
    match chrono::Utc.timestamp_opt(secs, 0).single() {
        Some(time) => Some(time.format(format).to_string()),
        None => None,
    }
}

/// `a / b`, rounded towards zero.
pub open spec fn quotient(a: int, b: int) -> int {
    if a < 0 {
        -((-a) / b)
    } else {
        a / b
    }
}

/// The text, or a dash where there is none.
pub open spec fn or_dash(text: Option<Seq<char>>) -> Seq<char> {
    match text {
        Some(text) => text,
        None => "—"@,
    }
}

/// A start, `ms` milliseconds after 1970-01-01 00:00 UTC, in words.
pub open spec fn start_text(ms: i64) -> Seq<char> {
    or_dash(utc_text(quotient(ms as int, 1000) as i64, MINUTE_FORMAT@))
}

/// The text, or a dash where there is none.
pub fn dashed(text: Option<String>) -> (shown: String)
    ensures
        shown@ == or_dash(text.deep_view()),
{
    match text {
        Some(text) => text,
        None => "—".to_string(),
    }
}

/// `YYYY-MM-DD HH:MM` in UTC, `ms` milliseconds after 1970-01-01 00:00. There is such a text for
/// every time in range. A dash stands for a time out of range.
pub fn format_ms(ms: i64) -> (text: String)
    ensures
        text@ == start_text(ms),
        utc_text(quotient(ms as int, 1000) as i64, MINUTE_FORMAT@) is Some <==> FIRST_SECOND
            <= quotient(ms as int, 1000) <= LAST_SECOND,
        !(FIRST_SECOND <= quotient(ms as int, 1000) <= LAST_SECOND) ==> text@ == "—"@,
{
    let secs: i64 = ms / 1000;
    dashed(utc_format(secs, MINUTE_FORMAT))
}

/// The most characters shown of a source version.
pub const SOURCE_WIDTH: usize = 12;

/// One cell without a style of its own.
pub open spec fn plain_cell(text: Seq<char>) -> StyledV {
    StyledV { text, style: plain_style() }
}

/// A duration in whole seconds.
pub open spec fn duration_text(ms: i64) -> Seq<char> {
    signed_decimal(quotient(ms as int, 1000)) + "s"@
}

/// The row of a run: number, status, start, duration, initiator, source.
pub open spec fn build_cells(record: CodeBuildRecordV, started: Seq<char>) -> Seq<StyledV> {
    seq![
        StyledV {
            text: "#"@ + signed_decimal(record.build_number as int),
            style: colored(Color::Yellow),
        },
        StyledV {
            text: record.status_glyph + " "@ + record.status_label,
            style: colored(status_color_of(record.status)),
        },
        plain_cell(started),
        plain_cell(
            match record.duration_ms {
                Some(ms) => duration_text(ms),
                None => "—"@,
            },
        ),
        plain_cell(or_dash(record.initiator)),
        plain_cell(
            match record.source_version {
                Some(version) => prefix(version, SOURCE_WIDTH as nat),
                None => "—"@,
            },
        ),
    ]
}

/// The start of a run in words.
pub open spec fn record_start(record: CodeBuildRecordV) -> Seq<char> {
    match record.started_at_ms {
        Some(ms) => start_text(ms),
        None => "—"@,
    }
}

/// The row of a run whose start is written `started`.
pub fn build_row(record: &CodeBuildRecord, started: String) -> (cells: Vec<StyledText>)
    ensures
        cells.deep_view() == build_cells(record@, started@),
{
    let number = "#".to_string().concat(signed_decimal_text(record.build_number).as_str());
    let status = record.status_glyph.clone().concat(" ").concat(record.status_label.as_str());
    let duration = match record.duration_ms {
        Some(ms) => signed_decimal_text(ms / 1000).concat("s"),
        None => "—".to_string(),
    };
    let initiator = match &record.initiator {
        Some(initiator) => initiator.clone(),
        None => "—".to_string(),
    };
    let source = match &record.source_version {
        Some(version) => prefix_text(version.as_str(), SOURCE_WIDTH),
        None => "—".to_string(),
    };
    let mut cells: Vec<StyledText> = Vec::new();
    cells.push(StyledText { text: number, style: color(Color::Yellow) });
    cells.push(StyledText { text: status, style: color(status_color(record.status)) });
    cells.push(StyledText { text: started, style: plain() });
    cells.push(StyledText { text: duration, style: plain() });
    cells.push(StyledText { text: initiator, style: plain() });
    cells.push(StyledText { text: source, style: plain() });
    assert(cells.deep_view() =~= build_cells(record@, started@));
    cells
}

/// The table of runs.
#[derive(Debug)]
pub struct BuildsTable {
    pub title: String,
    pub header: Vec<String>,
    pub header_style: Style,
    /// The width of each column.
    pub widths: Vec<u16>,
    pub rows: Vec<Vec<StyledText>>,
    pub highlight: Style,
    /// The mark before the highlighted row.
    pub symbol: String,
    pub selected: usize,
}

/// What a `BuildsTable` holds.
#[verifier::ext_equal]
pub struct BuildsTableV {
    pub title: Seq<char>,
    pub header: Seq<Seq<char>>,
    pub header_style: Style,
    pub widths: Seq<u16>,
    pub rows: Seq<Seq<StyledV>>,
    pub highlight: Style,
    pub symbol: Seq<char>,
    pub selected: nat,
}

impl View for BuildsTable {
    type V = BuildsTableV;

    open spec fn view(&self) -> BuildsTableV {
        BuildsTableV {
            title: self.title@,
            header: self.header.deep_view(),
            header_style: self.header_style,
            widths: self.widths@,
            rows: self.rows.deep_view(),
            highlight: self.highlight,
            symbol: self.symbol@,
            selected: self.selected as nat,
        }
    }
}

/// The body of a `builds` tab: a sentence, or the table.
#[derive(Debug)]
pub enum BuildsScreen {
    Notice(StyledText),
    Table(BuildsTable),
}

/// What a `BuildsScreen` holds.
#[verifier::ext_equal]
pub enum BuildsScreenV {
    Notice(StyledV),
    Table(BuildsTableV),
}

impl View for BuildsScreen {
    type V = BuildsScreenV;

    open spec fn view(&self) -> BuildsScreenV {
        match self {
            BuildsScreen::Notice(notice) => BuildsScreenV::Notice(notice@),
            BuildsScreen::Table(table) => BuildsScreenV::Table(table@),
        }
    }
}

/// The table of the runs of the tab `name`.
pub open spec fn builds_table(name: Seq<char>, b: BuildsTabV) -> BuildsTableV {
    BuildsTableV {
        title: " "@ + name + " "@,
        header: seq!["#"@, "STATUS"@, "STARTED"@, "DUR"@, "INITIATOR"@, "SOURCE"@],
        header_style: Style { bold: true, ..colored(Color::DarkGray) },
        widths: seq![10u16, 14u16, 20u16, 8u16, 28u16, 14u16],
        rows: Seq::new(b.items.len(), |i: int| build_cells(b.items[i], record_start(b.items[i]))),
        highlight: Style { bg: Some(Color::DarkGray), bold: true, ..plain_style() },
        symbol: "▸ "@,
        selected: b.selected,
    }
}

/// The body of the `builds` tab `name`. An error goes before everything else.
pub open spec fn builds_screen(name: Seq<char>, b: BuildsTabV) -> BuildsScreenV {
    match b.last_error {
        Some(error) => BuildsScreenV::Notice(
            StyledV {
                text: "error: "@ + error + "\n\nPress `r` to retry."@,
                style: colored(Color::Red),
            },
        ),
        None => if b.items.len() > 0 {
            BuildsScreenV::Table(builds_table(name, b))
        } else if b.loading {
            BuildsScreenV::Notice(
                StyledV { text: "loading…"@, style: colored(Color::DarkGray) },
            )
        } else {
            BuildsScreenV::Notice(
                StyledV {
                    text: "(no recent builds for this project)"@,
                    style: colored(Color::DarkGray),
                },
            )
        },
    }
}

/// The body of the `builds` tab `name`.
pub fn draw_builds_table(name: &str, b: &BuildsTab) -> (screen: BuildsScreen)
    ensures
        screen@ == builds_screen(name@, b@),
{
    match &b.last_error {
        Some(error) => {
            let text = "error: ".to_string().concat(error.as_str()).concat(
                "\n\nPress `r` to retry.",
            );
            return BuildsScreen::Notice(StyledText { text, style: color(Color::Red) });
        },
        None => {},
    }
    if b.loading && b.items.len() == 0 {
        return BuildsScreen::Notice(
            StyledText { text: "loading…".to_string(), style: color(Color::DarkGray) },
        );
    }
    if b.items.len() == 0 {
        return BuildsScreen::Notice(
            StyledText {
                text: "(no recent builds for this project)".to_string(),
                style: color(Color::DarkGray),
            },
        );
    }
    let header: Vec<String> = vec![
        "#".to_string(),
        "STATUS".to_string(),
        "STARTED".to_string(),
        "DUR".to_string(),
        "INITIATOR".to_string(),
        "SOURCE".to_string(),
    ];
    let mut rows: Vec<Vec<StyledText>> = Vec::new();
    let mut i: usize = 0;
    while i < b.items.len()
        invariant
            i <= b.items.len(),
            rows.len() == i,
            forall|j: int|
                0 <= j < i ==> (#[trigger] rows[j]).deep_view() == build_cells(
                    b.items[j]@,
                    record_start(b.items[j]@),
                ),
        decreases b.items.len() - i,
    {
        let record = &b.items[i];
        let started = match record.started_at_ms {
            Some(ms) => format_ms(ms),
            None => "—".to_string(),
        };
        rows.push(build_row(record, started));
        i = i + 1;
    }
    let table = BuildsTable {
        title: " ".to_string().concat(name).concat(" "),
        header,
        header_style: Style { fg: Some(Color::DarkGray), bg: None, bold: true, dim: false },
        widths: vec![10, 14, 20, 8, 28, 14],
        rows,
        highlight: Style { fg: None, bg: Some(Color::DarkGray), bold: true, dim: false },
        symbol: "▸ ".to_string(),
        selected: b.selected,
    };
    assert(table@ =~~= builds_table(name@, b@));
    BuildsScreen::Table(table)
}

/// The body of a `logs` tab: a sentence, or the lines in view.
#[derive(Debug)]
pub enum LogsScreen {
    Notice(StyledText),
    Lines { title: String, lines: Vec<StyledText> },
}

/// What a `LogsScreen` holds.
#[verifier::ext_equal]
pub enum LogsScreenV {
    Notice(StyledV),
    Lines { title: Seq<char>, lines: Seq<StyledV> },
}

impl View for LogsScreen {
    type V = LogsScreenV;

    open spec fn view(&self) -> LogsScreenV {
        match self {
            LogsScreen::Notice(notice) => LogsScreenV::Notice(notice@),
            LogsScreen::Lines { title, lines } => LogsScreenV::Lines {
                title: title@,
                lines: lines.deep_view(),
            },
        }
    }
}

/// The rows inside the border of a body `height` rows high.
pub open spec fn body_rows_of(height: u16) -> int {
    if height < 2 {
        0
    } else {
        height - 2
    }
}

/// A log line as shown.
pub open spec fn shown_line(line: LogLineV) -> StyledV {
    StyledV { text: line.text, style: colored(severity_color_of(line.severity)) }
}

/// The title over the pane of the tab `name`: its stream, or its group where it has all streams.
pub open spec fn pane_title(name: Seq<char>, pane: LogTailPaneV) -> Seq<char> {
    " "@ + name + " · "@ + (match pane.log_stream {
        Some(stream) => stream,
        None => pane.log_group,
    }) + " "@
}

/// The body of the `logs` tab `name`, `height` rows high with its border. An error goes before
/// everything else.
pub open spec fn logs_screen(name: Seq<char>, l: LogsTabV, height: u16) -> LogsScreenV {
    match l.last_error {
        Some(error) => LogsScreenV::Notice(
            StyledV { text: "error: "@ + error, style: colored(Color::Red) },
        ),
        None => match l.pane {
            None => LogsScreenV::Notice(
                StyledV { text: "(spawning aws logs tail…)"@, style: colored(Color::DarkGray) },
            ),
            Some(pane) => LogsScreenV::Lines {
                title: pane_title(name, pane),
                lines: pane.window(body_rows_of(height)).map_values(
                    |line: LogLineV| shown_line(line),
                ),
            },
        },
    }
}

/// The lines of `pane` in view in a window of `rows` rows.
pub fn draw_lines(pane: &LogTailPane, rows: usize) -> (lines: Vec<StyledText>)
    ensures
        lines.deep_view() == pane@.window(rows as int).map_values(
            |line: LogLineV| shown_line(line),
        ),
{
    let total: usize = pane.lines.len();
    let start: usize = pane.first_shown(rows);
    let mut lines: Vec<StyledText> = Vec::new();
    let mut i: usize = start;
    while i < total && i - start < rows
        invariant
            start <= i <= total,
            i - start <= rows,
            total == pane.lines.len(),
            lines.len() == i - start,
            forall|j: int|
                0 <= j < lines.len() ==> (#[trigger] lines[j])@ == shown_line(
                    pane.lines[start + j]@,
                ),
        decreases total - i,
    {
        let line = &pane.lines[i];
        lines.push(
            StyledText { text: line.text.clone(), style: color(severity_color(line.severity)) },
        );
        i = i + 1;
    }
    assert(lines.deep_view() =~= pane@.window(rows as int).map_values(
        |line: LogLineV| shown_line(line),
    ));
    lines
}

/// The body of the `logs` tab `name`, `height` rows high with its border.
pub fn draw_logs(name: &str, l: &LogsTab, height: u16) -> (screen: LogsScreen)
    ensures
        screen@ == logs_screen(name@, l@, height),
{
    match &l.last_error {
        Some(error) => {
            return LogsScreen::Notice(
                StyledText {
                    text: "error: ".to_string().concat(error.as_str()),
                    style: color(Color::Red),
                },
            );
        },
        None => {},
    }
    match &l.pane {
        None => LogsScreen::Notice(
            StyledText {
                text: "(spawning aws logs tail…)".to_string(),
                style: color(Color::DarkGray),
            },
        ),
        Some(pane) => {
            let rows: usize = height.saturating_sub(2) as usize;
            let lines = draw_lines(pane, rows);
            let source = match &pane.log_stream {
                Some(stream) => stream.as_str(),
                None => pane.log_group.as_str(),
            };
            let title = " ".to_string().concat(name).concat(" · ").concat(source).concat(" ");
            LogsScreen::Lines { title, lines }
        },
    }
}

/// The strip of tabs.
#[derive(Debug)]
pub struct TabStrip {
    pub title: String,
    pub labels: Vec<String>,
    pub highlight: Style,
    pub selected: usize,
}

/// What a `TabStrip` holds.
#[verifier::ext_equal]
pub struct TabStripV {
    pub title: Seq<char>,
    pub labels: Seq<Seq<char>>,
    pub highlight: Style,
    pub selected: usize,
}

impl View for TabStrip {
    type V = TabStripV;

    open spec fn view(&self) -> TabStripV {
        TabStripV {
            title: self.title@,
            labels: self.labels.deep_view(),
            highlight: self.highlight,
            selected: self.selected,
        }
    }
}

/// What the strip says of the state of a tab, behind its name.
pub open spec fn tab_suffix(data: TabDataV) -> Seq<char> {
    match data {
        TabDataV::Builds(b) => if b.items.len() > 0 {
            " ("@ + decimal(b.items.len()) + ")"@
        } else if b.loading {
            " · loading"@
        } else {
            Seq::empty()
        },
        TabDataV::Logs(l) => if l.pane is Some {
            " · tailing"@
        } else {
            Seq::empty()
        },
    }
}

/// The label of the tab at `i`, counted from one.
pub open spec fn tab_label(i: int, tab: TabStateV) -> Seq<char> {
    decimal((i + 1) as nat) + "."@ + tab.name + tab_suffix(tab.data)
}

/// The strip of tabs.
pub open spec fn tab_strip(app: AppV) -> TabStripV {
    TabStripV {
        title: " aws "@,
        labels: Seq::new(app.tabs.len(), |i: int| tab_label(i, app.tabs[i])),
        highlight: Style {
            fg: Some(Color::Black),
            bg: Some(Color::Cyan),
            bold: true,
            dim: false,
        },
        selected: app.active_tab,
    }
}

/// What the strip says of the state of a tab, behind its name.
fn suffix(data: &TabData) -> (text: String)
    ensures
        text@ == tab_suffix(data@),
{
    match data {
        TabData::Builds(b) => if b.loading && b.items.len() == 0 {
            " · loading".to_string()
        } else if b.items.len() > 0 {
            " (".to_string().concat(decimal_text(b.items.len() as u64).as_str()).concat(")")
        } else {
            String::new()
        },
        TabData::Logs(l) => if l.pane.is_some() {
            " · tailing".to_string()
        } else {
            String::new()
        },
    }
}

/// The strip of tabs.
pub fn draw_tabs(app: &App) -> (strip: TabStrip)
    ensures
        strip@ == tab_strip(app@),
{
    let mut labels: Vec<String> = Vec::new();
    let mut i: usize = 0;
    while i < app.tabs.len()
        invariant
            i <= app.tabs.len(),
            labels.len() == i,
            forall|j: int| 0 <= j < i ==> (#[trigger] labels[j])@ == tab_label(j, app.tabs[j]@),
        decreases app.tabs.len() - i,
    {
        let tab = &app.tabs[i];
        labels.push(
            decimal_text(i as u64 + 1).concat(".").concat(tab.name.as_str()).concat(
                suffix(&tab.data).as_str(),
            ),
        );
        i = i + 1;
    }
    let strip = TabStrip {
        title: " aws ".to_string(),
        labels,
        highlight: Style {
            fg: Some(Color::Black),
            bg: Some(Color::Cyan),
            bold: true,
            dim: false,
        },
        selected: app.active_tab,
    };
    assert(strip@ =~~= tab_strip(app@));
    strip
}

/// The keys, as the status line tells them.
pub const HINT: &'static str =
    " 1-9 tab · ↑↓/jk move · Enter/o open · y yank URL · L logs · r refresh · q quit ";

/// The status line: the status text, then the keys.
pub open spec fn status_line(status: Seq<char>) -> Seq<StyledV> {
    seq![
        StyledV { text: " "@ + status + " "@, style: colored(Color::White) },
        StyledV { text: HINT@, style: Style { dim: true, ..colored(Color::DarkGray) } },
    ]
}

/// The status line: the status text, then the keys.
pub fn draw_status(app: &App) -> (line: Vec<StyledText>)
    ensures
        line.deep_view() == status_line(app@.status),
{
    let mut line: Vec<StyledText> = Vec::new();
    line.push(
        StyledText {
            text: " ".to_string().concat(app.status.as_str()).concat(" "),
            style: color(Color::White),
        },
    );
    line.push(
        StyledText {
            text: HINT.to_string(),
            style: Style { fg: Some(Color::DarkGray), bg: None, bold: false, dim: true },
        },
    );
    assert(line.deep_view() =~= status_line(app@.status));
    line
}

/// A rectangle of the terminal.
#[derive(Debug, Clone, Copy, PartialEq, Eq)]
pub struct Area {
    pub x: u16,
    pub y: u16,
    pub width: u16,
    pub height: u16,
}

impl Area {
    /// The first row below the rectangle.
    pub open spec fn bottom(self) -> int {
        if self.y + self.height > u16::MAX {
            u16::MAX as int
        } else {
            self.y + self.height
        }
    }

    /// The rows that the rectangle has on a terminal, which ends at row `u16::MAX`.
    pub open spec fn rows(self) -> int {
        self.bottom() - self.y
    }

    /// Whether this rectangle is a band of `outer`: just as wide.
    pub open spec fn band_of(self, outer: Area) -> bool {
        &&& self.x == outer.x
        &&& self.width == outer.width
    }
}

/// The bands of the screen, from the top.
#[derive(Debug, Clone, Copy)]
pub struct Bands {
    pub tabs: Area,
    pub body: Area,
    pub status: Area,
}

/// The three parts are bands of `area`, one below the other, and take up all its rows.
pub open spec fn stacked(parts: (Area, Area, Area), area: Area) -> bool {
    &&& parts.0.band_of(area)
    &&& parts.1.band_of(area)
    &&& parts.2.band_of(area)
    &&& parts.0.y == area.y
    &&& parts.1.y == parts.0.y + parts.0.height
    &&& parts.2.y == parts.1.y + parts.1.height
    &&& parts.2.y + parts.2.height == area.bottom()
}

/// `ratatui`'s `Layout::split`, vertical, without margin or spacing, for a first part of `top`
/// rows, a second of at least `middle` and a third of `bottom`: the parts are as wide as `area`
/// and fill its rows from the top. The second part gets its rows before the others, which get no
/// more than they ask for. Where `area` has rows enough, they get just that, and the second part
/// the rest. Where it has not, the second part gets just `middle`, and the first and the third
/// share what it leaves. There the layout's weakest wish counts, that neighbours be of one size:
/// a third part that asks for no more than the second gets it as long as the first is left with
/// no fewer rows than the second. In the other cases the sharing is not stated: the solver behind
/// the layout may break a tie by the order of a hash map. The solver takes `middle` as a signed
/// number.
#[verifier::external_body]
fn split_rows(area: Area, top: u16, middle: u16, bottom: u16) -> (parts: (Area, Area, Area))
    requires
        middle <= i16::MAX,
    ensures
        stacked(parts, area),
        parts.0.height <= top,
        parts.1.height >= middle || parts.1.height == area.rows(),
        parts.2.height <= bottom,
        top + middle + bottom <= area.rows() ==> parts.0.height == top && parts.2.height == bottom,
        middle <= area.rows() <= top + middle + bottom ==> parts.1.height == middle,
        bottom <= middle && 2 * middle + bottom <= area.rows() ==> parts.2.height == bottom,
{
    let part = |r: Rect| Area { x: r.x, y: r.y, width: r.width, height: r.height };
    let whole = Rect { x: area.x, y: area.y, width: area.width, height: area.height };
    let parts = Layout::default()
        .direction(Direction::Vertical)
        .constraints([
            Constraint::Length(top),
            Constraint::Min(middle),
            Constraint::Length(bottom),
        ])
        .split(whole);
    (part(parts[0]), part(parts[1]), part(parts[2]))
}

/// The body of the screen.
#[derive(Debug)]
pub enum Body {
    Builds(BuildsScreen),
    Logs(LogsScreen),
}

/// What a `Body` holds.
#[verifier::ext_equal]
pub enum BodyV {
    Builds(BuildsScreenV),
    Logs(LogsScreenV),
}

impl View for Body {
    type V = BodyV;

    open spec fn view(&self) -> BodyV {
        match self {
            Body::Builds(screen) => BodyV::Builds(screen@),
            Body::Logs(screen) => BodyV::Logs(screen@),
        }
    }
}

/// The body that shows `tab` in a band `height` rows high.
pub open spec fn tab_body(tab: TabStateV, height: u16) -> BodyV {
    match tab.data {
        TabDataV::Builds(b) => BodyV::Builds(builds_screen(tab.name, b)),
        TabDataV::Logs(l) => BodyV::Logs(logs_screen(tab.name, l, height)),
    }
}

/// The body that shows `tab` in a band `height` rows high.
pub fn draw_body(tab: &TabState, height: u16) -> (body: Body)
    ensures
        body@ == tab_body(tab@, height),
{
    match &tab.data {
        TabData::Builds(b) => Body::Builds(draw_builds_table(tab.name.as_str(), b)),
        TabData::Logs(l) => Body::Logs(draw_logs(tab.name.as_str(), l, height)),
    }
}

/// Everything on the screen.
#[derive(Debug)]
pub struct Screen {
    pub bands: Bands,
    pub tabs: TabStrip,
    pub body: Body,
    pub status: Vec<StyledText>,
}

/// Lays out a screen of the size `size`: the tabs on top, the active tab, the status line.
pub fn draw(app: &App, size: Area) -> (screen: Screen)
    requires
        app@.in_range(),
    ensures
        stacked((screen.bands.tabs, screen.bands.body, screen.bands.status), size),
        screen.bands.tabs.height <= 3,
        screen.bands.status.height <= 1,
        1 <= size.rows() <= 5 ==> screen.bands.body.height == 1,
        3 <= size.rows() <= 5 ==> {
            &&& screen.bands.tabs.height == size.rows() - 2
            &&& screen.bands.status.height == 1
        },
        size.rows() >= 5 ==> {
            &&& screen.bands.tabs.height == 3
            &&& screen.bands.body.height == size.rows() - 4
            &&& screen.bands.status.height == 1
        },
        screen.tabs@ == tab_strip(app@),
        screen.body@ == tab_body(app@.active(), screen.bands.body.height),
        screen.status.deep_view() == status_line(app@.status),
{
    let (tabs, body, status) = split_rows(size, 3, 1, 1);
    Screen {
        bands: Bands { tabs, body, status },
        tabs: draw_tabs(app),
        body: draw_body(app.active(), body.height),
        status: draw_status(app),
    }
}

} // verus!
