//! A followed log: its last lines and where the reader stands in them.

use crate::text::{characters, has_word, holds_word};
use vstd::prelude::*;

verus! {

/// The most lines that a pane keeps.
pub const MAX_LINES: usize = 5000;

/// The scroll position of a pane that follows the end of its log.
pub const FOLLOW: usize = usize::MAX;

/// How grave a log line is.
#[derive(Debug, Clone, Copy, PartialEq, Eq, Structural)]
pub enum LineSeverity {
    Error,
    Warn,
    Info,
    Debug,
    Plain,
}

/// How grave the line `text` is, by the gravest word in it, in capitals or not.
pub open spec fn severity_of(text: Seq<char>) -> LineSeverity {
    if has_word(text, "ERROR"@) || has_word(text, "FATAL"@) {
        LineSeverity::Error
    } else if has_word(text, "WARN"@) {
        LineSeverity::Warn
    } else if has_word(text, "INFO"@) {
        LineSeverity::Info
    } else if has_word(text, "DEBUG"@) || has_word(text, "TRACE"@) {
        LineSeverity::Debug
    } else {
        LineSeverity::Plain
    }
}

impl LineSeverity {
    /// How grave the line `text` is, by the gravest word in it, in capitals or not.
    pub fn classify(text: &str) -> (severity: LineSeverity)
        ensures
            severity == severity_of(text@),
    {
        let chars = characters(text);
        if holds_word(&chars, "ERROR") || holds_word(&chars, "FATAL") {
            LineSeverity::Error
        } else if holds_word(&chars, "WARN") {
            LineSeverity::Warn
        } else if holds_word(&chars, "INFO") {
            LineSeverity::Info
        } else if holds_word(&chars, "DEBUG") || holds_word(&chars, "TRACE") {
            LineSeverity::Debug
        } else {
            LineSeverity::Plain
        }
    }
}

/// One line of a log.
#[derive(Debug, Clone)]
pub struct LogLine {
    pub text: String,
    pub severity: LineSeverity,
}

/// What a `LogLine` holds.
#[verifier::ext_equal]
pub struct LogLineV {
    pub text: Seq<char>,
    pub severity: LineSeverity,
}

impl View for LogLine {
    type V = LogLineV;

    open spec fn view(&self) -> LogLineV {
        LogLineV { text: self.text@, severity: self.severity }
    }
}

impl DeepView for LogLine {
    type V = LogLineV;

    open spec fn deep_view(&self) -> LogLineV {
        self@
    }
}

/// The line that `text` makes, with its severity.
pub open spec fn line_of(text: Seq<char>) -> LogLineV {
    LogLineV { text, severity: severity_of(text) }
}

/// A followed log.
#[derive(Debug)]
pub struct LogTailPane {
    pub log_group: String,
    pub log_stream: Option<String>,
    /// The lines kept, oldest first.
    pub lines: Vec<LogLine>,
    /// The first line shown, or `FOLLOW`.
    pub scroll: usize,
}

/// What a `LogTailPane` holds.
#[verifier::ext_equal]
pub struct LogTailPaneV {
    pub log_group: Seq<char>,
    pub log_stream: Option<Seq<char>>,
    pub lines: Seq<LogLineV>,
    pub scroll: nat,
}

impl View for LogTailPane {
    type V = LogTailPaneV;

    open spec fn view(&self) -> LogTailPaneV {
        LogTailPaneV {
            log_group: self.log_group@,
            log_stream: self.log_stream.deep_view(),
            lines: self.lines.deep_view(),
            scroll: self.scroll as nat,
        }
    }
}

impl DeepView for LogTailPane {
    type V = LogTailPaneV;

    open spec fn deep_view(&self) -> LogTailPaneV {
        self@
    }
}

/// What a background tail reports.
#[derive(Debug)]
pub enum LogTailEvent {
    /// A line was written to the log.
    Line(String),
    /// The tail broke down.
    Failed(String),
    /// The tail ended, with its exit code where it has one.
    Exited(Option<i32>),
}

/// What a `LogTailEvent` holds.
#[verifier::ext_equal]
pub enum LogTailEventV {
    Line(Seq<char>),
    Failed(Seq<char>),
    Exited(Option<i32>),
}

impl View for LogTailEvent {
    type V = LogTailEventV;

    open spec fn view(&self) -> LogTailEventV {
        match self {
            LogTailEvent::Line(text) => LogTailEventV::Line(text@),
            LogTailEvent::Failed(reason) => LogTailEventV::Failed(reason@),
            LogTailEvent::Exited(code) => LogTailEventV::Exited(*code),
        }
    }
}

/// The last `n` entries of `s`, or all of it where it is shorter.
pub open spec fn last_of<T>(s: Seq<T>, n: nat) -> Seq<T> {
    if s.len() <= n {
        s
    } else {
        s.skip(s.len() - n)
    }
}

/// `a - b`, or zero where that is negative.
pub open spec fn minus(a: int, b: int) -> int {
    if a <= b {
        0
    } else {
        a - b
    }
}

impl LogTailPaneV {
    /// The pane after one more line: the oldest lines beyond the limit are gone.
    pub open spec fn pushed(self, line: LogLineV) -> LogTailPaneV {
        LogTailPaneV { lines: last_of(self.lines.push(line), MAX_LINES as nat), ..self }
    }

    /// The scroll position after a move by `delta` lines, upwards where it is negative.
    pub open spec fn scrolled_to(self, delta: int) -> int {
        let total = self.lines.len() as int;
        if delta < 0 {
            let from = if self.scroll == FOLLOW {
                minus(total, 1)
            } else {
                self.scroll as int
            };
            minus(from, -delta)
        } else if self.scroll == FOLLOW || self.scroll + delta >= total {
            FOLLOW as int
        } else {
            self.scroll + delta
        }
    }

    /// The pane after a move by `delta` lines.
    pub open spec fn scrolled(self, delta: int) -> LogTailPaneV {
        LogTailPaneV { scroll: self.scrolled_to(delta) as nat, ..self }
    }

    /// The first line shown in a window of `rows` rows.
    pub open spec fn window_start(self, rows: int) -> int {
        let total = self.lines.len() as int;
        if self.scroll == FOLLOW {
            minus(total, rows)
        } else {
            let last = minus(total, if rows < 1 {
                1
            } else {
                rows
            });
            if self.scroll < last {
                self.scroll as int
            } else {
                last
            }
        }
    }

    /// The lines shown in a window of `rows` rows.
    pub open spec fn window(self, rows: int) -> Seq<LogLineV> {
        let rest = self.lines.skip(self.window_start(rows));
        if rest.len() <= rows {
            rest
        } else {
            rest.take(rows)
        }
    }
}

impl LogTailPane {
    /// Adds a line at the end; the oldest lines beyond `MAX_LINES` are dropped.
    pub fn push(&mut self, line: LogLine)
        ensures
            final(self)@ == old(self)@.pushed(line@),
    {
        let ghost before = self@;
        self.lines.push(line);
        assert(self.lines.deep_view() =~= before.lines.push(line@));
        if self.lines.len() > MAX_LINES {
            let drop: usize = self.lines.len() - MAX_LINES;
            let kept = self.lines.split_off(drop);
            self.lines = kept;
        }
        assert(self@ =~= before.pushed(line@));
    }

    /// Moves the window by `delta` lines, upwards where it is negative. Moving down beyond the
    /// last line makes the pane follow its log.
    pub fn scroll_by(&mut self, delta: isize)
        requires
            delta != isize::MIN,
        ensures
            final(self)@ == old(self)@.scrolled(delta as int),
    {
        if delta < 0 {
            let n: usize = (-delta) as usize;
            if self.scroll == FOLLOW {
                self.scroll = self.lines.len().saturating_sub(1);
            }
            self.scroll = self.scroll.saturating_sub(n);
        } else {
            let n: usize = delta as usize;
            let total: usize = self.lines.len();
            if self.scroll == FOLLOW || self.scroll.saturating_add(n) >= total {
                self.scroll = FOLLOW;
            } else {
                self.scroll = self.scroll + n;
            }
        }
    }

    /// The first line shown in a window of `rows` rows.
    pub fn first_shown(&self, rows: usize) -> (start: usize)
        ensures
            start == self@.window_start(rows as int),
            start <= self@.lines.len(),
    {
        let total: usize = self.lines.len();
        if self.scroll == FOLLOW {
            total.saturating_sub(rows)
        } else {
            let last: usize = total.saturating_sub(if rows < 1 {
                1
            } else {
                rows
            });
            if self.scroll < last {
                self.scroll
            } else {
                last
            }
        }
    }
}

} // verus!
