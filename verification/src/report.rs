//! The configuration in words, for a look at what is in force.

use crate::config::{Config, ConfigV, Tab, TabV};
use crate::text::{decimal, decimal_text};
use vstd::prelude::*;
use vstd::string::*;

verus! {

/// An optional text as the standard debug format writes it.
pub uninterp spec fn debug_text(value: Option<Seq<char>>) -> Seq<char>;

/// `std`'s `Debug` format of an `Option<String>`, as `{:?}` writes it: it depends on the value
/// alone, and it is `None` where there is no text.
#[verifier::external_body]
fn debug_format(value: &Option<String>) -> (text: String)
    ensures
        text@ == debug_text(value.deep_view()),
        value is None ==> text@ == "None"@,
{
    format!("{:?}", value)
}

/// The optional texts of a tab, as they are to be shown.
pub struct TabTexts {
    pub project: String,
    pub log_group: String,
    pub log_stream: String,
}

/// The line about the tab at `i`, counted from one, whose optional texts are shown as given.
pub open spec fn tab_line(
    i: int,
    tab: TabV,
    project: Seq<char>,
    log_group: Seq<char>,
    log_stream: Seq<char>,
) -> Seq<char> {
    "  tab "@ + decimal((i + 1) as nat) + " ("@ + tab.name + "): kind="@ + tab.kind + " project="@
        + project + " log_group="@ + log_group + " log_stream="@ + log_stream
}

/// The line about the tab at `i`, whose optional texts are shown as given.
pub fn report_tab(i: usize, tab: &Tab, texts: TabTexts) -> (line: String)
    requires
        i < usize::MAX,
    ensures
        line@ == tab_line(
            i as int,
            tab@,
            texts.project@,
            texts.log_group@,
            texts.log_stream@,
        ),
{
    "  tab ".to_string().concat(decimal_text(i as u64 + 1).as_str()).concat(" (").concat(
        tab.name.as_str(),
    ).concat("): kind=").concat(tab.kind.as_str()).concat(" project=").concat(
        texts.project.as_str(),
    ).concat(" log_group=").concat(texts.log_group.as_str()).concat(" log_stream=").concat(
        texts.log_stream.as_str(),
    )
}

/// The line about the tab at `i`.
pub open spec fn shown_tab(i: int, tab: TabV) -> Seq<char> {
    tab_line(
        i,
        tab,
        debug_text(tab.project),
        debug_text(tab.log_group),
        debug_text(tab.log_stream),
    )
}

/// The report on the configuration at `path`, line by line.
pub open spec fn report_lines(path: Seq<char>, cfg: ConfigV) -> Seq<Seq<char>> {
    seq![
        "config: "@ + path,
        "region: "@ + debug_text(cfg.region),
        "refresh_interval_secs: "@ + decimal(cfg.refresh_interval_secs as nat),
    ] + Seq::new(cfg.tabs.len(), |i: int| shown_tab(i, cfg.tabs[i]))
        + seq!["(auth: defers to the `aws` CLI's own credential chain)"@]
}

/// The report on the configuration at `path`, line by line.
pub fn report(path: &str, cfg: &Config) -> (lines: Vec<String>)
    ensures
        lines.deep_view() == report_lines(path@, cfg@),
{
    let mut lines: Vec<String> = Vec::new();
    lines.push("config: ".to_string().concat(path));
    lines.push("region: ".to_string().concat(debug_format(&cfg.region).as_str()));
    lines.push(
        "refresh_interval_secs: ".to_string().concat(
            decimal_text(cfg.refresh_interval_secs).as_str(),
        ),
    );
    let mut i: usize = 0;
    while i < cfg.tabs.len()
        invariant
            i <= cfg.tabs.len(),
            lines.len() == 3 + i,
            lines[0]@ == "config: "@ + path@,
            lines[1]@ == "region: "@ + debug_text(cfg@.region),
            lines[2]@ == "refresh_interval_secs: "@ + decimal(cfg@.refresh_interval_secs as nat),
            forall|j: int|
                3 <= j < lines.len() ==> (#[trigger] lines[j])@ == shown_tab(
                    j - 3,
                    cfg.tabs[j - 3]@,
                ),
        decreases cfg.tabs.len() - i,
    {
        let tab = &cfg.tabs[i];
        let texts = TabTexts {
            project: debug_format(&tab.project),
            log_group: debug_format(&tab.log_group),
            log_stream: debug_format(&tab.log_stream),
        };
        lines.push(report_tab(i, tab, texts));
        i = i + 1;
    }
    lines.push("(auth: defers to the `aws` CLI's own credential chain)".to_string());
    assert(lines.deep_view() =~= report_lines(path@, cfg@));
    lines
}

} // verus!
