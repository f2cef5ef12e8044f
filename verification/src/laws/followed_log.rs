//! What holds of a followed log: keeping its lines, scrolling in it, showing a window of it.

use crate::log_tail::{last_of, LogLine, LogTailPane};
use crate::ui::{draw_lines, StyledText};
use vstd::prelude::*;

verus! {

/// The last entries of a sequence: as many as asked for or all there are, and the sequence ends with
/// them.
pub proof fn law_last_entries<T>(s: Seq<T>, n: nat)
    ensures
        last_of(s, n).len() == n || last_of(s, n) == s,
        last_of(s, n).len() <= n,
        last_of(s, n).is_suffix_of(s),
{
}

/// A new line comes last, behind the lines kept before it, of which only the oldest are given up,
/// and only as many as have to be.
pub proof fn law_new_line_comes_last(pane: &mut LogTailPane, line: LogLine)
    requires
        call_ensures(LogTailPane::push, (pane, line), ()),
    ensures
        ({
            let lines = final(pane)@.lines;
            let before = old(pane)@.lines;
            &&& lines.len() > 0
            &&& lines.last() == line@
            &&& lines.drop_last().is_suffix_of(before)
            &&& before.len() < 5000 ==> lines.len() == before.len() + 1
            &&& before.len() >= 5000 ==> lines.len() == 5000
        }),
        final(pane)@.log_group == old(pane)@.log_group,
        final(pane)@.log_stream == old(pane)@.log_stream,
        final(pane)@.scroll == old(pane)@.scroll,
{
    let lines = final(pane)@.lines;
    let before = old(pane)@.lines;
    assert(lines.drop_last() =~= before.subrange(
        before.len() - (lines.len() - 1),
        before.len() as int,
    ));
}

/// Scrolling moves the position by as many lines as asked for. Upwards it stops at the first line
/// and counts from the last one where the pane follows its log. Downwards, beyond the last line, it
/// ends in following. Nothing else of the pane changes.
pub proof fn law_scrolling_moves_by_delta(pane: &mut LogTailPane, delta: isize)
    requires
        call_ensures(LogTailPane::scroll_by, (pane, delta), ()),
    ensures
        ({
            let total = old(pane).lines.len() as int;
            let from = old(pane).scroll as int;
            let to = final(pane).scroll as int;
            &&& delta < 0 && from != usize::MAX && from + delta >= 0 ==> to == from + delta
            &&& delta < 0 && from != usize::MAX && from + delta < 0 ==> to == 0
            &&& delta < 0 && from == usize::MAX && total - 1 + delta >= 0 ==> to == total - 1 + delta
            &&& delta < 0 && from == usize::MAX && total - 1 + delta < 0 ==> to == 0
            &&& delta >= 0 && from + delta < total ==> to == from + delta
            &&& delta >= 0 && from + delta >= total ==> to == usize::MAX
        }),
        final(pane)@.lines == old(pane)@.lines,
        final(pane)@.log_group == old(pane)@.log_group,
        final(pane)@.log_stream == old(pane)@.log_stream,
{
    assert(old(pane)@.lines.len() == old(pane).lines.len());
}

/// The window on a log. Where the pane follows, it ends with the last line. Else it begins with the
/// line at the scroll position, or ends with the last line where there are too few lines below that
/// position to fill it. It shows as many lines as it has rows, or all there are.
pub proof fn law_window_begins_at_scroll_position(
    pane: &LogTailPane,
    rows: usize,
    start: usize,
    lines: Vec<StyledText>,
)
    requires
        call_ensures(LogTailPane::first_shown, (pane, rows), start),
        call_ensures(draw_lines, (pane, rows), lines),
    ensures
        ({
            let total = pane.lines.len() as int;
            &&& rows > 0 && pane.scroll != usize::MAX && pane.scroll + rows <= total ==> start
                == pane.scroll
            &&& rows > 0 && pane.scroll != usize::MAX && pane.scroll + rows > total && rows
                <= total ==> start + rows == total
            &&& pane.scroll == usize::MAX && rows <= total ==> start + rows == total
            &&& rows > 0 && rows > total ==> start == 0
            &&& rows > 0 ==> lines.len() == if total < rows {
                total
            } else {
                rows as int
            }
            &&& rows == 0 ==> lines.len() == 0
        }),
        start + lines.len() <= pane.lines.len(),
        forall|i: int|
            0 <= i < lines.len() ==> (#[trigger] lines[i]).text@ == pane.lines[start + i].text@,
{
    let window = pane@.window(rows as int);
    assert(lines.deep_view().len() == window.len());
    assert forall|i: int| 0 <= i < lines.len() implies (#[trigger] lines[i]).text@
        == pane.lines[start + i].text@ by {
        assert(lines.deep_view()[i] == lines[i]@);
        assert(window[i] == pane@.lines[start + i]);
    }
}

/// Two panes with the same lines at the same position show the same, whatever log they follow.
pub proof fn law_window_depends_on_lines_and_position(
    a: &LogTailPane,
    b: &LogTailPane,
    rows: usize,
    of_a: Vec<StyledText>,
    of_b: Vec<StyledText>,
)
    requires
        call_ensures(draw_lines, (a, rows), of_a),
        call_ensures(draw_lines, (b, rows), of_b),
        a@.lines == b@.lines,
        a.scroll == b.scroll,
    ensures
        of_a.deep_view() == of_b.deep_view(),
{
}

/// Scrolling up by a line and drawing shows the line above the one that stood first.
pub proof fn law_scrolling_up_shows_line_above(
    pane: &mut LogTailPane,
    rows: usize,
    before: usize,
    after: usize,
)
    requires
        call_ensures(LogTailPane::first_shown, (&*old(pane), rows), before),
        call_ensures(LogTailPane::scroll_by, (pane, -1isize), ()),
        call_ensures(LogTailPane::first_shown, (&*final(pane), rows), after),
        rows > 0,
        0 < old(pane).scroll,
        old(pane).scroll + rows <= old(pane).lines.len(),
    ensures
        before == old(pane).scroll,
        after == before - 1,
{
    assert(old(pane)@.lines.len() == old(pane).lines.len());
}

} // verus!
