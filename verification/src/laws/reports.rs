//! What holds of taking in what background work has reported.

use crate::app::{
    fetch_inbox, found_by, inboxes_of, last_breakdown, tail_inbox, untimed, whole_round, App,
    last_words, AppV, BuildsTab, BuildsTabV, Delivered, Inbox, InboxV, LogsTab, LogsTabV, RoundV,
    TabData, TabState, TailNews,
};
use crate::channel::{answered, LookV};
use crate::codebuild::{CodeBuildEvent, CodeBuildEventV};
use crate::laws::text::{lemma_decimal_reads_back, number_in, well_written};
use crate::laws::{law_tail_keeps_last_lines, lines_in};
use crate::log_tail::{last_of, LogTailEvent, LogTailEventV};
use std::sync::mpsc::Receiver;
use std::time::Instant;
use vstd::prelude::*;

verus! {

/// Whether `looks` read the channel behind `rx` through: each look was made at the handle that the
/// one before it left, all but the last found a message, and the last found none.
pub open spec fn read_through<T>(rx: Receiver<T>, looks: Seq<LookV<T>>) -> bool {
    &&& looks.len() > 0
    &&& looks[0].before == rx
    &&& forall|i: int| 0 <= i < looks.len() ==> answered(#[trigger] looks[i])
    &&& forall|i: int, j: int|
        0 <= i && j == i + 1 && j < looks.len() ==> (#[trigger] looks[j]).before == (
        #[trigger] looks[i]).after
    &&& forall|i: int| 0 <= i < looks.len() - 1 ==> (#[trigger] looks[i]).found is Message
    &&& looks.last().found is Empty || looks.last().found is Disconnected
}

/// A whole round reads its channel through.
pub proof fn law_whole_round_reads_through<T>(rx: Receiver<T>, looks: Seq<LookV<T>>)
    ensures
        whole_round(rx, looks) ==> read_through(rx, looks),
{
    if whole_round(rx, looks) {
        assert(found_by(looks).last() == looks.last().found);
        assert forall|i: int| 0 <= i < looks.len() - 1 implies (
        #[trigger] looks[i]).found is Message by {
            assert(found_by(looks)[i] is Message);
        }
    }
}

/// The reports that a tail was read through for, in their order.
pub open spec fn tail_messages(looks: Seq<LookV<LogTailEvent>>) -> Seq<LogTailEventV> {
    Seq::new((looks.len() - 1) as nat, |i: int| looks[i].found->Message_0@)
}

/// The reports that a fetch was read through for, in their order, each with its time.
pub open spec fn fetch_messages(looks: Seq<(LookV<CodeBuildEvent>, Instant)>) -> Seq<
    (CodeBuildEventV, Instant),
> {
    Seq::new((looks.len() - 1) as nat, |i: int| (looks[i].0.found->Message_0@, looks[i].1))
}

/// Every message that the looks at the channel of a tail found is in the inbox, in the order in
/// which they were found, and nothing else is.
pub proof fn law_tail_inbox_holds_every_message(
    rx: Receiver<LogTailEvent>,
    looks: Seq<LookV<LogTailEvent>>,
)
    requires
        read_through(rx, looks),
    ensures
        tail_inbox(looks).tailed == tail_messages(looks),
        tail_inbox(looks).fetched.len() == 0,
        tail_inbox(looks).closed <==> looks.last().found is Disconnected,
{
    lemma_tail_messages(looks.drop_last());
    assert(tail_inbox(looks).tailed =~= tail_messages(looks));
}

/// Looks that all found messages put all of them in, in order.
proof fn lemma_tail_messages(looks: Seq<LookV<LogTailEvent>>)
    requires
        forall|i: int| 0 <= i < looks.len() ==> (#[trigger] looks[i]).found is Message,
    ensures
        tail_inbox(looks).tailed.len() == looks.len(),
        forall|i: int|
            0 <= i < looks.len() ==> #[trigger] tail_inbox(looks).tailed[i]
                == looks[i].found->Message_0@,
        tail_inbox(looks).fetched.len() == 0,
        !tail_inbox(looks).closed,
    decreases looks.len(),
{
    if looks.len() > 0 {
        let fewer = looks.drop_last();
        assert forall|i: int| 0 <= i < fewer.len() implies (
        #[trigger] fewer[i]).found is Message by {
            assert(looks[i].found is Message);
        }
        lemma_tail_messages(fewer);
        assert(looks.last().found is Message);
        assert forall|i: int| 0 <= i < looks.len() implies #[trigger] tail_inbox(looks).tailed[i]
            == looks[i].found->Message_0@ by {
            if i < fewer.len() {
                assert(tail_inbox(fewer).tailed[i] == fewer[i].found->Message_0@);
            }
        }
    }
}

/// Every message that the looks at the channel of a fetch found is in the inbox with its time, in
/// the order in which they were found, and nothing else is.
pub proof fn law_fetch_inbox_holds_every_message(
    rx: Receiver<CodeBuildEvent>,
    looks: Seq<(LookV<CodeBuildEvent>, Instant)>,
)
    requires
        read_through(rx, untimed(looks)),
    ensures
        fetch_inbox(looks).fetched == fetch_messages(looks),
        fetch_inbox(looks).tailed.len() == 0,
        fetch_inbox(looks).closed <==> looks.last().0.found is Disconnected,
{
    let fewer = looks.drop_last();
    assert forall|i: int| 0 <= i < fewer.len() implies (#[trigger] fewer[i]).0.found is Message by {
        assert(untimed(looks)[i].found is Message);
    }
    assert(untimed(looks).last() == looks.last().0);
    lemma_fetch_messages(fewer);
    assert(fetch_inbox(looks).fetched =~= fetch_messages(looks));
}

/// Looks that all found messages put all of them in, in order.
proof fn lemma_fetch_messages(looks: Seq<(LookV<CodeBuildEvent>, Instant)>)
    requires
        forall|i: int| 0 <= i < looks.len() ==> (#[trigger] looks[i]).0.found is Message,
    ensures
        fetch_inbox(looks).fetched.len() == looks.len(),
        forall|i: int|
            0 <= i < looks.len() ==> #[trigger] fetch_inbox(looks).fetched[i] == (
                looks[i].0.found->Message_0@,
                looks[i].1,
            ),
        fetch_inbox(looks).tailed.len() == 0,
        !fetch_inbox(looks).closed,
    decreases looks.len(),
{
    if looks.len() > 0 {
        let fewer = looks.drop_last();
        assert forall|i: int| 0 <= i < fewer.len() implies (
        #[trigger] fewer[i]).0.found is Message by {
            assert(looks[i].0.found is Message);
        }
        lemma_fetch_messages(fewer);
        assert(looks.last().0.found is Message);
        assert forall|i: int| 0 <= i < looks.len() implies #[trigger] fetch_inbox(
            looks,
        ).fetched[i] == (looks[i].0.found->Message_0@, looks[i].1) by {
            if i < fewer.len() {
                assert(fetch_inbox(fewer).fetched[i] == (
                    fewer[i].0.found->Message_0@,
                    fewer[i].1,
                ));
            }
        }
    }
}

/// Runs that a fetch reports take the place of those before. The highlight stays where it was, or
/// goes to the last run where there are fewer. A failure keeps the runs and is kept as the error.
/// Either way the loading is over, and the status text tells of it.
pub proof fn law_report_of_a_fetch_is_taken_in(
    b: &mut BuildsTab,
    event: CodeBuildEvent,
    now: Instant,
    name: &str,
    status: String,
)
    requires
        call_ensures(BuildsTab::take_in, (b, event, now, name), status),
    ensures
        !final(b).loading,
        final(b).pending == old(b).pending,
        match event {
            CodeBuildEvent::Builds(builds) => {
                &&& final(b)@.items == builds.deep_view()
                &&& final(b).last_error is None
                &&& final(b).last_fetched == Some(now)
                &&& old(b).selected < builds.len() ==> final(b).selected == old(b).selected
                &&& old(b).selected >= builds.len() > 0 ==> final(b).selected == builds.len() - 1
                &&& builds.len() == 0 ==> final(b).selected == 0
                &&& exists|count: Seq<char>|
                    {
                        &&& #[trigger] well_written(count)
                        &&& number_in(count) == builds.len()
                        &&& status@ == name@ + " · "@ + count + " builds"@
                    }
            },
            CodeBuildEvent::Failed(reason) => {
                &&& final(b)@.items == old(b)@.items
                &&& final(b).selected == old(b).selected
                &&& final(b).last_error matches Some(error)
                &&& error@ == reason@
                &&& final(b).last_fetched == old(b).last_fetched
                &&& status@ == "error: "@ + reason@
            },
        },
{
    if let CodeBuildEvent::Builds(builds) = event {
        assert(builds.deep_view().len() == builds.len());
        lemma_decimal_reads_back(builds.len() as nat);
    }
}

/// A line that a tail reports goes to the end of the pane, where there is one, and is news only
/// there. A breakdown is kept as the error. A breakdown and an end are the last that is reported.
pub proof fn law_report_of_a_tail_is_taken_in(
    l: &mut LogsTab,
    event: LogTailEvent,
    outcome: TailNews,
)
    requires
        call_ensures(LogsTab::take_in, (l, event), outcome),
    ensures
        final(l).pending == old(l).pending,
        final(l).pane is Some <==> old(l).pane is Some,
        match event {
            LogTailEvent::Line(text) => {
                &&& final(l)@.last_error == old(l)@.last_error
                &&& old(l).pane is Some ==> {
                    let lines = final(l).pane->0@.lines;
                    &&& lines.len() > 0
                    &&& lines.last().text == text@
                    &&& lines.drop_last().is_suffix_of(old(l).pane->0@.lines)
                    &&& old(l).pane->0@.lines.len() < 5000 ==> lines.len() == old(
                        l,
                    ).pane->0@.lines.len() + 1
                }
                &&& outcome.news == (old(l).pane is Some)
                &&& !outcome.last
                &&& outcome.status is None
            },
            LogTailEvent::Failed(reason) => {
                &&& final(l).last_error matches Some(error)
                &&& error@ == reason@
                &&& final(l)@.pane == old(l)@.pane
                &&& outcome.news && outcome.last
                &&& outcome.status matches Some(status)
                &&& status@ == "error: "@ + reason@
            },
            LogTailEvent::Exited(_) => {
                &&& final(l)@.pane == old(l)@.pane
                &&& final(l)@.last_error == old(l)@.last_error
                &&& outcome.news && outcome.last
                &&& outcome.status is None
            },
        },
{
    if old(l).pane is Some {
        assert(final(l)@.pane->0 == final(l).pane->0@);
        assert(old(l)@.pane->0 == old(l).pane->0@);
        if event is Line {
            let lines = final(l).pane->0@.lines;
            let before = old(l).pane->0@.lines;
            assert(lines.drop_last() =~= before.subrange(
                before.len() - (lines.len() - 1),
                before.len() as int,
            ));
        }
    }
}

/// The reports of a fetch are taken in one by one: those of a longer row are those of the shorter
/// one and then the last.
pub proof fn law_fetch_reports_one_by_one(
    b: BuildsTabV,
    events: Seq<(CodeBuildEventV, Instant)>,
    event: CodeBuildEventV,
    now: Instant,
)
    ensures
        b.after_all(Seq::empty()) == b,
        b.after_all(events.push((event, now))) == b.after_all(events).after(event, now),
{
    assert(events.push((event, now)).drop_last() =~= events);
}

/// The reports of a tail are taken in one by one.
pub proof fn law_tail_reports_one_by_one(
    l: LogsTabV,
    events: Seq<LogTailEventV>,
    event: LogTailEventV,
)
    ensures
        l.after_all(Seq::empty()) == l,
        l.after_all(events.push(event)) == l.after_all(events).after(event),
{
    assert(events.push(event).drop_last() =~= events);
}

/// The last report of a fetch ends it. Where it brings runs, they are shown and there is no error;
/// where it is a failure, that is the error. The channel is let go. Without a report the channel is
/// kept unless it is closed, and nothing else changes.
pub proof fn law_last_report_of_a_fetch_counts(
    b: &mut BuildsTab,
    inbox: Inbox,
    name: &str,
    outcome: Delivered,
)
    requires
        call_ensures(BuildsTab::deliver, (b, inbox, name), outcome),
    ensures
        old(b).pending is None ==> {
            &&& final(b)@ == old(b)@
            &&& !outcome.news
            &&& outcome.status is None
        },
        old(b).pending is Some && inbox.fetched.len() == 0 ==> {
            &&& final(b)@ == (BuildsTabV { pending: final(b).pending, ..old(b)@ })
            &&& inbox.closed ==> final(b).pending is None
            &&& !inbox.closed ==> final(b).pending == old(b).pending
            &&& !outcome.news
            &&& outcome.status is None
        },
        old(b).pending is Some && inbox.fetched.len() > 0 ==> {
            let last = inbox.fetched[inbox.fetched.len() - 1];
            &&& final(b).pending is None
            &&& !final(b).loading
            &&& outcome.news
            &&& match last.0 {
                CodeBuildEvent::Builds(builds) => {
                    &&& final(b)@.items == builds.deep_view()
                    &&& final(b).last_error is None
                    &&& final(b).last_fetched == Some(last.1)
                    &&& final(b).selected < builds.len() || builds.len() == 0
                    &&& outcome.status matches Some(status)
                    &&& exists|count: Seq<char>|
                        {
                            &&& #[trigger] well_written(count)
                            &&& number_in(count) == builds.len()
                            &&& status@ == name@ + " · "@ + count + " builds"@
                        }
                },
                CodeBuildEvent::Failed(reason) => {
                    &&& final(b).last_error matches Some(error)
                    &&& error@ == reason@
                    &&& outcome.status matches Some(status)
                    &&& status@ == "error: "@ + reason@
                },
            }
        },
{
    assert(inbox@.fetched.len() == inbox.fetched.len());
    if inbox.fetched.len() > 0 {
        let last = inbox.fetched[inbox.fetched.len() - 1];
        assert(inbox@.fetched.last() == (last.0@, last.1));
        if let CodeBuildEvent::Builds(builds) = last.0 {
            assert(builds.deep_view().len() == builds.len());
            lemma_decimal_reads_back(builds.len() as nat);
        }
    }
}

/// A tail is listened to as long as it only writes lines and its channel is open. Its lines all go
/// to the pane. The last breakdown is the error and the status text.
pub proof fn law_reports_of_a_tail_count(l: &mut LogsTab, inbox: Inbox, outcome: Delivered)
    requires
        call_ensures(LogsTab::deliver, (l, inbox), outcome),
    ensures
        old(l).pending is None ==> {
            &&& final(l)@ == old(l)@
            &&& !outcome.news
            &&& outcome.status is None
        },
        old(l).pending is Some ==> {
            let events = inbox.tailed;
            &&& final(l).pending == (if !inbox.closed && forall|i: int|
                0 <= i < events.len() ==> (#[trigger] events[i]) is Line {
                old(l).pending
            } else {
                None
            })
            &&& old(l).pane is Some ==> (outcome.news <==> events.len() > 0)
            &&& old(l).pane is None ==> (outcome.news <==> exists|i: int|
                0 <= i < events.len() && !((#[trigger] events[i]) is Line))
            &&& forall|i: int|
                #![trigger events[i]]
                0 <= i < events.len() && events[i] is Failed && (forall|j: int|
                    i < j < events.len() ==> !((#[trigger] events[j]) is Failed)) ==> {
                    &&& final(l).last_error matches Some(error)
                    &&& error@ == events[i]->Failed_0@
                    &&& outcome.status matches Some(status)
                    &&& status@ == "error: "@ + events[i]->Failed_0@
                }
            &&& (forall|i: int| 0 <= i < events.len() ==> !((#[trigger] events[i]) is Failed)) ==> {
                &&& final(l)@.last_error == old(l)@.last_error
                &&& outcome.status is None
            }
        },
        old(l).pending is Some && old(l).pane is Some ==> {
            let lines = lines_in(inbox@.tailed);
            final(l)@.pane->0.lines == (if lines.len() == 0 {
                old(l)@.pane->0.lines
            } else {
                last_of(old(l)@.pane->0.lines + lines, 5000)
            })
        },
{
    let events = inbox.tailed;
    let seen = inbox@.tailed;
    assert(seen.len() == events.len());
    assert forall|i: int| 0 <= i < seen.len() implies #[trigger] seen[i] == events[i]@ by {}
    if old(l).pending is Some {
        lemma_errors_of_tail(old(l)@, seen);
        if forall|i: int| 0 <= i < events.len() ==> !((#[trigger] events[i]) is Failed) {
            assert forall|i: int| 0 <= i < seen.len() implies !((#[trigger] seen[i]) is Failed) by {
                assert(seen[i] == events[i]@);
            }
        }
        assert forall|i: int|
            #![trigger events[i]]
            0 <= i < events.len() && events[i] is Failed && (forall|j: int|
                i < j < events.len() ==> !((#[trigger] events[j]) is Failed)) implies {
            &&& final(l).last_error matches Some(error)
            &&& error@ == events[i]->Failed_0@
            &&& outcome.status matches Some(status)
            &&& status@ == "error: "@ + events[i]->Failed_0@
        } by {
            assert(seen[i] == events[i]@);
            assert forall|j: int| i < j < seen.len() implies !((#[trigger] seen[j]) is Failed) by {
                assert(seen[j] == events[j]@);
            }
        }
        if forall|i: int| 0 <= i < events.len() ==> (#[trigger] events[i]) is Line {
            assert forall|i: int| 0 <= i < seen.len() implies (#[trigger] seen[i]) is Line by {
                assert(seen[i] == events[i]@);
            }
        } else {
            let i = choose|i: int| 0 <= i < events.len() && !((#[trigger] events[i]) is Line);
            assert(!(seen[i] is Line));
        }
        if events.len() > 0 {
            assert(old(l).pane is Some ==> old(l)@.news(seen[0]));
        }
        if old(l)@.drain_news(inbox@) && old(l).pane is None {
            let i = choose|i: int| 0 <= i < seen.len() && old(l)@.news(#[trigger] seen[i]);
            assert(!(events[i] is Line));
        }
        if old(l).pane is Some {
            law_tail_keeps_last_lines(old(l)@, seen);
        }
    }
}

/// The last breakdown among the reports is the error that they leave.
proof fn lemma_errors_of_tail(l: LogsTabV, events: Seq<LogTailEventV>)
    ensures
        forall|i: int|
            #![trigger events[i]]
            0 <= i < events.len() && events[i] is Failed && (forall|j: int|
                i < j < events.len() ==> !((#[trigger] events[j]) is Failed)) ==> {
                &&& last_breakdown(events) == Some(events[i]->Failed_0)
                &&& l.after_all(events).last_error == Some(events[i]->Failed_0)
            },
        (forall|i: int| 0 <= i < events.len() ==> !((#[trigger] events[i]) is Failed)) ==> {
            &&& last_breakdown(events) is None
            &&& l.after_all(events).last_error == l.last_error
        },
    decreases events.len(),
{
    if events.len() > 0 {
        let fewer = events.drop_last();
        lemma_errors_of_tail(l, fewer);
        assert forall|i: int|
            #![trigger events[i]]
            0 <= i < events.len() && events[i] is Failed && (forall|j: int|
                i < j < events.len() ==> !((#[trigger] events[j]) is Failed)) implies {
            &&& last_breakdown(events) == Some(events[i]->Failed_0)
            &&& l.after_all(events).last_error == Some(events[i]->Failed_0)
        } by {
            if i < fewer.len() {
                assert(!(events[events.len() - 1] is Failed));
                assert(fewer[i] == events[i]);
                assert forall|j: int| i < j < fewer.len() implies !((
                #[trigger] fewer[j]) is Failed) by {
                    assert(fewer[j] == events[j]);
                }
            }
        }
        if forall|i: int| 0 <= i < events.len() ==> !((#[trigger] events[i]) is Failed) {
            assert(!(events[events.len() - 1] is Failed));
            assert forall|i: int| 0 <= i < fewer.len() implies !((#[trigger] fewer[i]) is Failed) by {
                assert(fewer[i] == events[i]);
            }
        }
    }
}

/// Whether the inbox brings the tab anything: any report of a fetch; of a tail any report where there
/// is a pane, and else one that is no line.
pub open spec fn brings_news(tab: TabState, inbox: Inbox) -> bool {
    match tab.data {
        TabData::Builds(b) => b.pending is Some && inbox.fetched.len() > 0,
        TabData::Logs(l) => l.pending is Some && exists|k: int|
            0 <= k < inbox.tailed.len() && (l.pane is Some || !((
            #[trigger] inbox.tailed[k]) is Line)),
    }
}

/// Whether the inbox leaves the tab nothing to show in the status text: no report of a fetch, no
/// breakdown of a tail.
pub open spec fn shows_nothing(tab: TabState, inbox: Inbox) -> bool {
    match tab.data {
        TabData::Builds(b) => b.pending is None || inbox.fetched.len() == 0,
        TabData::Logs(l) => l.pending is None || forall|k: int|
            0 <= k < inbox.tailed.len() ==> !((#[trigger] inbox.tailed[k]) is Failed),
    }
}

/// An inbox that leaves nothing to show sets no status text.
proof fn lemma_shows_nothing(tab: TabState, inbox: Inbox)
    requires
        shows_nothing(tab, inbox),
    ensures
        tab@.drain_status(inbox@) is None,
{
    assert(inbox@.fetched.len() == inbox.fetched.len());
    assert(inbox@.tailed.len() == inbox.tailed.len());
    if let TabData::Logs(l) = tab.data {
        if l.pending is Some {
            assert forall|k: int| 0 <= k < inbox@.tailed.len() implies !((
            #[trigger] inbox@.tailed[k]) is Failed) by {
                assert(inbox@.tailed[k] == inbox.tailed[k]@);
            }
            lemma_errors_of_tail(l@, inbox@.tailed);
        }
    }
}

/// A delivery is news just where an inbox brings its tab anything. The status text stays where none
/// leaves anything to show. The configuration and the active tab stay in any case.
pub proof fn law_news_is_what_a_tab_gets(app: &mut App, inboxes: Vec<Inbox>, news: bool)
    requires
        old(app).tabs.len() == inboxes.len(),
        call_ensures(App::deliver, (app, inboxes), news),
    ensures
        news <==> exists|i: int|
            0 <= i < inboxes.len() && brings_news(#[trigger] old(app).tabs[i], inboxes[i]),
        (forall|i: int|
            0 <= i < inboxes.len() ==> shows_nothing(#[trigger] old(app).tabs[i], inboxes[i]))
            ==> final(app).status@ == old(app).status@,
        final(app)@.cfg == old(app)@.cfg,
        final(app).active_tab == old(app).active_tab,
{
    let all = inboxes.deep_view();
    let tabs = old(app)@.tabs;
    assert(tabs.len() == old(app).tabs.len());
    assert forall|i: int| 0 <= i < inboxes.len() implies (brings_news(
        #[trigger] old(app).tabs[i],
        inboxes[i],
    ) <==> tabs[i].drain_news(all[i])) by {
        let tab = old(app).tabs[i];
        let inbox = inboxes[i];
        assert(tabs[i] == tab@);
        assert(all[i] == inbox@);
        assert(inbox@.fetched.len() == inbox.fetched.len());
        assert(inbox@.tailed.len() == inbox.tailed.len());
        if let TabData::Logs(l) = tab.data {
            if brings_news(tab, inbox) {
                let k = choose|k: int|
                    0 <= k < inbox.tailed.len() && (l.pane is Some || !((
                    #[trigger] inbox.tailed[k]) is Line));
                assert(l@.news(inbox@.tailed[k]));
            }
            if tabs[i].drain_news(all[i]) {
                let k = choose|k: int|
                    0 <= k < inbox@.tailed.len() && l@.news(#[trigger] inbox@.tailed[k]);
                assert(inbox@.tailed[k] == inbox.tailed[k]@);
                assert(l.pane is Some || !(inbox.tailed[k] is Line));
            }
        }
    }
    if news {
        let i = choose|i: int| 0 <= i < tabs.len() && (#[trigger] tabs[i]).drain_news(all[i]);
        assert(brings_news(old(app).tabs[i], inboxes[i]));
    }
    if exists|i: int|
        0 <= i < inboxes.len() && brings_news(#[trigger] old(app).tabs[i], inboxes[i]) {
        let i = choose|i: int|
            0 <= i < inboxes.len() && brings_news(#[trigger] old(app).tabs[i], inboxes[i]);
        assert(tabs[i].drain_news(all[i]));
    }
    lemma_last_status(old(app)@, all, tabs.len() as int);
    if forall|i: int|
        0 <= i < inboxes.len() ==> shows_nothing(#[trigger] old(app).tabs[i], inboxes[i]) {
        assert forall|i: int| 0 <= i < tabs.len() implies (#[trigger] tabs[i]).drain_status(
            all[i],
        ) is None by {
            assert(shows_nothing(old(app).tabs[i], inboxes[i]));
            lemma_shows_nothing(old(app).tabs[i], inboxes[i]);
        }
    }
}

/// Every tab takes in the inbox that stands at its own place, and only that: a `builds` tab at `i`
/// becomes what it would become by itself.
pub proof fn law_builds_tab_takes_in_its_own_inbox(
    app: &mut App,
    inboxes: Vec<Inbox>,
    news: bool,
    i: int,
    b: &mut BuildsTab,
    name: &str,
    outcome: Delivered,
)
    requires
        0 <= i < old(app).tabs.len() == inboxes.len(),
        old(app).tabs[i].data matches TabData::Builds(tab) && tab@ == old(b)@,
        name@ == old(app).tabs[i].name@,
        call_ensures(App::deliver, (app, inboxes), news),
        call_ensures(BuildsTab::deliver, (b, inboxes[i], name), outcome),
    ensures
        final(app).tabs.len() == old(app).tabs.len(),
        final(app).tabs[i].data matches TabData::Builds(tab) && tab@ == final(b)@,
        final(app).tabs[i].name@ == old(app).tabs[i].name@,
        final(app).tabs[i].spec@ == old(app).tabs[i].spec@,
        outcome.news ==> news,
        outcome.status is Some && (forall|j: int|
            i < j < inboxes.len() ==> shows_nothing(#[trigger] old(app).tabs[j], inboxes[j])) ==> final(app).status@
            == outcome.status->0@,
{
    lemma_own_inbox(*old(app), *final(app), inboxes, i);
    if outcome.news {
        assert(old(app)@.tabs[i].drain_news(inboxes.deep_view()[i]));
    }
    if forall|j: int|
        i < j < inboxes.len() ==> shows_nothing(#[trigger] old(app).tabs[j], inboxes[j]) {
        let all = inboxes.deep_view();
        lemma_last_status(old(app)@, all, old(app)@.tabs.len() as int);
        assert forall|j: int| i < j < old(app)@.tabs.len() implies (
        #[trigger] old(app)@.tabs[j]).drain_status(all[j]) is None by {
            assert(old(app)@.tabs[j] == old(app).tabs[j]@);
            assert(shows_nothing(old(app).tabs[j], inboxes[j]));
            lemma_shows_nothing(old(app).tabs[j], inboxes[j]);
            assert(all[j] == inboxes[j]@);
        }
        assert(old(app)@.tabs[i].drain_status(all[i]) == outcome.status.deep_view());
    }
}

/// Every tab takes in the inbox that stands at its own place, and only that: a `logs` tab at `i`
/// becomes what it would become by itself.
pub proof fn law_logs_tab_takes_in_its_own_inbox(
    app: &mut App,
    inboxes: Vec<Inbox>,
    news: bool,
    i: int,
    l: &mut LogsTab,
    outcome: Delivered,
)
    requires
        0 <= i < old(app).tabs.len() == inboxes.len(),
        old(app).tabs[i].data matches TabData::Logs(tab) && tab@ == old(l)@,
        call_ensures(App::deliver, (app, inboxes), news),
        call_ensures(LogsTab::deliver, (l, inboxes[i]), outcome),
    ensures
        final(app).tabs.len() == old(app).tabs.len(),
        final(app).tabs[i].data matches TabData::Logs(tab) && tab@ == final(l)@,
        final(app).tabs[i].name@ == old(app).tabs[i].name@,
        final(app).tabs[i].spec@ == old(app).tabs[i].spec@,
        outcome.news ==> news,
        outcome.status is Some && (forall|j: int|
            i < j < inboxes.len() ==> shows_nothing(#[trigger] old(app).tabs[j], inboxes[j])) ==> final(app).status@
            == outcome.status->0@,
{
    lemma_own_inbox(*old(app), *final(app), inboxes, i);
    if outcome.news {
        assert(old(app)@.tabs[i].drain_news(inboxes.deep_view()[i]));
    }
    if forall|j: int|
        i < j < inboxes.len() ==> shows_nothing(#[trigger] old(app).tabs[j], inboxes[j]) {
        let all = inboxes.deep_view();
        lemma_last_status(old(app)@, all, old(app)@.tabs.len() as int);
        assert forall|j: int| i < j < old(app)@.tabs.len() implies (
        #[trigger] old(app)@.tabs[j]).drain_status(all[j]) is None by {
            assert(old(app)@.tabs[j] == old(app).tabs[j]@);
            assert(shows_nothing(old(app).tabs[j], inboxes[j]));
            lemma_shows_nothing(old(app).tabs[j], inboxes[j]);
            assert(all[j] == inboxes[j]@);
        }
        assert(old(app)@.tabs[i].drain_status(all[i]) == outcome.status.deep_view());
    }
}

/// What the views say of one tab after a delivery.
proof fn lemma_own_inbox(before: App, after: App, inboxes: Vec<Inbox>, i: int)
    requires
        0 <= i < before.tabs.len() == inboxes.len(),
        after@ == before@.drained(inboxes.deep_view()),
    ensures
        after.tabs.len() == before.tabs.len(),
        after.tabs[i]@ == before.tabs[i]@.drained(inboxes[i]@),
        before@.tabs[i] == before.tabs[i]@,
        inboxes.deep_view()[i] == inboxes[i]@,
{
    assert(after@.tabs.len() == after.tabs.len());
    assert(before@.tabs.len() == before.tabs.len());
    assert(inboxes.deep_view()[i] == inboxes[i]@);
    assert(after@.tabs[i] == after.tabs[i]@);
    assert(before@.tabs[i] == before.tabs[i]@);
}

/// A delivery brings news only where some tab has some, leaves the configuration and the active tab,
/// and sets the status text to that of the last tab that has one to show.
pub proof fn law_delivery_shows_the_last_status(app: AppV, inboxes: Seq<InboxV>)
    ensures
        app.drained(inboxes).cfg == app.cfg,
        app.drained(inboxes).active_tab == app.active_tab,
        app.drain_news(inboxes) ==> exists|i: int|
            0 <= i < app.tabs.len() && (#[trigger] app.tabs[i]).drain_news(inboxes[i]),
        (forall|i: int|
            0 <= i < app.tabs.len() ==> (#[trigger] app.tabs[i]).drain_status(inboxes[i]) is None)
            ==> app.drained(inboxes).status == app.status,
        forall|i: int|
            #![trigger app.tabs[i]]
            0 <= i < app.tabs.len() && app.tabs[i].drain_status(inboxes[i]) is Some && (forall|
                j: int,
            |
                i < j < app.tabs.len() ==> (#[trigger] app.tabs[j]).drain_status(
                    inboxes[j],
                ) is None) ==> Some(app.drained(inboxes).status) == app.tabs[i].drain_status(
                inboxes[i],
            ),
{
    lemma_last_status(app, inboxes, app.tabs.len() as int);
}

/// The status text of the first `n` tabs is that of the last of them that has one to show.
proof fn lemma_last_status(app: AppV, inboxes: Seq<InboxV>, n: int)
    requires
        0 <= n <= app.tabs.len(),
    ensures
        (forall|i: int|
            0 <= i < n ==> (#[trigger] app.tabs[i]).drain_status(inboxes[i]) is None)
            ==> app.status_after(inboxes, n) == app.status,
        forall|i: int|
            #![trigger app.tabs[i]]
            0 <= i < n && app.tabs[i].drain_status(inboxes[i]) is Some && (forall|j: int|
                i < j < n ==> (#[trigger] app.tabs[j]).drain_status(inboxes[j]) is None) ==> Some(
                app.status_after(inboxes, n),
            ) == app.tabs[i].drain_status(inboxes[i]),
    decreases n,
{
    if n > 0 {
        lemma_last_status(app, inboxes, n - 1);
        if forall|i: int|
            0 <= i < n ==> (#[trigger] app.tabs[i]).drain_status(inboxes[i]) is None {
            assert(app.tabs[n - 1].drain_status(inboxes[n - 1]) is None);
        }
        assert forall|i: int|
            #![trigger app.tabs[i]]
            0 <= i < n && app.tabs[i].drain_status(inboxes[i]) is Some && (forall|j: int|
                i < j < n ==> (#[trigger] app.tabs[j]).drain_status(inboxes[j]) is None) implies Some(
            app.status_after(inboxes, n),
        ) == app.tabs[i].drain_status(inboxes[i]) by {
            if i < n - 1 {
                assert(app.tabs[n - 1].drain_status(inboxes[n - 1]) is None);
            }
        }
    }
}

/// A drain reads the channel of every tab through and takes in every report that it held, in order.
/// A tab without a channel stays as it is. In a `logs` tab every line goes to the pane. In a
/// `builds` tab the last report counts. A channel that is kept is kept as the last look left it.
pub proof fn law_drain_takes_in_every_report(app: &mut App, news: bool, i: int)
    requires
        0 <= i < old(app).tabs.len(),
        call_ensures(App::drain, (app,), news),
    ensures
        final(app).tabs.len() == old(app).tabs.len(),
        final(app).tabs[i].name@ == old(app).tabs[i].name@,
        final(app).tabs[i].spec@ == old(app).tabs[i].spec@,
        match (old(app).tabs[i].data, final(app).tabs[i].data) {
            (TabData::Logs(a), TabData::Logs(b)) => match a.pending {
                None => b@ == a@,
                Some(rx) => exists|looks: Seq<LookV<LogTailEvent>>|
                    {
                        let events = tail_messages(looks);
                        let lines = lines_in(events);
                        &&& #[trigger] read_through(rx, looks)
                        &&& b.pane is Some <==> a.pane is Some
                        &&& a.pane is Some ==> b@.pane->0.lines == (if lines.len() == 0 {
                            a@.pane->0.lines
                        } else {
                            last_of(a@.pane->0.lines + lines, 5000)
                        })
                        &&& b.pending == (if looks.last().found is Empty && forall|k: int|
                            0 <= k < events.len() ==> (#[trigger] events[k]) is Line {
                            Some(looks.last().after)
                        } else {
                            None
                        })
                        &&& events.len() > 0 && a.pane is Some ==> news
                    },
            },
            (TabData::Builds(a), TabData::Builds(b)) => match a.pending {
                None => b@ == a@,
                Some(rx) => exists|looks: Seq<(LookV<CodeBuildEvent>, Instant)>|
                    {
                        let events = fetch_messages(looks);
                        &&& read_through(rx, #[trigger] untimed(looks))
                        &&& events.len() == 0 ==> b@ == (BuildsTabV {
                            pending: if looks.last().0.found is Empty {
                                Some(looks.last().0.after)
                            } else {
                                None
                            },
                            ..a@
                        })
                        &&& events.len() > 0 ==> {
                            &&& news
                            &&& b.pending is None
                            &&& !b.loading
                            &&& match events.last().0 {
                                CodeBuildEventV::Builds(builds) => {
                                    &&& b@.items == builds
                                    &&& b@.last_error is None
                                    &&& b@.last_fetched == Some(events.last().1)
                                },
                                CodeBuildEventV::Failed(reason) => b@.last_error == Some(reason),
                            }
                        }
                    },
            },
            _ => false,
        },
{
    let before = *old(app);
    let after = *final(app);
    let rounds = choose|rounds: Seq<RoundV>|
        {
            &&& #[trigger] before@.looked_through(rounds)
            &&& after@ == before@.after_rounds(rounds).drained(inboxes_of(rounds))
            &&& news == before@.after_rounds(rounds).drain_news(inboxes_of(rounds))
        };
    let round = rounds[i];
    assert(before@.tabs.len() == before.tabs.len());
    assert(after@.tabs.len() == after.tabs.len());
    assert(before@.tabs[i] == before.tabs[i]@);
    assert(after@.tabs[i] == after.tabs[i]@);
    assert(round.whole_for(before@.tabs[i]));
    let mid = before@.after_rounds(rounds);
    assert(mid.tabs[i] == before@.tabs[i].after_round(round));
    assert(after.tabs[i]@ == mid.tabs[i].drained(round.inbox()));
    if mid.tabs[i].drain_news(inboxes_of(rounds)[i]) {
        assert(news);
    }
    match before.tabs[i].data {
        TabData::Logs(a) => {
            if let Some(rx) = a.pending {
                let looks = round->Tail_0;
                law_whole_round_reads_through(rx, looks);
                law_tail_inbox_holds_every_message(rx, looks);
                let events = tail_messages(looks);
                assert(round.inbox().tailed == events);
                let listening = mid.tabs[i].data->Logs_0;
                if a.pane is Some {
                    law_tail_keeps_last_lines(listening, events);
                    if events.len() > 0 {
                        assert(listening.news(events[0]));
                    }
                } else {
                    lemma_no_pane(listening, events);
                }
                if forall|k: int| 0 <= k < events.len() ==> (#[trigger] events[k]) is Line {
                } else {
                    let k = choose|k: int|
                        0 <= k < events.len() && !((#[trigger] events[k]) is Line);
                    assert(last_words(events[k]));
                }
                assert(read_through(rx, looks));
            }
        },
        TabData::Builds(a) => {
            if let Some(rx) = a.pending {
                let looks = round->Fetch_0;
                law_whole_round_reads_through(rx, untimed(looks));
                law_fetch_inbox_holds_every_message(rx, looks);
                assert(round.inbox().fetched == fetch_messages(looks));
                assert(read_through(rx, untimed(looks)));
                let listening = mid.tabs[i].data->Builds_0;
                if fetch_messages(looks).len() == 0 {
                    assert(listening.after_all(round.inbox().fetched) == listening);
                }
            }
        },
    }
}

/// Without a pane, the reports of a tail give none.
proof fn lemma_no_pane(l: LogsTabV, events: Seq<LogTailEventV>)
    requires
        l.pane is None,
    ensures
        l.after_all(events).pane is None,
    decreases events.len(),
{
    if events.len() > 0 {
        lemma_no_pane(l, events.drop_last());
    }
}

} // verus!
