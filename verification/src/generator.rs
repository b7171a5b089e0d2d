//! The generation run: which outside work is due next, and what each answer
//! leads to.

use crate::clock::{Moment, MomentView};
use crate::commit::{display_lines, display_texts, entries_view, Commit, CommitView};
use crate::content::{DiaryContent, DiaryContentView};
use crate::error::{DiaryError, DiaryErrorView, HistorySourceError, StorageError, SummarizerError};
use crate::text::{append_listing, decimal, decimal_text, listing};
use vstd::prelude::*;
use vstd::string::StringExecFns;

verus! {

/// The window of a run: the calendar dates of its two ends, and the instant
/// from which entries count.
#[derive(Debug)]
pub struct Window {
    pub start_date: String,
    pub end_date: String,
    pub since: i64,
}

/// What a [`Window`] stands for in contracts.
pub ghost struct WindowView {
    pub start_date: Seq<char>,
    pub end_date: Seq<char>,
    pub since: int,
}

impl View for Window {
    type V = WindowView;

    open spec fn view(&self) -> WindowView {
        WindowView {
            start_date: self.start_date@,
            end_date: self.end_date@,
            since: self.since as int,
        }
    }
}

/// The window between two instants: it starts on the calendar date of
/// `start`, ends on that of `now`, and counts entries from `start` on.
pub open spec fn window_between(now: MomentView, start: MomentView) -> WindowView {
    WindowView { start_date: start.date(), end_date: now.date(), since: start.seconds }
}

/// The listing of a window's entries for a reader: a heading with the
/// number of days, then the display form of each entry on a line of its
/// own, the last entry given first.
pub open spec fn preview(days: int, lines: Seq<Seq<char>>) -> Seq<char> {
    "Last "@ + decimal(days) + " days commits:\n"@ + listing(lines, Seq::empty())
}

/// The content of a diary, from what a run has gathered.
pub open spec fn assembled(
    window: WindowView,
    entries: Seq<CommitView>,
    summary: Seq<char>,
) -> DiaryContentView {
    DiaryContentView {
        entries,
        summary,
        start_date: window.start_date,
        end_date: window.end_date,
    }
}

/// Where a run stands: the outside work that is due next with what it
/// needs, or the outcome once the run is over.
#[derive(Debug)]
pub enum DiaryStep {
    /// Read the present instant and the one `days` days before it.
    ReadClock { days: i64 },
    /// Fetch the entries at or after `window.since`.
    FetchHistory { window: Window },
    /// Show `preview`, then have `commits` summarised.
    Summarize { window: Window, commits: Vec<Commit>, preview: String },
    /// Store `content`.
    Save { content: DiaryContent },
    /// Nothing is due: the run has given the path of the document, or failed.
    Done { outcome: Result<String, DiaryError> },
}

/// The answer to the work that was due.
#[derive(Debug)]
pub enum DiaryReply {
    Clock { now: Moment, start: Moment },
    History(Result<Vec<Commit>, HistorySourceError>),
    Summary(Result<String, SummarizerError>),
    Saved(Result<String, StorageError>),
}

/// What a [`DiaryStep`] stands for in contracts.
pub ghost enum DiaryStepView {
    ReadClock { days: int },
    FetchHistory { window: WindowView },
    Summarize { window: WindowView, entries: Seq<CommitView>, preview: Seq<char> },
    Save { content: DiaryContentView },
    Done { outcome: Result<Seq<char>, DiaryErrorView> },
}

/// What a [`DiaryReply`] stands for in contracts.
pub ghost enum DiaryReplyView {
    Clock { now: MomentView, start: MomentView },
    History(Result<Seq<CommitView>, Seq<char>>),
    Summary(Result<Seq<char>, Seq<char>>),
    Saved(Result<Seq<char>, Seq<char>>),
}

impl View for DiaryStep {
    type V = DiaryStepView;

    open spec fn view(&self) -> DiaryStepView {
        match self {
            DiaryStep::ReadClock { days } => DiaryStepView::ReadClock { days: *days as int },
            DiaryStep::FetchHistory { window } => DiaryStepView::FetchHistory { window: window@ },
            DiaryStep::Summarize { window, commits, preview } => DiaryStepView::Summarize {
                window: window@,
                entries: entries_view(commits@),
                preview: preview@,
            },
            DiaryStep::Save { content } => DiaryStepView::Save { content: content@ },
            DiaryStep::Done { outcome } => DiaryStepView::Done {
                outcome: match outcome {
                    Ok(path) => Ok(path@),
                    Err(e) => Err(e@),
                },
            },
        }
    }
}

impl View for DiaryReply {
    type V = DiaryReplyView;

    open spec fn view(&self) -> DiaryReplyView {
        match self {
            DiaryReply::Clock { now, start } => DiaryReplyView::Clock { now: now@, start: start@ },
            DiaryReply::History(r) => DiaryReplyView::History(
                match r {
                    Ok(commits) => Ok(entries_view(commits@)),
                    Err(e) => Err(e.message@),
                },
            ),
            DiaryReply::Summary(r) => DiaryReplyView::Summary(
                match r {
                    Ok(summary) => Ok(summary@),
                    Err(e) => Err(e.message@),
                },
            ),
            DiaryReply::Saved(r) => DiaryReplyView::Saved(
                match r {
                    Ok(path) => Ok(path@),
                    Err(e) => Err(e.message@),
                },
            ),
        }
    }
}

/// The step that follows `step` on `reply`, in a run over `days` days.
///
/// The answer to the work that was due moves the run on: the clock's to the
/// fetch, fetched entries to their summary, a summary to the saving of the
/// assembled content, a saved path to the end. A failure ends the run at
/// once with the error of its stage and its message. Any other reply leaves
/// the step as it is.
pub open spec fn next_step(days: int, step: DiaryStepView, reply: DiaryReplyView) -> DiaryStepView {
    match (step, reply) {
        (DiaryStepView::ReadClock { .. }, DiaryReplyView::Clock { now, start }) => {
            DiaryStepView::FetchHistory { window: window_between(now, start) }
        },
        (DiaryStepView::FetchHistory { window }, DiaryReplyView::History(Ok(entries))) => {
            DiaryStepView::Summarize {
                window,
                entries,
                preview: preview(days, display_texts(entries)),
            }
        },
        (DiaryStepView::FetchHistory { .. }, DiaryReplyView::History(Err(message))) => {
            DiaryStepView::Done { outcome: Err(DiaryErrorView::History(message)) }
        },
        (DiaryStepView::Summarize { window, entries, .. }, DiaryReplyView::Summary(Ok(summary))) => {
            DiaryStepView::Save { content: assembled(window, entries, summary) }
        },
        (DiaryStepView::Summarize { .. }, DiaryReplyView::Summary(Err(message))) => {
            DiaryStepView::Done { outcome: Err(DiaryErrorView::Summarizer(message)) }
        },
        (DiaryStepView::Save { .. }, DiaryReplyView::Saved(Ok(path))) => {
            DiaryStepView::Done { outcome: Ok(path) }
        },
        (DiaryStepView::Save { .. }, DiaryReplyView::Saved(Err(message))) => {
            DiaryStepView::Done { outcome: Err(DiaryErrorView::Storage(message)) }
        },
        _ => step,
    }
}

/// Where a run stands after a sequence of replies, taken in their order.
pub open spec fn run_from(days: int, step: DiaryStepView, replies: Seq<DiaryReplyView>) -> DiaryStepView
    decreases replies.len(),
{
    if replies.len() == 0 {
        step
    } else {
        next_step(days, run_from(days, step, replies.drop_last()), replies.last())
    }
}

/// A run that is over stays over: whatever replies follow, its outcome is
/// the same and no work is due.
pub proof fn done_is_final(
    days: int,
    outcome: Result<Seq<char>, DiaryErrorView>,
    replies: Seq<DiaryReplyView>,
)
    ensures
        run_from(days, DiaryStepView::Done { outcome }, replies) == (DiaryStepView::Done {
            outcome,
        }),
    decreases replies.len(),
{
    if replies.len() > 0 {
        done_is_final(days, outcome, replies.drop_last());
    }
}

/// A summary is due only after the history was fetched, and a document is
/// stored only after the summary was made: a step asks for a summary only
/// if it follows a fetch that gave entries, and for storing only if it
/// follows a summary that was given, unless the step before asked the same.
pub proof fn stages_follow_in_order(days: int, step: DiaryStepView, reply: DiaryReplyView)
    ensures
        next_step(days, step, reply) is Summarize ==> step is Summarize || (step is FetchHistory
            && reply matches DiaryReplyView::History(Ok(_))),
        next_step(days, step, reply) is Save ==> step is Save || (step is Summarize
            && reply matches DiaryReplyView::Summary(Ok(_))),
        next_step(days, step, reply) is FetchHistory ==> step is FetchHistory || (step is ReadClock
            && reply is Clock),
{
}

/// When the history cannot be read, the run is over with that error and its
/// message, and stays so: neither a summary nor storing is ever due.
pub proof fn history_failure_ends_the_run(
    days: int,
    window: WindowView,
    message: Seq<char>,
    replies: Seq<DiaryReplyView>,
)
    ensures
        run_from(
            days,
            next_step(
                days,
                DiaryStepView::FetchHistory { window },
                DiaryReplyView::History(Err(message)),
            ),
            replies,
        ) == (DiaryStepView::Done { outcome: Err(DiaryErrorView::History(message)) }),
{
    done_is_final(days, Err(DiaryErrorView::History(message)), replies);
}

/// When the summary fails after the history was fetched, the run is over
/// with that error and its message, and stays so: storing is never due.
pub proof fn summary_failure_ends_the_run(
    days: int,
    window: WindowView,
    entries: Seq<CommitView>,
    shown: Seq<char>,
    message: Seq<char>,
    replies: Seq<DiaryReplyView>,
)
    ensures
        run_from(
            days,
            next_step(
                days,
                DiaryStepView::Summarize { window, entries, preview: shown },
                DiaryReplyView::Summary(Err(message)),
            ),
            replies,
        ) == (DiaryStepView::Done { outcome: Err(DiaryErrorView::Summarizer(message)) }),
{
    done_is_final(days, Err(DiaryErrorView::Summarizer(message)), replies);
}

/// When storing fails, the run gives the storage error with the message as
/// the store gave it, and stays so.
pub proof fn storage_failure_is_returned_as_it_is(
    days: int,
    content: DiaryContentView,
    message: Seq<char>,
    replies: Seq<DiaryReplyView>,
)
    ensures
        run_from(
            days,
            next_step(days, DiaryStepView::Save { content }, DiaryReplyView::Saved(Err(message))),
            replies,
        ) == (DiaryStepView::Done { outcome: Err(DiaryErrorView::Storage(message)) }),
        DiaryErrorView::Storage(message).message() == message,
{
    done_is_final(days, Err(DiaryErrorView::Storage(message)), replies);
}

/// A run whose every stage succeeds ends with the path that the store gave,
/// after storing the entries as they were fetched, the summary as it was
/// made, and the dates of the window; an empty history is summarised and
/// stored like any other.
pub proof fn successful_run(
    days: int,
    now: MomentView,
    start: MomentView,
    entries: Seq<CommitView>,
    summary: Seq<char>,
    path: Seq<char>,
)
    ensures
        ({
            let fetch = next_step(
                days,
                DiaryStepView::ReadClock { days },
                DiaryReplyView::Clock { now, start },
            );
            let summarize = next_step(days, fetch, DiaryReplyView::History(Ok(entries)));
            let save = next_step(days, summarize, DiaryReplyView::Summary(Ok(summary)));
            let done = next_step(days, save, DiaryReplyView::Saved(Ok(path)));
            &&& fetch == (DiaryStepView::FetchHistory { window: window_between(now, start) })
            &&& summarize == (DiaryStepView::Summarize {
                window: window_between(now, start),
                entries,
                preview: preview(days, display_texts(entries)),
            })
            &&& save == (DiaryStepView::Save {
                content: DiaryContentView {
                    entries,
                    summary,
                    start_date: start.date(),
                    end_date: now.date(),
                },
            })
            &&& done == (DiaryStepView::Done { outcome: Ok(path) })
        }),
{
}

/// The window between two instants.
pub fn window(now: &Moment, start: &Moment) -> (w: Window)
    ensures
        w@ == window_between(now@, start@),
{
    Window {
        start_date: start.calendar_date(),
        end_date: now.calendar_date(),
        since: start.timestamp(),
    }
}

/// The listing of a window's entries, from their display forms.
pub fn preview_of(days: i64, lines: &Vec<String>) -> (r: String)
    ensures
        r@ == preview(days as int, lines.deep_view()),
{
    let mut out: String = String::from_str("Last ");
    out.append(decimal_text(days).as_str());
    out.append(" days commits:\n");
    proof {
        reveal_strlit("");
        assert(""@ == Seq::<char>::empty());
    }
    append_listing(&mut out, lines, "");
    out
}

/// The orchestrator of a run over a fixed number of days.
pub struct DiaryGenerator {
    days_to_include: i64,
}

impl DiaryGenerator {
    pub closed spec fn spec_days(&self) -> int {
        self.days_to_include as int
    }

    pub fn new(days_to_include: i64) -> (g: DiaryGenerator)
        ensures
            g.spec_days() == days_to_include,
    {
        DiaryGenerator { days_to_include }
    }

    /// The number of days of the window.
    pub fn days_to_include(&self) -> (d: i64)
        ensures
            d == self.spec_days(),
    {
        self.days_to_include
    }

    /// The listing of `commits` for a reader, labelled with the number of
    /// days, the last entry given first.
    pub fn format_commit_logs(&self, commits: &Vec<Commit>) -> (r: String)
        ensures
            r@ == preview(self.spec_days(), display_texts(entries_view(commits@))),
    {
        let lines: Vec<String> = display_lines(commits);
        preview_of(self.days_to_include, &lines)
    }

    /// The first step of a run: the clock is read.
    pub fn start(&self) -> (step: DiaryStep)
        ensures
            step@ == (DiaryStepView::ReadClock { days: self.spec_days() }),
    {
        DiaryStep::ReadClock { days: self.days_to_include }
    }

    /// Moves a run on by the answer to the work that was due.
    pub fn advance(&self, step: DiaryStep, reply: DiaryReply) -> (next: DiaryStep)
        ensures
            next@ == next_step(self.spec_days(), step@, reply@),
    {
        match step {
            DiaryStep::ReadClock { days } => match reply {
                DiaryReply::Clock { now, start } => DiaryStep::FetchHistory {
                    window: window(&now, &start),
                },
                _ => DiaryStep::ReadClock { days },
            },
            DiaryStep::FetchHistory { window } => match reply {
                DiaryReply::History(Ok(commits)) => {
                    let preview: String = self.format_commit_logs(&commits);
                    DiaryStep::Summarize { window, commits, preview }
                },
                DiaryReply::History(Err(e)) => DiaryStep::Done {
                    outcome: Err(DiaryError::History(e)),
                },
                _ => DiaryStep::FetchHistory { window },
            },
            DiaryStep::Summarize { window, commits, preview } => match reply {
                DiaryReply::Summary(Ok(summary)) => DiaryStep::Save {
                    content: DiaryContent {
                        commits,
                        summary,
                        start_date: window.start_date,
                        end_date: window.end_date,
                    },
                },
                DiaryReply::Summary(Err(e)) => DiaryStep::Done {
                    outcome: Err(DiaryError::Summarizer(e)),
                },
                _ => DiaryStep::Summarize { window, commits, preview },
            },
            DiaryStep::Save { content } => match reply {
                DiaryReply::Saved(Ok(path)) => DiaryStep::Done { outcome: Ok(path) },
                DiaryReply::Saved(Err(e)) => DiaryStep::Done {
                    outcome: Err(DiaryError::Storage(e)),
                },
                _ => DiaryStep::Save { content },
            },
            DiaryStep::Done { outcome } => DiaryStep::Done { outcome },
        }
    }
}

} // verus!
