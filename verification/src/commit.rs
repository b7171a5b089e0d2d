//! One history entry and its display form.

use crate::clock::within_calendar;
use vstd::prelude::*;
use vstd::string::StringExecFns;

verus! {

/// One unit of recorded activity: a free-text message and the moment it was
/// recorded, in seconds since 1970-01-01 00:00:00 UTC.
#[derive(Debug, Clone)]
pub struct Commit {
    pub message: String,
    time: i64,
}

/// What a [`Commit`] stands for in contracts.
pub ghost struct CommitView {
    pub message: Seq<char>,
    pub time: int,
}

impl View for Commit {
    type V = CommitView;

    open spec fn view(&self) -> CommitView {
        CommitView { message: self.spec_message(), time: self.spec_time() as int }
    }
}

impl CommitView {
    /// The display form of the entry.
    pub open spec fn display(self) -> Seq<char> {
        entry_text(utc_datetime_text(self.time as i64), self.message)
    }
}

/// The views of a sequence of entries, in the same order.
pub open spec fn entries_view(entries: Seq<Commit>) -> Seq<CommitView> {
    Seq::new(entries.len(), |i: int| entries[i]@)
}

/// The text `YYYY-MM-DD HH:MM:SS` of the UTC date and time that lie `seconds`
/// after 1970-01-01 00:00:00 UTC, or `None` where the calendar cannot
/// express that moment.
pub uninterp spec fn utc_datetime_text(seconds: i64) -> Option<Seq<char>>;

/// Calls `chrono::DateTime::from_timestamp` with no nanoseconds and formats
/// the date and time it gives with the pattern `%Y-%m-%d %H:%M:%S`. The
/// result is what `utc_datetime_text` names: it depends on `seconds` alone,
/// and is `None` exactly where `from_timestamp` gives none, which is for
/// the instants outside the calendar.
#[verifier::external_body]
fn utc_datetime(seconds: i64) -> (r: Option<String>)
    ensures
        match r {
            Some(text) => utc_datetime_text(seconds) == Some(text@),
            None => utc_datetime_text(seconds) is None,
        },
        r is Some <==> within_calendar(seconds),
{
    match chrono::DateTime::from_timestamp(seconds, 0) {
        Some(moment) => Some(moment.format("%Y-%m-%d %H:%M:%S").to_string()),
        None => None,
    }
}

/// The placeholder shown for a moment that has no date text.
pub open spec fn invalid_date() -> Seq<char> {
    "Invalid Date"@
}

/// The display form of an entry: its date text, or the placeholder where it
/// has none, then a colon, a space and the message as it stands.
pub open spec fn entry_text(stamp: Option<Seq<char>>, message: Seq<char>) -> Seq<char> {
    let shown = match stamp {
        Some(text) => text,
        None => invalid_date(),
    };
    shown + ": "@ + message
}

/// The display form of an entry whose date text was already worked out.
pub fn entry_line(stamp: Option<String>, message: &str) -> (r: String)
    ensures
        r@ == entry_text(
            match stamp {
                Some(text) => Some(text@),
                None => None,
            },
            message@,
        ),
{
    let mut line: String = match stamp {
        Some(text) => text,
        None => String::from_str("Invalid Date"),
    };
    line.append(": ");
    line.append(message);
    line
}

impl Commit {
    pub closed spec fn spec_message(&self) -> Seq<char> {
        self.message@
    }

    pub closed spec fn spec_time(&self) -> i64 {
        self.time
    }

    pub fn new(message: String, time: i64) -> (c: Commit)
        ensures
            c.spec_message() == message@,
            c.spec_time() == time,
    {
        Commit { message, time }
    }

    /// The message of this entry, as it was recorded.
    pub fn message(&self) -> (m: &String)
        ensures
            m@ == self.spec_message(),
    {
        &self.message
    }

    /// The moment of this entry, in epoch seconds.
    pub fn time(&self) -> (t: i64)
        ensures
            t == self.spec_time(),
    {
        self.time
    }

    /// The date and time of this entry as text; `None` where its moment
    /// lies outside the calendar.
    pub fn datetime(&self) -> (r: Option<String>)
        ensures
            match r {
                Some(text) => utc_datetime_text(self.spec_time()) == Some(text@),
                None => utc_datetime_text(self.spec_time()) is None,
            },
            r is Some <==> within_calendar(self.spec_time()),
    {
        utc_datetime(self.time)
    }

    /// The display form of this entry. An entry whose moment lies outside
    /// the calendar shows the placeholder in place of a date.
    pub fn to_string(&self) -> (r: String)
        ensures
            r@ == self@.display(),
            !within_calendar(self.spec_time()) ==> r@ == invalid_date() + ": "@
                + self.spec_message(),
    {
        entry_line(self.datetime(), self.message.as_str())
    }
}

/// The display forms of a sequence of entries, in the same order.
pub open spec fn display_texts(entries: Seq<CommitView>) -> Seq<Seq<char>> {
    Seq::new(entries.len(), |i: int| entries[i].display())
}

/// The display form of each entry, in the order given.
pub fn display_lines(commits: &Vec<Commit>) -> (lines: Vec<String>)
    ensures
        lines.deep_view() == display_texts(entries_view(commits@)),
{
    let mut lines: Vec<String> = Vec::new();
    let mut i: usize = 0;
    while i < commits.len()
        invariant
            i <= commits.len(),
            lines.len() == i,
            forall|k: int| 0 <= k < i ==> (#[trigger] lines@[k])@ == commits@[k]@.display(),
        decreases commits.len() - i,
    {
        lines.push(commits[i].to_string());
        i = i + 1;
    }
    assert(lines.deep_view() =~= display_texts(entries_view(commits@)));
    lines
}

} // verus!
