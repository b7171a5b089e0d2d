//! The assembled content of one diary.

use crate::commit::{entries_view, Commit, CommitView};
use vstd::prelude::*;

verus! {

/// What one generation run has gathered: the entries in the order the
/// history gave them, the summary, and the two calendar dates of the window.
#[derive(Debug)]
pub struct DiaryContent {
    pub commits: Vec<Commit>,
    pub summary: String,
    pub start_date: String,
    pub end_date: String,
}

/// What a [`DiaryContent`] stands for in contracts.
pub ghost struct DiaryContentView {
    pub entries: Seq<CommitView>,
    pub summary: Seq<char>,
    pub start_date: Seq<char>,
    pub end_date: Seq<char>,
}

impl View for DiaryContent {
    type V = DiaryContentView;

    open spec fn view(&self) -> DiaryContentView {
        DiaryContentView {
            entries: entries_view(self.commits@),
            summary: self.summary@,
            start_date: self.start_date@,
            end_date: self.end_date@,
        }
    }
}

} // verus!
