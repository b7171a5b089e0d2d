//! The three ways a generation run can fail.

use vstd::prelude::*;

verus! {

/// The history could not be read: the repository is absent or unreadable.
#[derive(Debug)]
pub struct HistorySourceError {
    pub message: String,
}

/// The summarising service failed: the network, the credentials, or an
/// answer that could not be read.
#[derive(Debug)]
pub struct SummarizerError {
    pub message: String,
}

/// The document could not be stored: the directory or the file could not be
/// written.
#[derive(Debug)]
pub struct StorageError {
    pub message: String,
}

/// The failure of a run, by the stage that raised it.
#[derive(Debug)]
pub enum DiaryError {
    History(HistorySourceError),
    Summarizer(SummarizerError),
    Storage(StorageError),
}

/// What a [`DiaryError`] stands for in contracts: the stage, and the message
/// as the stage gave it.
pub ghost enum DiaryErrorView {
    History(Seq<char>),
    Summarizer(Seq<char>),
    Storage(Seq<char>),
}

impl DiaryErrorView {
    /// The message of the failure.
    pub open spec fn message(self) -> Seq<char> {
        match self {
            DiaryErrorView::History(text) => text,
            DiaryErrorView::Summarizer(text) => text,
            DiaryErrorView::Storage(text) => text,
        }
    }
}

impl View for DiaryError {
    type V = DiaryErrorView;

    open spec fn view(&self) -> DiaryErrorView {
        match self {
            DiaryError::History(e) => DiaryErrorView::History(e.message@),
            DiaryError::Summarizer(e) => DiaryErrorView::Summarizer(e.message@),
            DiaryError::Storage(e) => DiaryErrorView::Storage(e.message@),
        }
    }
}

impl HistorySourceError {
    pub fn new(message: String) -> (e: HistorySourceError)
        ensures
            e.message == message,
    {
        HistorySourceError { message }
    }

    /// The message, as it was given.
    pub fn to_string(&self) -> (r: String)
        ensures
            r@ == self.message@,
    {
        self.message.clone()
    }
}

impl SummarizerError {
    pub fn new(message: String) -> (e: SummarizerError)
        ensures
            e.message == message,
    {
        SummarizerError { message }
    }

    /// The message, as it was given.
    pub fn to_string(&self) -> (r: String)
        ensures
            r@ == self.message@,
    {
        self.message.clone()
    }
}

impl StorageError {
    pub fn new(message: String) -> (e: StorageError)
        ensures
            e.message == message,
    {
        StorageError { message }
    }

    /// The message, as it was given.
    pub fn to_string(&self) -> (r: String)
        ensures
            r@ == self.message@,
    {
        self.message.clone()
    }
}

impl DiaryError {
    /// The message of the stage that failed, unchanged.
    pub fn to_string(&self) -> (r: String)
        ensures
            r@ == self@.message(),
    {
        match self {
            DiaryError::History(e) => e.to_string(),
            DiaryError::Summarizer(e) => e.to_string(),
            DiaryError::Storage(e) => e.to_string(),
        }
    }
}

} // verus!
