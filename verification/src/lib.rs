//! A diary of recent repository activity: the history entries of a time
//! window, a summary of them, and the Markdown document that holds both.

pub mod clock;
pub mod commit;
pub mod content;
pub mod error;
pub mod generator;
pub mod history;
pub mod storage;
pub mod summary;
pub mod text;
