//! Choosing the entries of a window from a repository's log.

use crate::commit::{Commit, CommitView};
use vstd::prelude::*;
use vstd::string::StringExecFns;

verus! {

/// One record of a repository's log as it was read: the message, where the
/// record has one, and the committer's time in epoch seconds.
#[derive(Debug, Clone)]
pub struct ReflogRecord {
    pub message: Option<String>,
    pub seconds: i64,
}

/// What a [`ReflogRecord`] stands for in contracts.
pub ghost struct ReflogRecordView {
    pub message: Option<Seq<char>>,
    pub seconds: int,
}

impl View for ReflogRecord {
    type V = ReflogRecordView;

    open spec fn view(&self) -> ReflogRecordView {
        ReflogRecordView {
            message: match self.message {
                Some(text) => Some(text@),
                None => None,
            },
            seconds: self.seconds as int,
        }
    }
}

/// The message shown for a record that has none.
pub open spec fn no_message() -> Seq<char> {
    "No message"@
}

impl ReflogRecordView {
    /// The entry that the record becomes: its message as it stands, or the
    /// placeholder where it has none, and its time.
    pub open spec fn entry(self) -> CommitView {
        CommitView {
            message: match self.message {
                Some(text) => text,
                None => no_message(),
            },
            time: self.seconds,
        }
    }
}

/// A repository, known by the path of its working directory.
pub struct GitRepositoryImpl {
    repo_path: String,
}

impl GitRepositoryImpl {
    pub closed spec fn spec_repo_path(&self) -> Seq<char> {
        self.repo_path@
    }

    pub fn new(repo_path: String) -> (r: GitRepositoryImpl)
        ensures
            r.spec_repo_path() == repo_path@,
    {
        GitRepositoryImpl { repo_path }
    }

    /// The path of the repository.
    pub fn repo_path(&self) -> (p: &String)
        ensures
            p@ == self.spec_repo_path(),
    {
        &self.repo_path
    }

    /// The entries of the window that starts at `timestamp`, from a log read
    /// newest first: the records before the first one that is older than
    /// `timestamp`, each as an entry, in the order of the log.
    pub fn get_commits_since(&self, log: &Vec<ReflogRecord>, timestamp: i64) -> (commits: Vec<
        Commit,
    >)
        ensures
            commits.len() <= log.len(),
            forall|i: int|
                0 <= i < commits.len() ==> (#[trigger] commits@[i])@ == log@[i]@.entry(),
            forall|i: int| 0 <= i < commits.len() ==> (#[trigger] log@[i]).seconds >= timestamp,
            commits.len() == log.len() || log@[commits.len() as int].seconds < timestamp,
            forall|i: int| 0 <= i < commits.len() ==> (#[trigger] commits@[i])@.time >= timestamp,
            (forall|k: int| 0 <= k < log.len() ==> (#[trigger] log@[k]).seconds < timestamp)
                ==> commits.len() == 0,
    {
        let mut commits: Vec<Commit> = Vec::new();
        let mut i: usize = 0;
        while i < log.len() && log[i].seconds >= timestamp
            invariant
                i <= log.len(),
                commits.len() == i,
                forall|k: int| 0 <= k < i ==> (#[trigger] commits@[k])@ == log@[k]@.entry(),
                forall|k: int| 0 <= k < i ==> (#[trigger] log@[k]).seconds >= timestamp,
            decreases log.len() - i,
        {
            let message: String = match &log[i].message {
                Some(text) => text.clone(),
                None => String::from_str("No message"),
            };
            commits.push(Commit::new(message, log[i].seconds));
            i = i + 1;
        }
        proof {
            if commits.len() > 0 {
                assert(log@[0].seconds >= timestamp);
            }
        }
        commits
    }
}

} // verus!
