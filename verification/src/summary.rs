//! What is asked of the summarising service, and what is made of its answer.

use crate::commit::{display_lines, display_texts, entries_view, Commit};
use vstd::prelude::*;
use vstd::string::StringExecFns;

verus! {

/// The fixed instruction that opens every request.
pub const INSTRUCTIONS: &'static str =
    "You are an expert software development analyst. Your task is to create a concise, professional diary entry summarizing recent development work based on Git commit messages.

Instructions:
1. Analyze the provided commit messages to understand the development activities
2. Group related commits by theme (features, bug fixes, refactoring, documentation, etc.)
3. Write a clear, narrative summary in diary format using past tense
4. Focus on what was accomplished, not just what was changed
5. Highlight significant features, improvements, or architectural decisions
6. Mention any notable patterns or development trends
7. Keep the tone professional but engaging
8. Aim for 3-5 sentences that capture the essence of the work period

Format your response as a diary entry starting with a brief overview, followed by key accomplishments grouped logically.";

/// The lines in the order given, with a line feed between each two.
pub open spec fn joined(lines: Seq<Seq<char>>) -> Seq<char>
    decreases lines.len(),
{
    if lines.len() == 0 {
        Seq::empty()
    } else if lines.len() == 1 {
        lines[0]
    } else {
        joined(lines.drop_last()) + seq!['\n'] + lines.last()
    }
}

/// The message that carries the entries: a heading, an empty line, and the
/// display form of every entry in the order supplied.
pub open spec fn entries_message(lines: Seq<Seq<char>>) -> Seq<char> {
    "Commit messages to summarize:\n\n"@ + joined(lines)
}

/// The text that stands for a fragment without content.
pub open spec fn no_content() -> Seq<char> {
    "No content"@
}

/// Every fragment in the order given, one after the other, the placeholder
/// in place of each that has no text.
pub open spec fn gathered(fragments: Seq<Option<Seq<char>>>) -> Seq<char>
    decreases fragments.len(),
{
    if fragments.len() == 0 {
        Seq::empty()
    } else {
        gathered(fragments.drop_last()) + match fragments.last() {
            Some(text) => text,
            None => no_content(),
        }
    }
}

/// The view of each fragment, in the same order.
pub open spec fn fragments_view(fragments: Seq<Option<String>>) -> Seq<Option<Seq<char>>> {
    Seq::new(
        fragments.len(),
        |i: int|
            match fragments[i] {
                Some(text) => Some(text@),
                None => None,
            },
    )
}

/// One request to the service: the model, the bound on the answer's length,
/// and the two messages in their order.
#[derive(Debug)]
pub struct SummaryRequest {
    pub model: String,
    pub max_tokens: u32,
    pub instructions: String,
    pub entries: String,
}

/// The settings of the summariser: which model answers, and within how many
/// tokens.
pub struct AISummarizerImpl {
    model: String,
    max_tokens: u32,
}

impl AISummarizerImpl {
    pub closed spec fn spec_model(&self) -> Seq<char> {
        self.model@
    }

    pub closed spec fn spec_max_tokens(&self) -> u32 {
        self.max_tokens
    }

    pub fn new(model: String, max_tokens: u32) -> (s: AISummarizerImpl)
        ensures
            s.spec_model() == model@,
            s.spec_max_tokens() == max_tokens,
    {
        AISummarizerImpl { model, max_tokens }
    }

    /// The request for a summary of `commits`, which may be empty: the
    /// configured model and bound, the fixed instruction, and the message of
    /// the entries.
    pub fn request(&self, commits: &Vec<Commit>) -> (r: SummaryRequest)
        ensures
            r.model@ == self.spec_model(),
            r.max_tokens == self.spec_max_tokens(),
            r.instructions@ == INSTRUCTIONS@,
            r.entries@ == entries_message(display_texts(entries_view(commits@))),
    {
        let lines: Vec<String> = display_lines(commits);
        SummaryRequest {
            model: self.model.clone(),
            max_tokens: self.max_tokens,
            instructions: String::from_str(INSTRUCTIONS),
            entries: entries_message_of(&lines),
        }
    }
}

/// The message of the entries, from their display forms.
pub fn entries_message_of(lines: &Vec<String>) -> (r: String)
    ensures
        r@ == entries_message(lines.deep_view()),
{
    let ghost all: Seq<Seq<char>> = lines.deep_view();
    let mut out: String = String::from_str("Commit messages to summarize:\n\n");
    let mut i: usize = 0;
    while i < lines.len()
        invariant
            i <= lines.len(),
            all == lines.deep_view(),
            out@ == entries_message(all.take(i as int)),
        decreases lines.len() - i,
    {
        proof {
            assert(all.take(i + 1).drop_last() == all.take(i as int));
            assert(all.take(i + 1).last() == lines@[i as int]@);
            reveal_strlit("\n");
            assert("\n"@ == seq!['\n']);
            if i == 0 {
                assert(all.take(1)[0] == lines@[0]@);
            }
        }
        if i > 0 {
            out.append("\n");
        }
        out.append(lines[i].as_str());
        i = i + 1;
    }
    proof {
        assert(all.take(lines.len() as int) == all);
    }
    out
}

/// The summary that the fragments of an answer make, in the order the
/// service returned them.
pub fn gather_summary(fragments: &Vec<Option<String>>) -> (r: String)
    ensures
        r@ == gathered(fragments_view(fragments@)),
{
    let ghost all: Seq<Option<Seq<char>>> = fragments_view(fragments@);
    let mut out: String = String::new();
    let mut i: usize = 0;
    while i < fragments.len()
        invariant
            i <= fragments.len(),
            all == fragments_view(fragments@),
            out@ == gathered(all.take(i as int)),
        decreases fragments.len() - i,
    {
        proof {
            assert(all.take(i + 1).drop_last() == all.take(i as int));
        }
        match &fragments[i] {
            Some(text) => out.append(text.as_str()),
            None => out.append("No content"),
        }
        i = i + 1;
    }
    proof {
        assert(all.take(fragments.len() as int) == all);
    }
    out
}

} // verus!
