use git_diary::commit::Commit;
use git_diary::summary::{entries_message_of, gather_summary, AISummarizerImpl, INSTRUCTIONS};

#[test]
fn request_carries_model_bound_and_both_messages() {
    let summarizer = AISummarizerImpl::new("gpt-4o".to_string(), 1000);
    let commits = vec![
        Commit::new("Initial commit".to_string(), 1704067200),
        Commit::new("Add README.md".to_string(), 1704153600),
        Commit::new("Implement core functionality".to_string(), 1704240000),
        Commit::new("Fix bug in error handling".to_string(), 1704326400),
    ];
    let request = summarizer.request(&commits);
    assert_eq!(request.model, "gpt-4o");
    assert_eq!(request.max_tokens, 1000);
    assert_eq!(request.instructions, INSTRUCTIONS);
    assert_eq!(
        request.entries,
        "Commit messages to summarize:\n\n\
         2024-01-01 00:00:00: Initial commit\n\
         2024-01-02 00:00:00: Add README.md\n\
         2024-01-03 00:00:00: Implement core functionality\n\
         2024-01-04 00:00:00: Fix bug in error handling"
    );
}

#[test]
fn request_for_no_entries_is_still_made() {
    let summarizer = AISummarizerImpl::new("gpt-4o".to_string(), 1000);
    let request = summarizer.request(&Vec::new());
    assert_eq!(request.entries, "Commit messages to summarize:\n\n");
    assert_eq!(request.instructions, INSTRUCTIONS);
}

#[test]
fn request_for_one_entry_has_no_line_feed_after_it() {
    let summarizer = AISummarizerImpl::new("invalid-model".to_string(), 1);
    let commits = vec![Commit::new("Test commit".to_string(), 1704067200)];
    let request = summarizer.request(&commits);
    assert_eq!(request.model, "invalid-model");
    assert_eq!(request.max_tokens, 1);
    assert_eq!(
        request.entries,
        "Commit messages to summarize:\n\n2024-01-01 00:00:00: Test commit"
    );
}

#[test]
fn instructions_are_the_fixed_text() {
    assert!(INSTRUCTIONS.starts_with("You are an expert software development analyst."));
    assert!(INSTRUCTIONS.contains("\n\nInstructions:\n1. Analyze the provided commit messages"));
    assert!(INSTRUCTIONS.contains("\n8. Aim for 3-5 sentences"));
    assert!(INSTRUCTIONS.ends_with("followed by key accomplishments grouped logically."));
    assert_eq!(INSTRUCTIONS.lines().count(), 13);
}

#[test]
fn entries_message_joins_lines_in_the_order_given() {
    let lines = vec!["b".to_string(), "a".to_string(), "c".to_string()];
    assert_eq!(entries_message_of(&lines), "Commit messages to summarize:\n\nb\na\nc");
    let lines = vec![String::new(), String::new()];
    assert_eq!(entries_message_of(&lines), "Commit messages to summarize:\n\n\n");
}

#[test]
fn summary_is_every_fragment_in_order() {
    let fragments = vec![Some("One. ".to_string()), Some("Two.".to_string())];
    assert_eq!(gather_summary(&fragments), "One. Two.");
}

#[test]
fn fragment_without_text_gets_the_placeholder() {
    let fragments = vec![Some("A".to_string()), None, Some("B".to_string()), None];
    assert_eq!(gather_summary(&fragments), "ANo contentBNo content");
    assert_eq!(gather_summary(&vec![None]), "No content");
}

#[test]
fn summary_of_no_fragment_is_empty() {
    assert_eq!(gather_summary(&Vec::new()), "");
    assert_eq!(gather_summary(&vec![Some(String::new())]), "");
}
