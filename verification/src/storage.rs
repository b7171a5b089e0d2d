//! Naming and formatting of the diary document.

use crate::commit::{display_lines, display_texts};
use crate::content::{DiaryContent, DiaryContentView};
use crate::text::{
    append_listing, listing, listing_has_len, listing_holds_each_line, listing_len,
    listing_reverses_the_order, row_len, row_start, strip_dashes, text_without_dash_is_kept,
    without_dashes,
};
use vstd::prelude::*;
use vstd::string::StringExecFns;

verus! {

/// The path of the document for a window: the base directory, `/git-diary-`,
/// the start date without its dashes, `-to-`, the end date without its
/// dashes, and `.md`.
pub open spec fn file_name(base_dir: Seq<char>, start_date: Seq<char>, end_date: Seq<char>) -> Seq<
    char,
> {
    base_dir + "/git-diary-"@ + strip_dashes(start_date) + "-to-"@ + strip_dashes(end_date)
        + ".md"@
}

/// The title line of the document, without its line feed.
pub open spec fn title_line(start_date: Seq<char>, end_date: Seq<char>) -> Seq<char> {
    "# Git Diary ("@ + start_date + " \u{2013} "@ + end_date + ")"@
}

/// The document: the title line, the section of the entries as bullets, the
/// last entry given first, and the section of the summary.
pub open spec fn document(
    start_date: Seq<char>,
    end_date: Seq<char>,
    lines: Seq<Seq<char>>,
    summary: Seq<char>,
) -> Seq<char> {
    title_line(start_date, end_date) + "\n\n## Commit Logs\n\n"@ + listing(lines, "- "@)
        + "\n\n## AI-generated Summary\n\n"@ + summary + "\n"@
}

/// The path of a document is a matter of the base directory and the two
/// dates alone: contents that agree in their dates have the same path,
/// whatever their entries and summaries are.
pub proof fn file_name_depends_on_dates_alone(
    base_dir: Seq<char>,
    a: DiaryContentView,
    b: DiaryContentView,
)
    requires
        a.start_date == b.start_date,
        a.end_date == b.end_date,
    ensures
        file_name(base_dir, a.start_date, a.end_date) == file_name(
            base_dir,
            b.start_date,
            b.end_date,
        ),
{
}

/// Dates that hold no dash go into the path as they stand, whatever else
/// they hold.
pub proof fn file_name_keeps_dates_without_dash(
    base_dir: Seq<char>,
    start_date: Seq<char>,
    end_date: Seq<char>,
)
    requires
        forall|i: int| 0 <= i < start_date.len() ==> start_date[i] != '-',
        forall|i: int| 0 <= i < end_date.len() ==> end_date[i] != '-',
    ensures
        file_name(base_dir, start_date, end_date) == base_dir + "/git-diary-"@ + start_date
            + "-to-"@ + end_date + ".md"@,
{
    text_without_dash_is_kept(start_date);
    text_without_dash_is_kept(end_date);
}

/// Whether a line of `doc` starts at `at` and begins with `prefix`.
pub open spec fn line_begins_with(doc: Seq<char>, at: int, prefix: Seq<char>) -> bool {
    &&& 0 <= at
    &&& at + prefix.len() <= doc.len()
    &&& at == 0 || doc[at - 1] == '\n'
    &&& doc.subrange(at, at + prefix.len()) == prefix
}

/// Whether `line` is a whole line of `doc` that starts at `at`.
pub open spec fn is_line(doc: Seq<char>, at: int, line: Seq<char>) -> bool {
    &&& line_begins_with(doc, at, line)
    &&& at + line.len() == doc.len() || doc[at + line.len()] == '\n'
}

/// Where the heading of the entries starts in the document.
pub open spec fn logs_heading_start(start_date: Seq<char>, end_date: Seq<char>) -> int {
    title_line(start_date, end_date).len() as int + 2
}

/// Where the bullets start in the document.
pub open spec fn bullets_start(start_date: Seq<char>, end_date: Seq<char>) -> int {
    title_line(start_date, end_date).len() as int + 18
}

/// Where the heading of the summary starts in the document.
pub open spec fn summary_heading_start(
    start_date: Seq<char>,
    end_date: Seq<char>,
    lines: Seq<Seq<char>>,
) -> int {
    bullets_start(start_date, end_date) + listing_len(lines, "- "@) + 2
}

/// Every document holds, in this order, a first line that begins with
/// `# Git Diary (`, the line `## Commit Logs` and the line
/// `## AI-generated Summary`, with all the bullets between the last two.
pub proof fn document_has_its_sections_in_order(
    start_date: Seq<char>,
    end_date: Seq<char>,
    lines: Seq<Seq<char>>,
    summary: Seq<char>,
)
    ensures
        ({
            let doc = document(start_date, end_date, lines, summary);
            let logs = logs_heading_start(start_date, end_date);
            let bullets = bullets_start(start_date, end_date);
            let sum = summary_heading_start(start_date, end_date, lines);
            &&& line_begins_with(doc, 0, "# Git Diary ("@)
            &&& is_line(doc, logs, "## Commit Logs"@)
            &&& is_line(doc, sum, "## AI-generated Summary"@)
            &&& 0 < logs < bullets <= sum - 2
            &&& doc.subrange(bullets, sum - 2) == listing(lines, "- "@)
            &&& doc.subrange(sum + 25, doc.len() - 1) == summary
        }),
{
    reveal_strlit("# Git Diary (");
    reveal_strlit(" \u{2013} ");
    reveal_strlit(")");
    reveal_strlit("\n\n## Commit Logs\n\n");
    reveal_strlit("## Commit Logs");
    reveal_strlit("\n\n## AI-generated Summary\n\n");
    reveal_strlit("## AI-generated Summary");
    reveal_strlit("\n");
    reveal_strlit("- ");
    listing_has_len(lines, "- "@);
    let title = title_line(start_date, end_date);
    let first = "\n\n## Commit Logs\n\n"@;
    let list = listing(lines, "- "@);
    let second = "\n\n## AI-generated Summary\n\n"@;
    let doc = document(start_date, end_date, lines, summary);
    let logs = logs_heading_start(start_date, end_date);
    let bullets = bullets_start(start_date, end_date);
    let sum = summary_heading_start(start_date, end_date, lines);
    assert(doc == title + first + list + second + summary + "\n"@);
    assert(doc.len() == title.len() + 18 + list.len() + 27 + summary.len() + 1);
    assert(doc.subrange(0, 13) == "# Git Diary ("@);
    assert(doc.subrange(logs, logs + 14) == "## Commit Logs"@);
    assert(doc[logs - 1] == '\n');
    assert(doc[logs + 14] == '\n');
    assert(doc.subrange(sum, sum + 23) == "## AI-generated Summary"@);
    assert(doc[sum - 1] == '\n');
    assert(doc[sum + 23] == '\n');
    assert(doc.subrange(bullets, sum - 2) == list);
    assert(doc.subrange(sum + 25, doc.len() - 1) == summary);
}

/// Every entry has its bullet in the document, between the two headings: a
/// dash, a space, the display form of the entry and a line feed. The
/// bullets stand in reverse of the order of the entries: of two entries,
/// the bullet of the later one stands wholly before that of the earlier.
pub proof fn document_lists_entries_in_reverse(
    start_date: Seq<char>,
    end_date: Seq<char>,
    lines: Seq<Seq<char>>,
    summary: Seq<char>,
    i: int,
    j: int,
)
    requires
        0 <= i <= j < lines.len(),
    ensures
        ({
            let doc = document(start_date, end_date, lines, summary);
            let bullets = bullets_start(start_date, end_date);
            let at_i = bullets + row_start(lines, "- "@, i);
            let at_j = bullets + row_start(lines, "- "@, j);
            &&& bullets <= at_j
            &&& at_i + row_len(lines[i], "- "@) <= summary_heading_start(
                start_date,
                end_date,
                lines,
            ) - 2
            &&& doc.subrange(at_i, at_i + row_len(lines[i], "- "@)) == "- "@ + lines[i] + seq![
                '\n',
            ]
            &&& doc.subrange(at_j, at_j + row_len(lines[j], "- "@)) == "- "@ + lines[j] + seq![
                '\n',
            ]
            &&& i < j ==> at_j + row_len(lines[j], "- "@) <= at_i
        }),
{
    document_has_its_sections_in_order(start_date, end_date, lines, summary);
    listing_has_len(lines, "- "@);
    listing_holds_each_line(lines, "- "@, i);
    listing_holds_each_line(lines, "- "@, j);
    if i < j {
        listing_reverses_the_order(lines, "- "@, i, j);
    }
    let doc = document(start_date, end_date, lines, summary);
    let bullets = bullets_start(start_date, end_date);
    let sum = summary_heading_start(start_date, end_date, lines);
    let list = listing(lines, "- "@);
    let at_i = row_start(lines, "- "@, i);
    let at_j = row_start(lines, "- "@, j);
    let len_i = row_len(lines[i], "- "@);
    let len_j = row_len(lines[j], "- "@);
    assert(doc.subrange(bullets, sum - 2).subrange(at_i, at_i + len_i) == doc.subrange(
        bullets + at_i,
        bullets + at_i + len_i,
    ));
    assert(doc.subrange(bullets, sum - 2).subrange(at_j, at_j + len_j) == doc.subrange(
        bullets + at_j,
        bullets + at_j + len_j,
    ));
}

/// Builds the document from the display forms of the entries.
pub fn render_document(start_date: &str, end_date: &str, lines: &Vec<String>, summary: &str) -> (r:
    String)
    ensures
        r@ == document(start_date@, end_date@, lines.deep_view(), summary@),
{
    let mut out: String = String::from_str("# Git Diary (");
    out.append(start_date);
    out.append(" \u{2013} ");
    out.append(end_date);
    out.append(")");
    out.append("\n\n## Commit Logs\n\n");
    append_listing(&mut out, lines, "- ");
    out.append("\n\n## AI-generated Summary\n\n");
    out.append(summary);
    out.append("\n");
    out
}

/// What saving a diary comes to: the directory that has to exist, the path of
/// the file, and the whole of what the file then holds.
#[derive(Debug)]
pub struct DiaryFile {
    pub directory: String,
    pub path: String,
    pub contents: String,
}

/// Where diaries are kept.
pub struct DiaryStorageImpl {
    base_dir: String,
}

impl DiaryStorageImpl {
    pub closed spec fn spec_base_dir(&self) -> Seq<char> {
        self.base_dir@
    }

    pub fn new(base_dir: String) -> (s: DiaryStorageImpl)
        ensures
            s.spec_base_dir() == base_dir@,
    {
        DiaryStorageImpl { base_dir }
    }

    /// The directory that holds the documents.
    pub fn base_dir(&self) -> (d: &String)
        ensures
            d@ == self.spec_base_dir(),
    {
        &self.base_dir
    }

    /// The path of the document for `content`: it depends on the base
    /// directory and the two dates alone.
    pub fn generate_file_name(&self, content: &DiaryContent) -> (r: String)
        ensures
            r@ == file_name(self.spec_base_dir(), content@.start_date, content@.end_date),
    {
        let mut out: String = self.base_dir.clone();
        out.append("/git-diary-");
        out.append(without_dashes(content.start_date.as_str()).as_str());
        out.append("-to-");
        out.append(without_dashes(content.end_date.as_str()).as_str());
        out.append(".md");
        out
    }

    /// The document for `content`.
    pub fn format_markdown_content(&self, content: &DiaryContent) -> (r: String)
        ensures
            r@ == document(
                content@.start_date,
                content@.end_date,
                display_texts(content@.entries),
                content@.summary,
            ),
    {
        let lines: Vec<String> = display_lines(&content.commits);
        render_document(
            content.start_date.as_str(),
            content.end_date.as_str(),
            &lines,
            content.summary.as_str(),
        )
    }
}

impl DiaryStorageImpl {
    /// Works out what saving `content` writes and where: the base directory,
    /// the path that `generate_file_name` gives, and the document that
    /// `format_markdown_content` gives.
    pub fn prepare_diary(&self, content: &DiaryContent) -> (file: DiaryFile)
        ensures
            file.directory@ == self.spec_base_dir(),
            file.path@ == file_name(self.spec_base_dir(), content@.start_date, content@.end_date),
            file.contents@ == document(
                content@.start_date,
                content@.end_date,
                display_texts(content@.entries),
                content@.summary,
            ),
    {
        DiaryFile {
            directory: self.base_dir.clone(),
            path: self.generate_file_name(content),
            contents: self.format_markdown_content(content),
        }
    }
}

} // verus!
