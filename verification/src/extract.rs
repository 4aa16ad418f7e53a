//! Extraction of diagnostics from the compiler's error output.

use vstd::prelude::*;
use crate::diagnostic::{
    diagnostic_of_groups, groups_complete, Diagnostic, DiagnosticView, GROUP_CODE, GROUP_COLUMN,
    GROUP_DESCRIPTION, GROUP_FILE_PATH, GROUP_LINE,
};
use crate::engine::{captures, compile, regex_accepts, regex_captures, regex_pattern};
use crate::lines::{
    ends_lines, lemma_lines_of_concat, lemma_lines_of_terminated, lemma_lines_of_unterminated,
    lines_of, split_lines, without_return, LINE_FEED,
};

verus! {

/// The grammar of a diagnostic line, `<path>(<line>,<column>): error
/// TS<code>: <description>`, as a pattern of the engine. The path is the
/// shortest run of characters that lets the rest match; line, column and code
/// are runs of digits; the description is the rest of the line.
pub const LINE_PATTERN: &'static str = r"(.*?)\((\d+),(\d+)\): error TS(\d+): (.*)";

/// The diagnostic that a line stands for: that of the groups which the
/// engine finds in it for the line pattern, or none where it finds no match.
pub open spec fn diagnostic_of_line(line: Seq<char>) -> Option<DiagnosticView> {
    match regex_captures(LINE_PATTERN@, line) {
        Some(groups) => diagnostic_of_groups(groups),
        None => None,
    }
}

/// What one line adds to the diagnostics: the diagnostic that it stands
/// for, or nothing.
pub open spec fn diagnostics_of_line(line: Seq<char>) -> Seq<DiagnosticView> {
    match diagnostic_of_line(line) {
        Some(diagnostic) => seq![diagnostic],
        None => Seq::empty(),
    }
}

/// The diagnostics of a sequence of lines: one for each line that stands for
/// one, in the order of the lines.
pub open spec fn diagnostics_of_lines(lines: Seq<Seq<char>>) -> Seq<DiagnosticView>
    decreases lines.len(),
{
    if lines.len() == 0 {
        Seq::empty()
    } else {
        let before = diagnostics_of_lines(lines.drop_last());
        match diagnostic_of_line(lines.last()) {
            Some(diagnostic) => before.push(diagnostic),
            None => before,
        }
    }
}

/// The index, among the lines, of the line that the diagnostic at `index`
/// comes from.
pub open spec fn line_of_diagnostic(lines: Seq<Seq<char>>, index: int) -> int
    decreases lines.len(),
{
    if lines.len() == 0 {
        0
    } else if index < diagnostics_of_lines(lines.drop_last()).len() {
        line_of_diagnostic(lines.drop_last(), index)
    } else {
        lines.len() - 1
    }
}

/// The diagnostics of a text: those of its lines.
pub open spec fn diagnostics_of_text(text: Seq<char>) -> Seq<DiagnosticView> {
    diagnostics_of_lines(lines_of(text))
}

/// The line pattern, compiled.
pub struct Extractor {
    regex: regex::Regex,
}

impl Extractor {
    /// An extractor holds the expression made from the line pattern.
    #[verifier::type_invariant]
    spec fn holds_line_pattern(&self) -> bool {
        regex_pattern(self.regex) == LINE_PATTERN@
    }

    /// Compiles the line pattern. There is no extractor where the engine
    /// refuses the pattern.
    pub fn new() -> (result: Option<Extractor>)
        ensures
            result is Some <==> regex_accepts(LINE_PATTERN@),
    {
        match compile(LINE_PATTERN) {
            Ok(regex) => Some(Extractor { regex }),
            Err(_) => None,
        }
    }

    /// The diagnostic of one line, if it is a diagnostic line.
    pub fn extract_line(&self, line: &str) -> (result: Option<Diagnostic>)
        ensures
            result.deep_view() == diagnostic_of_line(line@),
    {
        proof {
            use_type_invariant(self);
        }
        match captures(&self.regex, line) {
            Some(groups) => Diagnostic::from_groups(&groups),
            None => None,
        }
    }

    /// The diagnostics of a text, in the order of its lines. Lines that are
    /// no diagnostic lines are passed over.
    pub fn extract(&self, text: &str) -> (result: Vec<Diagnostic>)
        ensures
            result.deep_view() == diagnostics_of_text(text@),
            text@.len() == 0 ==> result.len() == 0,
    {
        let lines = split_lines(text);
        let mut diagnostics: Vec<Diagnostic> = Vec::new();
        let mut index: usize = 0;
        while index < lines.len()
            invariant
                index <= lines.len(),
                lines.deep_view() == lines_of(text@),
                diagnostics.deep_view() == diagnostics_of_lines(
                    lines.deep_view().take(index as int),
                ),
            decreases lines.len() - index,
        {
            let found = self.extract_line(lines[index].as_str());
            proof {
                let upto = lines.deep_view().take(index + 1);
                assert(upto.drop_last() =~= lines.deep_view().take(index as int));
            }
            match found {
                Some(diagnostic) => diagnostics.push(diagnostic),
                None => {},
            }
            index += 1;
        }
        proof {
            assert(lines.deep_view().take(lines.len() as int) =~= lines.deep_view());
        }
        diagnostics
    }
}

/// The diagnostics of the compiler's error output, in the order of its
/// lines. Nothing is returned where the engine refuses the line pattern.
pub fn parse_tsc_errors(input: &str) -> (result: Option<Vec<Diagnostic>>)
    ensures
        result is Some <==> regex_accepts(LINE_PATTERN@),
        result matches Some(diagnostics) ==> diagnostics.deep_view() == diagnostics_of_text(
            input@,
        ),
        result matches Some(diagnostics) ==> (input@.len() == 0 ==> diagnostics.len() == 0),
{
    match Extractor::new() {
        Some(extractor) => Some(extractor.extract(input)),
        None => None,
    }
}

/// The diagnostics of lines put one behind the other are those of the first
/// lines, then those of the lines that follow.
pub proof fn lemma_diagnostics_of_lines_concat(first: Seq<Seq<char>>, second: Seq<Seq<char>>)
    ensures
        diagnostics_of_lines(first + second) == diagnostics_of_lines(first) + diagnostics_of_lines(
            second,
        ),
    decreases second.len(),
{
    if second.len() == 0 {
        assert(diagnostics_of_lines(first) + diagnostics_of_lines(second) =~= diagnostics_of_lines(
            first,
        ));
    } else {
        assert((first + second).drop_last() =~= first + second.drop_last());
        lemma_diagnostics_of_lines_concat(first, second.drop_last());
        let before = diagnostics_of_lines(first) + diagnostics_of_lines(second.drop_last());
        match diagnostic_of_line(second.last()) {
            Some(diagnostic) => {
                assert(before.push(diagnostic) =~= diagnostics_of_lines(first)
                    + diagnostics_of_lines(second.drop_last()).push(diagnostic));
            },
            None => {},
        }
    }
}

/// A single line gives the diagnostic that it stands for, or none.
pub proof fn lemma_diagnostics_of_one_line(line: Seq<char>)
    ensures
        diagnostics_of_lines(seq![line]) == diagnostics_of_line(line),
{
    let lines = seq![line];
    assert(diagnostics_of_lines(lines.drop_last()) =~= Seq::<DiagnosticView>::empty());
}

/// Each line adds what it stands for, at its place and whatever stands
/// around it: between whole lines before and any text behind, the
/// diagnostics are those of the lines before, then what the line adds, then
/// those of the text behind. A carriage return at the end of the line is not
/// part of what is matched.
pub proof fn lemma_line_in_text(head: Seq<char>, line: Seq<char>, tail: Seq<char>)
    requires
        ends_lines(head),
        !line.contains(LINE_FEED),
    ensures
        diagnostics_of_text(head + line + seq![LINE_FEED] + tail) == diagnostics_of_text(head)
            + diagnostics_of_line(without_return(line)) + diagnostics_of_text(tail),
{
    let whole = head + line + seq![LINE_FEED] + tail;
    assert(whole =~= head + (line + seq![LINE_FEED] + tail));
    lemma_lines_of_concat(head, line + seq![LINE_FEED] + tail);
    lemma_lines_of_terminated(line, tail);
    let matched = seq![without_return(line)];
    lemma_diagnostics_of_lines_concat(lines_of(head), matched + lines_of(tail));
    lemma_diagnostics_of_lines_concat(matched, lines_of(tail));
    lemma_diagnostics_of_one_line(without_return(line));
    let one = diagnostics_of_lines(matched);
    assert(diagnostics_of_text(head) + (one + diagnostics_of_text(tail)) =~= diagnostics_of_text(
        head,
    ) + one + diagnostics_of_text(tail));
}

/// The last line of a text adds what it stands for, also where no line feed
/// ends it.
pub proof fn lemma_last_line_of_text(head: Seq<char>, line: Seq<char>)
    requires
        ends_lines(head),
        line.len() > 0,
        !line.contains(LINE_FEED),
    ensures
        diagnostics_of_text(head + line) == diagnostics_of_text(head) + diagnostics_of_line(line),
{
    lemma_lines_of_concat(head, line);
    lemma_lines_of_unterminated(line);
    lemma_diagnostics_of_lines_concat(lines_of(head), seq![line]);
    lemma_diagnostics_of_one_line(line);
}

/// A line that the engine matches with all the groups of the line pattern
/// gives exactly one diagnostic. Its file path, line, column and code are the
/// text of their groups, unchanged, and its message is `TS`, the code, a
/// colon, a space and the text of the description group, unchanged.
pub proof fn lemma_diagnostic_line_gives_one(line: Seq<char>, groups: Seq<Option<Seq<char>>>)
    requires
        line.len() > 0,
        !line.contains(LINE_FEED),
        regex_captures(LINE_PATTERN@, line) == Some(groups),
        groups_complete(groups),
    ensures
        diagnostics_of_text(line) == seq![
            DiagnosticView {
                file_path: groups[GROUP_FILE_PATH as int]->0,
                line: groups[GROUP_LINE as int]->0,
                column: groups[GROUP_COLUMN as int]->0,
                code: groups[GROUP_CODE as int]->0,
                message: "TS"@ + groups[GROUP_CODE as int]->0 + ": "@
                    + groups[GROUP_DESCRIPTION as int]->0,
            },
        ],
{
    lemma_last_line_of_text(Seq::empty(), line);
    assert(diagnostics_of_text(Seq::empty()) + diagnostics_of_line(line) =~= diagnostics_of_line(
        line,
    ));
}

/// A diagnostic line adds exactly one diagnostic, at its place: between
/// whole lines before and any text behind, the diagnostics are those of the
/// lines before, then the one of the line, then those of the text behind.
pub proof fn lemma_diagnostic_line_adds_one(
    head: Seq<char>,
    line: Seq<char>,
    tail: Seq<char>,
    groups: Seq<Option<Seq<char>>>,
)
    requires
        ends_lines(head),
        !line.contains(LINE_FEED),
        regex_captures(LINE_PATTERN@, without_return(line)) == Some(groups),
        groups_complete(groups),
    ensures
        diagnostics_of_text(head + line + seq![LINE_FEED] + tail) == diagnostics_of_text(head)
            + seq![
            DiagnosticView {
                file_path: groups[GROUP_FILE_PATH as int]->0,
                line: groups[GROUP_LINE as int]->0,
                column: groups[GROUP_COLUMN as int]->0,
                code: groups[GROUP_CODE as int]->0,
                message: "TS"@ + groups[GROUP_CODE as int]->0 + ": "@
                    + groups[GROUP_DESCRIPTION as int]->0,
            },
        ] + diagnostics_of_text(tail),
{
    lemma_line_in_text(head, line, tail);
}

/// A line that is no diagnostic line adds nothing and moves nothing: with it
/// or without it, between whole lines before and any text behind, the
/// diagnostics are the same, in number and in order.
pub proof fn lemma_other_line_adds_nothing(head: Seq<char>, line: Seq<char>, tail: Seq<char>)
    requires
        ends_lines(head),
        !line.contains(LINE_FEED),
        diagnostic_of_line(without_return(line)) is None,
    ensures
        diagnostics_of_text(head + line + seq![LINE_FEED] + tail) == diagnostics_of_text(
            head + tail,
        ),
        diagnostics_of_text(head + line + seq![LINE_FEED] + tail) == diagnostics_of_text(head)
            + diagnostics_of_text(tail),
{
    lemma_line_in_text(head, line, tail);
    lemma_diagnostics_keep_line_order(head, tail);
    assert(diagnostics_of_text(head) + Seq::<DiagnosticView>::empty() =~= diagnostics_of_text(
        head,
    ));
}

/// The diagnostics come in the order of the lines: behind a whole number of
/// lines, the diagnostics of the text that follows stand behind those of the
/// lines before, and each part gives what it would give alone.
pub proof fn lemma_diagnostics_keep_line_order(head: Seq<char>, tail: Seq<char>)
    requires
        ends_lines(head),
    ensures
        diagnostics_of_text(head + tail) == diagnostics_of_text(head) + diagnostics_of_text(tail),
{
    lemma_lines_of_concat(head, tail);
    lemma_diagnostics_of_lines_concat(lines_of(head), lines_of(tail));
}

/// Each diagnostic comes from a line of its own: the line found for it is
/// one of the lines, and it stands for that diagnostic.
pub proof fn lemma_diagnostic_comes_from_its_line(lines: Seq<Seq<char>>, index: int)
    requires
        0 <= index < diagnostics_of_lines(lines).len(),
    ensures
        0 <= line_of_diagnostic(lines, index) < lines.len(),
        diagnostic_of_line(lines[line_of_diagnostic(lines, index)]) == Some(
            diagnostics_of_lines(lines)[index],
        ),
    decreases lines.len(),
{
    if lines.len() > 0 && index < diagnostics_of_lines(lines.drop_last()).len() {
        lemma_diagnostic_comes_from_its_line(lines.drop_last(), index);
    }
}

/// The order of the diagnostics is the order of their lines: of two
/// diagnostics, the earlier comes from the earlier line.
pub proof fn lemma_diagnostics_follow_lines(lines: Seq<Seq<char>>, earlier: int, later: int)
    requires
        0 <= earlier < later < diagnostics_of_lines(lines).len(),
    ensures
        0 <= line_of_diagnostic(lines, earlier) < line_of_diagnostic(lines, later) < lines.len(),
    decreases lines.len(),
{
    if lines.len() > 0 {
        if later < diagnostics_of_lines(lines.drop_last()).len() {
            lemma_diagnostics_follow_lines(lines.drop_last(), earlier, later);
        } else {
            lemma_diagnostic_comes_from_its_line(lines.drop_last(), earlier);
        }
    }
}

/// There are no more diagnostics than lines.
pub proof fn lemma_at_most_one_for_each_line(lines: Seq<Seq<char>>)
    ensures
        diagnostics_of_lines(lines).len() <= lines.len(),
    decreases lines.len(),
{
    if lines.len() > 0 {
        lemma_at_most_one_for_each_line(lines.drop_last());
    }
}

/// Extraction has no hidden state: two results for the same text are the
/// same sequence.
pub proof fn lemma_extraction_repeats(
    text: Seq<char>,
    first: Vec<Diagnostic>,
    second: Vec<Diagnostic>,
)
    requires
        first.deep_view() == diagnostics_of_text(text),
        second.deep_view() == diagnostics_of_text(text),
    ensures
        first.deep_view() == second.deep_view(),
{
}

/// The empty text has no diagnostics.
pub proof fn lemma_empty_text_gives_none()
    ensures
        diagnostics_of_text(Seq::empty()) == Seq::<DiagnosticView>::empty(),
{
}

} // verus!
