//! The diagnostic record, and how one is made from the groups of a matched
//! line.

use vstd::prelude::*;
use vstd::string::StringExecFns;
use crate::number::{decimal_of, parse_decimal};

verus! {

/// One error reported by the compiler, made from one line of its output.
///
/// Line, column and code are kept as the digits that the compiler wrote,
/// so that no line is changed or lost for the size of a number;
/// [`Diagnostic::line_number`] and its like give them as integers.
#[derive(Clone, Debug, PartialEq, Eq)]
pub struct Diagnostic {
    /// The path of the offending file, as the compiler wrote it.
    pub file_path: String,
    /// The digits of the 1-based line number, as written.
    pub line: String,
    /// The digits of the 1-based column number, as written.
    pub column: String,
    /// The digits of the diagnostic code, without the `TS` in front.
    pub code: String,
    /// The code and the description, as `TS<code>: <description>`.
    pub message: String,
}

/// The mathematical value of a [`Diagnostic`].
pub ghost struct DiagnosticView {
    pub file_path: Seq<char>,
    pub line: Seq<char>,
    pub column: Seq<char>,
    pub code: Seq<char>,
    pub message: Seq<char>,
}

impl View for Diagnostic {
    type V = DiagnosticView;

    open spec fn view(&self) -> DiagnosticView {
        DiagnosticView {
            file_path: self.file_path@,
            line: self.line@,
            column: self.column@,
            code: self.code@,
            message: self.message@,
        }
    }
}

impl DeepView for Diagnostic {
    type V = DiagnosticView;

    open spec fn deep_view(&self) -> DiagnosticView {
        self@
    }
}

/// The message of a diagnostic with the given code and description: the code
/// is put back into the text, behind `TS` and before a colon and a space.
pub open spec fn formatted_message(code: Seq<char>, description: Seq<char>) -> Seq<char> {
    "TS"@ + code + ": "@ + description
}

/// Index of the group that holds the file path.
pub const GROUP_FILE_PATH: usize = 1;

/// Index of the group that holds the line number.
pub const GROUP_LINE: usize = 2;

/// Index of the group that holds the column number.
pub const GROUP_COLUMN: usize = 3;

/// Index of the group that holds the diagnostic code.
pub const GROUP_CODE: usize = 4;

/// Index of the group that holds the description.
pub const GROUP_DESCRIPTION: usize = 5;

/// Whether the groups of a match are those of a whole diagnostic line: the
/// five groups behind the overall match are all there and each took part.
pub open spec fn groups_complete(groups: Seq<Option<Seq<char>>>) -> bool {
    &&& groups.len() > GROUP_DESCRIPTION
    &&& forall|i: int| GROUP_FILE_PATH <= i <= GROUP_DESCRIPTION ==> (#[trigger] groups[i]) is Some
}

/// The diagnostic that the groups of a match stand for. Groups that are not
/// complete stand for none: a partial match gives no partial record.
pub open spec fn diagnostic_of_groups(groups: Seq<Option<Seq<char>>>) -> Option<DiagnosticView> {
    if groups_complete(groups) {
        Some(
            DiagnosticView {
                file_path: groups[GROUP_FILE_PATH as int]->0,
                line: groups[GROUP_LINE as int]->0,
                column: groups[GROUP_COLUMN as int]->0,
                code: groups[GROUP_CODE as int]->0,
                message: formatted_message(
                    groups[GROUP_CODE as int]->0,
                    groups[GROUP_DESCRIPTION as int]->0,
                ),
            },
        )
    } else {
        None
    }
}

impl Diagnostic {
    /// A copy of the diagnostic, field by field.
    pub fn duplicate(&self) -> (copy: Diagnostic)
        ensures
            copy@ == self@,
    {
        Diagnostic {
            file_path: self.file_path.clone(),
            line: self.line.clone(),
            column: self.column.clone(),
            code: self.code.clone(),
            message: self.message.clone(),
        }
    }

    /// The line number, counted from 1, where its digits are `0` to `9` and
    /// it is at most `u64::MAX`.
    pub fn line_number(&self) -> (result: Option<u64>)
        ensures
            result == decimal_of(self@.line),
    {
        parse_decimal(self.line.as_str())
    }

    /// The column number, counted from 1, where its digits are `0` to `9`
    /// and it is at most `u64::MAX`.
    pub fn column_number(&self) -> (result: Option<u64>)
        ensures
            result == decimal_of(self@.column),
    {
        parse_decimal(self.column.as_str())
    }

    /// The diagnostic code as a number, where its digits are `0` to `9` and
    /// it is at most `u64::MAX`.
    pub fn code_number(&self) -> (result: Option<u64>)
        ensures
            result == decimal_of(self@.code),
    {
        parse_decimal(self.code.as_str())
    }

    /// Makes the diagnostic from the groups of a matched line, or none where
    /// a group is missing.
    pub fn from_groups(groups: &Vec<Option<String>>) -> (result: Option<Diagnostic>)
        ensures
            result.deep_view() == diagnostic_of_groups(groups.deep_view()),
    {
        if groups.len() <= GROUP_DESCRIPTION {
            return None;
        }
        match (
            &groups[GROUP_FILE_PATH],
            &groups[GROUP_LINE],
            &groups[GROUP_COLUMN],
            &groups[GROUP_CODE],
            &groups[GROUP_DESCRIPTION],
        ) {
            (Some(file_path), Some(line), Some(column), Some(code), Some(description)) => {
                let mut message = String::from_str("TS");
                message.append(code.as_str());
                message.append(": ");
                message.append(description.as_str());
                Some(
                    Diagnostic {
                        file_path: file_path.clone(),
                        line: line.clone(),
                        column: column.clone(),
                        code: code.clone(),
                        message,
                    },
                )
            },
            _ => None,
        }
    }
}

} // verus!
