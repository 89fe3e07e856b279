use vstd::prelude::*;
use vstd::string::StringExecFns;

use crate::render::{decimal, to_decimal};

verus! {

/// Where a token starts: the file it came from, its line (counted from 1)
/// and its column (characters since the start of that line, counted from 0).
#[derive(Debug, Clone)]
pub struct CodeSourceLocation {
    pub file_name: String,
    pub line: usize,
    pub column: usize,
}

impl CodeSourceLocation {
    pub fn new(file_name: String, line: usize, column: usize) -> (r: CodeSourceLocation)
        ensures
            r.file_name@ == file_name@,
            r.line == line,
            r.column == column,
    {
        CodeSourceLocation { file_name, line, column }
    }

    /// The short form: `(fn: <file>, ln: <line>, cln: <column>)`.
    pub open spec fn compact_text(&self) -> Seq<char> {
        "(fn: "@ + self.file_name@ + ", ln: "@ + decimal(self.line as nat) + ", cln: "@ + decimal(
            self.column as nat,
        ) + ")"@
    }

    /// The long form: `(file: <file>,line: <line>, column: <column>)`.
    pub open spec fn display_text(&self) -> Seq<char> {
        "(file: "@ + self.file_name@ + ",line: "@ + decimal(self.line as nat) + ", column: "@
            + decimal(self.column as nat) + ")"@
    }

    pub fn to_compact_string(&self) -> (r: String)
        ensures
            r@ == self.compact_text(),
    {
        let line = to_decimal(self.line);
        let column = to_decimal(self.column);
        String::from_str("(fn: ").concat(self.file_name.as_str()).concat(", ln: ").concat(
            line.as_str(),
        ).concat(", cln: ").concat(column.as_str()).concat(")")
    }

    pub fn to_display_string(&self) -> (r: String)
        ensures
            r@ == self.display_text(),
    {
        let line = to_decimal(self.line);
        let column = to_decimal(self.column);
        String::from_str("(file: ").concat(self.file_name.as_str()).concat(",line: ").concat(
            line.as_str(),
        ).concat(", column: ").concat(column.as_str()).concat(")")
    }
}

} // verus!
