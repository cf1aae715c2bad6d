use vstd::prelude::*;

verus! {

/// One source position: file path, line and column.
#[derive(Clone, Copy, Debug, PartialEq, Eq, Hash)]
pub struct CallSite {
    file: &'static str,
    line: u32,
    column: u32,
}

impl CallSite {
    /// The file path of this position.
    pub closed spec fn file_spec(self) -> Seq<char> {
        self.file@
    }

    /// The line number of this position.
    pub closed spec fn line_spec(self) -> u32 {
        self.line
    }

    /// The column number of this position.
    pub closed spec fn column_spec(self) -> u32 {
        self.column
    }

    /// A position in `file` at `line` and `column`.
    pub fn new(file: &'static str, line: u32, column: u32) -> (r: CallSite)
        ensures
            r.file_spec() == file@,
            r.line_spec() == line,
            r.column_spec() == column,
    {
        CallSite { file, line, column }
    }

    pub fn file(&self) -> (r: &'static str)
        ensures
            r@ == self.file_spec(),
    {
        self.file
    }

    pub fn line(&self) -> (r: u32)
        ensures
            r == self.line_spec(),
    {
        self.line
    }

    pub fn column(&self) -> (r: u32)
        ensures
            r == self.column_spec(),
    {
        self.column
    }
}

} // verus!
