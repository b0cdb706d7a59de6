//! Call-site locations: where in the source a breadcrumb was recorded.

use vstd::prelude::*;
use vstd::string::StringExecFns;

use crate::text::{decimal, push_decimal};

verus! {

/// A place in the source: a file, a line and a column.
#[derive(Clone, Copy, Debug, PartialEq, Eq)]
pub struct Location {
    file: &'static str,
    line: u32,
    column: u32,
}

/// What a [`Location`] stands for in contracts.
pub ghost struct LocationView {
    /// The file's name.
    pub file: Seq<char>,
    /// The line.
    pub line: nat,
    /// The column.
    pub column: nat,
}

impl View for Location {
    type V = LocationView;

    closed spec fn view(&self) -> LocationView {
        LocationView { file: self.file@, line: self.line as nat, column: self.column as nat }
    }
}

/// The text of a location: the file, the line and the column, with a colon
/// between them.
pub open spec fn location_text(location: LocationView) -> Seq<char> {
    location.file + seq![':'] + decimal(location.line) + seq![':'] + decimal(location.column)
}

impl Location {
    /// The location at `line` and `column` of `file`.
    pub fn new(file: &'static str, line: u32, column: u32) -> (location: Location)
        ensures
            location@ == (LocationView {
                file: file@,
                line: line as nat,
                column: column as nat,
            }),
    {
        Location { file, line, column }
    }

    /// The file's name.
    pub fn file(&self) -> (file: &'static str)
        ensures
            file@ == self@.file,
    {
        self.file
    }

    /// The line, counted from one.
    pub fn line(&self) -> (line: u32)
        ensures
            line == self@.line,
    {
        self.line
    }

    /// The column, counted from one.
    pub fn column(&self) -> (column: u32)
        ensures
            column == self@.column,
    {
        self.column
    }

    /// Appends the location's text to `out`.
    pub fn write_to(&self, out: &mut String)
        ensures
            final(out)@ == old(out)@ + location_text(self@),
    {
        out.append(self.file);
        out.append(":");
        push_decimal(out, self.line);
        out.append(":");
        push_decimal(out, self.column);
        proof {
            reveal_strlit(":");
        }
    }

    /// The location's text.
    pub fn render(&self) -> (text: String)
        ensures
            text@ == location_text(self@),
    {
        let mut text = String::new();
        self.write_to(&mut text);
        text
    }
}

} // verus!
