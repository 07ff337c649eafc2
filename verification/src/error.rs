//! The error value: a message plus the source location at which it was
//! created, and its rendering as text.

use vstd::prelude::*;

use crate::digits::dec_digits;
use crate::digits::u32_to_dec;

verus! {

/// A source location: file path, line, and column.
#[derive(Debug, Clone)]
pub struct Location {
    pub file: String,
    pub line: u32,
    pub column: u32,
}

impl Location {
    /// Bundles the three fields of a source location, verbatim.
    pub fn new(file: String, line: u32, column: u32) -> (loc: Location)
        ensures
            loc.file == file,
            loc.line == line,
            loc.column == column,
    {
        Location { file, line, column }
    }
}

/// The text an error value renders to: the message, `" at "`, and the
/// location's file, line and column, the last three joined by `':'`.
pub open spec fn rendered(message: Seq<char>, file: Seq<char>, line: u32, column: u32) -> Seq<
    char,
> {
    message + " at "@ + file + ":"@ + dec_digits(line as nat) + ":"@ + dec_digits(column as nat)
}

/// An error value: one failure occurrence, described by a message and the
/// source location where the value was created. Both fields are set at
/// construction and never changed afterwards.
#[derive(Debug, Clone)]
pub struct DebugError {
    pub message: String,
    pub location: Location,
}

impl DebugError {
    /// Stores the message and the location verbatim; never fails.
    pub fn new(message: String, location: Location) -> (e: DebugError)
        ensures
            e.message == message,
            e.location == location,
    {
        DebugError { message, location }
    }

    /// Renders the error as `"<message> at <file>:<line>:<column>"`, a pure
    /// function of the two fields.
    pub fn render(&self) -> (r: String)
        ensures
            r@ == rendered(self.message@, self.location.file@, self.location.line, self.location.column),
    {
        let mut s = self.message.clone();
        s.append(" at ");
        s.append(self.location.file.as_str());
        s.append(":");
        let line_text = u32_to_dec(self.location.line);
        s.append(line_text.as_str());
        s.append(":");
        let column_text = u32_to_dec(self.location.column);
        s.append(column_text.as_str());
        proof {
            assert(s@ =~= rendered(
                self.message@,
                self.location.file@,
                self.location.line,
                self.location.column,
            ));
        }
        s
    }
}

/// Law: rendering an error value built from `message` and `location` yields
/// exactly the message, `" at "`, and the location's file, line and column
/// joined by `':'` — nothing is dropped, reordered or altered.
pub proof fn lemma_render_after_construct(e: DebugError, message: String, location: Location)
    requires
        e.message == message,
        e.location == location,
    ensures
        rendered(e.message@, e.location.file@, e.location.line, e.location.column) == message@
            + " at "@ + location.file@ + ":"@ + dec_digits(location.line as nat) + ":"@
            + dec_digits(location.column as nat),
{
}

/// Law: rendering is deterministic — any two renderings of one error value
/// are the same text.
pub proof fn lemma_render_deterministic(e: DebugError, r1: String, r2: String)
    requires
        r1@ == rendered(e.message@, e.location.file@, e.location.line, e.location.column),
        r2@ == rendered(e.message@, e.location.file@, e.location.line, e.location.column),
    ensures
        r1@ == r2@,
{
}

/// Law: the location field reflects the call site alone — two error values
/// built from the same message at different locations carry exactly those
/// two different locations.
pub proof fn lemma_location_reflects_call_site(
    a: DebugError,
    b: DebugError,
    message: String,
    la: Location,
    lb: Location,
)
    requires
        a.message == message,
        a.location == la,
        b.message == message,
        b.location == lb,
        la.file@ != lb.file@ || la.line != lb.line || la.column != lb.column,
    ensures
        a.location.file@ != b.location.file@ || a.location.line != b.location.line
            || a.location.column != b.location.column,
{
}

} // verus!
