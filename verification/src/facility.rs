//! The two construction entry points: a silent constructor and a logging
//! constructor. Both build the same error value from an already formatted
//! message and the caller's source location; the logging one first emits one
//! log record at error severity through the process-wide log sink.

use vstd::prelude::*;

use crate::error::DebugError;
use crate::error::Location;
use crate::error::rendered;

verus! {

/// The text of the log record the logging constructor emits for an error
/// value: `"Error: "` followed by the rendered error.
pub open spec fn log_line(message: Seq<char>, file: Seq<char>, line: u32, column: u32) -> Seq<
    char,
> {
    "Error: "@ + rendered(message, file, line, column)
}

#[verifier::external_type_specification]
#[verifier::external_body]
pub struct ExArguments<'a>(core::fmt::Arguments<'a>);

/// A carrier that hands a piece of formatted text to the process-wide log
/// sink as one record at error severity.
struct RecordSink {}

impl RecordSink {
    /// Relies on `log::logger` and `log::Log::log`: builds one record at
    /// error severity whose message is exactly the formatted text, and hands
    /// it to the installed sink; `log::logger` returns a sink that discards
    /// records when none is installed. The call returns normally whatever
    /// the state of the sink.
    #[verifier::external_body]
    fn write_fmt(&mut self, args: core::fmt::Arguments<'_>) {
        log::logger().log(
            &log::Record::builder().level(log::Level::Error).args(args).build(),
        );
    }
}

/// Relies on std's `write!`, whose expansion hands `text`, untouched, to
/// `RecordSink::write_fmt` above, and so to the log facade.
#[verifier::external_body]
fn emit_error_record(text: &str) {
    let mut sink = RecordSink {};
    write!(sink, "{}", text);
}

/// Builds the text of the log record for `e`.
pub fn error_log_text(e: &DebugError) -> (r: String)
    ensures
        r@ == log_line(e.message@, e.location.file@, e.location.line, e.location.column),
{
    let mut s = String::from_str("Error: ");
    let rendered_text = e.render();
    s.append(rendered_text.as_str());
    s
}

/// The silent constructor: builds an error value from the message and the
/// caller's location, stores both verbatim, emits nothing, never fails.
pub fn debug_error(message: String, location: Location) -> (e: DebugError)
    ensures
        e.message == message,
        e.location == location,
{
    DebugError::new(message, location)
}

/// The logging constructor: builds the very error value the silent
/// constructor would build, and before returning it emits one log record at
/// error severity whose text is
/// `"Error: <message> at <file>:<line>:<column>"`.
pub fn debug_error_with_log(message: String, location: Location) -> (e: DebugError)
    ensures
        e.message == message,
        e.location == location,
{
    let e = DebugError::new(message, location);
    let text = error_log_text(&e);
    emit_error_record(text.as_str());
    e
}

/// Law: the logging constructor returns a value identical in message and
/// location to what the silent constructor returns for the same message and
/// location, so the two render to the same text.
pub proof fn lemma_logging_matches_silent(
    a: DebugError,
    b: DebugError,
    message: String,
    location: Location,
)
    requires
        a.message == message,
        a.location == location,
        b.message == message,
        b.location == location,
    ensures
        a.message == b.message,
        a.location == b.location,
        rendered(a.message@, a.location.file@, a.location.line, a.location.column) == rendered(
            b.message@,
            b.location.file@,
            b.location.line,
            b.location.column,
        ),
{
}

} // verus!
