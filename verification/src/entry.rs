//! The entry model: the closed severity taxonomy and the immutable
//! value recorded by one logging attempt.

use vstd::prelude::*;

verus! {

/// The four severities a log entry can carry, in order of urgency:
/// `Error` is terminal and unrecoverable, `Warning` hazardous but
/// non-fatal, `Info` the routine default, `Mark` a checkpoint marker.
///
/// Each severity has a fixed signed integer code, reported by
/// [`LoggingType::code`]; the code has no behaviour beyond identity.
/// `Error` is -1 and `Info` is 1; that `Warning` is 0 and `Mark` is 2
/// is this library's deliberate assignment.
#[derive(Clone, Copy, PartialEq, Eq, Structural, Debug)]
pub enum LoggingType {
    /// An unrecoverable error; its code is -1.
    Error,
    /// A potentially hazardous event; its code is 0.
    Warning,
    /// Routine logging of an event; the default; its code is 1.
    Info,
    /// A checkpoint or event marker; its code is 2.
    Mark,
}

impl LoggingType {
    /// The integer code attached to this severity.
    pub fn code(&self) -> (c: i32)
        ensures
            c == match *self {
                LoggingType::Error => -1,
                LoggingType::Warning => 0,
                LoggingType::Info => 1,
                LoggingType::Mark => 2,
            },
    {
        match *self {
            LoggingType::Error => -1,
            LoggingType::Warning => 0,
            LoggingType::Info => 1,
            LoggingType::Mark => 2,
        }
    }

    /// Whether an entry of this severity is routed to standard output;
    /// otherwise it goes to standard error.
    pub open spec fn routes_to_stdout(self) -> bool {
        self is Mark || self is Info
    }
}

impl Default for LoggingType {
    /// The default severity is `Info`.
    fn default() -> (r: Self)
        ensures
            r is Info,
    {
        LoggingType::Info
    }
}

/// One recorded logging attempt: a message, a caller-supplied
/// correlation id (0 where none is meaningful), and a severity.
/// Immutable once created; any text and any id are accepted.
#[derive(Clone, Debug)]
pub struct Logger {
    /// The message of this entry.
    pub info: String,
    /// The correlation id of this entry.
    pub id: i32,
    /// The severity of this entry.
    pub logging_type: LoggingType,
}

impl Logger {
    /// Builds an entry from its parts, without validation.
    pub fn new(info: String, id: i32, logging_type: LoggingType) -> (r: Self)
        ensures
            r.info == info,
            r.id == id,
            r.logging_type == logging_type,
    {
        Self { info, id, logging_type }
    }
}

impl PartialEq for Logger {
    fn eq(&self, other: &Logger) -> (r: bool) {
        self.info == other.info && self.id == other.id && self.logging_type == other.logging_type
    }
}

impl vstd::std_specs::cmp::PartialEqSpecImpl for Logger {
    open spec fn obeys_eq_spec() -> bool {
        true
    }

    open spec fn eq_spec(&self, other: &Logger) -> bool {
        self.info@ == other.info@ && self.id == other.id && self.logging_type
            == other.logging_type
    }
}

impl Default for Logger {
    /// The default entry: an empty message, id 0, severity `Info`.
    fn default() -> (r: Self)
        ensures
            r.info@ == Seq::<char>::empty(),
            r.id == 0,
            r.logging_type is Info,
    {
        Logger { info: String::new(), id: 0, logging_type: LoggingType::Info }
    }
}

} // verus!
