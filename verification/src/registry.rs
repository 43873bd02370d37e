//! The log registry: an ordered buffer of entries with append
//! operations and a flush that renders every entry, in insertion
//! order, to its severity's stream and enforces the terminal-failure
//! rule.

use std::io::Write;
use vstd::prelude::*;
use vstd::string::StringExecFns;
use crate::entry::{Logger, LoggingType};
use crate::render::{completion_notice, final_error_line, render_line, rendered_line};

verus! {

/// The terminal failure a flush reports when at least one `Error`
/// entry was buffered: the message and id of the last such entry.
/// Callers treat it as a stop-the-world condition, but may catch it.
#[derive(Clone, Debug)]
pub struct TerminalFailure {
    /// The retained error's message.
    pub info: String,
    /// The retained error's id.
    pub id: i32,
}

impl TerminalFailure {
    /// Renders the failure payload line, exactly as
    /// [`final_error_line`] describes it.
    pub fn render(&self) -> (s: String)
        ensures
            s@ == final_error_line(self.info@, self.id as int),
    {
        let mut s = String::from_str("[ERROR]: Final Error: Error: ");
        s.append(self.info.as_str());
        s.append("; Error ID: ");
        let id = crate::render::i32_to_string(self.id);
        s.append(id.as_str());
        proof {
            assert(s@ =~= final_error_line(self.info@, self.id as int));
        }
        s
    }
}

/// The last `Error` entry of `s`, if any: later entries win over
/// earlier ones.
pub open spec fn last_error_of(s: Seq<Logger>) -> Option<Logger>
    decreases s.len(),
{
    if s.len() == 0 {
        None
    } else if s.last().logging_type is Error {
        Some(s.last())
    } else {
        last_error_of(s.drop_last())
    }
}

/// Whether `s` holds at least one `Error` entry.
pub open spec fn has_error(s: Seq<Logger>) -> bool {
    last_error_of(s) is Some
}

/// The lines that the entries of `s` contribute to standard output,
/// in insertion order: one line per `Mark` or `Info` entry.
pub open spec fn stdout_rendering(s: Seq<Logger>) -> Seq<Seq<char>>
    decreases s.len(),
{
    if s.len() == 0 {
        Seq::empty()
    } else {
        stdout_rendering(s.drop_last()) + (if s.last().logging_type.routes_to_stdout() {
            seq![rendered_line(s.last())]
        } else {
            Seq::empty()
        })
    }
}

/// The lines that the entries of `s` contribute to standard error,
/// in insertion order: one line per `Warning` or `Error` entry.
pub open spec fn stderr_rendering(s: Seq<Logger>) -> Seq<Seq<char>>
    decreases s.len(),
{
    if s.len() == 0 {
        Seq::empty()
    } else {
        stderr_rendering(s.drop_last()) + (if s.last().logging_type.routes_to_stdout() {
            Seq::empty()
        } else {
            seq![rendered_line(s.last())]
        })
    }
}

/// Everything a flush writes to standard output: each `Mark` and
/// `Info` entry's line in insertion order, then, when no `Error`
/// entry is buffered, the benign completion notice.
pub open spec fn full_stdout_rendering(s: Seq<Logger>) -> Seq<Seq<char>> {
    if has_error(s) {
        stdout_rendering(s)
    } else {
        stdout_rendering(s) + seq![completion_notice()]
    }
}

/// The ordered buffer of log entries, shared by a program's call
/// sites. Its view is the sequence of entries in insertion order.
/// Appends only grow it; a flush leaves it untouched, so a later
/// flush renders the same entries again.
pub struct Registry {
    entries: Vec<Logger>,
}

impl View for Registry {
    type V = Seq<Logger>;

    closed spec fn view(&self) -> Seq<Logger> {
        self.entries@
    }
}

impl Registry {
    /// Creates an empty registry.
    pub fn new() -> (r: Registry)
        ensures
            r@ == Seq::<Logger>::empty(),
    {
        Registry { entries: Vec::new() }
    }

    /// How many entries are buffered.
    pub fn len(&self) -> (n: usize)
        ensures
            n == self@.len(),
    {
        self.entries.len()
    }

    /// Appends one entry built from the arguments; any text and any
    /// id are accepted, and the buffer grows by exactly that entry.
    pub fn record(&mut self, severity: LoggingType, info: String, id: i32)
        ensures
            final(self)@ == old(self)@.push(
                (Logger { info, id, logging_type: severity }),
            ),
    {
        self.entries.push(Logger::new(info, id, severity));
    }

    /// Appends an `Error` entry: an unrecoverable error, surfaced as
    /// the terminal failure of the next flush.
    pub fn error(&mut self, info: String, id: i32)
        ensures
            final(self)@ == old(self)@.push(
                (Logger { info, id, logging_type: LoggingType::Error }),
            ),
    {
        self.record(LoggingType::Error, info, id);
    }

    /// Appends a `Warning` entry.
    pub fn warning(&mut self, info: String, id: i32)
        ensures
            final(self)@ == old(self)@.push(
                (Logger { info, id, logging_type: LoggingType::Warning }),
            ),
    {
        self.record(LoggingType::Warning, info, id);
    }

    /// Appends an `Info` entry.
    pub fn info(&mut self, info: String, id: i32)
        ensures
            final(self)@ == old(self)@.push(
                (Logger { info, id, logging_type: LoggingType::Info }),
            ),
    {
        self.record(LoggingType::Info, info, id);
    }

    /// Appends a `Mark` entry; markers carry no caller-supplied id,
    /// so the id defaults to 0.
    pub fn mark(&mut self, info: String)
        ensures
            final(self)@ == old(self)@.push(
                (Logger { info, id: 0, logging_type: LoggingType::Mark }),
            ),
    {
        self.record(LoggingType::Mark, info, 0);
    }

    /// The designated terminal failure of the buffer, if any: the
    /// message and id of the last `Error` entry, later errors
    /// overwriting earlier ones. `None` exactly when no `Error`
    /// entry is buffered.
    pub fn last_error(&self) -> (r: Option<TerminalFailure>)
        ensures
            r is Some <==> has_error(self@),
            r matches Some(tf) ==> last_error_of(self@) matches Some(e) && tf.info@ == e.info@
                && tf.id == e.id,
    {
        let mut acc: Option<TerminalFailure> = None;
        let n = self.entries.len();
        let mut i: usize = 0;
        while i < n
            invariant
                i <= n,
                n == self@.len(),
                acc is Some <==> has_error(self@.take(i as int)),
                acc matches Some(tf) ==> last_error_of(self@.take(i as int)) matches Some(e)
                    && tf.info@ == e.info@ && tf.id == e.id,
            decreases n - i,
        {
            let e = &self.entries[i];
            if e.logging_type == LoggingType::Error {
                acc = Some(TerminalFailure { info: e.info.clone(), id: e.id });
            }
            proof {
                assert(self@.take(i + 1).drop_last() =~= self@.take(i as int));
                assert(self@.take(i + 1).last() == self@[i as int]);
            }
            i = i + 1;
        }
        proof {
            assert(self@.take(n as int) =~= self@);
        }
        acc
    }

    /// Renders the buffer without printing: the lines for standard
    /// output (with the benign completion notice appended when no
    /// `Error` entry is buffered) and the lines for standard error,
    /// each stream in insertion order.
    pub fn render(&self) -> (r: (Vec<String>, Vec<String>))
        ensures
            r.0.deep_view() == full_stdout_rendering(self@),
            r.1.deep_view() == stderr_rendering(self@),
    {
        let mut out: Vec<String> = Vec::new();
        let mut errs: Vec<String> = Vec::new();
        let mut saw_error: bool = false;
        let n = self.entries.len();
        let mut i: usize = 0;
        while i < n
            invariant
                i <= n,
                n == self@.len(),
                out.deep_view() == stdout_rendering(self@.take(i as int)),
                errs.deep_view() == stderr_rendering(self@.take(i as int)),
                saw_error == has_error(self@.take(i as int)),
            decreases n - i,
        {
            let e = &self.entries[i];
            let line = render_line(e);
            match e.logging_type {
                LoggingType::Mark | LoggingType::Info => {
                    out.push(line);
                },
                LoggingType::Warning => {
                    errs.push(line);
                },
                LoggingType::Error => {
                    errs.push(line);
                    saw_error = true;
                },
            }
            proof {
                assert(self@.take(i + 1).drop_last() =~= self@.take(i as int));
                assert(self@.take(i + 1).last() == self@[i as int]);
                assert(out.deep_view() =~~= stdout_rendering(self@.take(i + 1)));
                assert(errs.deep_view() =~~= stderr_rendering(self@.take(i + 1)));
            }
            i = i + 1;
        }
        proof {
            assert(self@.take(n as int) =~= self@);
        }
        if !saw_error {
            let notice = String::from_str("Logging Attempt Completed!");
            out.push(notice);
            proof {
                assert(out.deep_view() =~~= full_stdout_rendering(self@));
            }
        }
        (out, errs)
    }

    /// Renders every buffered entry, in insertion order, to the
    /// stream its severity routes to, then either reports the
    /// terminal failure carrying the last `Error` entry's message
    /// and id, or prints the benign completion notice and returns
    /// normally. The scan is never short-circuited: every line is
    /// printed before the failure is reported. The buffer is left
    /// untouched, so a later flush renders the same entries again.
    pub fn flush(&self) -> (r: Result<(), TerminalFailure>)
        ensures
            r is Err <==> has_error(self@),
            r matches Err(tf) ==> last_error_of(self@) matches Some(e) && tf.info@ == e.info@
                && tf.id == e.id,
    {
        let (out, errs) = self.render();
        let mut i: usize = 0;
        while i < out.len()
            invariant
                i <= out.len(),
            decreases out.len() - i,
        {
            emit_stdout(out[i].as_str());
            i = i + 1;
        }
        let mut j: usize = 0;
        while j < errs.len()
            invariant
                j <= errs.len(),
            decreases errs.len() - j,
        {
            emit_stderr(errs[j].as_str());
            j = j + 1;
        }
        match self.last_error() {
            Some(tf) => Err(tf),
            None => Ok(()),
        }
    }
}

/// Appending an entry extends the rendering of exactly one stream,
/// at its end, with that entry's line, and leaves the other stream's
/// rendering unchanged: a flush renders entries in exactly the order
/// they were appended.
pub proof fn lemma_rendering_preserves_order(s: Seq<Logger>, e: Logger)
    ensures
        e.logging_type.routes_to_stdout() ==> stdout_rendering(s.push(e)) == stdout_rendering(s)
            + seq![rendered_line(e)],
        e.logging_type.routes_to_stdout() ==> stderr_rendering(s.push(e)) == stderr_rendering(s),
        !e.logging_type.routes_to_stdout() ==> stderr_rendering(s.push(e)) == stderr_rendering(s)
            + seq![rendered_line(e)],
        !e.logging_type.routes_to_stdout() ==> stdout_rendering(s.push(e)) == stdout_rendering(s),
{
    assert(s.push(e).drop_last() =~= s);
    assert(s.push(e).last() == e);
    assert(stdout_rendering(s) + Seq::<Seq<char>>::empty() =~= stdout_rendering(s));
    assert(stderr_rendering(s) + Seq::<Seq<char>>::empty() =~= stderr_rendering(s));
}

/// A buffer has a designated terminal failure exactly when at least
/// one `Error` entry stands somewhere in it: a flush fails if and
/// only if an `Error` entry was buffered.
pub proof fn lemma_terminal_failure_iff_error(s: Seq<Logger>)
    ensures
        has_error(s) <==> exists|i: int| 0 <= i < s.len() && s[i].logging_type is Error,
    decreases s.len(),
{
    if s.len() == 0 {
    } else if s.last().logging_type is Error {
        assert(s[s.len() - 1].logging_type is Error);
    } else {
        lemma_terminal_failure_iff_error(s.drop_last());
        if has_error(s) {
            let i = choose|i: int|
                0 <= i < s.drop_last().len() && s.drop_last()[i].logging_type is Error;
            assert(s[i].logging_type is Error);
        }
        if exists|i: int| 0 <= i < s.len() && s[i].logging_type is Error {
            let i = choose|i: int| 0 <= i < s.len() && s[i].logging_type is Error;
            assert(i < s.len() - 1);
            assert(s.drop_last()[i].logging_type is Error);
        }
    }
}

/// The last error wins: after appending an `Error` entry, that entry
/// is the designated terminal failure, whatever was buffered before.
pub proof fn lemma_last_error_wins(s: Seq<Logger>, e: Logger)
    requires
        e.logging_type is Error,
    ensures
        last_error_of(s.push(e)) == Some(e),
{
    assert(s.push(e).last() == e);
}

/// An entry below `Error` severity never becomes the terminal
/// failure: appending it leaves the designated failure unchanged.
pub proof fn lemma_benign_append_keeps_failure(s: Seq<Logger>, e: Logger)
    requires
        !(e.logging_type is Error),
    ensures
        last_error_of(s.push(e)) == last_error_of(s),
{
    assert(s.push(e).drop_last() =~= s);
    assert(s.push(e).last() == e);
}

/// Relies on `std::io::Stdout`'s `Write` implementation: prints
/// `line` followed by a newline to standard output.
#[verifier::external_body]
fn emit_stdout(line: &str) {
    let _ = writeln!(std::io::stdout(), "{}", line);
}

/// Relies on `std::io::Stderr`'s `Write` implementation: prints
/// `line` followed by a newline to standard error.
#[verifier::external_body]
fn emit_stderr(line: &str) {
    let _ = writeln!(std::io::stderr(), "{}", line);
}

} // verus!
