//! Rendering of entries into the exact output lines: decimal formatting
//! of ids and the severity-tagged label format of each line.

use vstd::prelude::*;
use vstd::string::StringExecFns;
use crate::entry::{Logger, LoggingType};

verus! {

/// The decimal digit character for `d`, which must be below ten.
pub open spec fn digit_char(d: nat) -> char
    recommends
        d < 10,
{
    if d == 0 {
        '0'
    } else if d == 1 {
        '1'
    } else if d == 2 {
        '2'
    } else if d == 3 {
        '3'
    } else if d == 4 {
        '4'
    } else if d == 5 {
        '5'
    } else if d == 6 {
        '6'
    } else if d == 7 {
        '7'
    } else if d == 8 {
        '8'
    } else {
        '9'
    }
}

/// The decimal digits of `n`, most significant first, with no sign
/// and no leading zero except for `n == 0` itself.
pub open spec fn dec_digits(n: nat) -> Seq<char>
    decreases n,
{
    if n < 10 {
        seq![digit_char(n)]
    } else {
        dec_digits(n / 10) + seq![digit_char(n % 10)]
    }
}

/// The decimal rendering of `i`: a leading minus sign for a negative
/// value, then the digits of its magnitude.
pub open spec fn dec_str(i: int) -> Seq<char> {
    if i < 0 {
        seq!['-'] + dec_digits((-i) as nat)
    } else {
        dec_digits(i as nat)
    }
}

/// The line rendered for a `Mark` entry with message `msg`.
pub open spec fn mark_line(msg: Seq<char>) -> Seq<char> {
    "[MARK]: Mark: "@ + msg
}

/// The line rendered for an `Info` entry with message `msg` and id `id`.
pub open spec fn info_line(msg: Seq<char>, id: int) -> Seq<char> {
    "[INFO]: Info: "@ + msg + "; Info ID: "@ + dec_str(id)
}

/// The line rendered for a `Warning` entry with message `msg` and id `id`.
pub open spec fn warning_line(msg: Seq<char>, id: int) -> Seq<char> {
    "[WARNING]: Warning: "@ + msg + "; Warning ID: "@ + dec_str(id)
}

/// The line rendered for an `Error` entry with message `msg` and id `id`.
pub open spec fn error_line(msg: Seq<char>, id: int) -> Seq<char> {
    "[ERROR]: Error: "@ + msg + "; Error ID: "@ + dec_str(id)
}

/// The terminal-failure line carrying the retained error's message and id.
pub open spec fn final_error_line(msg: Seq<char>, id: int) -> Seq<char> {
    "[ERROR]: Final Error: Error: "@ + msg + "; Error ID: "@ + dec_str(id)
}

/// The benign notice printed when a flush saw no `Error` entry.
pub open spec fn completion_notice() -> Seq<char> {
    "Logging Attempt Completed!"@
}

/// The line rendered for entry `e`, by its severity.
pub open spec fn rendered_line(e: Logger) -> Seq<char> {
    match e.logging_type {
        LoggingType::Mark => mark_line(e.info@),
        LoggingType::Info => info_line(e.info@, e.id as int),
        LoggingType::Warning => warning_line(e.info@, e.id as int),
        LoggingType::Error => error_line(e.info@, e.id as int),
    }
}

/// The one-character string for decimal digit `d`.
fn digit_str(d: u32) -> (r: &'static str)
    requires
        d < 10,
    ensures
        r@ == seq![digit_char(d as nat)],
{
    proof {
        reveal_strlit("0");
        reveal_strlit("1");
        reveal_strlit("2");
        reveal_strlit("3");
        reveal_strlit("4");
        reveal_strlit("5");
        reveal_strlit("6");
        reveal_strlit("7");
        reveal_strlit("8");
        reveal_strlit("9");
    }
    let r = match d {
        0 => "0",
        1 => "1",
        2 => "2",
        3 => "3",
        4 => "4",
        5 => "5",
        6 => "6",
        7 => "7",
        8 => "8",
        _ => "9",
    };
    proof {
        assert(r@ =~= seq![digit_char(d as nat)]);
    }
    r
}

/// Appends the decimal digits of `n` to `s`.
fn append_dec_digits(n: u32, s: &mut String)
    ensures
        final(s)@ == old(s)@ + dec_digits(n as nat),
    decreases n,
{
    if n >= 10 {
        append_dec_digits(n / 10, s);
    }
    s.append(digit_str(n % 10));
    proof {
        assert(final(s)@ =~= old(s)@ + dec_digits(n as nat));
    }
}

/// Renders `i` in decimal, as [`dec_str`] describes.
pub fn i32_to_string(i: i32) -> (s: String)
    ensures
        s@ == dec_str(i as int),
{
    let mut s = String::new();
    if i < 0 {
        s.append("-");
        let mag: u32 = (-(i as i64)) as u32;
        append_dec_digits(mag, &mut s);
        proof {
            reveal_strlit("-");
            assert("-"@ =~= seq!['-']);
            assert(s@ =~= dec_str(i as int));
        }
    } else {
        append_dec_digits(i as u32, &mut s);
    }
    s
}

/// Renders the output line for entry `e`, exactly as [`rendered_line`]
/// describes it.
pub fn render_line(e: &Logger) -> (s: String)
    ensures
        s@ == rendered_line(*e),
{
    match e.logging_type {
        LoggingType::Mark => {
            let mut s = String::from_str("[MARK]: Mark: ");
            s.append(e.info.as_str());
            s
        },
        LoggingType::Info => {
            let mut s = String::from_str("[INFO]: Info: ");
            s.append(e.info.as_str());
            s.append("; Info ID: ");
            let id = i32_to_string(e.id);
            s.append(id.as_str());
            proof {
                assert(s@ =~= rendered_line(*e));
            }
            s
        },
        LoggingType::Warning => {
            let mut s = String::from_str("[WARNING]: Warning: ");
            s.append(e.info.as_str());
            s.append("; Warning ID: ");
            let id = i32_to_string(e.id);
            s.append(id.as_str());
            proof {
                assert(s@ =~= rendered_line(*e));
            }
            s
        },
        LoggingType::Error => {
            let mut s = String::from_str("[ERROR]: Error: ");
            s.append(e.info.as_str());
            s.append("; Error ID: ");
            let id = i32_to_string(e.id);
            s.append(id.as_str());
            proof {
                assert(s@ =~= rendered_line(*e));
            }
            s
        },
    }
}

} // verus!
