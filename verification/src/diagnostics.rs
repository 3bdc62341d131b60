//! Diagnostics parsing: raw compiler stderr is turned into a structured,
//! line-adjusted diagnostic.  Only the first error is surfaced, and extracted
//! line numbers are shifted back by the harness prefix length so that they
//! point into the caller's own snippet (floored at zero, never negative).

use crate::harness::HARNESS_PREFIX_LINES;
use crate::text::{
    contains_seq, contains_str, find_str, first_match, is_prefix, lines_of, parse_usize_dec,
    parse_usize_model, split_char, split_lines, split_on, str_starts_with, trim_ws, trimmed,
};
use vstd::prelude::*;
use vstd::string::*;

verus! {

/// A single structured diagnostic: snippet-relative position, if one could be
/// extracted, and a one-line message.
pub struct ValidationError {
    /// Snippet-relative line of the error, when the output carried one.
    pub line: Option<usize>,
    /// Column of the error, when the output carried one.
    pub column: Option<usize>,
    /// One-line summary of the error.
    pub message: String,
}

/// `a` minus `b`, floored at zero.
pub open spec fn sub_floor(a: usize, b: usize) -> usize {
    if a >= b {
        (a - b) as usize
    } else {
        0
    }
}

/// A line that announces an error, as the compiler prints one.
pub open spec fn is_error_line(l: Seq<char>) -> bool {
    is_prefix("error[E"@, l) || is_prefix("error:"@, l)
}

/// A line with anything but whitespace on it.
pub open spec fn is_nonblank_line(l: Seq<char>) -> bool {
    trimmed(l).len() != 0
}

/// The first line of `ls` that announces an error.
pub open spec fn first_error_line(ls: Seq<Seq<char>>) -> Option<Seq<char>>
    decreases ls.len(),
{
    if ls.len() == 0 {
        None
    } else if is_error_line(ls[0]) {
        Some(ls[0])
    } else {
        first_error_line(ls.subrange(1, ls.len() as int))
    }
}

/// The first line of `ls` with anything but whitespace on it.
pub open spec fn first_nonblank_line(ls: Seq<Seq<char>>) -> Option<Seq<char>>
    decreases ls.len(),
{
    if ls.len() == 0 {
        None
    } else if is_nonblank_line(ls[0]) {
        Some(ls[0])
    } else {
        first_nonblank_line(ls.subrange(1, ls.len() as int))
    }
}

/// The one-line summary of a compiler message: its first error line, else its
/// first non-blank line, else a fixed fallback.
pub open spec fn summary_of(s: Seq<char>) -> Seq<char> {
    match first_error_line(lines_of(s)) {
        Some(l) => l,
        None => match first_nonblank_line(lines_of(s)) {
            Some(l) => l,
            None => "Unknown compilation error"@,
        },
    }
}

/// The message of a positionless diagnostic: the first non-empty line of the
/// compiler message, or a fixed fallback when every line is blank.
pub open spec fn first_line_of(s: Seq<char>) -> Seq<char> {
    match first_nonblank_line(lines_of(s)) {
        Some(l) => l,
        None => "Unknown compilation error"@,
    }
}

/// The source-position marker the compiler prints before `file:line:column`.
pub open spec fn position_marker() -> Seq<char> {
    "-->"@
}

/// The colon-separated fields after the position marker of `l`.
pub open spec fn location_fields(l: Seq<char>) -> Seq<Seq<char>> {
    split_char(l.subrange(first_match(l, position_marker()) + 4, l.len() as int), ':')
}

/// A line that mentions an error: the anchor from which a position is sought.
pub open spec fn mentions_error(l: Seq<char>) -> bool {
    contains_seq(l, "error"@)
}

/// A line that carries a usable source position: the position marker with at
/// least `file:line` after it.
pub open spec fn has_position(l: Seq<char>) -> bool {
    &&& contains_seq(l, position_marker())
    &&& first_match(l, position_marker()) + 4 <= l.len()
    &&& location_fields(l).len() >= 2
}

/// The first line of `ls` with a usable source position.
pub open spec fn first_position_line(ls: Seq<Seq<char>>) -> Option<Seq<char>>
    decreases ls.len(),
{
    if ls.len() == 0 {
        None
    } else if has_position(ls[0]) {
        Some(ls[0])
    } else {
        first_position_line(ls.subrange(1, ls.len() as int))
    }
}

/// The position line of the first reported error: from the first line that
/// mentions an error onward (that line included), the first line with a
/// usable position.  The compiler prints the marker either on the error's
/// own line or on one of the lines below it.
pub open spec fn diag_position_line(ls: Seq<Seq<char>>) -> Option<Seq<char>>
    decreases ls.len(),
{
    if ls.len() == 0 {
        None
    } else if mentions_error(ls[0]) {
        first_position_line(ls)
    } else {
        diag_position_line(ls.subrange(1, ls.len() as int))
    }
}

/// The snippet-relative line a position line reports: the absolute line in
/// its position marker, shifted back by the harness prefix length.
pub open spec fn diag_line_number(l: Seq<char>) -> Option<usize> {
    match parse_usize_model(trimmed(location_fields(l)[1])) {
        Some(n) => Some(sub_floor(n, HARNESS_PREFIX_LINES)),
        None => None,
    }
}

/// The column a position line reports, unshifted.
pub open spec fn diag_column(l: Seq<char>) -> Option<usize> {
    if location_fields(l).len() >= 3 {
        parse_usize_model(trimmed(location_fields(l)[2]))
    } else {
        None
    }
}

fn line_is_error(l: &str) -> (r: bool)
    ensures
        r == is_error_line(l@),
{
    str_starts_with(l, "error[E") || str_starts_with(l, "error:")
}

fn line_is_nonblank(l: &str) -> (r: bool)
    ensures
        r == is_nonblank_line(l@),
{
    let t = trim_ws(l);
    t.as_str().unicode_len() != 0
}

fn line_has_position(l: &str) -> (r: bool)
    ensures
        r == has_position(l@),
{
    let n = l.unicode_len();
    match find_str(l, "-->") {
        None => false,
        Some(pos) => {
            proof {
                assert(contains_seq(l@, position_marker()));
            }
            if n < 4 || pos > n - 4 {
                return false;
            }
            let loc = l.substring_char(pos + 4, n);
            let parts = split_on(loc, ':');
            parts.len() >= 2
        },
    }
}

fn scan_error_line(lines: &Vec<String>, i: usize) -> (r: Option<usize>)
    requires
        i <= lines@.len(),
    ensures
        r matches Some(k) ==> i <= k < lines@.len() && first_error_line(
            lines.deep_view().subrange(i as int, lines.deep_view().len() as int),
        ) == Some(lines.deep_view()[k as int]),
        r is None ==> first_error_line(
            lines.deep_view().subrange(i as int, lines.deep_view().len() as int),
        ) is None,
    decreases lines@.len() - i,
{
    let ghost ls = lines.deep_view();
    let ghost suffix = ls.subrange(i as int, ls.len() as int);
    if i == lines.len() {
        return None;
    }
    proof {
        assert(suffix[0] == ls[i as int]);
        assert(ls[i as int] == lines@[i as int]@);
        assert(suffix.subrange(1, suffix.len() as int) =~= ls.subrange(
            i as int + 1,
            ls.len() as int,
        ));
    }
    if line_is_error(lines[i].as_str()) {
        Some(i)
    } else {
        scan_error_line(lines, i + 1)
    }
}

fn scan_nonblank_line(lines: &Vec<String>, i: usize) -> (r: Option<usize>)
    requires
        i <= lines@.len(),
    ensures
        r matches Some(k) ==> i <= k < lines@.len() && first_nonblank_line(
            lines.deep_view().subrange(i as int, lines.deep_view().len() as int),
        ) == Some(lines.deep_view()[k as int]),
        r is None ==> first_nonblank_line(
            lines.deep_view().subrange(i as int, lines.deep_view().len() as int),
        ) is None,
    decreases lines@.len() - i,
{
    let ghost ls = lines.deep_view();
    let ghost suffix = ls.subrange(i as int, ls.len() as int);
    if i == lines.len() {
        return None;
    }
    proof {
        assert(suffix[0] == ls[i as int]);
        assert(ls[i as int] == lines@[i as int]@);
        assert(suffix.subrange(1, suffix.len() as int) =~= ls.subrange(
            i as int + 1,
            ls.len() as int,
        ));
    }
    if line_is_nonblank(lines[i].as_str()) {
        Some(i)
    } else {
        scan_nonblank_line(lines, i + 1)
    }
}

fn scan_position_line(lines: &Vec<String>, i: usize) -> (r: Option<usize>)
    requires
        i <= lines@.len(),
    ensures
        r matches Some(k) ==> i <= k < lines@.len() && has_position(lines.deep_view()[k as int])
            && first_position_line(
            lines.deep_view().subrange(i as int, lines.deep_view().len() as int),
        ) == Some(lines.deep_view()[k as int]),
        r is None ==> first_position_line(
            lines.deep_view().subrange(i as int, lines.deep_view().len() as int),
        ) is None,
    decreases lines@.len() - i,
{
    let ghost ls = lines.deep_view();
    let ghost suffix = ls.subrange(i as int, ls.len() as int);
    if i == lines.len() {
        return None;
    }
    proof {
        assert(suffix[0] == ls[i as int]);
        assert(ls[i as int] == lines@[i as int]@);
        assert(suffix.subrange(1, suffix.len() as int) =~= ls.subrange(
            i as int + 1,
            ls.len() as int,
        ));
    }
    if line_has_position(lines[i].as_str()) {
        Some(i)
    } else {
        scan_position_line(lines, i + 1)
    }
}

fn scan_error_mention(lines: &Vec<String>, i: usize) -> (r: Option<usize>)
    requires
        i <= lines@.len(),
    ensures
        r matches Some(k) ==> i <= k < lines@.len() && diag_position_line(
            lines.deep_view().subrange(i as int, lines.deep_view().len() as int),
        ) == first_position_line(
            lines.deep_view().subrange(k as int, lines.deep_view().len() as int),
        ),
        r is None ==> diag_position_line(
            lines.deep_view().subrange(i as int, lines.deep_view().len() as int),
        ) is None,
    decreases lines@.len() - i,
{
    let ghost ls = lines.deep_view();
    let ghost suffix = ls.subrange(i as int, ls.len() as int);
    if i == lines.len() {
        return None;
    }
    proof {
        assert(suffix[0] == ls[i as int]);
        assert(ls[i as int] == lines@[i as int]@);
        assert(suffix.subrange(1, suffix.len() as int) =~= ls.subrange(
            i as int + 1,
            ls.len() as int,
        ));
    }
    if contains_str(lines[i].as_str(), "error") {
        Some(i)
    } else {
        scan_error_mention(lines, i + 1)
    }
}

/// Extract a one-line summary from a compiler message: the first line that
/// announces an error, else the first non-blank line, else a fixed fallback.
pub fn extract_error_summary(error_msg: &str) -> (r: String)
    ensures
        r@ == summary_of(error_msg@),
{
    let lines = split_lines(error_msg);
    proof {
        assert(lines.deep_view().subrange(0, lines.deep_view().len() as int) =~= lines.deep_view());
    }
    match scan_error_line(&lines, 0) {
        Some(k) => {
            proof {
                assert(lines.deep_view()[k as int] == lines@[k as int]@);
            }
            lines[k].clone()
        },
        None => match scan_nonblank_line(&lines, 0) {
            Some(k) => {
                proof {
                    assert(lines.deep_view()[k as int] == lines@[k as int]@);
                }
                lines[k].clone()
            },
            None => String::from_str("Unknown compilation error"),
        },
    }
}

/// Extract the first non-empty line of a compiler message, or a fixed
/// fallback when every line is blank: the message of a positionless
/// diagnostic.
pub fn extract_first_line(error_msg: &str) -> (r: String)
    ensures
        r@ == first_line_of(error_msg@),
{
    let lines = split_lines(error_msg);
    proof {
        assert(lines.deep_view().subrange(0, lines.deep_view().len() as int) =~= lines.deep_view());
    }
    match scan_nonblank_line(&lines, 0) {
        Some(k) => {
            proof {
                assert(lines.deep_view()[k as int] == lines@[k as int]@);
            }
            lines[k].clone()
        },
        None => String::from_str("Unknown compilation error"),
    }
}

/// Parse a compiler message into at most one structured diagnostic.  From
/// the first line that mentions an error, the first line carrying a usable
/// `file:line:column` position — the error's own line, or one below it, as
/// the compiler formats positions — yields its line (shifted back by the
/// harness prefix length, floored at zero), its column, and the message
/// summary.  A message without such lines yields none.
pub fn parse_rust_errors(error_msg: &str) -> (r: Vec<ValidationError>)
    ensures
        diag_position_line(lines_of(error_msg@)) is None ==> r@.len() == 0,
        diag_position_line(lines_of(error_msg@)) matches Some(l) ==> {
            &&& r@.len() == 1
            &&& r@[0].line == diag_line_number(l)
            &&& r@[0].column == diag_column(l)
            &&& r@[0].message@ == summary_of(error_msg@)
        },
{
    let lines = split_lines(error_msg);
    proof {
        assert(lines.deep_view().subrange(0, lines.deep_view().len() as int) =~= lines.deep_view());
    }
    let mut r: Vec<ValidationError> = Vec::new();
    let anchor = match scan_error_mention(&lines, 0) {
        Some(a) => a,
        None => {
            return r;
        },
    };
    match scan_position_line(&lines, anchor) {
        None => r,
        Some(k) => {
            proof {
                assert(lines.deep_view()[k as int] == lines@[k as int]@);
            }
            let l = lines[k].as_str();
            proof {
                assert(has_position(l@));
            }
            let n = l.unicode_len();
            let pos = match find_str(l, "-->") {
                Some(p) => p,
                None => {
                    proof {
                        assert(contains_seq(l@, position_marker()));
                        assert(false);
                    }
                    return r;
                },
            };
            proof {
                assert(pos == first_match(l@, position_marker()));
                assert(pos + 4 <= l@.len());
            }
            let loc = l.substring_char(pos + 4, n);
            let parts = split_on(loc, ':');
            proof {
                assert(loc@ == l@.subrange(pos as int + 4, l@.len() as int));
                assert(parts.deep_view() == location_fields(l@));
                assert(location_fields(l@).len() >= 2);
                assert(parts.deep_view()[1] == parts@[1]@);
            }
            let line_field = trim_ws(parts[1].as_str());
            let line = match parse_usize_dec(line_field.as_str()) {
                Some(v) => Some(if v >= HARNESS_PREFIX_LINES {
                    v - HARNESS_PREFIX_LINES
                } else {
                    0
                }),
                None => None,
            };
            let column = if parts.len() >= 3 {
                proof {
                    assert(parts.deep_view()[2] == parts@[2]@);
                }
                let col_field = trim_ws(parts[2].as_str());
                parse_usize_dec(col_field.as_str())
            } else {
                None
            };
            let message = extract_error_summary(error_msg);
            r.push(ValidationError { line, column, message });
            r
        },
    }
}

} // verus!
