//! Call-site expression recovery: the source-text extractor.
//!
//! Given the source text of a file and the coordinates (1-based line and
//! column) of a matcher method call — the position immediately after the
//! receiver and its trailing `.` — the extractor scans backward from
//! that position to the start of the receiver expression, respecting
//! nested delimiter pairs (parentheses, brackets, braces, angle
//! brackets), and returns the exact substring, original whitespace and
//! punctuation preserved. A plain literal yields `14`, a variable its
//! identifier, a qualified absent-value literal `None::<i32>` its full
//! written text, and a macro-invocation receiver `vec![1, 2, 3]` the
//! full invocation text unevaluated.
//!
//! Malformed coordinates or text never produce a fabricated subject:
//! every failure path yields `None` (or the sentinel `UNKNOWN` in
//! [`subject_or_unknown`]).

use vstd::prelude::*;
use vstd::string::StrSliceExecFns;

verus! {

/// A delimiter that closes a nesting when met scanning backward.
pub open spec fn is_closing(c: char) -> bool {
    c == ')' || c == ']' || c == '}' || c == '>'
}

/// A delimiter that opens a nesting when met scanning backward.
pub open spec fn is_opening(c: char) -> bool {
    c == '(' || c == '[' || c == '{' || c == '<'
}

/// A character that continues a receiver expression at nesting depth
/// zero: an identifier character, a path or field separator, a macro
/// bang, `?`, a quote of a character literal, or any character outside
/// ASCII.
pub open spec fn is_subject_char(c: char) -> bool {
    let u = c as u32;
    (48 <= u && u <= 57)  // a digit
    || (65 <= u && u <= 90)  // an upper-case letter
    || (97 <= u && u <= 122)  // a lower-case letter
    || c == '_' || c == '.' || c == ':' || c == '!' || c == '?' || c == '\''
    || u >= 128
}

/// Where the receiver expression that ends just after index `i` begins:
/// scanning backward, a closing delimiter deepens the nesting, an
/// opening one shallows it (or, at depth zero, ends the scan), and any
/// character that is no subject character ends the scan at depth zero.
/// `None` when the delimiters do not balance back to the start of the
/// text.
pub open spec fn scan_back(t: Seq<char>, i: int, depth: nat) -> Option<int>
    decreases i + 1,
{
    if i < 0 {
        if depth == 0 {
            Some(0)
        } else {
            None
        }
    } else if is_closing(t[i]) {
        scan_back(t, i - 1, depth + 1)
    } else if is_opening(t[i]) {
        if depth == 0 {
            Some(i + 1)
        } else {
            scan_back(t, i - 1, (depth - 1) as nat)
        }
    } else if depth > 0 {
        scan_back(t, i - 1, depth)
    } else if is_subject_char(t[i]) {
        scan_back(t, i - 1, depth)
    } else {
        Some(i + 1)
    }
}

/// The receiver substring for a call whose method name starts at
/// character index `pos`: the text between the backward scan's stop and
/// the `.` at `pos - 1`. `None` when `pos` does not sit right after a
/// `.`, when the scan does not balance, or when the receiver would be
/// empty.
pub open spec fn extract_at(t: Seq<char>, pos: int) -> Option<Seq<char>> {
    if 1 <= pos && pos <= t.len() && t[pos - 1] == '.' {
        match scan_back(t, pos - 2, 0) {
            Some(start) => if start < pos - 1 {
                Some(t.subrange(start, pos - 1))
            } else {
                None
            },
            None => None,
        }
    } else {
        None
    }
}

/// The character index of the start of 1-based line `l`, counting from
/// index `i` as the current line start.
pub open spec fn line_start_from(t: Seq<char>, i: int, l: int) -> Option<int>
    decreases t.len() - i,
{
    if l <= 1 {
        Some(i)
    } else if i >= t.len() {
        None
    } else if t[i] == '\n' {
        line_start_from(t, i + 1, l - 1)
    } else {
        line_start_from(t, i + 1, l)
    }
}

/// The character index of 1-based (line, column) coordinates; `None`
/// when the text has no such position.
pub open spec fn position_of(t: Seq<char>, line: int, col: int) -> Option<int> {
    if line >= 1 && col >= 1 {
        match line_start_from(t, 0, line) {
            Some(s) => if s + col - 1 <= t.len() {
                Some(s + col - 1)
            } else {
                None
            },
            None => None,
        }
    } else {
        None
    }
}

/// The receiver substring for a matcher call at 1-based (line, column)
/// coordinates, the composition of [`position_of`] and [`extract_at`].
pub open spec fn subject_at(t: Seq<char>, line: int, col: int) -> Option<Seq<char>> {
    match position_of(t, line, col) {
        Some(p) => extract_at(t, p),
        None => None,
    }
}

fn char_is_closing(c: char) -> (b: bool)
    ensures
        b == is_closing(c),
{
    c == ')' || c == ']' || c == '}' || c == '>'
}

fn char_is_opening(c: char) -> (b: bool)
    ensures
        b == is_opening(c),
{
    c == '(' || c == '[' || c == '{' || c == '<'
}

fn char_is_subject(c: char) -> (b: bool)
    ensures
        b == is_subject_char(c),
{
    let u = c as u32;
    (48 <= u && u <= 57) || (65 <= u && u <= 90) || (97 <= u && u <= 122) || c == '_' || c == '.'
        || c == ':' || c == '!' || c == '?' || c == '\'' || u >= 128
}

/// The backward scan: `j` is the count of characters still in front of
/// the scan (the next character examined is `j - 1`), `depth` the
/// current nesting.
fn scan_start(text: &str, len: usize, j: usize, depth: usize) -> (r: Option<usize>)
    requires
        len == text@.len(),
        j + depth <= len,
    ensures
        r is Some <==> scan_back(text@, j as int - 1, depth as nat) is Some,
        r matches Some(st) ==> scan_back(text@, j as int - 1, depth as nat) == Some(st as int)
            && st <= j,
    decreases j,
{
    if j == 0 {
        if depth == 0 {
            Some(0)
        } else {
            None
        }
    } else {
        let c = text.get_char(j - 1);
        if char_is_closing(c) {
            scan_start(text, len, j - 1, depth + 1)
        } else if char_is_opening(c) {
            if depth == 0 {
                Some(j)
            } else {
                scan_start(text, len, j - 1, depth - 1)
            }
        } else if depth > 0 {
            scan_start(text, len, j - 1, depth)
        } else if char_is_subject(c) {
            scan_start(text, len, j - 1, depth)
        } else {
            Some(j)
        }
    }
}

/// The receiver substring for a call whose method name starts at
/// character index `pos`, exactly as [`extract_at`] states it.
pub fn extract_subject_at(text: &str, pos: usize) -> (r: Option<String>)
    ensures
        r is Some <==> extract_at(text@, pos as int) is Some,
        r matches Some(s) ==> extract_at(text@, pos as int) == Some(s@),
{
    let len = text.unicode_len();
    if pos < 1 || pos > len {
        return None;
    }
    if text.get_char(pos - 1) != '.' {
        return None;
    }
    match scan_start(text, len, pos - 1, 0) {
        Some(start) => {
            if start < pos - 1 {
                Some(text.substring_char(start, pos - 1).to_owned())
            } else {
                None
            }
        },
        None => None,
    }
}

/// The character index of 1-based (line, column) coordinates, exactly as
/// [`position_of`] states it.
pub fn position_of_line_col(text: &str, line: usize, col: usize) -> (r: Option<usize>)
    ensures
        r is Some <==> position_of(text@, line as int, col as int) is Some,
        r matches Some(p) ==> position_of(text@, line as int, col as int) == Some(p as int),
{
    if line < 1 || col < 1 {
        return None;
    }
    let len = text.unicode_len();
    let mut i: usize = 0;
    let mut l: usize = line;
    while l > 1 && i < len
        invariant
            len == text@.len(),
            i <= len,
            1 <= l && l <= line,
            line_start_from(text@, 0, line as int) == line_start_from(text@, i as int, l as int),
        decreases len - i,
    {
        if text.get_char(i) == '\n' {
            l = l - 1;
        }
        i = i + 1;
    }
    if l > 1 {
        return None;
    }
    if col - 1 > len - i {
        return None;
    }
    Some(i + (col - 1))
}

/// The receiver substring for a matcher call at 1-based (line, column)
/// coordinates, exactly as [`subject_at`] states it.
pub fn extract_subject(text: &str, line: usize, col: usize) -> (r: Option<String>)
    ensures
        r is Some <==> subject_at(text@, line as int, col as int) is Some,
        r matches Some(s) ==> subject_at(text@, line as int, col as int) == Some(s@),
{
    match position_of_line_col(text, line, col) {
        Some(p) => extract_subject_at(text, p),
        None => None,
    }
}

/// The subject name for a matcher call at 1-based (line, column)
/// coordinates: the recovered receiver text, or the sentinel `UNKNOWN`
/// when none can be recovered — never a fabricated subject.
pub fn subject_or_unknown(text: &str, line: usize, col: usize) -> (r: String)
    ensures
        r@ == match subject_at(text@, line as int, col as int) {
            Some(s) => s,
            None => "UNKNOWN"@,
        },
{
    match extract_subject(text, line, col) {
        Some(s) => s,
        None => "UNKNOWN".to_owned(),
    }
}

} // verus!
