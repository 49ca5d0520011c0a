//! The call-site locator's computation: resolving a captured backtrace
//! text to the coordinates of the caller's call expression.
//!
//! A backtrace text renders each stack frame as a symbol line followed
//! by a location line of the shape `at path:line:column`, innermost
//! frame first. [`locate_caller`] walks those lines and returns the
//! coordinates of the frame just below the last frame belonging to the
//! checking library — the user's own call, whatever the depth of
//! forwarding inside the library — and [`parse_location`] states exactly
//! how a `path:line:column` text splits: the two trailing maximal digit
//! runs, each preceded by a colon, give the 1-based line and column, and
//! what precedes them is the file path. Only the capture of the
//! backtrace itself is left to the surroundings.

use vstd::prelude::*;
use vstd::arithmetic::div_mod::lemma_fundamental_div_mod;
use vstd::string::StrSliceExecFns;

verus! {

/// A decimal digit.
pub open spec fn is_digit(c: char) -> bool {
    48 <= c as u32 && c as u32 <= 57
}

/// The value of a decimal digit.
pub open spec fn digit_val(c: char) -> nat {
    (c as u32 - 48) as nat
}

/// The value of a run of decimal digits, most significant first.
pub open spec fn digits_val(s: Seq<char>) -> nat
    decreases s.len(),
{
    if s.len() == 0 {
        0
    } else {
        digits_val(s.drop_last()) * 10 + digit_val(s.last())
    }
}

/// The start of the maximal run of digits ending just before index
/// `end`.
pub open spec fn digit_run_start(t: Seq<char>, end: int) -> int
    decreases end,
{
    if end <= 0 {
        0
    } else if is_digit(t[end - 1]) {
        digit_run_start(t, end - 1)
    } else {
        end
    }
}

/// The (path, line, column) a location text of the shape
/// `path:line:column` holds: the two trailing maximal digit runs, each
/// nonempty and preceded by a colon, and the nonempty path before them.
/// `None` for text of any other shape.
pub open spec fn coordinates_of(t: Seq<char>) -> Option<(Seq<char>, nat, nat)> {
    let n = t.len() as int;
    let cs = digit_run_start(t, n);
    if cs == n || cs == 0 || t[cs - 1] != ':' {
        None
    } else {
        let ls = digit_run_start(t, cs - 1);
        if ls == cs - 1 || ls <= 1 || t[ls - 1] != ':' {
            None
        } else {
            Some(
                (
                    t.subrange(0, ls - 1),
                    digits_val(t.subrange(ls, cs - 1)),
                    digits_val(t.subrange(cs, n)),
                ),
            )
        }
    }
}

/// Every character of a maximal digit run is a digit.
proof fn lemma_run_digits(t: Seq<char>, end: int)
    requires
        end <= t.len(),
    ensures
        forall|k: int| digit_run_start(t, end) <= k < end ==> #[trigger] is_digit(t[k]),
    decreases end,
{
    if end > 0 && is_digit(t[end - 1]) {
        lemma_run_digits(t, end - 1);
    }
}

/// Lengthening a digit run never lowers its value.
proof fn lemma_digits_val_monotone(s: Seq<char>, k: int)
    requires
        0 <= k <= s.len(),
    ensures
        digits_val(s) >= digits_val(s.take(k)),
    decreases s.len(),
{
    if k < s.len() {
        lemma_digits_val_monotone(s.drop_last(), k);
        assert(s.drop_last().take(k) =~= s.take(k));
    } else {
        assert(s.take(k) =~= s);
    }
}

fn run_start(text: &str, len: usize, end: usize) -> (r: usize)
    requires
        len == text@.len(),
        end <= len,
    ensures
        r as int == digit_run_start(text@, end as int),
        r <= end,
    decreases end,
{
    if end == 0 {
        0
    } else {
        let u = text.get_char(end - 1) as u32;
        if 48 <= u && u <= 57 {
            run_start(text, len, end - 1)
        } else {
            end
        }
    }
}

/// The value of the digit run at `[start, end)`, or `None` when it does
/// not fit the machine word.
fn digits_to_usize(text: &str, len: usize, start: usize, end: usize) -> (r: Option<usize>)
    requires
        len == text@.len(),
        start <= end <= len,
        forall|k: int| start <= k < end ==> #[trigger] is_digit(text@[k]),
    ensures
        r matches Some(v) ==> v as nat == digits_val(text@.subrange(start as int, end as int)),
        r is None ==> digits_val(text@.subrange(start as int, end as int)) > usize::MAX,
{
    let mut acc: usize = 0;
    let mut i: usize = start;
    while i < end
        invariant
            len == text@.len(),
            start <= i <= end <= len,
            forall|k: int| start <= k < end ==> #[trigger] is_digit(text@[k]),
            acc as nat == digits_val(text@.subrange(start as int, i as int)),
        decreases end - i,
    {
        let u = text.get_char(i) as u32;
        assert(is_digit(text@[i as int]));
        let d: usize = (u - 48) as usize;
        proof {
            lemma_fundamental_div_mod((usize::MAX - d) as int, 10);
            assert(text@.subrange(start as int, i as int + 1).drop_last() =~= text@.subrange(
                start as int,
                i as int,
            ));
            assert(text@.subrange(start as int, i as int + 1).last() == text@[i as int]);
        }
        if acc > (usize::MAX - d) / 10 {
            proof {
                assert(acc * 10 + d > usize::MAX) by {
                    lemma_fundamental_div_mod((usize::MAX - d) as int, 10);
                    assert(acc >= (usize::MAX - d) / 10 + 1);
                    assert(acc * 10 >= ((usize::MAX - d) / 10 + 1) * 10) by (nonlinear_arith)
                        requires
                            acc >= (usize::MAX - d) / 10 + 1,
                    ;
                }
                lemma_digits_val_monotone(
                    text@.subrange(start as int, end as int),
                    i + 1 - start,
                );
                assert(text@.subrange(start as int, end as int).take(i + 1 - start)
                    =~= text@.subrange(start as int, i as int + 1));
            }
            return None;
        }
        proof {
            assert(acc * 10 + d <= usize::MAX) by {
                lemma_fundamental_div_mod((usize::MAX - d) as int, 10);
                assert(acc * 10 <= ((usize::MAX - d) / 10) * 10) by (nonlinear_arith)
                    requires
                        acc <= (usize::MAX - d) / 10,
                ;
            }
        }
        acc = acc * 10 + d;
        i = i + 1;
    }
    proof {
        assert(text@.subrange(start as int, i as int) =~= text@.subrange(
            start as int,
            end as int,
        ));
    }
    Some(acc)
}

/// The first newline at or after index `i`, or the end of the text: the
/// end of the line through `i`.
pub open spec fn line_end(t: Seq<char>, i: int) -> int
    decreases t.len() - i,
{
    if i >= t.len() {
        t.len() as int
    } else if t[i] == '\n' {
        i
    } else {
        line_end(t, i + 1)
    }
}

/// A line's end never precedes its start nor passes the text's end.
proof fn lemma_line_end_bounds(t: Seq<char>, i: int)
    requires
        i <= t.len(),
    ensures
        i <= line_end(t, i) <= t.len(),
    decreases t.len() - i,
{
    if i < t.len() && t[i] != '\n' {
        lemma_line_end_bounds(t, i + 1);
    }
}

/// A blank character inside a frame line.
pub open spec fn is_blank(c: char) -> bool {
    c == ' ' || c == '\t'
}

/// The first non-blank index in `[i, e)`, or `e`.
pub open spec fn skip_blanks(t: Seq<char>, i: int, e: int) -> int
    decreases e - i,
{
    if i >= e {
        e
    } else if is_blank(t[i]) {
        skip_blanks(t, i + 1, e)
    } else {
        i
    }
}

/// Where the payload of a location line `[i, e)` starts: after leading
/// blanks the line must read `at `, and the payload is what follows.
pub open spec fn at_payload(t: Seq<char>, i: int, e: int) -> Option<int> {
    let w = skip_blanks(t, i, e);
    if w + 3 <= e && t[w] == 'a' && t[w + 1] == 't' && t[w + 2] == ' ' {
        Some(w + 3)
    } else {
        None
    }
}

/// Whether `m` occurs as a contiguous run inside `t[i..e)`.
pub open spec fn occurs_in(t: Seq<char>, i: int, e: int, m: Seq<char>) -> bool {
    exists|k: int| i <= k && k + m.len() <= e && #[trigger] t.subrange(k, k + m.len() as int) == m
}

/// One pass over the frame lines of a backtrace text, innermost frame
/// first, starting at index `i` with the walk's state: a line holding
/// the marker `m` opens a run of the library's own frames and discards
/// anything gathered; the first frame line after such a run is the
/// caller's, and the payload bounds of the location line under it are
/// gathered. What the walk ends with is the location of the frame just
/// below the last run of the library's own frames: the user's call, at
/// whatever depth of forwarding inside the library.
pub open spec fn caller_payload(
    t: Seq<char>,
    i: int,
    prev_ours: bool,
    want_at: bool,
    acc: Option<(int, int)>,
    m: Seq<char>,
) -> Option<(int, int)>
    decreases t.len() - i + 1,
    via caller_payload_decreases
{
    if i >= t.len() {
        acc
    } else {
        let e = line_end(t, i);
        if occurs_in(t, i, e, m) {
            caller_payload(t, e + 1, true, false, None, m)
        } else {
            match at_payload(t, i, e) {
                Some(p) => caller_payload(
                    t,
                    e + 1,
                    prev_ours,
                    false,
                    if want_at {
                        Some((p, e))
                    } else {
                        acc
                    },
                    m,
                ),
                None => if prev_ours {
                    caller_payload(t, e + 1, false, true, acc, m)
                } else {
                    caller_payload(t, e + 1, false, want_at, acc, m)
                },
            }
        }
    }
}

#[via_fn]
proof fn caller_payload_decreases(
    t: Seq<char>,
    i: int,
    prev_ours: bool,
    want_at: bool,
    acc: Option<(int, int)>,
    m: Seq<char>,
) {
    if i < t.len() {
        lemma_line_end_bounds(t, i);
    }
}

/// The call-site coordinates a backtrace text resolves to: the parsed
/// payload of the location line that [`caller_payload`] selects, walking
/// the whole text from its start.
pub open spec fn caller_site(t: Seq<char>, m: Seq<char>) -> Option<(Seq<char>, nat, nat)> {
    match caller_payload(t, 0, false, false, None, m) {
        Some((s, e)) => coordinates_of(t.subrange(s, e)),
        None => None,
    }
}

/// The gathered payload bounds, as the walk's state sees them.
pub open spec fn acc_view(a: Option<(usize, usize)>) -> Option<(int, int)> {
    match a {
        Some((s, e)) => Some((s as int, e as int)),
        None => None,
    }
}

fn find_line_end(text: &str, len: usize, i: usize) -> (r: usize)
    requires
        len == text@.len(),
        i <= len,
    ensures
        r as int == line_end(text@, i as int),
        i <= r <= len,
    decreases len - i,
{
    if i == len {
        len
    } else if text.get_char(i) == '\n' {
        i
    } else {
        find_line_end(text, len, i + 1)
    }
}

fn find_non_blank(text: &str, len: usize, i: usize, e: usize) -> (r: usize)
    requires
        len == text@.len(),
        i <= e <= len,
    ensures
        r as int == skip_blanks(text@, i as int, e as int),
        i <= r <= e,
    decreases e - i,
{
    if i == e {
        e
    } else {
        let c = text.get_char(i);
        if c == ' ' || c == '\t' {
            find_non_blank(text, len, i + 1, e)
        } else {
            i
        }
    }
}

fn find_payload(text: &str, len: usize, i: usize, e: usize) -> (r: Option<usize>)
    requires
        len == text@.len(),
        i <= e <= len,
    ensures
        r is Some <==> at_payload(text@, i as int, e as int) is Some,
        r matches Some(p) ==> at_payload(text@, i as int, e as int) == Some(p as int) && p <= e,
{
    let w = find_non_blank(text, len, i, e);
    if e - w >= 3 && text.get_char(w) == 'a' && text.get_char(w + 1) == 't' && text.get_char(w + 2)
        == ' ' {
        Some(w + 3)
    } else {
        None
    }
}

/// Whether `marker` matches the text at index `k`.
fn match_at(text: &str, len: usize, marker: &str, k: usize, mlen: usize) -> (r: bool)
    requires
        len == text@.len(),
        mlen == marker@.len(),
        k + mlen <= len,
    ensures
        r == (text@.subrange(k as int, k as int + mlen as int) == marker@),
{
    let mut p: usize = 0;
    while p < mlen
        invariant
            p <= mlen,
            len == text@.len(),
            mlen == marker@.len(),
            k + mlen <= len,
            forall|q: int| 0 <= q < p ==> text@[k + q] == marker@[q],
        decreases mlen - p,
    {
        if text.get_char(k + p) != marker.get_char(p) {
            proof {
                assert(text@.subrange(k as int, k as int + mlen as int)[p as int] == text@[k + p]);
            }
            return false;
        }
        p = p + 1;
    }
    proof {
        assert(text@.subrange(k as int, k as int + mlen as int) =~= marker@);
    }
    true
}

fn occurs_exec(text: &str, len: usize, marker: &str, i: usize, e: usize) -> (r: bool)
    requires
        len == text@.len(),
        i <= e <= len,
    ensures
        r == occurs_in(text@, i as int, e as int, marker@),
{
    let mlen = marker.unicode_len();
    if mlen == 0 {
        proof {
            assert(text@.subrange(i as int, i as int + marker@.len() as int) =~= marker@);
            assert(i as int <= i as int && i as int + marker@.len() <= e as int && text@.subrange(
                i as int,
                i as int + marker@.len() as int,
            ) == marker@);
        }
        return true;
    }
    if mlen > e - i {
        return false;
    }
    let stop = e - mlen;
    let mut k = i;
    while k <= stop
        invariant
            len == text@.len(),
            i <= k <= stop + 1,
            1 <= mlen == marker@.len(),
            mlen <= e - i,
            stop == e - mlen,
            e <= len,
            forall|k2: int|
                i <= k2 < k ==> #[trigger] text@.subrange(k2, k2 + mlen as int) != marker@,
        decreases stop + 1 - k,
    {
        if match_at(text, len, marker, k, mlen) {
            proof {
                assert(i <= k as int && k as int + marker@.len() <= e as int && text@.subrange(
                    k as int,
                    k as int + marker@.len() as int,
                ) == marker@);
            }
            return true;
        }
        k = k + 1;
    }
    false
}

/// Resolves a backtrace text (one frame symbol line, then its `at
/// path:line:column` location line, innermost first) to the coordinates
/// of the call just below the last frame that holds `marker`: the user's
/// own call, across any depth of forwarding inside the marked library.
/// Exactly as [`caller_site`] states it; `None` also when a coordinate
/// does not fit the machine word.
pub fn locate_caller(text: &str, marker: &str) -> (r: Option<(String, usize, usize)>)
    ensures
        r matches Some(p) ==> caller_site(text@, marker@) == Some((p.0@, p.1 as nat, p.2 as nat)),
        r is None ==> caller_site(text@, marker@) is None || (caller_site(text@, marker@)
            matches Some(c) && (c.1 > usize::MAX || c.2 > usize::MAX)),
{
    let len = text.unicode_len();
    let mut i: usize = 0;
    let mut prev_ours = false;
    let mut want_at = false;
    let mut acc: Option<(usize, usize)> = None;
    while i < len
        invariant
            len == text@.len(),
            i <= len + 1,
            caller_payload(text@, 0, false, false, None, marker@) == caller_payload(
                text@,
                i as int,
                prev_ours,
                want_at,
                acc_view(acc),
                marker@,
            ),
            acc matches Some((s, e)) ==> s <= e <= len,
        decreases len + 1 - i,
    {
        let ghost pre_i = i as int;
        let ghost pre_prev = prev_ours;
        let ghost pre_want = want_at;
        let ghost pre_acc = acc_view(acc);
        let e = find_line_end(text, len, i);
        if occurs_exec(text, len, marker, i, e) {
            prev_ours = true;
            want_at = false;
            acc = None;
        } else {
            match find_payload(text, len, i, e) {
                Some(p) => {
                    if want_at {
                        acc = Some((p, e));
                    }
                    want_at = false;
                },
                None => {
                    if prev_ours {
                        want_at = true;
                    }
                    prev_ours = false;
                },
            }
        }
        proof {
            assert(caller_payload(text@, pre_i, pre_prev, pre_want, pre_acc, marker@)
                == caller_payload(
                text@,
                e as int + 1,
                prev_ours,
                want_at,
                acc_view(acc),
                marker@,
            ));
            if e as int + 1 > text@.len() {
                assert(caller_payload(
                    text@,
                    e as int + 1,
                    prev_ours,
                    want_at,
                    acc_view(acc),
                    marker@,
                ) == acc_view(acc));
                assert(caller_payload(
                    text@,
                    len as int,
                    prev_ours,
                    want_at,
                    acc_view(acc),
                    marker@,
                ) == acc_view(acc));
            }
        }
        if e < len {
            i = e + 1;
        } else {
            i = len;
        }
    }
    match acc {
        Some((s, e)) => {
            let fragment = text.substring_char(s, e);
            parse_location(fragment)
        },
        None => None,
    }
}

/// Parses a location text of the shape `path:line:column`, exactly as
/// [`coordinates_of`] states it; `None` also when a coordinate does not
/// fit the machine word.
pub fn parse_location(text: &str) -> (r: Option<(String, usize, usize)>)
    ensures
        r matches Some(p) ==> coordinates_of(text@) == Some((p.0@, p.1 as nat, p.2 as nat)),
        r is None ==> coordinates_of(text@) is None || (coordinates_of(text@) matches Some(c)
            && (c.1 > usize::MAX || c.2 > usize::MAX)),
{
    let len = text.unicode_len();
    let cs = run_start(text, len, len);
    if cs == len || cs == 0 {
        return None;
    }
    if text.get_char(cs - 1) != ':' {
        return None;
    }
    let ls = run_start(text, len, cs - 1);
    if ls == cs - 1 || ls <= 1 {
        return None;
    }
    if text.get_char(ls - 1) != ':' {
        return None;
    }
    proof {
        lemma_run_digits(text@, cs as int - 1);
        lemma_run_digits(text@, len as int);
    }
    let line = match digits_to_usize(text, len, ls, cs - 1) {
        Some(v) => v,
        None => {
            return None;
        },
    };
    let col = match digits_to_usize(text, len, cs, len) {
        Some(v) => v,
        None => {
            return None;
        },
    };
    let file = text.substring_char(0, ls - 1).to_owned();
    Some((file, line, col))
}

} // verus!
