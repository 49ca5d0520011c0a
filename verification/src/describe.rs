//! Textual rendering of checked values for diagnostics.
//!
//! Every value category usable in a check renders itself as a structural
//! text (`14`, `-3`, `Some(14)`, `[1, 2, 3]`), stated exactly by
//! `text` and produced by `describe`.

use vstd::prelude::*;
use vstd::string::StrSliceExecFns;
use vstd::string::StringExecFns;

verus! {

/// The decimal digit character for `d` (`d < 10`).
pub open spec fn digit_char(d: nat) -> char {
    if d == 0 {
        '0'
    } else if d == 1 {
        '1'
    } else if d == 2 {
        '2'
    } else if d == 3 {
        '3'
    } else if d == 4 {
        '4'
    } else if d == 5 {
        '5'
    } else if d == 6 {
        '6'
    } else if d == 7 {
        '7'
    } else if d == 8 {
        '8'
    } else {
        '9'
    }
}

/// The decimal rendering of a natural number, most significant digit first.
pub open spec fn nat_text(n: nat) -> Seq<char>
    decreases n,
{
    if n < 10 {
        seq![digit_char(n)]
    } else {
        nat_text(n / 10).push(digit_char(n % 10))
    }
}

/// The decimal rendering of an integer: a minus sign before the magnitude
/// when negative.
pub open spec fn int_text(n: int) -> Seq<char> {
    if n < 0 {
        seq!['-'] + nat_text((-n) as nat)
    } else {
        nat_text(n as nat)
    }
}

/// The one-character string for the decimal digit `d`.
fn digit_str(d: u64) -> (r: &'static str)
    requires
        d < 10,
    ensures
        r@ =~= seq![digit_char(d as nat)],
{
    proof {
        reveal_strlit("0");
        reveal_strlit("1");
        reveal_strlit("2");
        reveal_strlit("3");
        reveal_strlit("4");
        reveal_strlit("5");
        reveal_strlit("6");
        reveal_strlit("7");
        reveal_strlit("8");
        reveal_strlit("9");
    }
    if d == 0 {
        "0"
    } else if d == 1 {
        "1"
    } else if d == 2 {
        "2"
    } else if d == 3 {
        "3"
    } else if d == 4 {
        "4"
    } else if d == 5 {
        "5"
    } else if d == 6 {
        "6"
    } else if d == 7 {
        "7"
    } else if d == 8 {
        "8"
    } else {
        "9"
    }
}

/// The decimal rendering of `n`.
pub fn u64_text(n: u64) -> (r: String)
    ensures
        r@ == nat_text(n as nat),
    decreases n,
{
    if n < 10 {
        digit_str(n).to_owned()
    } else {
        let mut r = u64_text(n / 10);
        r.append(digit_str(n % 10));
        proof {
            assert(r@ =~= nat_text(n as nat));
        }
        r
    }
}

/// The decimal rendering of `n`, sign included.
pub fn i64_text(n: i64) -> (r: String)
    requires
        n > i64::MIN,
    ensures
        r@ == int_text(n as int),
{
    if n < 0 {
        proof {
            reveal_strlit("-");
        }
        let mut r = "-".to_owned();
        r.append(u64_text((-n) as u64).as_str());
        proof {
            assert(r@ =~= int_text(n as int));
        }
        r
    } else {
        u64_text(n as u64)
    }
}

/// A value category that can render itself as a structural text for a
/// diagnostic; `describe` produces exactly the text stated by `text`.
pub trait Describe {
    /// The structural text of this value.
    spec fn text(&self) -> Seq<char>;

    /// Renders this value as its structural text.
    fn describe(&self) -> (r: String)
        ensures
            r@ == self.text(),
    ;
}

impl Describe for i32 {
    open spec fn text(&self) -> Seq<char> {
        int_text(*self as int)
    }

    fn describe(&self) -> (r: String) {
        i64_text(*self as i64)
    }
}

impl Describe for u32 {
    open spec fn text(&self) -> Seq<char> {
        nat_text(*self as nat)
    }

    fn describe(&self) -> (r: String) {
        u64_text(*self as u64)
    }
}

impl Describe for u64 {
    open spec fn text(&self) -> Seq<char> {
        nat_text(*self as nat)
    }

    fn describe(&self) -> (r: String) {
        u64_text(*self)
    }
}

impl Describe for usize {
    open spec fn text(&self) -> Seq<char> {
        nat_text(*self as nat)
    }

    fn describe(&self) -> (r: String) {
        u64_text(*self as u64)
    }
}

impl Describe for bool {
    open spec fn text(&self) -> Seq<char> {
        if *self {
            "true"@
        } else {
            "false"@
        }
    }

    fn describe(&self) -> (r: String) {
        if *self {
            "true".to_owned()
        } else {
            "false".to_owned()
        }
    }
}

impl<T: Describe> Describe for Option<T> {
    open spec fn text(&self) -> Seq<char> {
        match *self {
            Some(v) => "Some("@ + v.text() + ")"@,
            None => "None"@,
        }
    }

    fn describe(&self) -> (r: String) {
        match self {
            Some(v) => {
                let mut r = "Some(".to_owned();
                r.append(v.describe().as_str());
                r.append(")");
                r
            },
            None => "None".to_owned(),
        }
    }
}

impl<T: Describe, E: Describe> Describe for Result<T, E> {
    open spec fn text(&self) -> Seq<char> {
        match *self {
            Ok(v) => "Ok("@ + v.text() + ")"@,
            Err(e) => "Err("@ + e.text() + ")"@,
        }
    }

    fn describe(&self) -> (r: String) {
        match self {
            Ok(v) => {
                let mut r = "Ok(".to_owned();
                r.append(v.describe().as_str());
                r.append(")");
                r
            },
            Err(e) => {
                let mut r = "Err(".to_owned();
                r.append(e.describe().as_str());
                r.append(")");
                r
            },
        }
    }
}

/// The comma-separated renderings of the elements of `s`, last element
/// rendered last.
pub open spec fn list_text<T: Describe>(s: Seq<T>) -> Seq<char>
    decreases s.len(),
{
    if s.len() == 0 {
        Seq::<char>::empty()
    } else if s.len() == 1 {
        s[0].text()
    } else {
        list_text(s.drop_last()) + ", "@ + s.last().text()
    }
}

impl<T: Describe> Describe for Vec<T> {
    open spec fn text(&self) -> Seq<char> {
        "["@ + list_text(self@) + "]"@
    }

    fn describe(&self) -> (r: String) {
        let mut r = "[".to_owned();
        let mut i: usize = 0;
        while i < self.len()
            invariant
                i <= self@.len(),
                r@ == "["@ + list_text(self@.take(i as int)),
            decreases self@.len() - i,
        {
            if i > 0 {
                r.append(", ");
            }
            r.append(self[i].describe().as_str());
            proof {
                assert(self@.take(i as int + 1).drop_last() =~= self@.take(i as int));
                assert(self@.take(i as int + 1).last() == self@[i as int]);
                assert(r@ =~= "["@ + list_text(self@.take(i as int + 1)));
            }
            i = i + 1;
        }
        r.append("]");
        proof {
            assert(self@.take(self@.len() as int) =~= self@);
            assert(r@ =~= "["@ + list_text(self@) + "]"@);
        }
        r
    }
}

} // verus!
