//! Floating-point literals, held as the decimal text that stands for them.

use vstd::prelude::*;
use vstd::string::StringSliceAdditionalSpecFns;
use vstd::utf8::is_ascii_chars;

use crate::text::{lemma_ascii_bytes, str_eq};

verus! {

/// Whether `c` is one of the decimal digits `0` to `9`.
pub open spec fn is_digit(c: char) -> bool {
    '0' <= c && c <= '9'
}

/// Whether the characters of `s` from index `start` on are a plain decimal
/// number: one or more digits, which a point and one or more digits may
/// follow. That is: only digits and points, at most one point, and a digit
/// at either end.
pub open spec fn is_plain_decimal(s: Seq<char>, start: int) -> bool {
    &&& 0 <= start < s.len()
    &&& forall|i: int| start <= i < s.len() ==> is_digit(#[trigger] s[i]) || s[i] == '.'
    &&& forall|i: int, j: int|
        start <= i < j < s.len() && #[trigger] s[i] == '.' ==> #[trigger] s[j] != '.'
    &&& is_digit(s[start])
    &&& is_digit(s.last())
}

/// Whether `s` is the text of a floating-point number: a plain decimal
/// number with an optional leading `-`, or one of `NaN`, `inf` and `-inf`.
/// No exponent is written.
pub open spec fn is_float_text(s: Seq<char>) -> bool {
    ||| is_plain_decimal(s, 0)
    ||| s.len() > 0 && s[0] == '-' && is_plain_decimal(s, 1)
    ||| s == "NaN"@
    ||| s == "inf"@
    ||| s == "-inf"@
}

/// The text of a floating-point number is ASCII.
pub proof fn lemma_float_text_is_ascii(s: Seq<char>)
    requires
        is_float_text(s),
    ensures
        is_ascii_chars(s),
{
    reveal_strlit("NaN");
    reveal_strlit("inf");
    reveal_strlit("-inf");
}

/// Checks the bytes of an ASCII text from `start` on for a plain decimal
/// number.
fn scan_plain_decimal(text: &str, start: usize) -> (r: bool)
    requires
        is_ascii_chars(text@),
    ensures
        r == is_plain_decimal(text@, start as int),
{
    let bytes = text.as_bytes();
    proof {
        lemma_ascii_bytes(text);
    }
    let n = bytes.len();
    if start >= n {
        return false;
    }
    if !(bytes[start] >= 48 && bytes[start] <= 57 && bytes[n - 1] >= 48 && bytes[n - 1] <= 57) {
        return false;
    }
    let ghost s = text@;
    let mut seen_point = false;
    let ghost mut point: int = -1;
    let mut i: usize = start;
    while i < n
        invariant
            start <= i <= n,
            n == s.len(),
            n == bytes.len(),
            s == text@,
            bytes@ == text.spec_bytes(),
            forall|k: int| 0 <= k < s.len() ==> #[trigger] text.spec_bytes()[k] == s[k] as u8,
            forall|k: int| 0 <= k < s.len() ==> (#[trigger] s[k]) as u8 as char == s[k],
            forall|k: int| start <= k < i ==> is_digit(#[trigger] s[k]) || s[k] == '.',
            seen_point <==> point >= 0,
            !seen_point ==> forall|k: int| start <= k < i ==> #[trigger] s[k] != '.',
            seen_point ==> start <= point < i && s[point] == '.' && forall|k: int|
                start <= k < i && k != point ==> #[trigger] s[k] != '.',
        decreases n - i,
    {
        let b = bytes[i];
        assert(b == s[i as int] as u8);
        if b == 46 {
            if seen_point {
                assert(s[point] == '.' && s[i as int] == '.');
                return false;
            }
            seen_point = true;
            proof {
                point = i as int;
            }
        } else if !(b >= 48 && b <= 57) {
            assert(!(is_digit(s[i as int]) || s[i as int] == '.'));
            return false;
        }
        i += 1;
    }
    true
}

/// A floating-point literal, held as its text.
///
/// Only texts of floating-point numbers exist as values of this type: see
/// [`is_float_text`].
#[derive(Debug, PartialEq, Eq, Hash)]
pub struct FloatLiteral {
    text: String,
}

impl View for FloatLiteral {
    type V = Seq<char>;

    closed spec fn view(&self) -> Seq<char> {
        self.text@
    }
}

impl Clone for FloatLiteral {
    fn clone(&self) -> (r: Self)
        ensures
            r@ == self@,
    {
        proof {
            use_type_invariant(self);
        }
        FloatLiteral { text: self.text.clone() }
    }
}

impl FloatLiteral {
    #[verifier::type_invariant]
    spec fn well_formed(self) -> bool {
        is_float_text(self.text@)
    }

    /// Takes `text` as a floating-point literal; `None` where it is not the
    /// text of a floating-point number.
    pub fn parse(text: String) -> (r: Option<FloatLiteral>)
        ensures
            r is Some <==> is_float_text(text@),
            r matches Some(literal) ==> literal@ == text@,
    {
        let t = text.as_str();
        if !t.is_ascii() {
            proof {
                if is_float_text(text@) {
                    lemma_float_text_is_ascii(text@);
                }
            }
            return None;
        }
        let bytes = t.as_bytes();
        proof {
            lemma_ascii_bytes(t);
        }
        let negative = bytes.len() > 0 && bytes[0] == 45;
        let accepted = if negative {
            scan_plain_decimal(t, 1) || str_eq(t, "-inf")
        } else {
            scan_plain_decimal(t, 0) || str_eq(t, "NaN") || str_eq(t, "inf")
        };
        proof {
            reveal_strlit("NaN");
            reveal_strlit("inf");
            reveal_strlit("-inf");
        }
        if accepted {
            Some(FloatLiteral { text })
        } else {
            None
        }
    }

    /// Returns the text of this literal.
    pub fn as_str(&self) -> (r: &str)
        ensures
            r@ == self@,
            is_float_text(r@),
    {
        proof {
            use_type_invariant(self);
        }
        self.text.as_str()
    }

    /// Appends the text of this literal to `f`.
    pub fn write_sql(&self, f: &mut String)
        ensures
            final(f)@ == old(f)@ + self@,
    {
        f.append(self.text.as_str());
    }
}

} // verus!
