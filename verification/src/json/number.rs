//! The text of a JSON number.

use vstd::prelude::*;

verus! {

/// Whether `c` is a decimal digit.
pub open spec fn is_digit(c: char) -> bool {
    '0' <= c && c <= '9'
}

/// The index behind the digits that stand at index `i` of `s` and after it.
pub open spec fn digits_end(s: Seq<char>, i: int) -> int
    decreases s.len() - i,
{
    if 0 <= i < s.len() && is_digit(s[i]) {
        digits_end(s, i + 1)
    } else {
        i
    }
}

/// The index behind the whole part that stands at index `i` of `s`: an
/// optional minus sign, then either a single zero or digits that start with
/// another digit than zero.
pub open spec fn whole_end(s: Seq<char>, i: int) -> Option<int> {
    let j = if 0 <= i < s.len() && s[i] == '-' {
        i + 1
    } else {
        i
    };
    if 0 <= j < s.len() && s[j] == '0' {
        Some(j + 1)
    } else if 0 <= j < s.len() && is_digit(s[j]) {
        Some(digits_end(s, j))
    } else {
        None
    }
}

/// The index behind the fraction that stands at index `i` of `s`, if one
/// does: a point and at least one digit.
pub open spec fn fraction_end(s: Seq<char>, i: int) -> Option<int> {
    if 0 <= i < s.len() && s[i] == '.' {
        if digits_end(s, i + 1) > i + 1 {
            Some(digits_end(s, i + 1))
        } else {
            None
        }
    } else {
        Some(i)
    }
}

/// The index behind the exponent that stands at index `i` of `s`, if one
/// does: `e` or `E`, an optional sign and at least one digit.
pub open spec fn exponent_end(s: Seq<char>, i: int) -> Option<int> {
    if 0 <= i < s.len() && (s[i] == 'e' || s[i] == 'E') {
        let j = if i + 1 < s.len() && (s[i + 1] == '+' || s[i + 1] == '-') {
            i + 2
        } else {
            i + 1
        };
        if digits_end(s, j) > j {
            Some(digits_end(s, j))
        } else {
            None
        }
    } else {
        Some(i)
    }
}

/// Whether `s` is a JSON number: a whole part, an optional fraction and an
/// optional exponent, and nothing else.
pub open spec fn is_number(s: Seq<char>) -> bool {
    &&& whole_end(s, 0) matches Some(a)
    &&& fraction_end(s, a) matches Some(b)
    &&& exponent_end(s, b) matches Some(c)
    &&& c == s.len()
}

/// Whether the character at index `i` of `s` is `c`.
fn is_at(s: &str, len: usize, i: usize, c: char) -> (r: bool)
    requires
        len == s@.len(),
    ensures
        r == (i < len && s@[i as int] == c),
{
    i < len && s.get_char(i) == c
}

/// The index behind the digits at index `i` of `s`.
fn skip_digits(s: &str, len: usize, i: usize) -> (r: usize)
    requires
        len == s@.len(),
        i <= len,
    ensures
        r == digits_end(s@, i as int),
        i <= r <= len,
{
    let mut j: usize = i;
    while j < len
        invariant_except_break
            i <= j <= len,
            len == s@.len(),
            digits_end(s@, i as int) == digits_end(s@, j as int),
        ensures
            i <= j <= len,
            j == digits_end(s@, i as int),
        decreases len - j,
    {
        let c = s.get_char(j);
        if !(c >= '0' && c <= '9') {
            break ;
        }
        j += 1;
    }
    j
}

/// The text of a JSON number, such as `0.5`, `-12` or `1e-3`.
#[derive(Debug, PartialEq, Eq)]
pub struct JsonNumber {
    text: String,
}

impl JsonNumber {
    #[verifier::type_invariant]
    spec fn spells_a_number(self) -> bool {
        is_number(self.text@)
    }

    /// The characters of the number.
    pub closed spec fn text(&self) -> Seq<char> {
        self.text@
    }

    /// The number that `text` spells, or `None` where `text` is no JSON
    /// number.
    pub fn parse(text: &str) -> (r: Option<JsonNumber>)
        ensures
            r is Some <==> is_number(text@),
            r matches Some(number) ==> number.text() == text@,
    {
        let len: usize = text.unicode_len();
        let mut i: usize = 0;
        if is_at(text, len, i, '-') {
            i += 1;
        }
        if is_at(text, len, i, '0') {
            i += 1;
        } else {
            let j: usize = skip_digits(text, len, i);
            if j == i {
                return None;
            }
            i = j;
        }
        if is_at(text, len, i, '.') {
            let j: usize = skip_digits(text, len, i + 1);
            if j == i + 1 {
                return None;
            }
            i = j;
        }
        if is_at(text, len, i, 'e') || is_at(text, len, i, 'E') {
            i += 1;
            if is_at(text, len, i, '+') || is_at(text, len, i, '-') {
                i += 1;
            }
            let j: usize = skip_digits(text, len, i);
            if j == i {
                return None;
            }
            i = j;
        }
        if i != len {
            return None;
        }
        Some(JsonNumber { text: String::from_str(text) })
    }

    /// The characters of the number, which spell a JSON number.
    pub fn as_str(&self) -> (r: &str)
        ensures
            r@ == self.text(),
            is_number(r@),
    {
        proof {
            use_type_invariant(self);
        }
        self.text.as_str()
    }
}

} // verus!
