//! Taking the result of a call apart.

use vstd::prelude::*;
use crate::error::SdkError;
use crate::text::{chars_of, is_ascii_bytes, text_of_ascii};
use crate::wire::bytes::copy_of;

verus! {

/// Whether `b` is one of the four bytes that JSON allows between tokens.
pub open spec fn is_space(b: u8) -> bool {
    b == 0x20 || b == 0x09 || b == 0x0A || b == 0x0D
}

/// The index behind the spaces that stand at index `i` of `s` and after it.
pub open spec fn spaces_end(s: Seq<u8>, i: int) -> int
    decreases s.len() - i,
{
    if 0 <= i < s.len() && is_space(s[i]) {
        spaces_end(s, i + 1)
    } else {
        i
    }
}

/// Whether `word` stands at index `i` of `s`.
pub open spec fn stands_at(s: Seq<u8>, i: int, word: Seq<u8>) -> bool {
    0 <= i && i + word.len() <= s.len() && s.subrange(i, i + word.len()) == word
}

/// The index behind `word`, where `word` stands behind the spaces at index
/// `i` of `s`.
pub open spec fn token_end(s: Seq<u8>, i: int, word: Seq<u8>) -> Option<int> {
    let j = spaces_end(s, i);
    if stands_at(s, j, word) {
        Some(j + word.len())
    } else {
        None
    }
}

/// Whether nothing but spaces stands at index `i` of `s` and after it.
pub open spec fn ends_at(s: Seq<u8>, i: int) -> bool {
    spaces_end(s, i) == s.len()
}

/// Whether `b` may stand in a string as it is: the code of a printable ASCII
/// character other than the quotation mark and the backslash.
pub open spec fn is_plain_byte(b: u8) -> bool {
    0x20 <= b && b <= 0x7E && b != 0x22 && b != 0x5C
}

/// The index behind the plain bytes that stand at index `i` of `s` and after
/// it.
pub open spec fn plain_end(s: Seq<u8>, i: int) -> int
    decreases s.len() - i,
{
    if 0 <= i < s.len() && is_plain_byte(s[i]) {
        plain_end(s, i + 1)
    } else {
        i
    }
}

/// The index behind the string that stands behind the spaces at index `i`
/// of `s`: a quotation mark, plain bytes, a quotation mark. A string with an
/// escape in it is none.
pub open spec fn string_end(s: Seq<u8>, i: int) -> Option<int> {
    let j = spaces_end(s, i);
    let k = plain_end(s, j + 1);
    if 0 <= j < s.len() && s[j] == 0x22 && k < s.len() && s[k] == 0x22 {
        Some(k + 1)
    } else {
        None
    }
}

/// The characters between the quotation marks of the string that stands
/// behind the spaces at index `i` of `s`.
pub open spec fn string_text(s: Seq<u8>, i: int) -> Seq<char> {
    let j = spaces_end(s, i);
    chars_of(s.subrange(j + 1, plain_end(s, j + 1)))
}

/// Whether `b` is the code of a decimal digit.
pub open spec fn is_digit_byte(b: u8) -> bool {
    0x30 <= b && b <= 0x39
}

/// The index behind the digits that stand at index `i` of `s` and after it.
pub open spec fn digit_bytes_end(s: Seq<u8>, i: int) -> int
    decreases s.len() - i,
{
    if 0 <= i < s.len() && is_digit_byte(s[i]) {
        digit_bytes_end(s, i + 1)
    } else {
        i
    }
}

/// The number that the digits of `s` from index `from` up to index `to`
/// spell.
pub open spec fn digits_value(s: Seq<u8>, from: int, to: int) -> nat
    decreases to - from,
{
    if to <= from {
        0
    } else {
        10 * digits_value(s, from, to - 1) + (s[to - 1] - 0x30) as nat
    }
}

/// The index behind the whole number that stands behind the spaces at index
/// `i` of `s`: an optional minus sign and at least one digit.
pub open spec fn number_end(s: Seq<u8>, i: int) -> Option<int> {
    let j = spaces_end(s, i);
    let k = if 0 <= j < s.len() && s[j] == 0x2D {
        j + 1
    } else {
        j
    };
    if digit_bytes_end(s, k) > k {
        Some(digit_bytes_end(s, k))
    } else {
        None
    }
}

/// The whole number that stands behind the spaces at index `i` of `s`.
pub open spec fn number_value(s: Seq<u8>, i: int) -> int {
    let j = spaces_end(s, i);
    if 0 <= j < s.len() && s[j] == 0x2D {
        -(digits_value(s, j + 1, digit_bytes_end(s, j + 1)) as int)
    } else {
        digits_value(s, j, digit_bytes_end(s, j)) as int
    }
}

/// The index behind the whole number that stands behind the spaces at index
/// `i` of `s`, where that number fits into 32 bits.
pub open spec fn small_number_end(s: Seq<u8>, i: int) -> Option<int> {
    if i32::MIN <= number_value(s, i) <= i32::MAX {
        number_end(s, i)
    } else {
        None
    }
}

/// The bytes of `{`.
pub open spec fn brace_open() -> Seq<u8> {
    seq![0x7Bu8]
}

/// The bytes of `}`.
pub open spec fn brace_close() -> Seq<u8> {
    seq![0x7Du8]
}

/// The bytes of `:`.
pub open spec fn colon() -> Seq<u8> {
    seq![0x3Au8]
}

/// The bytes of `"data"`.
pub open spec fn key_data() -> Seq<u8> {
    seq![0x22u8, 0x64u8, 0x61u8, 0x74u8, 0x61u8, 0x22u8]
}

/// The bytes of `true`.
pub open spec fn word_true() -> Seq<u8> {
    seq![0x74u8, 0x72u8, 0x75u8, 0x65u8]
}

/// The bytes of `false`.
pub open spec fn word_false() -> Seq<u8> {
    seq![0x66u8, 0x61u8, 0x6Cu8, 0x73u8, 0x65u8]
}

/// The index behind `word`, where `at` is an index and `word` stands behind
/// the spaces there.
pub open spec fn then_token(s: Seq<u8>, at: Option<int>, word: Seq<u8>) -> Option<int> {
    match at {
        Some(i) => token_end(s, i, word),
        None => None,
    }
}

/// The index behind the key `key` and the colon after it, where `at` is an
/// index and the two stand there.
pub open spec fn then_key(s: Seq<u8>, at: Option<int>, key: Seq<u8>) -> Option<int> {
    then_token(s, then_token(s, at, key), colon())
}

/// The index behind the string, where `at` is an index and a string stands
/// there.
pub open spec fn then_string(s: Seq<u8>, at: Option<int>) -> Option<int> {
    match at {
        Some(i) => string_end(s, i),
        None => None,
    }
}

/// The index behind the number, where `at` is an index and a number that
/// fits into 32 bits stands there.
pub open spec fn then_number(s: Seq<u8>, at: Option<int>) -> Option<int> {
    match at {
        Some(i) => small_number_end(s, i),
        None => None,
    }
}

/// The flag that `payload` carries: `payload` is an object with the one
/// member `data`, whose value is `true` or `false`, with or without spaces
/// between its tokens.
pub open spec fn flag_of(payload: Seq<u8>) -> Option<bool> {
    let value_at = then_key(payload, token_end(payload, 0, brace_open()), key_data());
    let on = then_token(payload, value_at, word_true());
    let off = then_token(payload, value_at, word_false());
    let value_end = if on is Some {
        on
    } else {
        off
    };
    match then_token(payload, value_end, brace_close()) {
        Some(end) => if ends_at(payload, end) {
            Some(on is Some)
        } else {
            None
        },
        None => None,
    }
}

/// The detail of the failure to read a result.
pub open spec fn unexpected() -> Seq<char> {
    "unexpected result"@
}

/// The failure to read a result.
pub fn unexpected_result() -> (e: SdkError)
    ensures
        e is Serialization,
        e.detail() == unexpected(),
{
    SdkError::Serialization(String::from_str("unexpected result"))
}

/// The index behind the spaces at index `i` of `s`.
pub fn skip_spaces(s: &[u8], i: usize) -> (r: usize)
    ensures
        r == spaces_end(s@, i as int),
        i <= r,
        i <= s.len() ==> r <= s.len(),
{
    let mut j: usize = i;
    while j < s.len()
        invariant_except_break
            i <= j,
            i <= s.len() ==> j <= s.len(),
            spaces_end(s@, i as int) == spaces_end(s@, j as int),
        ensures
            i <= j,
            i <= s.len() ==> j <= s.len(),
            j == spaces_end(s@, i as int),
        decreases s.len() - j,
    {
        let b: u8 = s[j];
        if !(b == 0x20 || b == 0x09 || b == 0x0A || b == 0x0D) {
            break ;
        }
        j += 1;
    }
    j
}

/// The index behind `word`, where `word` stands behind the spaces at index
/// `i` of `s`.
pub fn skip_token(s: &[u8], i: usize, word: &[u8]) -> (r: Option<usize>)
    ensures
        r is Some <==> token_end(s@, i as int, word@) is Some,
        r matches Some(end) ==> end == token_end(s@, i as int, word@).unwrap() && i <= end
            <= s.len(),
{
    let start: usize = skip_spaces(s, i);
    if start > s.len() || s.len() - start < word.len() {
        return None;
    }
    let mut k: usize = 0;
    while k < word.len()
        invariant
            start == spaces_end(s@, i as int),
            start + word.len() <= s.len(),
            k <= word.len(),
            forall|n: int| 0 <= n < k ==> s@[start + n] == word@[n],
        decreases word.len() - k,
    {
        if s[start + k] != word[k] {
            proof {
                let part = s@.subrange(start as int, start + word@.len());
                assert(part[k as int] == s@[start + k]);
                assert(part != word@);
            }
            return None;
        }
        k += 1;
    }
    assert(s@.subrange(start as int, start + word@.len()) =~= word@);
    Some(start + word.len())
}

/// The string that stands behind the spaces at index `i` of `s`, and the
/// index behind it.
pub fn read_string(s: &[u8], i: usize) -> (r: Option<(String, usize)>)
    ensures
        r is Some <==> string_end(s@, i as int) is Some,
        r matches Some((text, end)) ==> {
            &&& text@ == string_text(s@, i as int)
            &&& end == string_end(s@, i as int).unwrap()
            &&& i < end <= s.len()
        },
{
    let start: usize = skip_spaces(s, i);
    if start >= s.len() || s[start] != 0x22 {
        return None;
    }
    let from: usize = start + 1;
    let mut to: usize = from;
    while to < s.len()
        invariant_except_break
            from <= to <= s.len(),
            plain_end(s@, from as int) == plain_end(s@, to as int),
            forall|k: int| from <= k < to ==> is_plain_byte(#[trigger] s@[k]),
        ensures
            from <= to <= s.len(),
            to == plain_end(s@, from as int),
            forall|k: int| from <= k < to ==> is_plain_byte(#[trigger] s@[k]),
        decreases s.len() - to,
    {
        let b: u8 = s[to];
        if !(0x20 <= b && b <= 0x7E && b != 0x22 && b != 0x5C) {
            break ;
        }
        to += 1;
    }
    if to >= s.len() || s[to] != 0x22 {
        return None;
    }
    let bytes: Vec<u8> = copy_of(s, from, to);
    assert(is_ascii_bytes(bytes@)) by {
        assert forall|k: int| 0 <= k < bytes@.len() implies #[trigger] bytes@[k] < 0x80 by {
            assert(is_plain_byte(s@[from + k]));
        }
    }
    Some((text_of_ascii(bytes), to + 1))
}

/// The whole number that stands behind the spaces at index `i` of `s`, and
/// the index behind it, where the number fits into 32 bits.
pub fn read_number(s: &[u8], i: usize) -> (r: Option<(i32, usize)>)
    ensures
        r is Some <==> small_number_end(s@, i as int) is Some,
        r matches Some((value, end)) ==> {
            &&& value == number_value(s@, i as int)
            &&& end == small_number_end(s@, i as int).unwrap()
            &&& i < end <= s.len()
        },
{
    let start: usize = skip_spaces(s, i);
    if start >= s.len() {
        return None;
    }
    let negative: bool = s[start] == 0x2D;
    let from: usize = if negative {
        start + 1
    } else {
        start
    };
    let mut to: usize = from;
    let mut value: u64 = 0;
    let mut large: bool = false;
    while to < s.len()
        invariant_except_break
            from <= to <= s.len(),
            digit_bytes_end(s@, from as int) == digit_bytes_end(s@, to as int),
            !large ==> value == digits_value(s@, from as int, to as int) && value <= 0x8000_0000,
            large ==> digits_value(s@, from as int, to as int) > 0x8000_0000,
        ensures
            from <= to <= s.len(),
            to == digit_bytes_end(s@, from as int),
            !large ==> value == digits_value(s@, from as int, to as int) && value <= 0x8000_0000,
            large ==> digits_value(s@, from as int, to as int) > 0x8000_0000,
        decreases s.len() - to,
    {
        let b: u8 = s[to];
        if !(0x30 <= b && b <= 0x39) {
            break ;
        }
        if !large {
            value = 10 * value + (b - 0x30) as u64;
            if value > 0x8000_0000 {
                large = true;
            }
        }
        to += 1;
    }
    if to == from || large {
        return None;
    }
    if negative {
        let value: i64 = -(value as i64);
        Some((value as i32, to))
    } else if value == 0x8000_0000 {
        None
    } else {
        Some((value as i32, to))
    }
}

/// Reads the flag that `payload` carries.
///
/// Fails with `Serialization` where `payload` is not an object with the one
/// member `data` and a value of `true` or `false`.
pub fn read_flag(payload: &[u8]) -> (r: Result<bool, SdkError>)
    ensures
        match r {
            Ok(flag) => flag_of(payload@) == Some(flag),
            Err(e) => flag_of(payload@) is None && e is Serialization && e.detail() == unexpected(),
        },
{
    let open: [u8; 1] = [0x7B];
    let close: [u8; 1] = [0x7D];
    let colon: [u8; 1] = [0x3A];
    let key: [u8; 6] = [0x22, 0x64, 0x61, 0x74, 0x61, 0x22];
    let yes: [u8; 4] = [0x74, 0x72, 0x75, 0x65];
    let no: [u8; 5] = [0x66, 0x61, 0x6C, 0x73, 0x65];
    proof {
        assert(open@ =~= brace_open());
        assert(close@ =~= brace_close());
        assert(colon@ =~= self::colon());
        assert(key@ =~= key_data());
        assert(yes@ =~= word_true());
        assert(no@ =~= word_false());
    }
    let a: usize = match skip_token(payload, 0, open.as_slice()) {
        Some(a) => a,
        None => {
            return Err(unexpected_result());
        },
    };
    let b: usize = match skip_token(payload, a, key.as_slice()) {
        Some(b) => b,
        None => {
            return Err(unexpected_result());
        },
    };
    let c: usize = match skip_token(payload, b, colon.as_slice()) {
        Some(c) => c,
        None => {
            return Err(unexpected_result());
        },
    };
    let (flag, d): (bool, usize) = match skip_token(payload, c, yes.as_slice()) {
        Some(d) => (true, d),
        None => match skip_token(payload, c, no.as_slice()) {
            Some(d) => (false, d),
            None => {
                return Err(unexpected_result());
            },
        },
    };
    let e: usize = match skip_token(payload, d, close.as_slice()) {
        Some(e) => e,
        None => {
            return Err(unexpected_result());
        },
    };
    if skip_spaces(payload, e) != payload.len() {
        return Err(unexpected_result());
    }
    Ok(flag)
}

} // verus!
