//! The objects that carry the arguments of a call.

use vstd::prelude::*;
use crate::json::number::JsonNumber;
use crate::text::{append_signed_decimal, signed_decimal};

verus! {

/// The object without members: `{}`.
pub open spec fn empty_object() -> Seq<char> {
    "{}"@
}

/// The object that carries one whole number: `{"value":N}`.
pub open spec fn value_object(value: int) -> Seq<char> {
    "{\"value\":"@ + signed_decimal(value) + "}"@
}

/// The number that stands for a flag: 1 for `true`, 0 for `false`.
pub open spec fn flag_value(flag: bool) -> int {
    if flag {
        1
    } else {
        0
    }
}

/// The object that carries a vector: `{"x":X,"y":Y,"z":Z}`.
pub open spec fn vector_object(x: Seq<char>, y: Seq<char>, z: Seq<char>) -> Seq<char> {
    "{\"x\":"@ + x + ",\"y\":"@ + y + ",\"z\":"@ + z + "}"@
}

/// Whether `c` may stand in a JSON string as it is: a printable ASCII
/// character other than the quotation mark and the backslash.
pub open spec fn is_plain_char(c: char) -> bool {
    ' ' <= c && c <= '~' && c != '"' && c != '\\'
}

/// Whether every character of `s` may stand in a JSON string as it is.
pub open spec fn is_plain(s: Seq<char>) -> bool {
    forall|i: int| 0 <= i < s.len() ==> is_plain_char(#[trigger] s[i])
}

/// The object that names a service and a target state:
/// `{"name":"NAME","switch":N}`.
pub open spec fn switch_object(name: Seq<char>, switch: int) -> Seq<char> {
    "{\"name\":\""@ + name + "\",\"switch\":"@ + signed_decimal(switch) + "}"@
}

/// The object that carries an interval and a duration:
/// `{"interval":N,"duration":N}`.
pub open spec fn report_object(interval: int, duration: int) -> Seq<char> {
    "{\"interval\":"@ + signed_decimal(interval) + ",\"duration\":"@ + signed_decimal(duration)
        + "}"@
}

/// Writes the object without members.
pub fn write_empty() -> (r: String)
    ensures
        r@ == empty_object(),
{
    String::from_str("{}")
}

/// Writes the object that carries the whole number `value`.
pub fn write_value(value: i32) -> (r: String)
    ensures
        r@ == value_object(value as int),
{
    let mut r = String::from_str("{\"value\":");
    append_signed_decimal(&mut r, value as i64);
    r.append("}");
    r
}

/// Writes the object that carries `flag` as a number.
pub fn write_flag(flag: bool) -> (r: String)
    ensures
        r@ == value_object(flag_value(flag)),
{
    if flag {
        write_value(1)
    } else {
        write_value(0)
    }
}

/// Writes the object that carries the vector `(x, y, z)`.
pub fn write_vector(x: &JsonNumber, y: &JsonNumber, z: &JsonNumber) -> (r: String)
    ensures
        r@ == vector_object(x.text(), y.text(), z.text()),
{
    let mut r = String::from_str("{\"x\":");
    r.append(x.as_str());
    r.append(",\"y\":");
    r.append(y.as_str());
    r.append(",\"z\":");
    r.append(z.as_str());
    r.append("}");
    r
}

/// Whether every character of `s` may stand in a JSON string as it is.
pub fn check_plain(s: &str) -> (r: bool)
    ensures
        r == is_plain(s@),
{
    let len: usize = s.unicode_len();
    let mut i: usize = 0;
    while i < len
        invariant
            i <= len,
            len == s@.len(),
            forall|k: int| 0 <= k < i ==> is_plain_char(#[trigger] s@[k]),
        decreases len - i,
    {
        let c = s.get_char(i);
        if !(c >= ' ' && c <= '~' && c != '"' && c != '\\') {
            return false;
        }
        i += 1;
    }
    true
}

/// Writes the object that names the service `name` and the target state
/// `switch`, or `None` where `name` holds a character that would have to be
/// escaped.
pub fn write_switch(name: &str, switch: i32) -> (r: Option<String>)
    ensures
        r is Some <==> is_plain(name@),
        r matches Some(text) ==> text@ == switch_object(name@, switch as int),
{
    if !check_plain(name) {
        return None;
    }
    let mut r = String::from_str("{\"name\":\"");
    r.append(name);
    r.append("\",\"switch\":");
    append_signed_decimal(&mut r, switch as i64);
    r.append("}");
    Some(r)
}

/// Writes the object that carries `interval` and `duration`.
pub fn write_report(interval: i32, duration: i32) -> (r: String)
    ensures
        r@ == report_object(interval as int, duration as int),
{
    let mut r = String::from_str("{\"interval\":");
    append_signed_decimal(&mut r, interval as i64);
    r.append(",\"duration\":");
    append_signed_decimal(&mut r, duration as i64);
    r.append("}");
    r
}

} // verus!
