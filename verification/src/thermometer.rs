//! The textual report of a single-wire digital thermometer.
//!
//! A report is a block of bytes. It counts as confirmed where it holds the
//! bytes `YES`; its value follows the first `t=` and runs to the end of the
//! report, white space at both ends set aside: a decimal integer, with or
//! without a sign, in thousandths of a degree Celsius.

use vstd::prelude::*;
use vstd::string::StringExecFns;

verus! {

/// Why a report gave no temperature.
#[derive(Clone, Copy, Debug, PartialEq, Eq, Structural)]
pub enum ThermometerError {
    /// The report could not be had at all.
    Unreadable,
    /// The report does not hold the confirmation marker.
    Unconfirmed,
    /// The report is confirmed and holds no value marker.
    ValueMissing,
    /// What follows the value marker is no integer of 32 bits.
    ValueMalformed,
}

/// The identifier of the thermometer in a slot: the first for slot 0, the
/// second for any other.
pub open spec fn sensor_name(slot: int) -> Seq<char> {
    if slot == 0 {
        "28-277a480a6461"@
    } else {
        "28-7c7a480a6461"@
    }
}

/// The path of the report of the thermometer with the given identifier.
pub open spec fn path_of(sensor_id: Seq<char>) -> Seq<char> {
    "/sys/bus/w1/devices/"@ + sensor_id + "/w1_slave"@
}

/// The bytes `YES`.
pub open spec fn confirmation_marker() -> Seq<u8> {
    seq![0x59u8, 0x45u8, 0x53u8]
}

/// The bytes `t=`.
pub open spec fn value_marker() -> Seq<u8> {
    seq![0x74u8, 0x3Du8]
}

/// White space: the blank and the control characters from tab to carriage return.
pub open spec fn is_space(byte: u8) -> bool {
    byte == 0x20 || (0x09 <= byte && byte <= 0x0D)
}

/// A decimal digit.
pub open spec fn is_digit(byte: u8) -> bool {
    0x30 <= byte && byte <= 0x39
}

/// `pattern` stands in `text` at the index `at`.
pub open spec fn occurs_at(text: Seq<u8>, pattern: Seq<u8>, at: int) -> bool {
    0 <= at && at + pattern.len() <= text.len() && text.subrange(at, at + pattern.len())
        == pattern
}

/// `pattern` stands somewhere in `text`.
pub open spec fn occurs(text: Seq<u8>, pattern: Seq<u8>) -> bool {
    exists|at: int| occurs_at(text, pattern, at)
}

/// `pattern` stands in `text` at `at` and nowhere before.
pub open spec fn is_first_occurrence(text: Seq<u8>, pattern: Seq<u8>, at: int) -> bool {
    occurs_at(text, pattern, at) && forall|before: int|
        0 <= before < at ==> !occurs_at(text, pattern, before)
}

/// The index of the first occurrence of `pattern` in a `text` that holds it.
pub open spec fn first_occurrence(text: Seq<u8>, pattern: Seq<u8>) -> int {
    choose|at: int| is_first_occurrence(text, pattern, at)
}

/// `field` without the white space at its start.
pub open spec fn trim_start(field: Seq<u8>) -> Seq<u8>
    decreases field.len(),
{
    if field.len() > 0 && is_space(field[0]) {
        trim_start(field.subrange(1, field.len() as int))
    } else {
        field
    }
}

/// `field` without the white space at its end.
pub open spec fn trim_end(field: Seq<u8>) -> Seq<u8>
    decreases field.len(),
{
    if field.len() > 0 && is_space(field.last()) {
        trim_end(field.drop_last())
    } else {
        field
    }
}

/// `field` without the white space at either end.
pub open spec fn trimmed(field: Seq<u8>) -> Seq<u8> {
    trim_end(trim_start(field))
}

/// Every byte of `field` is a decimal digit.
pub open spec fn all_digits(field: Seq<u8>) -> bool {
    forall|i: int| 0 <= i < field.len() ==> is_digit(#[trigger] field[i])
}

/// The number that a run of digits writes in base ten; zero for none.
pub open spec fn digits_value(field: Seq<u8>) -> int
    decreases field.len(),
{
    if field.len() == 0 {
        0
    } else {
        10 * digits_value(field.drop_last()) + (field.last() as int - 0x30)
    }
}

/// `field` starts with a sign.
pub open spec fn has_sign(field: Seq<u8>) -> bool {
    field.len() > 0 && (field[0] == 0x2Du8 || field[0] == 0x2Bu8)
}

/// The digits of `field`: all of it but a leading sign.
pub open spec fn digits_of(field: Seq<u8>) -> Seq<u8> {
    if has_sign(field) {
        field.subrange(1, field.len() as int)
    } else {
        field
    }
}

/// `field` is one or more digits, with or without a sign before them.
pub open spec fn is_integer(field: Seq<u8>) -> bool {
    digits_of(field).len() > 0 && all_digits(digits_of(field))
}

/// The number that an integer field writes.
pub open spec fn integer_value(field: Seq<u8>) -> int {
    if field.len() > 0 && field[0] == 0x2Du8 {
        -digits_value(digits_of(field))
    } else {
        digits_value(digits_of(field))
    }
}

/// The number in `field`, where it is an integer that 32 bits hold.
pub open spec fn integer_of(field: Seq<u8>) -> Option<i32> {
    if is_integer(field) && i32::MIN <= integer_value(field) <= i32::MAX {
        Some(integer_value(field) as i32)
    } else {
        None
    }
}

/// The field of a report whose value marker stands at `at`.
pub open spec fn value_field(text: Seq<u8>, at: int) -> Seq<u8> {
    trimmed(text.subrange(at + 2, text.len() as int))
}

/// What a report says: its temperature in thousandths of a degree Celsius,
/// or why it gives none.
pub open spec fn reading_of(text: Seq<u8>) -> Result<i32, ThermometerError> {
    if !occurs(text, confirmation_marker()) {
        Err(ThermometerError::Unconfirmed)
    } else if !occurs(text, value_marker()) {
        Err(ThermometerError::ValueMissing)
    } else {
        match integer_of(value_field(text, first_occurrence(text, value_marker()))) {
            Some(value) => Ok(value),
            None => Err(ThermometerError::ValueMalformed),
        }
    }
}

/// The outcome of one thermometer read: what the report says where there is
/// one, and an unreadable thermometer where there is none.
pub open spec fn outcome_of(report: Option<Seq<u8>>) -> Result<i32, ThermometerError> {
    match report {
        Some(text) => reading_of(text),
        None => Err(ThermometerError::Unreadable),
    }
}

/// A pattern has at most one first occurrence.
pub proof fn first_occurrence_is_unique(text: Seq<u8>, pattern: Seq<u8>, at: int)
    requires
        is_first_occurrence(text, pattern, at),
    ensures
        occurs(text, pattern),
        first_occurrence(text, pattern) == at,
{
    let chosen = first_occurrence(text, pattern);
    assert(is_first_occurrence(text, pattern, chosen));
    if chosen < at {
        assert(!occurs_at(text, pattern, chosen));
    }
    if at < chosen {
        assert(!occurs_at(text, pattern, at));
    }
}

proof fn digits_value_is_natural(field: Seq<u8>)
    requires
        all_digits(field),
    ensures
        digits_value(field) >= 0,
    decreases field.len(),
{
    if field.len() > 0 {
        let front = field.drop_last();
        assert forall|i: int| 0 <= i < front.len() implies is_digit(#[trigger] front[i]) by {
            assert(front[i] == field[i]);
        }
        digits_value_is_natural(front);
    }
}

proof fn digits_value_grows(field: Seq<u8>, count: int)
    requires
        all_digits(field),
        0 <= count <= field.len(),
    ensures
        digits_value(field.subrange(0, count)) <= digits_value(field),
    decreases field.len(),
{
    if count == field.len() {
        assert(field.subrange(0, count) =~= field);
    } else {
        let front = field.drop_last();
        assert forall|i: int| 0 <= i < front.len() implies is_digit(#[trigger] front[i]) by {
            assert(front[i] == field[i]);
        }
        digits_value_grows(front, count);
        digits_value_is_natural(front);
        assert(front.subrange(0, count) =~= field.subrange(0, count));
        assert(is_digit(field[field.len() - 1]));
    }
}

/// The identifier of the thermometer in a slot.
pub fn sensor_id(slot: usize) -> (id: &'static str)
    ensures
        id@ == sensor_name(slot as int),
{
    if slot == 0 {
        "28-277a480a6461"
    } else {
        "28-7c7a480a6461"
    }
}

/// The path at which the report of a thermometer is read.
pub fn report_path(sensor_id: &str) -> (path: String)
    ensures
        path@ == path_of(sensor_id@),
{
    let mut path: String = String::from_str("/sys/bus/w1/devices/");
    path.append(sensor_id);
    path.append("/w1_slave");
    path
}

/// Tells whether `pattern` stands in `text` at the index `at`.
fn stands_at(text: &[u8], pattern: &[u8], at: usize) -> (yes: bool)
    requires
        at + pattern@.len() <= text@.len(),
    ensures
        yes == occurs_at(text@, pattern@, at as int),
{
    let n: usize = text.len();
    let length: usize = pattern.len();
    let mut k: usize = 0;
    while k < length
        invariant
            n == text@.len(),
            length == pattern@.len(),
            at + length <= n,
            k <= length,
            forall|i: int| 0 <= i < k ==> text@[at + i] == #[trigger] pattern@[i],
        decreases length - k,
    {
        if text[at + k] != pattern[k] {
            proof {
                let window = text@.subrange(at as int, at + length);
                assert(window[k as int] == text@[at + k]);
            }
            return false;
        }
        k += 1;
    }
    proof {
        assert(text@.subrange(at as int, at + length) =~= pattern@);
    }
    true
}

/// Finds where `pattern` first stands in `text`.
pub fn find(text: &[u8], pattern: &[u8]) -> (found: Option<usize>)
    ensures
        found is Some <==> occurs(text@, pattern@),
        found is Some ==> found.unwrap() as int == first_occurrence(text@, pattern@),
        found is Some ==> is_first_occurrence(text@, pattern@, found.unwrap() as int),
{
    let n: usize = text.len();
    let m: usize = pattern.len();
    if m > n {
        return None;
    }
    let last: usize = n - m;
    let mut at: usize = 0;
    loop
        invariant
            n == text@.len(),
            m == pattern@.len(),
            last == n - m,
            at <= last,
            forall|before: int| 0 <= before < at ==> !occurs_at(text@, pattern@, before),
        decreases last - at,
    {
        if stands_at(text, pattern, at) {
            proof {
                first_occurrence_is_unique(text@, pattern@, at as int);
            }
            return Some(at);
        }
        if at == last {
            return None;
        }
        at += 1;
    }
}

/// The bounds of what is left of `text` from `from` on once the white space
/// at both ends is set aside.
fn trim_bounds(text: &[u8], from: usize) -> (bounds: (usize, usize))
    requires
        from <= text@.len(),
    ensures
        from <= bounds.0 <= bounds.1 <= text@.len(),
        text@.subrange(bounds.0 as int, bounds.1 as int) == trimmed(
            text@.subrange(from as int, text@.len() as int),
        ),
{
    let n: usize = text.len();
    let mut start: usize = from;
    while start < n && is_space_byte(text[start])
        invariant
            n == text@.len(),
            from <= start <= n,
            trim_start(text@.subrange(from as int, n as int)) == trim_start(
                text@.subrange(start as int, n as int),
            ),
        decreases n - start,
    {
        proof {
            let rest = text@.subrange(start as int, n as int);
            assert(rest[0] == text@[start as int]);
            assert(rest.subrange(1, rest.len() as int) =~= text@.subrange(start + 1, n as int));
        }
        start += 1;
    }
    proof {
        let rest = text@.subrange(start as int, n as int);
        if start < n {
            assert(rest[0] == text@[start as int]);
        }
        assert(trim_start(rest) == rest);
    }
    let mut end: usize = n;
    while end > start && is_space_byte(text[end - 1])
        invariant
            n == text@.len(),
            start <= end <= n,
            trim_end(text@.subrange(start as int, n as int)) == trim_end(
                text@.subrange(start as int, end as int),
            ),
        decreases end - start,
    {
        proof {
            let rest = text@.subrange(start as int, end as int);
            assert(rest.last() == text@[end - 1]);
            assert(rest.drop_last() =~= text@.subrange(start as int, end - 1));
        }
        end -= 1;
    }
    proof {
        let rest = text@.subrange(start as int, end as int);
        if end > start {
            assert(rest.last() == text@[end - 1]);
        }
        assert(trim_end(rest) == rest);
    }
    (start, end)
}

/// Tells whether a byte is white space.
pub fn is_space_byte(byte: u8) -> (yes: bool)
    ensures
        yes == is_space(byte),
{
    byte == 0x20 || (0x09 <= byte && byte <= 0x0D)
}

/// Reads the integer that the bytes of `text` from `start` up to `end` write.
fn read_integer(text: &[u8], start: usize, end: usize) -> (value: Option<i32>)
    requires
        start <= end <= text@.len(),
    ensures
        value == integer_of(text@.subrange(start as int, end as int)),
{
    let ghost field = text@.subrange(start as int, end as int);
    if start == end {
        return None;
    }
    let first: u8 = text[start];
    assert(field[0] == first);
    let negative: bool = first == 0x2D;
    let signed: bool = negative || first == 0x2B;
    let from: usize = if signed {
        start + 1
    } else {
        start
    };
    let ghost digits = digits_of(field);
    assert(digits =~= text@.subrange(from as int, end as int));
    if from == end {
        return None;
    }
    let mut value: i64 = 0;
    let mut i: usize = from;
    while i < end
        invariant
            from <= i <= end <= text@.len(),
            field == text@.subrange(start as int, end as int),
            digits == digits_of(field),
            digits == text@.subrange(from as int, end as int),
            all_digits(text@.subrange(from as int, i as int)),
            value == digits_value(text@.subrange(from as int, i as int)),
            0 <= value <= 0x8000_0000,
        decreases end - i,
    {
        let byte: u8 = text[i];
        if byte < 0x30 || byte > 0x39 {
            assert(digits[i - from] == byte);
            return None;
        }
        proof {
            let seen = text@.subrange(from as int, i + 1);
            assert(seen.drop_last() =~= text@.subrange(from as int, i as int));
            assert(seen.last() == byte);
            assert forall|k: int| 0 <= k < seen.len() implies is_digit(#[trigger] seen[k]) by {
                if k < i - from {
                    assert(seen[k] == text@.subrange(from as int, i as int)[k]);
                }
            }
        }
        value = value * 10 + (byte - 0x30) as i64;
        if value > 0x8000_0000 {
            proof {
                if all_digits(digits) {
                    digits_value_grows(digits, i + 1 - from);
                    assert(digits.subrange(0, i + 1 - from) =~= text@.subrange(
                        from as int,
                        i + 1,
                    ));
                }
            }
            return None;
        }
        i += 1;
    }
    if negative {
        Some((-value) as i32)
    } else if value > 0x7FFF_FFFF {
        None
    } else {
        Some(value as i32)
    }
}

/// Reads the temperature that a report gives, in thousandths of a degree
/// Celsius.
///
/// A report without the confirmation marker is refused first, then one
/// without a value marker, then one whose value is no integer of 32 bits.
pub fn parse_report(text: &[u8]) -> (result: Result<i32, ThermometerError>)
    ensures
        result == reading_of(text@),
{
    let confirmation: [u8; 3] = [0x59, 0x45, 0x53];
    let marker: [u8; 2] = [0x74, 0x3D];
    assert(confirmation@ =~= confirmation_marker());
    assert(marker@ =~= value_marker());
    if find(text, confirmation.as_slice()).is_none() {
        return Err(ThermometerError::Unconfirmed);
    }
    match find(text, marker.as_slice()) {
        None => Err(ThermometerError::ValueMissing),
        Some(at) => {
            let n: usize = text.len();
            assert(at + 2 <= n);
            let bounds = trim_bounds(text, at + 2);
            match read_integer(text, bounds.0, bounds.1) {
                Some(value) => Ok(value),
                None => Err(ThermometerError::ValueMalformed),
            }
        },
    }
}

/// The outcome of one thermometer read, from the report where it could be
/// had and from its absence where not.
pub fn read_outcome(report: Option<&[u8]>) -> (outcome: Result<i32, ThermometerError>)
    ensures
        outcome == outcome_of(
            match report {
                Some(text) => Some(text@),
                None => None,
            },
        ),
{
    match report {
        Some(text) => parse_report(text),
        None => Err(ThermometerError::Unreadable),
    }
}

} // verus!
