//! Reading the sensor's text: surrounding whitespace is dropped and what is
//! left is read as a signed decimal integer.

use crate::decimal::{decimal, digit_char, digits};
use vstd::prelude::*;

verus! {

/// Why a sensor text holds no reading.
#[derive(Clone, Copy, Debug, PartialEq, Eq, Structural)]
pub enum SensorError {
    /// Nothing but whitespace.
    Empty,
    /// Something other than an optional sign followed by decimal digits.
    InvalidDigit,
    /// A number that does not fit in 32 bits.
    OutOfRange,
}

/// The largest magnitude of a reading: that of the smallest number of 32 bits.
pub const MAGNITUDE_LIMIT: u64 = 2147483648;

/// The whitespace characters of Unicode (those with the property `White_Space`).
pub open spec fn is_whitespace(c: char) -> bool {
    let u = c as u32;
    ||| 0x09 <= u <= 0x0D
    ||| u == 0x20
    ||| u == 0x85
    ||| u == 0xA0
    ||| u == 0x1680
    ||| 0x2000 <= u <= 0x200A
    ||| u == 0x2028
    ||| u == 0x2029
    ||| u == 0x202F
    ||| u == 0x205F
    ||| u == 0x3000
}

/// `s` without the whitespace at its two ends.
pub open spec fn trimmed(s: Seq<char>) -> Seq<char>
    decreases s.len(),
{
    if s.len() > 0 && is_whitespace(s.first()) {
        trimmed(s.drop_first())
    } else if s.len() > 0 && is_whitespace(s.last()) {
        trimmed(s.drop_last())
    } else {
        s
    }
}

/// One of the characters `0` to `9`.
pub open spec fn is_digit(c: char) -> bool {
    '0' <= c <= '9'
}

/// The value of the digit `c`.
pub open spec fn digit_value(c: char) -> nat {
    (c as u32 - '0' as u32) as nat
}

/// Every character of `s` is a decimal digit.
pub open spec fn all_digits(s: Seq<char>) -> bool {
    forall|i: int| 0 <= i < s.len() ==> is_digit(#[trigger] s[i])
}

/// The number that the digits `s` spell in base ten; leading zeros are allowed.
pub open spec fn digits_value(s: Seq<char>) -> nat
    decreases s.len(),
{
    if s.len() == 0 {
        0
    } else {
        digits_value(s.drop_last()) * 10 + digit_value(s.last())
    }
}

/// The reading that a sensor text holds: after trimming, an optional `+` or `-`
/// and at least one decimal digit, spelling a number that fits in 32 bits.
pub open spec fn sensor_reading(text: Seq<char>) -> Result<i32, SensorError> {
    let t = trimmed(text);
    if t.len() == 0 {
        Err(SensorError::Empty)
    } else {
        let negative = t[0] == '-';
        let body = if negative || t[0] == '+' { t.drop_first() } else { t };
        if body.len() == 0 || !all_digits(body) {
            Err(SensorError::InvalidDigit)
        } else {
            let value = if negative { -(digits_value(body) as int) } else { digits_value(body) as int };
            if i32::MIN <= value <= i32::MAX {
                Ok(value as i32)
            } else {
                Err(SensorError::OutOfRange)
            }
        }
    }
}

/// Trimming keeps exactly the stretch between the first and the last character
/// that is not whitespace.
proof fn lemma_trimmed_is_subrange(s: Seq<char>, from: int, to: int)
    requires
        0 <= from <= to <= s.len(),
        forall|i: int| 0 <= i < from ==> is_whitespace(#[trigger] s[i]),
        forall|i: int| to <= i < s.len() ==> is_whitespace(#[trigger] s[i]),
        from < to ==> !is_whitespace(s[from]) && !is_whitespace(s[to - 1]),
    ensures
        trimmed(s) == s.subrange(from, to),
    decreases s.len(),
{
    if s.len() > 0 {
        if is_whitespace(s.first()) {
            // Where nothing is kept, the text is whitespace throughout and is
            // used up from the left.
            if from > 0 {
                lemma_trimmed_is_subrange(s.drop_first(), from - 1, to - 1);
            } else {
                lemma_trimmed_is_subrange(s.drop_first(), 0, 0);
            }
        } else if is_whitespace(s.last()) {
            lemma_trimmed_is_subrange(s.drop_last(), 0, to);
        }
    }
}

/// One more digit multiplies the value read so far by ten and adds the digit.
proof fn lemma_digits_value_step(s: Seq<char>, k: int)
    requires
        0 <= k < s.len(),
    ensures
        digits_value(s.take(k + 1)) == digits_value(s.take(k)) * 10 + digit_value(s[k]),
{
    assert(s.take(k + 1).drop_last() =~= s.take(k));
}

/// The digits written for `n` are decimal digits, at least one, and spell `n`.
proof fn lemma_digits_spell_their_number(n: nat)
    ensures
        digits(n).len() >= 1,
        all_digits(digits(n)),
        digits_value(digits(n)) == n,
    decreases n,
{
    if n < 10 {
        assert(digits_value(digits(n).drop_last()) == 0);
    } else {
        lemma_digits_spell_their_number(n / 10);
        assert(digits(n).drop_last() =~= digits(n / 10));
    }
}

/// A number written in base ten is read back as the same number: the brightness
/// and the offsets that this crate writes are texts that it accepts as readings.
pub proof fn lemma_decimal_reads_back(n: int)
    requires
        i32::MIN <= n <= i32::MAX,
    ensures
        sensor_reading(decimal(n)) == Ok::<i32, SensorError>(n as i32),
{
    let magnitude = (if n < 0 { -n } else { n }) as nat;
    lemma_digits_spell_their_number(magnitude);
    if n < 0 {
        assert(decimal(n).drop_first() =~= digits(magnitude));
    }
}

fn chars_of(text: &str) -> (chars: Vec<char>)
    ensures
        chars@ == text@,
{
    let mut chars: Vec<char> = Vec::new();
    for c in it: text.chars()
        invariant
            it.seq() == text@,
            chars@ == text@.take(it.index() as int),
    {
        chars.push(c);
    }
    chars
}

/// Tells whether `c` is whitespace.
pub fn is_whitespace_char(c: char) -> (yes: bool)
    ensures
        yes == is_whitespace(c),
{
    let u: u32 = c as u32;
    (0x09 <= u && u <= 0x0D) || u == 0x20 || u == 0x85 || u == 0xA0 || u == 0x1680 || (0x2000 <= u
        && u <= 0x200A) || u == 0x2028 || u == 0x2029 || u == 0x202F || u == 0x205F || u == 0x3000
}

/// Reads a sensor text.
///
/// Returns the reading where the text, once trimmed, is a signed decimal integer
/// of 32 bits, and otherwise says what is wrong with it.
pub fn parse_sensor(text: &str) -> (reading: Result<i32, SensorError>)
    ensures
        reading == sensor_reading(text@),
{
    let chars = chars_of(text);
    let len = chars.len();
    let mut from: usize = 0;
    while from < len && is_whitespace_char(chars[from])
        invariant
            from <= len == chars@.len(),
            forall|i: int| 0 <= i < from ==> is_whitespace(#[trigger] chars@[i]),
        decreases len - from,
    {
        from = from + 1;
    }
    let mut to: usize = len;
    while to > from && is_whitespace_char(chars[to - 1])
        invariant
            from <= to <= len == chars@.len(),
            forall|i: int| to <= i < len ==> is_whitespace(#[trigger] chars@[i]),
        decreases to,
    {
        to = to - 1;
    }
    proof {
        lemma_trimmed_is_subrange(chars@, from as int, to as int);
    }
    let ghost t = chars@.subrange(from as int, to as int);
    if from == to {
        return Err(SensorError::Empty);
    }
    let negative = chars[from] == '-';
    let start: usize = if negative || chars[from] == '+' { from + 1 } else { from };
    let ghost body = chars@.subrange(start as int, to as int);
    proof {
        if negative || chars@[from as int] == '+' {
            assert(body =~= t.drop_first());
        }
    }
    if start == to {
        return Err(SensorError::InvalidDigit);
    }
    // The magnitude, as long as it has not passed the limit; beyond it only the
    // fact is kept, and the remaining characters are still looked at.
    let limit: u64 = MAGNITUDE_LIMIT;
    let mut magnitude: u64 = 0;
    let mut beyond = false;
    let mut k: usize = start;
    while k < to
        invariant
            start <= k <= to <= len == chars@.len(),
            body == chars@.subrange(start as int, to as int),
            limit == MAGNITUDE_LIMIT,
            !all_digits(body) ==> sensor_reading(text@) == Err::<i32, SensorError>(
                SensorError::InvalidDigit,
            ),
            forall|i: int| 0 <= i < k - start ==> is_digit(#[trigger] body[i]),
            beyond ==> digits_value(body.take(k - start)) > limit,
            !beyond ==> magnitude == digits_value(body.take(k - start)) && magnitude <= limit,
        decreases to - k,
    {
        let c = chars[k];
        assert(body[k - start] == c);
        if !('0' <= c && c <= '9') {
            return Err(SensorError::InvalidDigit);
        }
        proof {
            lemma_digits_value_step(body, k - start);
        }
        if !beyond {
            magnitude = magnitude * 10 + ((c as u32 - '0' as u32) as u64);
            if magnitude > limit {
                beyond = true;
            }
        }
        k = k + 1;
    }
    proof {
        assert(body.take(to - start) =~= body);
    }
    if beyond {
        Err(SensorError::OutOfRange)
    } else if negative {
        Ok((-(magnitude as i64)) as i32)
    } else if magnitude == limit {
        Err(SensorError::OutOfRange)
    } else {
        Ok(magnitude as i32)
    }
}

} // verus!
