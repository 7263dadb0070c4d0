//! Compact duration texts such as `1h30m` or `45s`.
//!
//! A timespan is written as a run of groups, each a decimal number followed
//! by one of the unit letters `h`, `m` or `s` (either case). Digits left over
//! at the end count as seconds. The value of the text is the sum of its
//! groups, in seconds.

use vstd::prelude::*;
use crate::utils::text::{decimal, digit_char, digit_value, is_digit, push_decimal};

verus! {

/// Why a text is not a timespan.
#[derive(Debug, Clone, Copy, PartialEq, Eq, Structural)]
pub enum TimespanError {
    /// A character that is neither a decimal digit nor a unit letter.
    InvalidCharacter(char),
    /// A unit letter with no digits in front of it.
    MissingNumber,
    /// A run of digits whose value does not fit in 64 bits.
    NumberTooLarge,
    /// The sum of the groups does not fit in 64 bits.
    Overflow,
}

/// What a scan has seen so far: the seconds of the completed groups, and the
/// value of the digits read since the last unit letter, if there are any.
pub struct ScanState {
    pub total: nat,
    pub pending: Option<nat>,
}

/// The number of seconds in one unit, for a unit letter.
pub open spec fn unit_seconds(c: char) -> Option<nat> {
    if c == 'h' || c == 'H' {
        Some(3600)
    } else if c == 'm' || c == 'M' {
        Some(60)
    } else if c == 's' || c == 'S' {
        Some(1)
    } else {
        None
    }
}

/// Closes the pending digits as a group of `unit` seconds each.
pub open spec fn close_group(st: ScanState, unit: nat) -> Result<ScanState, TimespanError> {
    match st.pending {
        None => Err(TimespanError::MissingNumber),
        Some(n) => if n > u64::MAX {
            Err(TimespanError::NumberTooLarge)
        } else if st.total + n * unit > u64::MAX {
            Err(TimespanError::Overflow)
        } else {
            Ok(ScanState { total: st.total + n * unit, pending: None })
        },
    }
}

/// The state after one more character.
pub open spec fn scan_step(st: ScanState, c: char) -> Result<ScanState, TimespanError> {
    if is_digit(c) {
        let before = match st.pending {
            Some(n) => n,
            None => 0,
        };
        Ok(ScanState { total: st.total, pending: Some(before * 10 + digit_value(c)) })
    } else {
        match unit_seconds(c) {
            Some(unit) => close_group(st, unit),
            None => Err(TimespanError::InvalidCharacter(c)),
        }
    }
}

/// The state after all of `s`, or the first error met from the left.
pub open spec fn scan(s: Seq<char>) -> Result<ScanState, TimespanError>
    decreases s.len(),
{
    if s.len() == 0 {
        Ok(ScanState { total: 0, pending: None })
    } else {
        match scan(s.drop_last()) {
            Err(e) => Err(e),
            Ok(st) => scan_step(st, s.last()),
        }
    }
}

/// The value of a timespan text in seconds.
pub open spec fn timespan_seconds(s: Seq<char>) -> Result<nat, TimespanError> {
    match scan(s) {
        Err(e) => Err(e),
        Ok(st) => match st.pending {
            None => Ok(st.total),
            Some(_) => match close_group(st, 1) {
                Err(e) => Err(e),
                Ok(done) => Ok(done.total),
            },
        },
    }
}

/// What the executable scanner holds of a `ScanState`: numbers above 64 bits
/// are only remembered as being too large.
spec fn tracks(total: u64, have_digits: bool, number: u64, too_large: bool, st: ScanState) -> bool {
    &&& st.total == total
    &&& have_digits <==> st.pending is Some
    &&& have_digits && !too_large ==> st.pending == Some(number as nat)
    &&& have_digits && too_large ==> st.pending.unwrap() > u64::MAX
    &&& !have_digits ==> !too_large && number == 0
}

/// Parses a timespan text into seconds.
pub fn parse_timespan(timespan: &str) -> (result: Result<u64, TimespanError>)
    ensures
        match timespan_seconds(timespan@) {
            Ok(secs) => result == Ok::<u64, TimespanError>(secs as u64) && secs <= u64::MAX,
            Err(e) => result == Err::<u64, TimespanError>(e),
        },
{
    let mut total: u64 = 0;
    let mut number: u64 = 0;
    let mut have_digits = false;
    let mut too_large = false;
    for c in it: timespan.chars()
        invariant
            it.seq() == timespan@,
            scan(it.seq().take(it.index())) is Ok,
            tracks(total, have_digits, number, too_large, scan(it.seq().take(it.index())).unwrap()),
    {
        let ghost seen = it.seq().take(it.index());
        let ghost next = it.seq().take(it.index() + 1);
        proof {
            assert(next.drop_last() == seen);
            assert(next.last() == c);
            assert(scan(next) == scan_step(scan(seen).unwrap(), c));
        }
        if c >= '0' && c <= '9' {
            let d: u64 = (c as u32 - '0' as u32) as u64;
            if !too_large {
                match number.checked_mul(10) {
                    Some(tens) => match tens.checked_add(d) {
                        Some(n) => {
                            number = n;
                        },
                        None => {
                            too_large = true;
                        },
                    },
                    None => {
                        too_large = true;
                    },
                }
            }
            have_digits = true;
        } else {
            let unit: u64 = if c == 'h' || c == 'H' {
                3600
            } else if c == 'm' || c == 'M' {
                60
            } else if c == 's' || c == 'S' {
                1
            } else {
                proof {
                    lemma_scan_error_stays(timespan@, it.index() + 1);
                }
                return Err(TimespanError::InvalidCharacter(c));
            };
            if !have_digits {
                proof {
                    lemma_scan_error_stays(timespan@, it.index() + 1);
                }
                return Err(TimespanError::MissingNumber);
            }
            if too_large {
                proof {
                    lemma_scan_error_stays(timespan@, it.index() + 1);
                }
                return Err(TimespanError::NumberTooLarge);
            }
            match add_group(total, number, unit) {
                Some(sum) => {
                    total = sum;
                },
                None => {
                    proof {
                        lemma_scan_error_stays(timespan@, it.index() + 1);
                    }
                    return Err(TimespanError::Overflow);
                },
            }
            number = 0;
            have_digits = false;
        }
    }
    proof {
        assert(timespan@.take(timespan@.len() as int) == timespan@);
    }
    if !have_digits {
        return Ok(total);
    }
    if too_large {
        return Err(TimespanError::NumberTooLarge);
    }
    match add_group(total, number, 1) {
        Some(sum) => Ok(sum),
        None => Err(TimespanError::Overflow),
    }
}

/// `total + number * unit`, where that fits in 64 bits.
fn add_group(total: u64, number: u64, unit: u64) -> (sum: Option<u64>)
    ensures
        sum == if total + number * unit <= u64::MAX {
            Some((total + number * unit) as u64)
        } else {
            None::<u64>
        },
{
    match number.checked_mul(unit) {
        Some(seconds) => total.checked_add(seconds),
        None => None,
    }
}

/// Once a prefix of a text fails to scan, the whole text fails with the same
/// error.
proof fn lemma_scan_error_stays(s: Seq<char>, k: int)
    requires
        0 <= k <= s.len(),
        scan(s.take(k)) is Err,
    ensures
        scan(s) == scan(s.take(k)),
    decreases s.len() - k,
{
    if k == s.len() {
        assert(s.take(k) == s);
    } else {
        assert(s.take(k + 1).drop_last() == s.take(k));
        lemma_scan_error_stays(s, k + 1);
    }
}

/// The numeral of `n` followed by the unit letter, or nothing where `n` is 0.
pub open spec fn group_text(n: nat, unit: char) -> Seq<char> {
    if n > 0 {
        decimal(n).push(unit)
    } else {
        Seq::empty()
    }
}

/// The compact text of a number of seconds: hours, minutes and seconds, each
/// left out where it is zero, and `0s` for no time at all.
pub open spec fn timespan_text(secs: nat) -> Seq<char> {
    let hours = secs / 3600;
    let minutes = (secs / 60) % 60;
    let seconds = secs % 60;
    group_text(hours, 'h') + group_text(minutes, 'm') + if seconds > 0 || (hours == 0 && minutes
        == 0) {
        decimal(seconds).push('s')
    } else {
        Seq::empty()
    }
}

/// Formats a number of seconds as a timespan text.
pub fn format_timespan(secs: u64) -> (text: String)
    ensures
        text@ == timespan_text(secs as nat),
{
    let hours = secs / 3600;
    let minutes = (secs / 60) % 60;
    let seconds = secs % 60;
    let mut text = String::new();
    if hours > 0 {
        push_decimal(&mut text, hours);
        text.push('h');
    }
    if minutes > 0 {
        push_decimal(&mut text, minutes);
        text.push('m');
    }
    if seconds > 0 || (hours == 0 && minutes == 0) {
        push_decimal(&mut text, seconds);
        text.push('s');
    }
    proof {
        assert(text@ == timespan_text(secs as nat));
    }
    text
}

/// Scanning a numeral after a text that ends a group reads the number.
proof fn lemma_scan_numeral(p: Seq<char>, n: nat)
    requires
        scan(p) is Ok,
        scan(p).unwrap().pending is None,
    ensures
        scan(p + decimal(n)) == Ok::<ScanState, TimespanError>(
            ScanState { total: scan(p).unwrap().total, pending: Some(n) },
        ),
    decreases n,
{
    let d = digit_char(n % 10);
    assert(is_digit(d) && digit_value(d) == n % 10);
    if n < 10 {
        assert(decimal(n) == seq![d]);
        assert((p + decimal(n)).drop_last() == p);
    } else {
        lemma_scan_numeral(p, n / 10);
        assert((p + decimal(n)).drop_last() == p + decimal(n / 10));
    }
    assert((p + decimal(n)).last() == d);
}

/// Scanning one group after a text that ends a group adds the group's
/// seconds.
proof fn lemma_scan_group(p: Seq<char>, n: nat, letter: char)
    requires
        scan(p) is Ok,
        scan(p).unwrap().pending is None,
        unit_seconds(letter) is Some,
        scan(p).unwrap().total + n * unit_seconds(letter).unwrap() <= u64::MAX,
    ensures
        scan(p + decimal(n).push(letter)) == Ok::<ScanState, TimespanError>(
            ScanState {
                total: scan(p).unwrap().total + n * unit_seconds(letter).unwrap(),
                pending: None,
            },
        ),
{
    lemma_scan_numeral(p, n);
    let whole = p + decimal(n).push(letter);
    assert(whole.drop_last() == p + decimal(n));
    assert(whole.last() == letter);
    assert(n <= n * unit_seconds(letter).unwrap()) by (nonlinear_arith)
        requires
            unit_seconds(letter).unwrap() >= 1,
    ;
}

/// A single group, such as `24h` or `30m`, stands for its number times the
/// seconds of its unit.
pub proof fn lemma_group_value(n: nat, letter: char)
    requires
        unit_seconds(letter) is Some,
        n * unit_seconds(letter).unwrap() <= u64::MAX,
    ensures
        timespan_seconds(decimal(n).push(letter)) == Ok::<nat, TimespanError>(
            n * unit_seconds(letter).unwrap(),
        ),
{
    let empty = Seq::<char>::empty();
    lemma_scan_group(empty, n, letter);
    assert(empty + decimal(n).push(letter) == decimal(n).push(letter));
}

/// Parsing the text of a number of seconds gives that number back.
pub proof fn lemma_timespan_round_trip(secs: u64)
    ensures
        timespan_seconds(timespan_text(secs as nat)) == Ok::<nat, TimespanError>(secs as nat),
{
    let n = secs as nat;
    let hours = n / 3600;
    let minutes = (n / 60) % 60;
    let seconds = n % 60;
    assert(hours * 3600 + minutes * 60 + seconds == n);
    let empty = Seq::<char>::empty();
    let a = group_text(hours, 'h');
    if hours > 0 {
        lemma_scan_group(empty, hours, 'h');
        assert(empty + a == a);
    }
    assert(scan(a) == Ok::<ScanState, TimespanError>(
        ScanState { total: hours * 3600, pending: None },
    ));
    let b = a + group_text(minutes, 'm');
    if minutes > 0 {
        lemma_scan_group(a, minutes, 'm');
    } else {
        assert(b == a);
    }
    assert(scan(b) == Ok::<ScanState, TimespanError>(
        ScanState { total: hours * 3600 + minutes * 60, pending: None },
    ));
    if seconds > 0 || (hours == 0 && minutes == 0) {
        lemma_scan_group(b, seconds, 's');
    } else {
        assert(timespan_text(n) == b);
    }
}

} // verus!
