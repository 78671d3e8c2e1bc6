//! Run configuration: the sampling interval, the output path and the total
//! time budget, each validated once at startup.

use vstd::prelude::*;
use vstd::string::StrSliceExecFns;

verus! {

/// The immutable configuration of one run.
pub struct RunConfig {
    /// Seconds between ticks.
    pub interval_seconds: u64,
    /// Path of the CSV output file.
    pub output_path: String,
    /// Total run budget in seconds.
    pub max_duration_seconds: u64,
}

/// A fatal configuration error: a numeric argument did not parse.
#[derive(Debug, PartialEq, Eq, Structural)]
pub enum ConfigError {
    InvalidInterval,
    InvalidDuration,
}

/// The value of a sequence of decimal digits, or `None` if the sequence is
/// empty, holds a non-digit, or its value does not fit in `u64`.
pub open spec fn parse_dec(s: Seq<char>) -> Option<u64>
    decreases s.len(),
{
    if s.len() == 0 {
        None
    } else if s.len() == 1 {
        digit_value(s[0])
    } else {
        match parse_dec(s.drop_last()) {
            None => None,
            Some(hi) => match digit_value(s.last()) {
                None => None,
                Some(d) => if hi <= (u64::MAX - d) / 10 {
                    Some((hi * 10 + d) as u64)
                } else {
                    None
                },
            },
        }
    }
}

/// The value of one decimal digit character.
pub open spec fn digit_value(c: char) -> Option<u64> {
    if c == '0' { Some(0u64) }
    else if c == '1' { Some(1u64) }
    else if c == '2' { Some(2u64) }
    else if c == '3' { Some(3u64) }
    else if c == '4' { Some(4u64) }
    else if c == '5' { Some(5u64) }
    else if c == '6' { Some(6u64) }
    else if c == '7' { Some(7u64) }
    else if c == '8' { Some(8u64) }
    else if c == '9' { Some(9u64) }
    else { None }
}

/// A `None` parse of a prefix makes the whole sequence parse as `None`.
proof fn lemma_parse_dec_none_prefix(s: Seq<char>, i: int)
    requires
        0 < i <= s.len(),
        parse_dec(s.take(i)) is None,
    ensures
        parse_dec(s) is None,
    decreases s.len() - i,
{
    if i == s.len() {
        assert(s.take(i) =~= s);
    } else {
        assert(s.take(i + 1).drop_last() =~= s.take(i));
        assert(s.take(i + 1).len() > 1 ==> parse_dec(s.take(i + 1)) is None);
        if s.take(i + 1).len() == 1 {
            assert(i == 0);
        }
        lemma_parse_dec_none_prefix(s, i + 1);
    }
}

/// Reads a non-negative decimal integer, as the startup validation of the
/// numeric command-line arguments: `None` on an empty string, a non-digit
/// character, or a value that does not fit in `u64`.
pub fn parse_u64(s: &str) -> (r: Option<u64>)
    ensures
        r == parse_dec(s@),
{
    let n = s.unicode_len();
    if n == 0 {
        return None;
    }
    let mut value: u64 = 0;
    let mut i: usize = 0;
    while i < n
        invariant
            0 < n == s@.len(),
            0 <= i <= n,
            i > 0 ==> parse_dec(s@.take(i as int)) == Some(value),
            i == 0 ==> value == 0,
        decreases n - i,
    {
        let c = s.get_char(i);
        let d: u64 = match c {
            '0' => 0,
            '1' => 1,
            '2' => 2,
            '3' => 3,
            '4' => 4,
            '5' => 5,
            '6' => 6,
            '7' => 7,
            '8' => 8,
            '9' => 9,
            _ => {
                proof {
                    assert(s@.take(i + 1).last() == c);
                    assert(s@.take(i + 1).drop_last() =~= s@.take(i as int));
                    assert(parse_dec(s@.take(i + 1)) is None);
                    lemma_parse_dec_none_prefix(s@, i + 1);
                }
                return None;
            },
        };
        proof {
            assert(digit_value(c) == Some(d));
            assert(s@.take(i + 1).last() == c);
            assert(s@.take(i + 1).drop_last() =~= s@.take(i as int));
        }
        if i == 0 {
            value = d;
            proof {
                assert(s@.take(1).len() == 1);
                assert(parse_dec(s@.take(1)) == digit_value(s@.take(1)[0]));
            }
        } else if value <= (u64::MAX - d) / 10 {
            proof {
                assert(value * 10 + d <= u64::MAX) by (nonlinear_arith)
                    requires value <= (u64::MAX - d) / 10, d <= 9;
            }
            value = value * 10 + d;
        } else {
            proof {
                assert(parse_dec(s@.take(i + 1)) is None);
                lemma_parse_dec_none_prefix(s@, i + 1);
            }
            return None;
        }
        i = i + 1;
    }
    proof {
        assert(s@.take(n as int) =~= s@);
    }
    Some(value)
}

impl RunConfig {
    /// Builds a validated configuration from the textual values of the three
    /// command-line arguments. `Ok` exactly when both numeric arguments read
    /// as decimal `u64` values; the error names the first argument that does
    /// not.
    pub fn from_args(interval: &str, output: &str, duration: &str) -> (r: Result<RunConfig, ConfigError>)
        ensures
            r is Ok <==> (parse_dec(interval@) is Some && parse_dec(duration@) is Some),
            r matches Ok(c) ==> {
                &&& parse_dec(interval@) == Some(c.interval_seconds)
                &&& c.output_path@ == output@
                &&& parse_dec(duration@) == Some(c.max_duration_seconds)
            },
            r matches Err(e) ==> {
                ||| (e is InvalidInterval && parse_dec(interval@) is None)
                ||| (e is InvalidDuration && parse_dec(interval@) is Some
                    && parse_dec(duration@) is None)
            },
    {
        let interval_seconds = match parse_u64(interval) {
            Some(v) => v,
            None => { return Err(ConfigError::InvalidInterval); },
        };
        let max_duration_seconds = match parse_u64(duration) {
            Some(v) => v,
            None => { return Err(ConfigError::InvalidDuration); },
        };
        Ok(RunConfig {
            interval_seconds,
            output_path: output.to_owned(),
            max_duration_seconds,
        })
    }
}

} // verus!
