//! The laws of the sampler, each proved once and for all inputs: what the
//! output file holds for a zero budget or an early cancellation, the header
//! text, the shared per-tick timestamp, the tick-count bounds of a timed run,
//! how a sink failure ends a run, the shape of a data row — one line of five
//! comma-separated fields whose numeric columns read back as the numbers
//! they were written from — and that quoting a field loses nothing.

use vstd::prelude::*;

use crate::config::digit_value;
use crate::config::parse_dec;
use crate::csv_out::contains_char;
use crate::csv_out::count_char;
use crate::csv_out::csv_record;
use crate::csv_out::double_quotes;
use crate::csv_out::encoded_field;
use crate::csv_out::field_needs_quoting;
use crate::csv_out::header_line;
use crate::csv_out::joined_fields;
use crate::csv_out::lemma_header_line_text;
use crate::csv_out::undouble_quotes;
use crate::session::LoopError;
use crate::session::TickInput;
use crate::session::session_outcome;
use crate::session::session_rows;
use crate::session::session_ticks;
use crate::session::tick_clean;
use crate::session::tick_runs;
use crate::text::dec_digits;
use crate::text::digit_char;
use crate::text::hundredths_digits;
use crate::text::lemma_dec_digits_len;
use crate::tick::ProcessSample;
use crate::tick::row_fields;

verus! {

/// The character scan the CSV quoting rule is written with agrees with
/// `Seq::contains`: a field is quoted exactly when one of the special
/// characters occurs in it.
pub proof fn lemma_contains_char_equiv(f: Seq<char>, c: char)
    ensures
        contains_char(f, c) <==> f.contains(c),
    decreases f.len(),
{
    if f.len() == 0 {
    } else {
        lemma_contains_char_equiv(f.drop_first(), c);
        if f[0] == c {
            assert(f.contains(c));
        } else if contains_char(f.drop_first(), c) {
            let j = choose|j: int| 0 <= j < f.drop_first().len() && f.drop_first()[j] == c;
            assert(f[j + 1] == c);
            assert(f.contains(c));
        } else if f.contains(c) {
            let j = choose|j: int| 0 <= j < f.len() && f[j] == c;
            assert(j != 0);
            assert(f.drop_first()[j - 1] == c);
            assert(f.drop_first().contains(c));
        }
    }
}

/// A run with a zero time budget completes normally with no ticks: the file
/// holds exactly the header line.
pub proof fn lemma_zero_duration_header_only(ticks: Seq<TickInput>)
    ensures
        session_rows(ticks, 0) == Seq::<char>::empty(),
        session_ticks(ticks, 0) == 0,
        session_outcome(ticks, 0) == Ok::<(), LoopError>(()),
{
}

/// Cancellation requested before the first continuation check completes the
/// run normally with no ticks: the file holds exactly the header line.
pub proof fn lemma_cancel_before_first_check(ticks: Seq<TickInput>, max_duration_seconds: u64)
    requires
        ticks.len() > 0,
        ticks[0].cancel_requested,
    ensures
        session_rows(ticks, max_duration_seconds) == Seq::<char>::empty(),
        session_ticks(ticks, max_duration_seconds) == 0,
        session_outcome(ticks, max_duration_seconds) == Ok::<(), LoopError>(()),
{
}

/// The first line of every output file whose header write succeeded is
/// exactly the header, whatever the run's ticks contributed after it: the
/// file text begins with the header characters, whose only line feed is the
/// last of them.
pub proof fn lemma_first_line_is_header(ticks: Seq<TickInput>, max_duration_seconds: u64)
    ensures
        ({
            let out = header_line() + session_rows(ticks, max_duration_seconds);
            &&& out.take(58) == "Timestamp,PID,Process Name,CPU Usage (%),Memory Usage (%)\n"@
            &&& out[57] == '\n'
            &&& forall|j: int| 0 <= j < 57 ==> out[j] != '\n'
        }),
{
    lemma_header_line_text();
    let out = header_line() + session_rows(ticks, max_duration_seconds);
    assert(out.take(58) =~= header_line());
}

/// Every row of one tick carries the tick's timestamp as its first field.
pub proof fn lemma_tick_rows_share_timestamp(ts: Seq<char>, samples: Seq<ProcessSample>)
    ensures
        forall|i: int|
            0 <= i < samples.len() ==> (#[trigger] row_fields(ts, samples[i]))[0] == ts,
{
}

/// A run never completes more ticks than it was given inputs.
pub proof fn lemma_session_ticks_bounds(ticks: Seq<TickInput>, max_duration_seconds: u64)
    ensures
        0 <= session_ticks(ticks, max_duration_seconds) <= ticks.len(),
    decreases ticks.len(),
{
    if ticks.len() > 0 && tick_runs(ticks[0], max_duration_seconds) && tick_clean(ticks[0]) {
        lemma_session_ticks_bounds(ticks.drop_first(), max_duration_seconds);
    }
}

/// Every completed tick passed its continuation check and its sink
/// operations.
pub proof fn lemma_completed_tick_ran(ticks: Seq<TickInput>, max_duration_seconds: u64, j: int)
    requires
        0 <= j < session_ticks(ticks, max_duration_seconds),
    ensures
        tick_runs(ticks[j], max_duration_seconds),
        tick_clean(ticks[j]),
    decreases j,
{
    lemma_session_ticks_bounds(ticks, max_duration_seconds);
    if j > 0 {
        lemma_completed_tick_ran(ticks.drop_first(), max_duration_seconds, j - 1);
    }
}

/// The tick-count bounds of a healthy timed run: with the first check at
/// zero elapsed seconds, every later check at least one sleep interval after
/// the one before, no cancellation and a willing sink, the run completes at
/// least one tick, and every completed tick after the first cost at least
/// `interval_seconds` of the budget.
pub proof fn lemma_tick_count_bounds(
    ticks: Seq<TickInput>,
    max_duration_seconds: u64,
    interval_seconds: u64,
)
    requires
        max_duration_seconds >= 1,
        interval_seconds >= 1,
        ticks.len() > 0,
        ticks[0].elapsed_seconds == 0,
        forall|i: int|
            0 <= i < ticks.len() ==> (#[trigger] ticks[i].elapsed_seconds) >= i * interval_seconds,
        forall|i: int| 0 <= i < ticks.len() ==> !(#[trigger] ticks[i]).cancel_requested,
        forall|i: int| 0 <= i < ticks.len() ==> tick_clean(#[trigger] ticks[i]),
    ensures
        1 <= session_ticks(ticks, max_duration_seconds),
        (session_ticks(ticks, max_duration_seconds) - 1) * interval_seconds
            < max_duration_seconds,
{
    lemma_session_ticks_bounds(ticks, max_duration_seconds);
    lemma_session_ticks_bounds(ticks.drop_first(), max_duration_seconds);
    assert(tick_runs(ticks[0], max_duration_seconds));
    assert(tick_clean(ticks[0]));
    assert(session_ticks(ticks, max_duration_seconds) >= 1);
    let k = session_ticks(ticks, max_duration_seconds);
    lemma_completed_tick_ran(ticks, max_duration_seconds, k - 1);
    assert(ticks[k - 1].elapsed_seconds >= (k - 1) * interval_seconds);
    assert(ticks[k - 1].elapsed_seconds < max_duration_seconds);
}

/// The first sink failure ends the run at once with an error naming the
/// failed write and its cause: the ticks before it are completed, nothing of
/// the failed tick or of any later one reaches the file, and no further tick
/// runs.
pub proof fn lemma_write_failure_stops(
    ticks: Seq<TickInput>,
    max_duration_seconds: u64,
    k: int,
    cause: String,
)
    requires
        0 <= k < ticks.len(),
        forall|j: int|
            0 <= j < k ==> tick_runs(#[trigger] ticks[j], max_duration_seconds) && tick_clean(
                ticks[j],
            ),
        tick_runs(ticks[k], max_duration_seconds),
        ticks[k].write_error == Some(cause),
    ensures
        session_outcome(ticks, max_duration_seconds) == (Err::<(), LoopError>(
            LoopError::RowWrite { cause },
        )),
        session_ticks(ticks, max_duration_seconds) == k,
        session_rows(ticks, max_duration_seconds) == session_rows(
            ticks.take(k),
            max_duration_seconds,
        ),
    decreases k,
{
    if k == 0 {
        assert(session_rows(ticks.take(0), max_duration_seconds) == Seq::<char>::empty());
    } else {
        lemma_write_failure_stops(ticks.drop_first(), max_duration_seconds, k - 1, cause);
        assert(ticks.take(k).drop_first() =~= ticks.drop_first().take(k - 1));
    }
}

/// A character occurs in a concatenation exactly when it occurs in a part.
proof fn lemma_contains_char_concat(a: Seq<char>, b: Seq<char>, c: char)
    ensures
        contains_char(a + b, c) == (contains_char(a, c) || contains_char(b, c)),
    decreases a.len(),
{
    if a.len() == 0 {
        assert(a + b =~= b);
    } else {
        assert((a + b).drop_first() =~= a.drop_first() + b);
        lemma_contains_char_concat(a.drop_first(), b, c);
    }
}

/// Occurrences add up over a concatenation.
proof fn lemma_count_char_concat(a: Seq<char>, b: Seq<char>, c: char)
    ensures
        count_char(a + b, c) == count_char(a, c) + count_char(b, c),
    decreases a.len(),
{
    if a.len() == 0 {
        assert(a + b =~= b);
    } else {
        assert((a + b).drop_first() =~= a.drop_first() + b);
        lemma_count_char_concat(a.drop_first(), b, c);
    }
}

/// A character that does not occur in a sequence occurs zero times.
proof fn lemma_count_char_zero(f: Seq<char>, c: char)
    requires
        !contains_char(f, c),
    ensures
        count_char(f, c) == 0,
    decreases f.len(),
{
    if f.len() > 0 {
        lemma_count_char_zero(f.drop_first(), c);
    }
}

/// One character occurs in a one-character sequence exactly when it is that
/// character.
proof fn lemma_contains_char_single(x: char, c: char)
    ensures
        contains_char(seq![x], c) == (x == c),
{
    reveal_with_fuel(contains_char, 3);
    assert(seq![x].drop_first() =~= Seq::<char>::empty());
}

/// The occurrence count in a one-character sequence is one or zero.
proof fn lemma_count_char_single(x: char, c: char)
    ensures
        count_char(seq![x], c) == if x == c {
            1int
        } else {
            0int
        },
{
    reveal_with_fuel(count_char, 3);
    assert(seq![x].drop_first() =~= Seq::<char>::empty());
}

/// A decimal digit character is never one the CSV writer quotes for.
proof fn lemma_digit_char_plain(d: u64, c: char)
    requires
        c == ',' || c == '"' || c == '\n' || c == '\r',
    ensures
        !contains_char(seq![digit_char(d)], c),
{
    lemma_contains_char_single(digit_char(d), c);
}

/// A decimal rendering never makes the CSV writer quote it.
proof fn lemma_dec_digits_plain(n: u64)
    ensures
        !field_needs_quoting(dec_digits(n)),
    decreases n,
{
    lemma_digit_char_plain(n % 10, ',');
    lemma_digit_char_plain(n % 10, '"');
    lemma_digit_char_plain(n % 10, '\n');
    lemma_digit_char_plain(n % 10, '\r');
    if n < 10 {
        assert(n % 10 == n);
        assert(dec_digits(n) == seq![digit_char(n)]);
    } else {
        lemma_dec_digits_plain(n / 10);
        lemma_contains_char_concat(dec_digits(n / 10), seq![digit_char(n % 10)], ',');
        lemma_contains_char_concat(dec_digits(n / 10), seq![digit_char(n % 10)], '"');
        lemma_contains_char_concat(dec_digits(n / 10), seq![digit_char(n % 10)], '\n');
        lemma_contains_char_concat(dec_digits(n / 10), seq![digit_char(n % 10)], '\r');
    }
}

/// The point-and-two-digits tail of a percentage holds no character the CSV
/// writer quotes for.
proof fn lemma_hundredths_tail_plain(h: u64, c: char)
    requires
        c == ',' || c == '"' || c == '\n' || c == '\r',
    ensures
        !contains_char(seq!['.', digit_char((h / 10) % 10), digit_char(h % 10)], c),
{
    let d1 = digit_char((h / 10) % 10);
    let d2 = digit_char(h % 10);
    assert(seq!['.', d1, d2] =~= seq!['.'] + seq![d1] + seq![d2]);
    lemma_contains_char_single('.', c);
    lemma_contains_char_single(d1, c);
    lemma_contains_char_single(d2, c);
    lemma_contains_char_concat(seq!['.'], seq![d1], c);
    lemma_contains_char_concat(seq!['.'] + seq![d1], seq![d2], c);
}

/// A percentage rendering never makes the CSV writer quote it.
proof fn lemma_hundredths_plain(h: u64)
    ensures
        !field_needs_quoting(hundredths_digits(h)),
{
    let tail = seq!['.', digit_char((h / 10) % 10), digit_char(h % 10)];
    lemma_dec_digits_plain(h / 100);
    lemma_hundredths_tail_plain(h, ',');
    lemma_hundredths_tail_plain(h, '"');
    lemma_hundredths_tail_plain(h, '\n');
    lemma_hundredths_tail_plain(h, '\r');
    lemma_contains_char_concat(dec_digits(h / 100), tail, ',');
    lemma_contains_char_concat(dec_digits(h / 100), tail, '"');
    lemma_contains_char_concat(dec_digits(h / 100), tail, '\n');
    lemma_contains_char_concat(dec_digits(h / 100), tail, '\r');
}

/// Joining plain fields yields one comma between neighbours and no line
/// feed.
proof fn lemma_joined_plain_fields(fields: Seq<Seq<char>>)
    requires
        fields.len() >= 1,
        forall|i: int| 0 <= i < fields.len() ==> !field_needs_quoting(#[trigger] fields[i]),
    ensures
        count_char(joined_fields(fields), ',') == fields.len() - 1,
        count_char(joined_fields(fields), '\n') == 0,
    decreases fields.len(),
{
    assert(!field_needs_quoting(fields[0]));
    assert(encoded_field(fields[0]) == fields[0]);
    lemma_count_char_zero(fields[0], ',');
    lemma_count_char_zero(fields[0], '\n');
    if fields.len() > 1 {
        assert forall|i: int|
            0 <= i < fields.drop_first().len() implies !field_needs_quoting(
            #[trigger] fields.drop_first()[i],
        ) by {
            assert(fields.drop_first()[i] == fields[i + 1]);
        }
        lemma_joined_plain_fields(fields.drop_first());
        lemma_count_char_single(',', ',');
        lemma_count_char_single(',', '\n');
        lemma_count_char_concat(fields[0], seq![','], ',');
        lemma_count_char_concat(fields[0] + seq![','], joined_fields(fields.drop_first()), ',');
        lemma_count_char_concat(fields[0], seq![','], '\n');
        lemma_count_char_concat(fields[0] + seq![','], joined_fields(fields.drop_first()), '\n');
        assert(fields[0] + seq![','] + joined_fields(fields.drop_first()) =~= (fields[0]
            + seq![',']) + joined_fields(fields.drop_first()));
    }
}

/// A data row whose name the writer need not quote is exactly one line of
/// five comma-separated fields: it holds four commas, ends with its only
/// line feed, and its fields are the tick's timestamp, the PID digits, the
/// name and the two percentages.
pub proof fn lemma_plain_row_is_one_line_of_five_fields(ts: Seq<char>, s: ProcessSample)
    requires
        !field_needs_quoting(ts),
        !field_needs_quoting(s.name@),
    ensures
        ({
            let row = csv_record(row_fields(ts, s));
            &&& count_char(row, ',') == 4
            &&& count_char(row, '\n') == 1
            &&& row.len() >= 1
            &&& row.last() == '\n'
        }),
{
    let fields = row_fields(ts, s);
    lemma_dec_digits_plain(s.pid);
    lemma_hundredths_plain(s.cpu_hundredths);
    lemma_hundredths_plain(s.memory_hundredths);
    assert forall|i: int| 0 <= i < fields.len() implies !field_needs_quoting(
        #[trigger] fields[i],
    ) by {
        if i == 0 {
            assert(fields[0] == ts);
        } else if i == 1 {
            assert(fields[1] == dec_digits(s.pid));
        } else if i == 2 {
            assert(fields[2] == s.name@);
        } else if i == 3 {
            assert(fields[3] == hundredths_digits(s.cpu_hundredths));
        } else {
            assert(fields[4] == hundredths_digits(s.memory_hundredths));
        }
    }
    lemma_joined_plain_fields(fields);
    lemma_count_char_single('\n', ',');
    lemma_count_char_single('\n', '\n');
    lemma_count_char_concat(joined_fields(fields), seq!['\n'], ',');
    lemma_count_char_concat(joined_fields(fields), seq!['\n'], '\n');
}

/// Escaping loses nothing: undoubling the doubled quotes of any field gives
/// the field back.
pub proof fn lemma_double_quotes_round_trip(f: Seq<char>)
    ensures
        undouble_quotes(double_quotes(f)) == f,
    decreases f.len(),
{
    if f.len() == 0 {
        assert(undouble_quotes(double_quotes(f)) =~= f);
    } else {
        lemma_double_quotes_round_trip(f.drop_first());
        let e = double_quotes(f);
        if f[0] == '"' {
            assert(e.skip(2) =~= double_quotes(f.drop_first()));
            assert(seq!['"'] + f.drop_first() =~= f);
        } else {
            assert(e.drop_first() =~= double_quotes(f.drop_first()));
            assert(seq![f[0]] + f.drop_first() =~= f);
        }
    }
}

/// A field the writer quotes is still recoverable: its encoding is the field
/// between two quotes, with the doubled quotes reading back as the field's
/// own.
pub proof fn lemma_quoted_field_recoverable(f: Seq<char>)
    requires
        field_needs_quoting(f),
    ensures
        ({
            let e = encoded_field(f);
            &&& e.len() >= 2
            &&& e[0] == '"'
            &&& e.last() == '"'
            &&& undouble_quotes(e.subrange(1, e.len() - 1)) == f
        }),
{
    let e = encoded_field(f);
    assert(e.subrange(1, e.len() - 1) =~= double_quotes(f));
    lemma_double_quotes_round_trip(f);
}

/// The decimal rendering of a PID reads back as the same number.
pub proof fn lemma_pid_round_trip(n: u64)
    ensures
        parse_dec(dec_digits(n)) == Some(n),
    decreases n,
{
    if n < 10 {
        assert(parse_dec(dec_digits(n)) == digit_value(digit_char(n)));
    } else {
        lemma_pid_round_trip(n / 10);
        lemma_dec_digits_len(n / 10);
        let s = dec_digits(n);
        assert(s.drop_last() =~= dec_digits(n / 10));
        assert(s.last() == digit_char(n % 10));
        assert(n / 10 <= (u64::MAX - n % 10) / 10) by (nonlinear_arith);
        assert(parse_dec(s) == Some((n / 10 * 10 + n % 10) as u64));
    }
}

/// A decimal rendering holds decimal digits only.
pub proof fn lemma_dec_digits_are_digits(n: u64)
    ensures
        forall|i: int|
            0 <= i < dec_digits(n).len() ==> digit_value(#[trigger] dec_digits(n)[i]) is Some,
    decreases n,
{
    if n >= 10 {
        lemma_dec_digits_are_digits(n / 10);
    }
}

/// A percentage column holds the digits of its whole part, then a point,
/// then exactly two digits, and each part reads back as the number it was
/// written from.
pub proof fn lemma_percentage_shape(h: u64)
    ensures
        ({
            let s = hundredths_digits(h);
            let w = dec_digits(h / 100).len() as int;
            &&& s.len() == w + 3
            &&& s.take(w) == dec_digits(h / 100)
            &&& parse_dec(s.take(w)) == Some((h / 100) as u64)
            &&& s[w] == '.'
            &&& digit_value(s[w + 1]) == Some(((h / 10) % 10) as u64)
            &&& digit_value(s[w + 2]) == Some((h % 10) as u64)
            &&& forall|i: int| 0 <= i < w ==> digit_value(#[trigger] s[i]) is Some
        }),
{
    let s = hundredths_digits(h);
    let w = dec_digits(h / 100).len() as int;
    assert(s.take(w) =~= dec_digits(h / 100));
    lemma_pid_round_trip(h / 100);
    lemma_dec_digits_are_digits(h / 100);
}

} // verus!
