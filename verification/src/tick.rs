//! One tick of the sampler: the observed processes, the rows they become,
//! and the timestamp captured once per tick and shared by all of its rows.

use vstd::prelude::*;
use vstd::string::StringExecFns;

use crate::csv_out::csv_record;
use crate::csv_out::encode_record;
use crate::csv_out::field_needs_quoting;
use crate::text::dec_digits;
use crate::text::format_hundredths;
use crate::text::hundredths_digits;
use crate::text::u64_to_string;

verus! {

/// One process observed in a snapshot, as the row columns hold it: the
/// percentages are whole numbers of hundredths, so that `cpu_hundredths ==
/// 50` is written `0.50`.
pub struct ProcessSample {
    /// Process identifier, a non-negative integer.
    pub pid: u64,
    /// Process name, as the snapshot reports it.
    pub name: String,
    /// CPU usage in hundredths of a percent.
    pub cpu_hundredths: u64,
    /// Memory usage in hundredths of a percent.
    pub memory_hundredths: u64,
}

/// The five fields of the row of one sample: the tick's timestamp, the PID
/// in decimal, the name, and the two percentages with two decimal places.
pub open spec fn row_fields(ts: Seq<char>, s: ProcessSample) -> Seq<Seq<char>> {
    seq![
        ts,
        dec_digits(s.pid),
        s.name@,
        hundredths_digits(s.cpu_hundredths),
        hundredths_digits(s.memory_hundredths),
    ]
}

/// The text one tick appends to the file: one CSV record per sample, in
/// snapshot order, every record carrying the same timestamp `ts`.
pub open spec fn rows_encoding(ts: Seq<char>, samples: Seq<ProcessSample>) -> Seq<char>
    decreases samples.len(),
{
    if samples.len() == 0 {
        Seq::empty()
    } else {
        csv_record(row_fields(ts, samples[0])) + rows_encoding(ts, samples.drop_first())
    }
}

/// Builds the five row fields of one sample.
pub fn sample_fields(timestamp: &str, s: &ProcessSample) -> (r: Vec<String>)
    ensures
        r.deep_view() == row_fields(timestamp@, *s),
        r@.len() == 5,
{
    let mut fields: Vec<String> = Vec::new();
    fields.push(timestamp.to_owned());
    fields.push(u64_to_string(s.pid));
    fields.push(s.name.clone());
    fields.push(format_hundredths(s.cpu_hundredths));
    fields.push(format_hundredths(s.memory_hundredths));
    proof {
        assert(fields.deep_view() =~= row_fields(timestamp@, *s));
    }
    fields
}

/// Encodes all rows of one tick under one timestamp, in snapshot order.
pub fn encode_tick(timestamp: &str, samples: &Vec<ProcessSample>) -> (r: String)
    ensures
        r@ == rows_encoding(timestamp@, samples@),
{
    let mut out = String::new();
    let mut i: usize = 0;
    proof {
        assert(samples@.skip(0) =~= samples@);
        assert(out@ + rows_encoding(timestamp@, samples@) =~= rows_encoding(
            timestamp@,
            samples@,
        ));
    }
    while i < samples.len()
        invariant
            0 <= i <= samples@.len(),
            rows_encoding(timestamp@, samples@) == out@ + rows_encoding(
                timestamp@,
                samples@.skip(i as int),
            ),
        decreases samples@.len() - i,
    {
        let fields = sample_fields(timestamp, &samples[i]);
        let row = encode_record(&fields);
        out.append(row.as_str());
        proof {
            assert(samples@.skip(i as int)[0] == samples@[i as int]);
            assert(samples@.skip(i as int).drop_first() =~= samples@.skip(i + 1));
        }
        i = i + 1;
    }
    proof {
        assert(samples@.skip(samples@.len() as int) =~= Seq::<ProcessSample>::empty());
        assert(rows_encoding(timestamp@, samples@) =~= out@);
    }
    out
}

/// Relies on chrono: `Local::now().to_rfc3339()` renders the current local
/// time in RFC 3339 form with a numeric offset, whose characters are decimal
/// digits, `-`, `T`, `:`, `.` and `+` only: never empty, and never a comma,
/// a double quote or a line break.
#[verifier::external_body]
fn now_rfc3339() -> (r: String)
    ensures
        r@.len() > 0,
        !field_needs_quoting(r@),
{
    chrono::Local::now().to_rfc3339()
}

/// Runs one tick's rendering: captures the timestamp once, then encodes one
/// record per observed process under it, in snapshot order. Returns the
/// timestamp and the encoded rows.
pub fn render_tick(samples: &Vec<ProcessSample>) -> (r: (String, String))
    ensures
        r.1@ == rows_encoding(r.0@, samples@),
        r.0@.len() > 0,
        !field_needs_quoting(r.0@),
{
    let ts = now_rfc3339();
    let rows = encode_tick(ts.as_str(), samples);
    (ts, rows)
}

} // verus!
