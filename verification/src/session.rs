//! The sampling loop's lifecycle: the continuation check evaluated before
//! every tick, and the whole run as a function of what the environment
//! contributed to each iteration — the clock and cancellation flag read at
//! the check, the snapshot, and the sink's acceptance of each write.

use vstd::prelude::*;
use vstd::string::StringExecFns;

use crate::config::RunConfig;
use crate::csv_out::header_line;
use crate::csv_out::header_row;
use crate::tick::ProcessSample;
use crate::tick::encode_tick;
use crate::tick::rows_encoding;

verus! {

/// A fatal error of one run, carrying the text of the underlying cause; each
/// variant names the operation that failed. Nothing is retried: the first
/// failure ends the run.
#[derive(Debug)]
pub enum LoopError {
    /// The output file could not be created.
    SinkCreate { cause: String },
    /// The header record could not be written.
    HeaderWrite { cause: String },
    /// A data row could not be written.
    RowWrite { cause: String },
    /// The sink could not be flushed.
    Flush { cause: String },
}

/// Everything the environment contributes to one loop iteration: what the
/// continuation check reads, what the snapshot and the clock return, and
/// whether the sink accepted the tick's row writes and its flush.
pub struct TickInput {
    /// Whole seconds elapsed since the run started, read at the check.
    pub elapsed_seconds: u64,
    /// Whether cancellation had been requested, read at the check.
    pub cancel_requested: bool,
    /// The timestamp captured once for the tick.
    pub timestamp: String,
    /// The processes the snapshot reports, in enumeration order.
    pub samples: Vec<ProcessSample>,
    /// The cause the sink fails the tick's row writes with, if any.
    pub write_error: Option<String>,
    /// The cause the sink fails the tick's flush with, if any.
    pub flush_error: Option<String>,
}

/// The loop's continuation predicate, evaluated before each iteration's
/// work: the elapsed time is under the budget and cancellation is
/// unrequested.
pub open spec fn spec_continues(
    elapsed_seconds: u64,
    cancel_requested: bool,
    max_duration_seconds: u64,
) -> bool {
    !cancel_requested && elapsed_seconds < max_duration_seconds
}

/// True when the tick's continuation check lets it start.
pub open spec fn tick_runs(t: TickInput, max_duration_seconds: u64) -> bool {
    spec_continues(t.elapsed_seconds, t.cancel_requested, max_duration_seconds)
}

/// True when the sink accepted the tick's row writes and its flush.
pub open spec fn tick_clean(t: TickInput) -> bool {
    t.write_error is None && t.flush_error is None
}

/// The number of ticks a run completes: the leading iterations whose check
/// passes and whose sink operations all succeed.
pub open spec fn session_ticks(ticks: Seq<TickInput>, max_duration_seconds: u64) -> int
    decreases ticks.len(),
{
    if ticks.len() == 0 {
        0
    } else if !tick_runs(ticks[0], max_duration_seconds) || !tick_clean(ticks[0]) {
        0
    } else {
        1 + session_ticks(ticks.drop_first(), max_duration_seconds)
    }
}

/// The data text a run leaves durably in the file after the header: the rows
/// of each completed tick, in order. A tick whose write or flush fails
/// leaves nothing: the sink is flushed only at tick boundaries, so the file
/// ends exactly at the last completed tick.
pub open spec fn session_rows(ticks: Seq<TickInput>, max_duration_seconds: u64) -> Seq<char>
    decreases ticks.len(),
{
    if ticks.len() == 0 {
        Seq::empty()
    } else if !tick_runs(ticks[0], max_duration_seconds) || !tick_clean(ticks[0]) {
        Seq::empty()
    } else {
        rows_encoding(ticks[0].timestamp@, ticks[0].samples@) + session_rows(
            ticks.drop_first(),
            max_duration_seconds,
        )
    }
}

/// How a run ends once the header is written: normally when a continuation
/// check fails (or the inputs run out), or with the error of the first
/// failing sink operation.
pub open spec fn session_outcome(ticks: Seq<TickInput>, max_duration_seconds: u64) -> Result<
    (),
    LoopError,
>
    decreases ticks.len(),
{
    if ticks.len() == 0 {
        Ok(())
    } else if !tick_runs(ticks[0], max_duration_seconds) {
        Ok(())
    } else {
        match ticks[0].write_error {
            Some(cause) => Err(LoopError::RowWrite { cause }),
            None => match ticks[0].flush_error {
                Some(cause) => Err(LoopError::Flush { cause }),
                None => session_outcome(ticks.drop_first(), max_duration_seconds),
            },
        }
    }
}

/// What a run leaves behind.
pub struct RunResult {
    /// The text the sink holds durably when the run ends.
    pub output: String,
    /// The number of completed ticks.
    pub ticks_completed: u64,
    /// How the run ended: `Ok` on budget exhaustion or cancellation, the
    /// first sink failure otherwise.
    pub outcome: Result<(), LoopError>,
}

/// Decides, before an iteration's work, whether the loop runs another tick.
pub fn check_continue(config: &RunConfig, elapsed_seconds: u64, cancel_requested: bool) -> (r:
    bool)
    ensures
        r == spec_continues(elapsed_seconds, cancel_requested, config.max_duration_seconds),
{
    !cancel_requested && elapsed_seconds < config.max_duration_seconds
}

/// Runs one whole session over the given per-iteration inputs: writes the
/// header first, then, while the continuation check passes, encodes one
/// tick's rows under its timestamp and hands them to the sink. The first
/// sink failure ends the run with its error; a failed check ends it
/// normally. `header_error` is the cause the sink fails the header write
/// with, if any.
pub fn run_session(config: &RunConfig, header_error: &Option<String>, ticks: &Vec<TickInput>) -> (r:
    RunResult)
    ensures
        header_error matches Some(cause) ==> {
            &&& r.output@ == Seq::<char>::empty()
            &&& r.ticks_completed == 0
            &&& r.outcome == (Err::<(), LoopError>(LoopError::HeaderWrite { cause: *cause }))
        },
        header_error is None ==> {
            &&& r.output@ == header_line() + session_rows(ticks@, config.max_duration_seconds)
            &&& r.ticks_completed == session_ticks(ticks@, config.max_duration_seconds)
            &&& r.outcome == session_outcome(ticks@, config.max_duration_seconds)
        },
{
    let duration = config.max_duration_seconds;
    match header_error {
        Some(cause) => {
            return RunResult {
                output: String::new(),
                ticks_completed: 0,
                outcome: Err(LoopError::HeaderWrite { cause: cause.clone() }),
            };
        },
        None => {},
    }
    let mut out = header_row();
    let mut i: usize = 0;
    proof {
        assert(ticks@.skip(0) =~= ticks@);
    }
    while i < ticks.len()
        invariant
            0 <= i <= ticks@.len(),
            duration == config.max_duration_seconds,
            header_error is None,
            header_line() + session_rows(ticks@, duration) == out@ + session_rows(
                ticks@.skip(i as int),
                duration,
            ),
            session_outcome(ticks@, duration) == session_outcome(ticks@.skip(i as int), duration),
            session_ticks(ticks@, duration) == i + session_ticks(ticks@.skip(i as int), duration),
        decreases ticks@.len() - i,
    {
        let t = &ticks[i];
        proof {
            assert(ticks@.skip(i as int)[0] == ticks@[i as int]);
        }
        if !check_continue(config, t.elapsed_seconds, t.cancel_requested) {
            proof {
                assert(out@ + Seq::<char>::empty() =~= out@);
            }
            return RunResult { output: out, ticks_completed: i as u64, outcome: Ok(()) };
        }
        let rows = encode_tick(t.timestamp.as_str(), &t.samples);
        if let Some(cause) = &t.write_error {
            proof {
                assert(out@ + Seq::<char>::empty() =~= out@);
            }
            return RunResult {
                output: out,
                ticks_completed: i as u64,
                outcome: Err(LoopError::RowWrite { cause: cause.clone() }),
            };
        }
        if let Some(cause) = &t.flush_error {
            proof {
                assert(out@ + Seq::<char>::empty() =~= out@);
            }
            return RunResult {
                output: out,
                ticks_completed: i as u64,
                outcome: Err(LoopError::Flush { cause: cause.clone() }),
            };
        }
        out.append(rows.as_str());
        proof {
            assert(ticks@.skip(i as int).drop_first() =~= ticks@.skip(i + 1));
        }
        i = i + 1;
    }
    proof {
        assert(ticks@.skip(ticks@.len() as int) =~= Seq::<TickInput>::empty());
        assert(out@ + Seq::<char>::empty() =~= out@);
    }
    RunResult { output: out, ticks_completed: i as u64, outcome: Ok(()) }
}

} // verus!
