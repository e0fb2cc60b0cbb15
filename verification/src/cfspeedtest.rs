//! The latency probe: measures the round trip to a content-delivery network
//! a fixed number of times and publishes the mean and every single time.

use vstd::prelude::*;
use crate::binary64::Binary64;
use crate::failure::Failure;
use crate::metric::{Name, Reading, Sample};
use crate::supervise::{Policy, Schedule, Supervisor};

verus! {

/// How many round trips one measurement takes.
pub const LATENCY_TESTS: u32 = 25;

/// Seconds between two measurements.
pub const PERIOD_SECS: u64 = 60 * 5;

/// Seconds before the first measurement, so that it does not fall together
/// with a speed test.
pub const STARTUP_DELAY_SECS: u64 = 60;

/// The samples that a measurement gives: its mean for the gauge, then one
/// observation for the histogram per round trip, in the order measured.
pub open spec fn latency_samples(latency_results: Seq<Binary64>, avg: Binary64) -> Seq<Sample> {
    seq![Sample::plain(Name::AvgLatency, Reading::Measured(avg))] + Seq::new(
        latency_results.len(),
        |i: int| Sample::plain(Name::Latency, Reading::Measured(latency_results[i])),
    )
}

/// Turns a measurement into samples.
pub fn run_speed_test(latency_results: &Vec<Binary64>, avg: Binary64) -> (r: Vec<Sample>)
    ensures
        r@ == latency_samples(latency_results@, avg),
        r@.len() == latency_results@.len() + 1,
{
    let mut out: Vec<Sample> = Vec::new();
    out.push(Sample::plain(Name::AvgLatency, Reading::Measured(avg)));
    let mut i: usize = 0;
    while i < latency_results.len()
        invariant
            i <= latency_results@.len(),
            out@.len() == i + 1,
            out@[0] == Sample::plain(Name::AvgLatency, Reading::Measured(avg)),
            forall|k: int|
                0 <= k < i ==> #[trigger] out@[k + 1] == Sample::plain(
                    Name::Latency,
                    Reading::Measured(latency_results@[k]),
                ),
        decreases latency_results@.len() - i,
    {
        out.push(Sample::plain(Name::Latency, Reading::Measured(latency_results[i])));
        i += 1;
    }
    assert(out@ =~= latency_samples(latency_results@, avg)) by {
        let spec = latency_samples(latency_results@, avg);
        assert forall|j: int| 0 <= j < out@.len() implies out@[j] == spec[j] by {
            if j > 0 {
                assert(out@[(j - 1) + 1] == spec[j]);
            }
        }
    }
    out
}

/// What an iteration gave, by what its measurement returned: `None` is a
/// measurement that did not complete.
pub open spec fn measured(measurement: Option<(Vec<Binary64>, Binary64)>) -> Result<
    Seq<Sample>,
    Failure,
> {
    match measurement {
        Some((latency_results, avg)) => Ok(latency_samples(latency_results@, avg)),
        None => Err(Failure::Measurement),
    }
}

/// The outcome of an iteration, given what its measurement returned.
pub fn on_measurement(measurement: Option<(Vec<Binary64>, Binary64)>) -> (r: Result<
    Vec<Sample>,
    Failure,
>)
    ensures
        match r {
            Ok(samples) => measured(measurement) == Ok::<Seq<Sample>, Failure>(samples@),
            Err(e) => measured(measurement) == Err::<Seq<Sample>, Failure>(e),
        },
{
    match measurement {
        Some((latency_results, avg)) => Ok(run_speed_test(&latency_results, avg)),
        None => Err(Failure::Measurement),
    }
}

/// The loop before its first tick.
pub open spec fn start_mon_spec() -> Supervisor {
    Supervisor::new(Policy::Resume)
}

/// Sets up the loop: it goes on after an iteration that failed.
#[verifier::when_used_as_spec(start_mon_spec)]
pub fn start_mon() -> (r: Supervisor)
    ensures
        r == start_mon_spec(),
{
    Supervisor::new(Policy::Resume)
}

/// When the loop runs: first after [`STARTUP_DELAY_SECS`], then every
/// [`PERIOD_SECS`] seconds.
pub fn schedule() -> (r: Schedule)
    ensures
        r == (Schedule { delay_secs: STARTUP_DELAY_SECS, period_secs: PERIOD_SECS }),
{
    Schedule { delay_secs: STARTUP_DELAY_SECS, period_secs: PERIOD_SECS }
}

/// The loop outlives every failure: whatever the measurements so far gave,
/// the next tick measures again.
pub proof fn lemma_loop_survives_failures(outcomes: Seq<Option<Failure>>)
    ensures
        start_mon().after_all(outcomes).running(),
{
    crate::supervise::lemma_resume_never_halts(start_mon(), outcomes);
}

} // verus!
