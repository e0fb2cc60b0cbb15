use netprobe::binary64::Binary64;
use netprobe::cfspeedtest::{
    on_measurement, run_speed_test, schedule, start_mon, LATENCY_TESTS, PERIOD_SECS, STARTUP_DELAY_SECS,
};
use netprobe::failure::{Failure, FailureKind};
use netprobe::metric::{Kind, Name, Reading, Sample};
use netprobe::supervise::{Policy, Schedule};

fn measurement(values: &[f64]) -> Vec<Binary64> {
    values.iter().map(|v| Binary64 { bits: v.to_bits() }).collect()
}

fn observed(sample: &Sample) -> f64 {
    match sample.value {
        Reading::Measured(m) => f64::from_bits(m.bits),
        other => panic!("{:?}", other),
    }
}

#[test]
fn twenty_five_round_trips_give_one_mean_and_twenty_five_observations() {
    let values: Vec<f64> = (0..25).map(|i| if i % 2 == 0 { 10.0 } else { 12.0 }).chain([]).collect();
    let mut values = values;
    values[24] = 11.0;
    values[23] = 11.0;
    values[22] = 11.0;
    let mean = values.iter().sum::<f64>() / values.len() as f64;
    assert_eq!(mean, 11.0);
    let samples = run_speed_test(&measurement(&values), Binary64 { bits: mean.to_bits() });
    assert_eq!(samples.len(), 26);
    let gauges: Vec<&Sample> = samples.iter().filter(|s| s.name == Name::AvgLatency).collect();
    assert_eq!(gauges.len(), 1);
    assert_eq!(observed(gauges[0]), 11.0);
    assert_eq!(gauges[0].label, None);
    let observations: Vec<f64> = samples.iter().filter(|s| s.name == Name::Latency).map(observed).collect();
    assert_eq!(observations.len(), 25);
    assert_eq!(observations, values);
    assert_eq!(samples[0].name, Name::AvgLatency);
    assert_eq!(Name::AvgLatency.kind(), Kind::Gauge);
    assert_eq!(Name::Latency.kind(), Kind::Histogram);
    assert_eq!(LATENCY_TESTS, 25);
}

#[test]
fn a_measurement_without_round_trips_still_publishes_its_mean() {
    let samples = run_speed_test(&vec![], Binary64::zero());
    assert_eq!(samples, vec![Sample::plain(Name::AvgLatency, Reading::Measured(Binary64 { bits: 0 }))]);
    assert_eq!(observed(&samples[0]), 0.0);
}

#[test]
fn observations_keep_the_order_and_the_bits_of_the_round_trips() {
    let values = [3.5, -0.0, 1e-300, f64::MAX, 2.0];
    let samples = run_speed_test(&measurement(&values), Binary64 { bits: 7.25f64.to_bits() });
    assert_eq!(samples.len(), 6);
    assert_eq!(samples[0], Sample::plain(Name::AvgLatency, Reading::Measured(Binary64 { bits: 7.25f64.to_bits() })));
    for (i, v) in values.iter().enumerate() {
        assert_eq!(samples[i + 1], Sample::plain(Name::Latency, Reading::Measured(Binary64 { bits: v.to_bits() })));
    }
}

#[test]
fn a_measurement_that_did_not_complete_is_a_transport_failure() {
    assert_eq!(on_measurement(None), Err(Failure::Measurement));
    assert_eq!(Failure::Measurement.kind(), FailureKind::Transport);
    let done = on_measurement(Some((measurement(&[1.0, 3.0]), Binary64 { bits: 2.0f64.to_bits() })));
    assert_eq!(done, Ok(run_speed_test(&measurement(&[1.0, 3.0]), Binary64 { bits: 2.0f64.to_bits() })));
}

#[test]
fn a_failed_measurement_does_not_stop_the_next_one() {
    let mut mon = start_mon();
    assert_eq!(mon.policy, Policy::Resume);
    let first = mon.conclude(on_measurement(None));
    assert_eq!(first, vec![]);
    assert!(mon.is_running());
    let second = mon.conclude(on_measurement(Some((measurement(&[10.0]), Binary64 { bits: 10.0f64.to_bits() }))));
    assert_eq!(second.len(), 2);
    assert!(mon.is_running());
    let third = mon.conclude(on_measurement(None));
    assert_eq!(third, vec![]);
    assert!(mon.is_running());
}

#[test]
fn the_latency_loop_starts_a_minute_late() {
    assert_eq!(schedule(), Schedule { delay_secs: 60, period_secs: 300 });
    assert_eq!(STARTUP_DELAY_SECS, 60);
    assert_eq!(PERIOD_SECS, 300);
}
