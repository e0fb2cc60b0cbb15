use netprobe::binary64::Binary64;
use netprobe::failure::{Failure, FailureKind};
use netprobe::metric::{Kind, Label, Name, Reading, Sample, LABEL_KEY};
use netprobe::supervise::{Policy, Supervisor};

const FAILURES: [Failure; 15] = [
    Failure::Measurement,
    Failure::LoginUnanswered,
    Failure::MissingCookie,
    Failure::UnreadableCookie,
    Failure::MalformedCookie,
    Failure::StatusUnanswered,
    Failure::StatusSyntax,
    Failure::Envelope,
    Failure::StatusRecord,
    Failure::Spawn,
    Failure::Pipe,
    Failure::LineSyntax,
    Failure::LineNotObject,
    Failure::LineUntyped,
    Failure::ResultRecord,
];

#[test]
fn series_are_published_under_their_fixed_names() {
    assert_eq!(Name::AvgLatency.as_str(), "cfspeedtest.avg_latency");
    assert_eq!(Name::Latency.as_str(), "cfspeedtest.latency");
    assert_eq!(Name::CellularUp.as_str(), "cellular.up");
    assert_eq!(Name::Rssi.as_str(), "cellular.RSSI");
    assert_eq!(Name::Rsrp.as_str(), "cellular.RSRP");
    assert_eq!(Name::Sinr.as_str(), "cellular.SINR");
    assert_eq!(Name::Rsrq.as_str(), "cellular.RSRQ");
    assert_eq!(Name::Bandwidth.as_str(), "speedtestnet.bandwidth");
    assert_eq!(Name::Ping.as_str(), "speedtestnet.ping");
    assert_eq!(Name::PacketLoss.as_str(), "speedtestnet.packet_loss");
}

#[test]
fn labels_take_their_fixed_values() {
    assert_eq!(LABEL_KEY, "type");
    assert_eq!(Label::Intf.as_str(), "INTF");
    assert_eq!(Label::Nsa.as_str(), "NSA");
    assert_eq!(Label::Download.as_str(), "download");
    assert_eq!(Label::Upload.as_str(), "upload");
    assert_eq!(Label::High.as_str(), "high");
    assert_eq!(Label::Jitter.as_str(), "jitter");
    assert_eq!(Label::Low.as_str(), "low");
    assert_eq!(Label::Latency.as_str(), "latency");
}

#[test]
fn only_single_latencies_go_to_a_histogram() {
    for name in [
        Name::AvgLatency,
        Name::CellularUp,
        Name::Rssi,
        Name::Rsrp,
        Name::Sinr,
        Name::Rsrq,
        Name::Bandwidth,
        Name::Ping,
        Name::PacketLoss,
    ] {
        assert_eq!(name.kind(), Kind::Gauge);
    }
    assert_eq!(Name::Latency.kind(), Kind::Histogram);
}

#[test]
fn samples_are_built_with_or_without_a_label() {
    let value = Reading::Measured(Binary64 { bits: 1.5f64.to_bits() });
    assert_eq!(Sample::plain(Name::PacketLoss, value), Sample { name: Name::PacketLoss, label: None, value });
    assert_eq!(
        Sample::labelled(Name::Ping, Label::Low, value),
        Sample { name: Name::Ping, label: Some(Label::Low), value }
    );
    assert_eq!(Binary64::zero(), Binary64 { bits: 0 });
    assert_eq!(f64::from_bits(Binary64::zero().bits), 0.0);
    assert!(f64::from_bits(Binary64::zero().bits).is_sign_positive());
}

#[test]
fn every_failure_has_a_class_and_a_message() {
    let kinds = [
        FailureKind::Transport,
        FailureKind::Auth,
        FailureKind::Auth,
        FailureKind::Auth,
        FailureKind::Auth,
        FailureKind::Transport,
        FailureKind::Parse,
        FailureKind::Parse,
        FailureKind::Parse,
        FailureKind::Process,
        FailureKind::Process,
        FailureKind::Line,
        FailureKind::Line,
        FailureKind::Line,
        FailureKind::Parse,
    ];
    let mut seen: Vec<&str> = Vec::new();
    for (failure, kind) in FAILURES.iter().zip(kinds) {
        assert_eq!(failure.kind(), kind, "{:?}", failure);
        let message = failure.message();
        assert!(!message.is_empty());
        assert!(!seen.contains(&message), "{}", message);
        seen.push(message);
    }
    assert_eq!(Failure::LineNotObject.message(), "Could not parse json blob as object");
    assert_eq!(Failure::LineUntyped.message(), "json blob had no type field?");
}

#[test]
fn a_resuming_loop_outlives_every_failure() {
    let mut s = Supervisor::new(Policy::Resume);
    for failure in FAILURES {
        s.settle(Some(failure));
        assert!(s.is_running());
        s.settle(None);
        assert!(s.is_running());
    }
    assert_eq!(s, Supervisor { policy: Policy::Resume, halted: None });
}

#[test]
fn a_halting_loop_ends_with_its_first_failure() {
    for failure in FAILURES {
        let mut s = Supervisor::new(Policy::Halt);
        assert!(s.is_running());
        s.settle(None);
        assert!(s.is_running());
        s.settle(Some(failure));
        assert!(!s.is_running());
        assert_eq!(s.halted, Some(failure));
        s.settle(Some(Failure::Spawn));
        s.settle(None);
        assert_eq!(s, Supervisor { policy: Policy::Halt, halted: Some(failure) });
    }
}

#[test]
fn conclude_hands_back_the_samples_of_a_good_iteration_only() {
    let sample = Sample::plain(Name::CellularUp, Reading::Whole(1));
    let mut s = Supervisor::new(Policy::Halt);
    assert_eq!(s.conclude(Ok(vec![sample, sample])), vec![sample, sample]);
    assert!(s.is_running());
    assert_eq!(s.conclude(Err(Failure::Pipe)), vec![]);
    assert_eq!(s.halted, Some(Failure::Pipe));
    assert_eq!(s.conclude(Ok(vec![sample])), vec![sample]);
    assert_eq!(s.halted, Some(Failure::Pipe));
}
