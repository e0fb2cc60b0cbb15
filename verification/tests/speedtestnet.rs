use netprobe::binary64::Binary64;
use netprobe::failure::{Failure, FailureKind};
use netprobe::json::Json;
use netprobe::metric::{Label, Name, Reading, Sample};
use netprobe::speedtestnet::types::{
    default_packet_loss, DownloadLatencyResults, DownloadResults, PingResults, SpeedTestResult,
    UploadLatencyResults, UploadResults,
};
use netprobe::speedtestnet::{
    arguments, handle_result, read_document, read_line, result_samples, run_speed_test, schedule,
    start_mon, Run, BANDWIDTH_UNIT, FIVE_MINS, HYPEROPTIC_SERVER_ID, PROGRAM,
};
use netprobe::supervise::{Policy, Schedule};

const RESULT_LINE: &str = r#"{"type":"result","timestamp":"2024-01-01T00:00:00Z","ping":{"jitter":0.5,"latency":11.25,"low":10.0,"high":12.5},"download":{"bandwidth":175000000,"bytes":1234567,"elapsed":15000,"latency":{"iqm":20.5,"low":10.5,"high":30.5,"jitter":1.5}},"upload":{"bandwidth":8750000,"bytes":7654321,"elapsed":14000,"latency":{"iqm":21.5,"low":11.5,"high":31.5,"jitter":2.5}},"packetLoss":1.5,"isp":"Hyperoptic"}"#;

const RESULT_LINE_WITHOUT_LOSS: &str = r#"{"type":"result","ping":{"jitter":0.5,"latency":11.25,"low":10.0,"high":12.5},"download":{"bandwidth":175000000,"bytes":1234567,"elapsed":15000,"latency":{"iqm":20.5,"low":10.5,"high":30.5,"jitter":1.5}},"upload":{"bandwidth":8750000,"bytes":7654321,"elapsed":14000,"latency":{"iqm":21.5,"low":11.5,"high":31.5,"jitter":2.5}}}"#;

const PROGRESS_LINE: &str = r#"{"type":"download","timestamp":"2024-01-01T00:00:00Z","download":{"bandwidth":1000,"bytes":10,"elapsed":1,"progress":0.1}}"#;

fn b(x: f64) -> Binary64 {
    Binary64 { bits: x.to_bits() }
}

fn value(reading: Reading) -> f64 {
    match reading {
        Reading::Whole(n) => n as f64,
        Reading::Scaled { raw, per_unit } => raw as f64 / per_unit as f64,
        Reading::Measured(m) => f64::from_bits(m.bits),
    }
}

fn find(samples: &[Sample], name: Name, label: Option<Label>) -> f64 {
    let hits: Vec<&Sample> = samples.iter().filter(|s| s.name == name && s.label == label).collect();
    assert_eq!(hits.len(), 1);
    value(hits[0].value)
}

fn lines(texts: &[&str]) -> Vec<Option<String>> {
    texts.iter().map(|t| Some(t.to_string())).collect()
}

#[test]
fn result_record_decodes_field_by_field() {
    let json = Json::parse(RESULT_LINE.as_bytes()).unwrap();
    let result = SpeedTestResult::decode(&json).unwrap();
    assert_eq!(
        result,
        SpeedTestResult {
            download: DownloadResults {
                bandwidth: 175000000,
                bytes: 1234567,
                elapsed: 15000,
                latency: DownloadLatencyResults { high: b(30.5), iqm: b(20.5), jitter: b(1.5), low: b(10.5) },
            },
            packet_loss: b(1.5),
            ping: PingResults { high: b(12.5), jitter: b(0.5), latency: b(11.25), low: b(10.0) },
            upload: UploadResults {
                bandwidth: 8750000,
                bytes: 7654321,
                elapsed: 14000,
                latency: UploadLatencyResults { high: b(31.5), iqm: b(21.5), jitter: b(2.5), low: b(11.5) },
            },
        }
    );
}

#[test]
fn missing_packet_loss_defaults_to_zero() {
    let json = Json::parse(RESULT_LINE_WITHOUT_LOSS.as_bytes()).unwrap();
    let result = SpeedTestResult::decode(&json).unwrap();
    assert_eq!(f64::from_bits(result.packet_loss.bits), 0.0);
    assert_eq!(result.packet_loss, default_packet_loss());
    assert_eq!(default_packet_loss().bits, 0.0f64.to_bits());
    let samples = handle_result(&json).unwrap();
    assert_eq!(find(&samples, Name::PacketLoss, None), 0.0);
}

#[test]
fn packet_loss_of_the_wrong_type_is_refused() {
    let text = RESULT_LINE.replace(r#""packetLoss":1.5"#, r#""packetLoss":null"#);
    let json = Json::parse(text.as_bytes()).unwrap();
    assert_eq!(SpeedTestResult::decode(&json), None);
    assert_eq!(handle_result(&json), Err(Failure::ResultRecord));
    let text = RESULT_LINE.replace(r#""packetLoss":1.5"#, r#""packetLoss":"1.5""#);
    assert_eq!(read_line(Some(&text)), Err(Failure::ResultRecord));
    let text = RESULT_LINE.replace(r#""packetLoss":1.5"#, r#""packetLoss":3"#);
    let samples = read_line(Some(&text)).unwrap().unwrap();
    assert_eq!(find(&samples, Name::PacketLoss, None), 3.0);
}

#[test]
fn raw_download_bandwidth_is_published_in_units_of_175000() {
    assert_eq!(BANDWIDTH_UNIT, 175_000);
    let json = Json::parse(RESULT_LINE.as_bytes()).unwrap();
    let samples = handle_result(&json).unwrap();
    assert_eq!(
        samples[0],
        Sample {
            name: Name::Bandwidth,
            label: Some(Label::Download),
            value: Reading::Scaled { raw: 175000000, per_unit: 175000 },
        }
    );
    assert_eq!(find(&samples, Name::Bandwidth, Some(Label::Download)), 1000.0);
    assert_eq!(find(&samples, Name::Bandwidth, Some(Label::Upload)), 50.0);
}

#[test]
fn a_result_gives_seven_samples_in_order() {
    let json = Json::parse(RESULT_LINE.as_bytes()).unwrap();
    let result = SpeedTestResult::decode(&json).unwrap();
    let samples = result_samples(&result);
    assert_eq!(samples, handle_result(&json).unwrap());
    assert_eq!(
        samples,
        vec![
            Sample::labelled(Name::Bandwidth, Label::Download, Reading::Scaled { raw: 175000000, per_unit: 175000 }),
            Sample::labelled(Name::Bandwidth, Label::Upload, Reading::Scaled { raw: 8750000, per_unit: 175000 }),
            Sample::labelled(Name::Ping, Label::High, Reading::Measured(b(12.5))),
            Sample::labelled(Name::Ping, Label::Jitter, Reading::Measured(b(0.5))),
            Sample::labelled(Name::Ping, Label::Low, Reading::Measured(b(10.0))),
            Sample::labelled(Name::Ping, Label::Latency, Reading::Measured(b(11.25))),
            Sample::plain(Name::PacketLoss, Reading::Measured(b(1.5))),
        ]
    );
    assert_eq!(find(&samples, Name::Ping, Some(Label::High)), 12.5);
    assert_eq!(find(&samples, Name::Ping, Some(Label::Jitter)), 0.5);
    assert_eq!(find(&samples, Name::Ping, Some(Label::Low)), 10.0);
    assert_eq!(find(&samples, Name::Ping, Some(Label::Latency)), 11.25);
    assert_eq!(find(&samples, Name::PacketLoss, None), 1.5);
}

#[test]
fn progress_then_result_publishes_the_result_once() {
    let reads = lines(&[r#"{"type":"progress","download":{"bandwidth":1}}"#, RESULT_LINE]);
    let samples = run_speed_test(&reads).unwrap();
    assert_eq!(samples.len(), 7);
    assert_eq!(samples, read_line(Some(RESULT_LINE)).unwrap().unwrap());
    assert_eq!(find(&samples, Name::Bandwidth, Some(Label::Download)), 1000.0);
    assert_eq!(read_line(Some(r#"{"type":"progress","download":{"bandwidth":1}}"#)), Ok(None));
}

#[test]
fn lines_after_the_result_are_not_read() {
    let reads = vec![
        Some(PROGRESS_LINE.to_string()),
        Some(RESULT_LINE_WITHOUT_LOSS.to_string()),
        Some("not json".to_string()),
        None,
        Some(RESULT_LINE.to_string()),
    ];
    let samples = run_speed_test(&reads).unwrap();
    assert_eq!(find(&samples, Name::PacketLoss, None), 0.0);
}

#[test]
fn output_without_a_result_publishes_nothing() {
    assert_eq!(run_speed_test(&vec![]), Ok(vec![]));
    assert_eq!(run_speed_test(&lines(&[PROGRESS_LINE, PROGRESS_LINE])), Ok(vec![]));
}

#[test]
fn the_first_failure_ends_the_run() {
    assert_eq!(run_speed_test(&lines(&[PROGRESS_LINE, "oops", RESULT_LINE])), Err(Failure::LineSyntax));
    assert_eq!(run_speed_test(&lines(&["[]", "oops"])), Err(Failure::LineNotObject));
    assert_eq!(run_speed_test(&lines(&[PROGRESS_LINE, "{}"])), Err(Failure::LineUntyped));
    assert_eq!(
        run_speed_test(&vec![Some(PROGRESS_LINE.to_string()), None, Some(RESULT_LINE.to_string())]),
        Err(Failure::Pipe)
    );
    assert_eq!(run_speed_test(&lines(&[r#"{"type":"result"}"#, RESULT_LINE])), Err(Failure::ResultRecord));
}

#[test]
fn every_line_failure_has_its_input() {
    assert_eq!(read_line(None), Err(Failure::Pipe));
    assert_eq!(read_line(Some("")), Err(Failure::LineSyntax));
    assert_eq!(read_line(Some("{\"type\":\"result\"")), Err(Failure::LineSyntax));
    assert_eq!(read_line(Some("42")), Err(Failure::LineNotObject));
    assert_eq!(read_line(Some("\"result\"")), Err(Failure::LineNotObject));
    assert_eq!(read_line(Some("[{\"type\":\"result\"}]")), Err(Failure::LineNotObject));
    assert_eq!(read_line(Some("{}")), Err(Failure::LineUntyped));
    assert_eq!(read_line(Some("{\"type\":7}")), Err(Failure::LineUntyped));
    assert_eq!(read_line(Some("{\"type\":null}")), Err(Failure::LineUntyped));
    assert_eq!(read_line(Some("{\"Type\":\"result\"}")), Err(Failure::LineUntyped));
    assert_eq!(read_line(Some("{\"type\":\"result\"}")), Err(Failure::ResultRecord));
    assert_eq!(read_line(Some("{\"type\":\"Result\"}")), Ok(None));
    assert_eq!(read_line(Some("{\"type\":\"\"}")), Ok(None));
    assert_eq!(Failure::Pipe.kind(), FailureKind::Process);
    assert_eq!(Failure::Spawn.kind(), FailureKind::Process);
    assert_eq!(Failure::LineSyntax.kind(), FailureKind::Line);
    assert_eq!(Failure::LineNotObject.kind(), FailureKind::Line);
    assert_eq!(Failure::LineUntyped.kind(), FailureKind::Line);
    assert_eq!(Failure::ResultRecord.kind(), FailureKind::Parse);
}

#[test]
fn read_document_works_on_a_document_written_by_hand() {
    let progress = Json::Object(vec![("type".to_string(), Json::Text("ping".to_string()))]);
    assert_eq!(read_document(&progress), Ok(None));
    assert_eq!(read_document(&Json::Null), Err(Failure::LineNotObject));
    assert_eq!(read_document(&Json::Object(vec![])), Err(Failure::LineUntyped));
    let result = Json::parse(RESULT_LINE.as_bytes()).unwrap();
    assert_eq!(read_document(&result).unwrap(), Some(handle_result(&result).unwrap()));
}

#[test]
fn result_fields_are_strict_about_their_types() {
    let cases = [
        (r#""bandwidth":175000000"#, r#""bandwidth":-1"#),
        (r#""bandwidth":175000000"#, r#""bandwidth":1.75e8"#),
        (r#""bandwidth":175000000"#, r#""bandwidth":"175000000""#),
        (r#""bytes":1234567,"#, ""),
        (r#""elapsed":14000"#, r#""elapsed":null"#),
        (r#""latency":11.25"#, r#""latency":"11.25""#),
        (r#""iqm":21.5,"#, ""),
        (r#""low":10.0,"#, ""),
        (r#""jitter":1.5"#, r#""jitter":true"#),
        (r#""ping":{"#, r#""pong":{"#),
        (r#""upload":{"#, r#""up":{"#),
        (r#""download":{"#, r#""down":{"#),
    ];
    for (from, to) in cases {
        assert!(RESULT_LINE.contains(from), "{}", from);
        let text = RESULT_LINE.replacen(from, to, 1);
        assert_eq!(read_line(Some(&text)), Err(Failure::ResultRecord), "{} -> {}", from, to);
    }
    let text = RESULT_LINE.replacen(r#""latency":11.25"#, r#""latency":11"#, 1);
    let samples = read_line(Some(&text)).unwrap().unwrap();
    assert_eq!(find(&samples, Name::Ping, Some(Label::Latency)), 11.0);
    let text = RESULT_LINE.replacen(r#""low":10.0"#, r#""low":-3"#, 1);
    let samples = read_line(Some(&text)).unwrap().unwrap();
    assert_eq!(find(&samples, Name::Ping, Some(Label::Low)), -3.0);
}

#[test]
fn a_record_written_as_an_array_is_refused() {
    let text = r#"{"type":"result","ping":[12.5,0.5,11.25,10.0],"download":{"bandwidth":1,"bytes":1,"elapsed":1,"latency":{"iqm":1,"low":1,"high":1,"jitter":1}},"upload":{"bandwidth":1,"bytes":1,"elapsed":1,"latency":{"iqm":1,"low":1,"high":1,"jitter":1}}}"#;
    assert_eq!(read_line(Some(text)), Err(Failure::ResultRecord));
}

#[test]
fn the_program_is_started_against_the_fixed_server() {
    assert_eq!(PROGRAM, "speedtest");
    assert_eq!(HYPEROPTIC_SERVER_ID, "14679");
    assert_eq!(arguments(), vec!["-s", "14679", "-f", "json"]);
    assert_eq!(FIVE_MINS, 300);
    assert_eq!(schedule(), Schedule { delay_secs: 0, period_secs: 300 });
}

#[test]
fn a_failed_speed_test_does_not_stop_the_next_one() {
    let mut mon = start_mon();
    assert_eq!(mon.policy, Policy::Resume);
    assert!(mon.is_running());
    let first = mon.conclude(run_speed_test(&lines(&["oops"])));
    assert_eq!(first, vec![]);
    assert!(mon.is_running());
    let second = mon.conclude(Run::not_started().finish());
    assert_eq!(second, vec![]);
    assert!(mon.is_running());
    let third = mon.conclude(run_speed_test(&lines(&[PROGRESS_LINE, RESULT_LINE])));
    assert_eq!(third.len(), 7);
    assert!(mon.is_running());
    assert_eq!(mon, start_mon());
}

#[test]
fn a_run_reads_until_a_line_decides_it() {
    let run = Run::new();
    assert!(run.is_open());
    let run = run.feed(Some(PROGRESS_LINE));
    assert_eq!(run, Run::Open);
    let run = run.feed(Some(r#"{"type":"upload"}"#));
    assert!(run.is_open());
    let run = run.feed(Some(RESULT_LINE));
    assert!(!run.is_open());
    let decided = read_line(Some(RESULT_LINE)).unwrap().unwrap();
    assert_eq!(run, Run::Closed(Ok(decided.clone())));
    let run = run.feed(Some("oops")).feed(None).feed(Some(RESULT_LINE_WITHOUT_LOSS));
    assert_eq!(run.finish(), Ok(decided));
}

#[test]
fn a_run_is_closed_by_a_failure_or_by_the_end_of_the_output() {
    assert_eq!(Run::new().finish(), Ok(vec![]));
    assert_eq!(Run::new().feed(Some(PROGRESS_LINE)).finish(), Ok(vec![]));
    assert_eq!(Run::new().feed(None), Run::Closed(Err(Failure::Pipe)));
    assert_eq!(Run::new().feed(None).finish(), Err(Failure::Pipe));
    assert_eq!(Run::new().feed(Some("[1]")).feed(Some(RESULT_LINE)).finish(), Err(Failure::LineNotObject));
    assert_eq!(Run::new().feed(Some("{")).finish(), Err(Failure::LineSyntax));
}

#[test]
fn a_program_that_does_not_start_is_a_process_failure() {
    let run = Run::not_started();
    assert!(!run.is_open());
    assert_eq!(run, Run::Closed(Err(Failure::Spawn)));
    assert_eq!(Run::not_started().feed(Some(RESULT_LINE)).finish(), Err(Failure::Spawn));
    assert_eq!(Failure::Spawn.kind(), FailureKind::Process);
    let mut mon = start_mon();
    assert_eq!(mon.conclude(Run::not_started().finish()), vec![]);
    assert!(mon.is_running());
}

#[test]
fn feeding_line_by_line_agrees_with_reading_the_whole_output() {
    let outputs: Vec<Vec<Option<String>>> = vec![
        vec![],
        lines(&[PROGRESS_LINE]),
        lines(&[PROGRESS_LINE, RESULT_LINE, "oops"]),
        lines(&[PROGRESS_LINE, "oops", RESULT_LINE]),
        vec![Some(PROGRESS_LINE.to_string()), None],
        lines(&[RESULT_LINE_WITHOUT_LOSS, RESULT_LINE]),
        lines(&["{}", RESULT_LINE]),
    ];
    for reads in outputs {
        let mut run = Run::new();
        for read in &reads {
            run = run.feed(read.as_deref());
        }
        assert_eq!(run.finish(), run_speed_test(&reads));
    }
}
