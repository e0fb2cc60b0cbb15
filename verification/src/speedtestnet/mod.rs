//! The speed-test probe: runs the `speedtest` program against one server and
//! turns the record it prints into samples.

use vstd::prelude::*;
use vstd::string::*;
use vstd::utf8::encode_utf8;
use crate::failure::Failure;
use crate::json::{document, Json, JsonValue};
use crate::metric::{Label, Name, Reading, Sample};
use crate::speedtestnet::types::SpeedTestResult;
use crate::supervise::{Policy, Schedule, Supervisor};

pub mod types;

verus! {

/// Seconds between two speed tests.
pub const FIVE_MINS: u64 = 60 * 5;

/// The server that every test runs against.
pub const HYPEROPTIC_SERVER_ID: &'static str = "14679";

/// The program that runs the test.
pub const PROGRAM: &'static str = "speedtest";

/// How many raw bandwidth counts make one unit of the published bandwidth.
pub const BANDWIDTH_UNIT: u64 = 175_000;

/// The arguments that the program is started with: the server, and output as
/// one JSON document per line.
pub fn arguments() -> (r: Vec<&'static str>)
    ensures
        r@.len() == 4,
        r@[0]@ == "-s"@,
        r@[1]@ == HYPEROPTIC_SERVER_ID@,
        r@[2]@ == "-f"@,
        r@[3]@ == "json"@,
{
    let mut args: Vec<&'static str> = Vec::new();
    args.push("-s");
    args.push(HYPEROPTIC_SERVER_ID);
    args.push("-f");
    args.push("json");
    args
}

impl SpeedTestResult {
    /// The samples that a result gives: both bandwidths, counted in
    /// [`BANDWIDTH_UNIT`]s, the four ping figures and the packet loss.
    pub open spec fn samples(self) -> Seq<Sample> {
        seq![
            Sample::labelled(
                Name::Bandwidth,
                Label::Download,
                Reading::Scaled { raw: self.download.bandwidth, per_unit: BANDWIDTH_UNIT },
            ),
            Sample::labelled(
                Name::Bandwidth,
                Label::Upload,
                Reading::Scaled { raw: self.upload.bandwidth, per_unit: BANDWIDTH_UNIT },
            ),
            Sample::labelled(Name::Ping, Label::High, Reading::Measured(self.ping.high)),
            Sample::labelled(Name::Ping, Label::Jitter, Reading::Measured(self.ping.jitter)),
            Sample::labelled(Name::Ping, Label::Low, Reading::Measured(self.ping.low)),
            Sample::labelled(Name::Ping, Label::Latency, Reading::Measured(self.ping.latency)),
            Sample::plain(Name::PacketLoss, Reading::Measured(self.packet_loss)),
        ]
    }
}

/// The samples of a decoded result.
pub fn result_samples(result: &SpeedTestResult) -> (r: Vec<Sample>)
    ensures
        r@ == result.samples(),
{
    let mut out: Vec<Sample> = Vec::new();
    out.push(
        Sample::labelled(
            Name::Bandwidth,
            Label::Download,
            Reading::Scaled { raw: result.download.bandwidth, per_unit: BANDWIDTH_UNIT },
        ),
    );
    out.push(
        Sample::labelled(
            Name::Bandwidth,
            Label::Upload,
            Reading::Scaled { raw: result.upload.bandwidth, per_unit: BANDWIDTH_UNIT },
        ),
    );
    out.push(Sample::labelled(Name::Ping, Label::High, Reading::Measured(result.ping.high)));
    out.push(Sample::labelled(Name::Ping, Label::Jitter, Reading::Measured(result.ping.jitter)));
    out.push(Sample::labelled(Name::Ping, Label::Low, Reading::Measured(result.ping.low)));
    out.push(Sample::labelled(Name::Ping, Label::Latency, Reading::Measured(result.ping.latency)));
    out.push(Sample::plain(Name::PacketLoss, Reading::Measured(result.packet_loss)));
    out
}

/// What a `result` document gives: its samples, or [`Failure::ResultRecord`]
/// where it does not decode.
pub open spec fn handled(v: JsonValue) -> Result<Seq<Sample>, Failure> {
    match SpeedTestResult::decoded(v) {
        Some(result) => Ok(result.samples()),
        None => Err(Failure::ResultRecord),
    }
}

/// Decodes a `result` document and gives its samples.
pub fn handle_result(json: &Json) -> (r: Result<Vec<Sample>, Failure>)
    ensures
        match r {
            Ok(samples) => handled(json@) == Ok::<Seq<Sample>, Failure>(samples@),
            Err(e) => handled(json@) == Err::<Seq<Sample>, Failure>(e),
        },
{
    match SpeedTestResult::decode(json) {
        Some(result) => Ok(result_samples(&result)),
        None => Err(Failure::ResultRecord),
    }
}

/// The member `type` of a line's document: every line is an object that says
/// in a string what kind of line it is.
pub open spec fn line_type(v: JsonValue) -> Result<Seq<char>, Failure> {
    if !(v is Object) {
        Err(Failure::LineNotObject)
    } else {
        match v.text_at("type"@) {
            Some(t) => Ok(t),
            None => Err(Failure::LineUntyped),
        }
    }
}

/// What the document of one line asks for: `Ok(None)` to read on, samples to
/// publish them and stop reading, a failure to give up. Only a line of type
/// `result` is looked into.
pub open spec fn document_step(v: JsonValue) -> Result<Option<Seq<Sample>>, Failure> {
    match line_type(v) {
        Err(e) => Err(e),
        Ok(t) => if t == "result"@ {
            match handled(v) {
                Ok(samples) => Ok(Some(samples)),
                Err(e) => Err(e),
            }
        } else {
            Ok(None)
        },
    }
}

/// What one read from the program's output asks for. `None` is a read that
/// failed; a line counts by the document that its text holds.
pub open spec fn line_step(read: Option<Seq<char>>) -> Result<Option<Seq<Sample>>, Failure> {
    match read {
        None => Err(Failure::Pipe),
        Some(line) => match document(encode_utf8(line)) {
            None => Err(Failure::LineSyntax),
            Some(v) => document_step(v),
        },
    }
}

/// What a whole run gives: the samples of the first `result` line, nothing
/// where the output ends before one, and the first failure where one comes
/// before a `result` line. Whatever follows the deciding line is not looked at.
pub open spec fn stream_outcome(reads: Seq<Option<Seq<char>>>) -> Result<Seq<Sample>, Failure>
    decreases reads.len(),
{
    if reads.len() == 0 {
        Ok(Seq::empty())
    } else {
        match line_step(reads[0]) {
            Err(e) => Err(e),
            Ok(Some(samples)) => Ok(samples),
            Ok(None) => stream_outcome(reads.skip(1)),
        }
    }
}

/// Whether a computed step is the step that the model names.
pub open spec fn same_step(
    r: Result<Option<Vec<Sample>>, Failure>,
    step: Result<Option<Seq<Sample>>, Failure>,
) -> bool {
    match r {
        Ok(Some(samples)) => step == Ok::<Option<Seq<Sample>>, Failure>(Some(samples@)),
        Ok(None) => step == Ok::<Option<Seq<Sample>>, Failure>(None),
        Err(e) => step == Err::<Option<Seq<Sample>>, Failure>(e),
    }
}

/// Decides what the document of one line asks for.
pub fn read_document(json: &Json) -> (r: Result<Option<Vec<Sample>>, Failure>)
    ensures
        same_step(r, document_step(json@)),
{
    if !json.is_object() {
        return Err(Failure::LineNotObject);
    }
    let is_result = match json.text_at("type") {
        Some(t) => crate::text::str_eq(t, "result"),
        None => return Err(Failure::LineUntyped),
    };
    if is_result {
        match handle_result(json) {
            Ok(samples) => Ok(Some(samples)),
            Err(e) => Err(e),
        }
    } else {
        Ok(None)
    }
}

/// Decides what one read from the program's output asks for.
pub fn read_line(read: Option<&str>) -> (r: Result<Option<Vec<Sample>>, Failure>)
    ensures
        same_step(
            r,
            line_step(
                match read {
                    Some(line) => Some(line@),
                    None => None,
                },
            ),
        ),
{
    match read {
        None => Err(Failure::Pipe),
        Some(line) => match Json::parse(line.as_bytes()) {
            None => Err(Failure::LineSyntax),
            Some(json) => read_document(&json),
        },
    }
}

/// How far the output of one run has been read.
#[derive(Debug, PartialEq, Eq)]
pub enum Run {
    /// No line has decided the run yet: there is more to read.
    Open,
    /// The run is decided: nothing more is read.
    Closed(Result<Vec<Sample>, Failure>),
}

/// The mathematical value of a [`Run`].
pub enum RunView {
    Open,
    Closed(Result<Seq<Sample>, Failure>),
}

impl View for Run {
    type V = RunView;

    open spec fn view(&self) -> RunView {
        match self {
            Run::Open => RunView::Open,
            Run::Closed(Ok(samples)) => RunView::Closed(Ok(samples@)),
            Run::Closed(Err(e)) => RunView::Closed(Err(*e)),
        }
    }
}

impl RunView {
    /// The run after one more read. A run that is decided stays as it is; an
    /// open one is decided by a `result` line or by a failure.
    pub open spec fn fed(self, read: Option<Seq<char>>) -> RunView {
        match self {
            RunView::Closed(_) => self,
            RunView::Open => match line_step(read) {
                Ok(None) => RunView::Open,
                Ok(Some(samples)) => RunView::Closed(Ok(samples)),
                Err(e) => RunView::Closed(Err(e)),
            },
        }
    }

    /// The run after several reads, first read first.
    pub open spec fn fed_all(self, reads: Seq<Option<Seq<char>>>) -> RunView
        decreases reads.len(),
    {
        if reads.len() == 0 {
            self
        } else {
            self.fed(reads[0]).fed_all(reads.skip(1))
        }
    }

    /// The run once the output has ended: a run still open then has nothing
    /// to publish.
    pub open spec fn ended(self) -> RunView {
        match self {
            RunView::Closed(_) => self,
            RunView::Open => RunView::Closed(Ok(Seq::empty())),
        }
    }
}

/// The view of one read: a line by its characters, `None` for a read that
/// failed.
pub open spec fn read_view(read: Option<&str>) -> Option<Seq<char>> {
    match read {
        Some(line) => Some(line@),
        None => None,
    }
}

impl Run {
    /// A run of which nothing has been read.
    pub fn new() -> (r: Run)
        ensures
            r@ == RunView::Open,
    {
        Run::Open
    }

    /// Whether there is more to read.
    pub fn is_open(&self) -> (r: bool)
        ensures
            r == (self@ is Open),
    {
        match self {
            Run::Open => true,
            Run::Closed(_) => false,
        }
    }

    /// Takes in one read from the program's output: a line, or `None` for a
    /// read that failed.
    pub fn feed(self, read: Option<&str>) -> (r: Run)
        ensures
            r@ == self@.fed(read_view(read)),
    {
        match self {
            Run::Closed(outcome) => Run::Closed(outcome),
            Run::Open => match read_line(read) {
                Ok(None) => Run::Open,
                Ok(Some(samples)) => Run::Closed(Ok(samples)),
                Err(e) => Run::Closed(Err(e)),
            },
        }
    }

    /// A run whose program could not be started: it is decided at once, as
    /// [`Failure::Spawn`].
    pub fn not_started() -> (r: Run)
        ensures
            r@ == RunView::Closed(Err(Failure::Spawn)),
    {
        Run::Closed(Err(Failure::Spawn))
    }

    /// Takes in that the output has ended, and hands out what the run gave.
    pub fn finish(self) -> (r: Result<Vec<Sample>, Failure>)
        ensures
            match r {
                Ok(samples) => self@.ended() == RunView::Closed(Ok(samples@)),
                Err(e) => self@.ended() == RunView::Closed(Err(e)),
            },
    {
        match self {
            Run::Closed(outcome) => outcome,
            Run::Open => Ok(Vec::new()),
        }
    }
}

/// The reads of a run by their characters.
pub open spec fn reads_of(reads: Seq<Option<String>>) -> Seq<Option<Seq<char>>> {
    Seq::new(
        reads.len(),
        |i: int|
            match reads[i] {
                Some(line) => Some(line@),
                None => None,
            },
    )
}

/// Goes through the whole output of one run, read by read, up to the line
/// that decides it.
pub fn run_speed_test(reads: &Vec<Option<String>>) -> (r: Result<Vec<Sample>, Failure>)
    ensures
        match r {
            Ok(samples) => stream_outcome(reads_of(reads@)) == Ok::<Seq<Sample>, Failure>(samples@),
            Err(e) => stream_outcome(reads_of(reads@)) == Err::<Seq<Sample>, Failure>(e),
        },
{
    let ghost all = reads_of(reads@);
    assert(all.skip(0) =~= all);
    let mut run = Run::new();
    let mut i: usize = 0;
    while i < reads.len() && run.is_open()
        invariant
            i <= reads@.len(),
            all == reads_of(reads@),
            run@ is Open ==> stream_outcome(all) == stream_outcome(all.skip(i as int)),
            run@ matches RunView::Closed(outcome) ==> stream_outcome(all) == outcome,
        decreases reads@.len() - i,
    {
        let ghost rest = all.skip(i as int);
        assert(rest.skip(1) =~= all.skip(i + 1));
        run = match &reads[i] {
            Some(line) => run.feed(Some(line.as_str())),
            None => run.feed(None),
        };
        i += 1;
    }
    run.finish()
}

/// Reading a run line by line and then its end gives what the whole output
/// says: the two ways of going through an output agree.
pub proof fn lemma_fed_run_is_stream_outcome(reads: Seq<Option<Seq<char>>>)
    ensures
        RunView::Open.fed_all(reads).ended() == RunView::Closed(stream_outcome(reads)),
    decreases reads.len(),
{
    if reads.len() > 0 {
        match line_step(reads[0]) {
            Ok(None) => {
                lemma_fed_run_is_stream_outcome(reads.skip(1));
            },
            _ => {
                lemma_closed_run_stays(RunView::Open.fed(reads[0]), reads.skip(1));
            },
        }
    }
}

/// A run that is decided takes no notice of what is read after.
pub proof fn lemma_closed_run_stays(run: RunView, reads: Seq<Option<Seq<char>>>)
    requires
        run is Closed,
    ensures
        run.fed_all(reads) == run,
        run.ended() == run,
    decreases reads.len(),
{
    if reads.len() > 0 {
        lemma_closed_run_stays(run.fed(reads[0]), reads.skip(1));
    }
}

/// The loop before its first tick.
pub open spec fn start_mon_spec() -> Supervisor {
    Supervisor::new(Policy::Resume)
}

/// Sets up the loop: it goes on after an iteration that failed.
#[verifier::when_used_as_spec(start_mon_spec)]
pub fn start_mon() -> (r: Supervisor)
    ensures
        r == start_mon_spec(),
{
    Supervisor::new(Policy::Resume)
}

/// When the loop runs: at once, and then every [`FIVE_MINS`] seconds.
pub fn schedule() -> (r: Schedule)
    ensures
        r == (Schedule { delay_secs: 0, period_secs: FIVE_MINS }),
{
    Schedule { delay_secs: 0, period_secs: FIVE_MINS }
}

/// Lines that ask to read on do not count: the run is decided by the first
/// line after them.
pub proof fn lemma_skipped_lines_do_not_count(
    skipped: Seq<Option<Seq<char>>>,
    rest: Seq<Option<Seq<char>>>,
)
    requires
        forall|i: int|
            0 <= i < skipped.len() ==> line_step(#[trigger] skipped[i]) == Ok::<
                Option<Seq<Sample>>,
                Failure,
            >(None),
    ensures
        stream_outcome(skipped + rest) == stream_outcome(rest),
    decreases skipped.len(),
{
    if skipped.len() > 0 {
        assert((skipped + rest).skip(1) =~= skipped.skip(1) + rest);
        lemma_skipped_lines_do_not_count(skipped.skip(1), rest);
    }
}

/// A run publishes at most once, and from one line only: the samples of the
/// line that decides it, whatever comes after that line.
pub proof fn lemma_first_result_decides(
    read: Option<Seq<char>>,
    samples: Seq<Sample>,
    rest: Seq<Option<Seq<char>>>,
)
    requires
        line_step(read) == Ok::<Option<Seq<Sample>>, Failure>(Some(samples)),
    ensures
        stream_outcome(seq![read] + rest) == Ok::<Seq<Sample>, Failure>(samples),
{
}

/// The loop outlives every failure: whatever the runs so far gave, the next
/// tick starts the program again.
pub proof fn lemma_loop_survives_failures(outcomes: Seq<Option<Failure>>)
    ensures
        start_mon().after_all(outcomes).running(),
{
    crate::supervise::lemma_resume_never_halts(start_mon(), outcomes);
}


} // verus!
