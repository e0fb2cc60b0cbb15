//! The metric vocabulary: which series exist and what a sample of one holds.

use vstd::prelude::*;
use crate::binary64::Binary64;

verus! {

/// How a series takes its samples.
#[derive(Clone, Copy, Debug, PartialEq, Eq, Structural)]
pub enum Kind {
    /// The series holds the latest value.
    Gauge,
    /// The series records the distribution of all values.
    Histogram,
}

/// The series that the probes feed.
#[derive(Clone, Copy, Debug, PartialEq, Eq, Structural)]
pub enum Name {
    AvgLatency,
    Latency,
    CellularUp,
    Rssi,
    Rsrp,
    Sinr,
    Rsrq,
    Bandwidth,
    Ping,
    PacketLoss,
}

/// The values of the label `type`.
#[derive(Clone, Copy, Debug, PartialEq, Eq, Structural)]
pub enum Label {
    Intf,
    Nsa,
    Download,
    Upload,
    High,
    Jitter,
    Low,
    Latency,
}

/// The value of a sample.
#[derive(Clone, Copy, Debug, PartialEq, Eq, Structural)]
pub enum Reading {
    /// A whole number.
    Whole(i64),
    /// The quotient of `raw` by `per_unit`, left for the recorder to divide.
    Scaled { raw: u64, per_unit: u64 },
    /// A measurement passed on as it came.
    Measured(Binary64),
}

/// One value for one series.
#[derive(Clone, Copy, Debug, PartialEq, Eq, Structural)]
pub struct Sample {
    pub name: Name,
    pub label: Option<Label>,
    pub value: Reading,
}

impl Name {
    /// The name under which a series is published.
    pub open spec fn text(self) -> Seq<char> {
        match self {
            Name::AvgLatency => "cfspeedtest.avg_latency"@,
            Name::Latency => "cfspeedtest.latency"@,
            Name::CellularUp => "cellular.up"@,
            Name::Rssi => "cellular.RSSI"@,
            Name::Rsrp => "cellular.RSRP"@,
            Name::Sinr => "cellular.SINR"@,
            Name::Rsrq => "cellular.RSRQ"@,
            Name::Bandwidth => "speedtestnet.bandwidth"@,
            Name::Ping => "speedtestnet.ping"@,
            Name::PacketLoss => "speedtestnet.packet_loss"@,
        }
    }

    /// The name under which a series is published.
    pub fn as_str(self) -> (r: &'static str)
        ensures
            r@ == self.text(),
    {
        match self {
            Name::AvgLatency => "cfspeedtest.avg_latency",
            Name::Latency => "cfspeedtest.latency",
            Name::CellularUp => "cellular.up",
            Name::Rssi => "cellular.RSSI",
            Name::Rsrp => "cellular.RSRP",
            Name::Sinr => "cellular.SINR",
            Name::Rsrq => "cellular.RSRQ",
            Name::Bandwidth => "speedtestnet.bandwidth",
            Name::Ping => "speedtestnet.ping",
            Name::PacketLoss => "speedtestnet.packet_loss",
        }
    }

    /// Every series is a gauge but the one of single latency samples.
    pub open spec fn kind_spec(self) -> Kind {
        match self {
            Name::Latency => Kind::Histogram,
            _ => Kind::Gauge,
        }
    }

    /// How a series takes its samples.
    #[verifier::when_used_as_spec(kind_spec)]
    pub fn kind(self) -> (r: Kind)
        ensures
            r == self.kind_spec(),
    {
        match self {
            Name::Latency => Kind::Histogram,
            _ => Kind::Gauge,
        }
    }
}

impl Label {
    /// The value that the label `type` takes.
    pub open spec fn text(self) -> Seq<char> {
        match self {
            Label::Intf => "INTF"@,
            Label::Nsa => "NSA"@,
            Label::Download => "download"@,
            Label::Upload => "upload"@,
            Label::High => "high"@,
            Label::Jitter => "jitter"@,
            Label::Low => "low"@,
            Label::Latency => "latency"@,
        }
    }

    /// The value that the label `type` takes.
    pub fn as_str(self) -> (r: &'static str)
        ensures
            r@ == self.text(),
    {
        match self {
            Label::Intf => "INTF",
            Label::Nsa => "NSA",
            Label::Download => "download",
            Label::Upload => "upload",
            Label::High => "high",
            Label::Jitter => "jitter",
            Label::Low => "low",
            Label::Latency => "latency",
        }
    }
}

/// The key of the only label in use.
pub const LABEL_KEY: &'static str = "type";

impl Sample {
    /// A sample of a series without labels.
    pub open spec fn plain_spec(name: Name, value: Reading) -> Sample {
        Sample { name, label: None, value }
    }

    /// A sample of a series without labels.
    #[verifier::when_used_as_spec(plain_spec)]
    pub fn plain(name: Name, value: Reading) -> (r: Sample)
        ensures
            r == Sample::plain_spec(name, value),
    {
        Sample { name, label: None, value }
    }

    /// A sample of the series that `label` picks among those called `name`.
    pub open spec fn labelled_spec(name: Name, label: Label, value: Reading) -> Sample {
        Sample { name, label: Some(label), value }
    }

    /// A sample of the series that `label` picks among those called `name`.
    #[verifier::when_used_as_spec(labelled_spec)]
    pub fn labelled(name: Name, label: Label, value: Reading) -> (r: Sample)
        ensures
            r == Sample::labelled_spec(name, label, value),
    {
        Sample { name, label: Some(label), value }
    }
}

} // verus!
