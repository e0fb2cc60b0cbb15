//! The record that the speed-test program prints when it is done.

use vstd::prelude::*;
use crate::binary64::Binary64;
use crate::json::{Json, JsonValue};

verus! {

/// The outcome of one speed test.
#[derive(Clone, Copy, Debug, PartialEq, Eq, Structural)]
pub struct SpeedTestResult {
    pub download: DownloadResults,
    /// Member `packetLoss`; zero where the record has none.
    pub packet_loss: Binary64,
    pub ping: PingResults,
    pub upload: UploadResults,
}

#[derive(Clone, Copy, Debug, PartialEq, Eq, Structural)]
pub struct DownloadResults {
    pub bandwidth: u64,
    pub bytes: u64,
    pub elapsed: u64,
    pub latency: DownloadLatencyResults,
}

#[derive(Clone, Copy, Debug, PartialEq, Eq, Structural)]
pub struct DownloadLatencyResults {
    pub high: Binary64,
    pub iqm: Binary64,
    pub jitter: Binary64,
    pub low: Binary64,
}

#[derive(Clone, Copy, Debug, PartialEq, Eq, Structural)]
pub struct PingResults {
    pub high: Binary64,
    pub jitter: Binary64,
    pub latency: Binary64,
    pub low: Binary64,
}

#[derive(Clone, Copy, Debug, PartialEq, Eq, Structural)]
pub struct UploadResults {
    pub bandwidth: u64,
    pub bytes: u64,
    pub elapsed: u64,
    pub latency: UploadLatencyResults,
}

#[derive(Clone, Copy, Debug, PartialEq, Eq, Structural)]
pub struct UploadLatencyResults {
    pub high: Binary64,
    pub iqm: Binary64,
    pub jitter: Binary64,
    pub low: Binary64,
}

/// The packet loss of a record without the member `packetLoss`.
pub open spec fn default_packet_loss_spec() -> Binary64 {
    Binary64::zero()
}

/// The packet loss of a record without the member `packetLoss`.
#[verifier::when_used_as_spec(default_packet_loss_spec)]
pub fn default_packet_loss() -> (r: Binary64)
    ensures
        r == default_packet_loss_spec(),
{
    Binary64::zero()
}

impl DownloadLatencyResults {
    /// The record that an object with the numbers `high`, `iqm`, `jitter` and
    /// `low` stands for; `None` for anything else. Further members are
    /// ignored.
    pub open spec fn decoded(v: JsonValue) -> Option<DownloadLatencyResults> {
        match (
            v.binary64_at("high"@),
            v.binary64_at("iqm"@),
            v.binary64_at("jitter"@),
            v.binary64_at("low"@),
        ) {
            (Some(high), Some(iqm), Some(jitter), Some(low)) => Some(
                DownloadLatencyResults { high, iqm, jitter, low },
            ),
            _ => None,
        }
    }

    /// Reads the record out of a document.
    pub fn decode(json: &Json) -> (r: Option<DownloadLatencyResults>)
        ensures
            r == DownloadLatencyResults::decoded(json@),
    {
        let high = match json.binary64_at("high") {
            Some(x) => x,
            None => return None,
        };
        let iqm = match json.binary64_at("iqm") {
            Some(x) => x,
            None => return None,
        };
        let jitter = match json.binary64_at("jitter") {
            Some(x) => x,
            None => return None,
        };
        let low = match json.binary64_at("low") {
            Some(x) => x,
            None => return None,
        };
        Some(DownloadLatencyResults { high, iqm, jitter, low })
    }
}

impl UploadLatencyResults {
    /// The record that an object with the numbers `high`, `iqm`, `jitter` and
    /// `low` stands for; `None` for anything else. Further members are
    /// ignored.
    pub open spec fn decoded(v: JsonValue) -> Option<UploadLatencyResults> {
        match (
            v.binary64_at("high"@),
            v.binary64_at("iqm"@),
            v.binary64_at("jitter"@),
            v.binary64_at("low"@),
        ) {
            (Some(high), Some(iqm), Some(jitter), Some(low)) => Some(
                UploadLatencyResults { high, iqm, jitter, low },
            ),
            _ => None,
        }
    }

    /// Reads the record out of a document.
    pub fn decode(json: &Json) -> (r: Option<UploadLatencyResults>)
        ensures
            r == UploadLatencyResults::decoded(json@),
    {
        let high = match json.binary64_at("high") {
            Some(x) => x,
            None => return None,
        };
        let iqm = match json.binary64_at("iqm") {
            Some(x) => x,
            None => return None,
        };
        let jitter = match json.binary64_at("jitter") {
            Some(x) => x,
            None => return None,
        };
        let low = match json.binary64_at("low") {
            Some(x) => x,
            None => return None,
        };
        Some(UploadLatencyResults { high, iqm, jitter, low })
    }
}

impl PingResults {
    /// The record that an object with the numbers `high`, `jitter`, `latency`
    /// and `low` stands for; `None` for anything else. Further members are
    /// ignored.
    pub open spec fn decoded(v: JsonValue) -> Option<PingResults> {
        match (
            v.binary64_at("high"@),
            v.binary64_at("jitter"@),
            v.binary64_at("latency"@),
            v.binary64_at("low"@),
        ) {
            (Some(high), Some(jitter), Some(latency), Some(low)) => Some(
                PingResults { high, jitter, latency, low },
            ),
            _ => None,
        }
    }

    /// Reads the record out of a document.
    pub fn decode(json: &Json) -> (r: Option<PingResults>)
        ensures
            r == PingResults::decoded(json@),
    {
        let high = match json.binary64_at("high") {
            Some(x) => x,
            None => return None,
        };
        let jitter = match json.binary64_at("jitter") {
            Some(x) => x,
            None => return None,
        };
        let latency = match json.binary64_at("latency") {
            Some(x) => x,
            None => return None,
        };
        let low = match json.binary64_at("low") {
            Some(x) => x,
            None => return None,
        };
        Some(PingResults { high, jitter, latency, low })
    }
}

impl DownloadResults {
    /// The record that an object with the unsigned integers `bandwidth`,
    /// `bytes` and `elapsed` and the latency record `latency` stands for;
    /// `None` for anything else. Further members are ignored.
    pub open spec fn decoded(v: JsonValue) -> Option<DownloadResults> {
        match (
            v.unsigned_at("bandwidth"@),
            v.unsigned_at("bytes"@),
            v.unsigned_at("elapsed"@),
            v.member("latency"@),
        ) {
            (Some(bandwidth), Some(bytes), Some(elapsed), Some(l)) => match DownloadLatencyResults::decoded(
                l,
            ) {
                Some(latency) => Some(DownloadResults { bandwidth, bytes, elapsed, latency }),
                None => None,
            },
            _ => None,
        }
    }

    /// Reads the record out of a document.
    pub fn decode(json: &Json) -> (r: Option<DownloadResults>)
        ensures
            r == DownloadResults::decoded(json@),
    {
        let bandwidth = match json.unsigned_at("bandwidth") {
            Some(x) => x,
            None => return None,
        };
        let bytes = match json.unsigned_at("bytes") {
            Some(x) => x,
            None => return None,
        };
        let elapsed = match json.unsigned_at("elapsed") {
            Some(x) => x,
            None => return None,
        };
        let latency = match json.get("latency") {
            Some(l) => match DownloadLatencyResults::decode(l) {
                Some(x) => x,
                None => return None,
            },
            None => return None,
        };
        Some(DownloadResults { bandwidth, bytes, elapsed, latency })
    }
}

impl UploadResults {
    /// The record that an object with the unsigned integers `bandwidth`,
    /// `bytes` and `elapsed` and the latency record `latency` stands for;
    /// `None` for anything else. Further members are ignored.
    pub open spec fn decoded(v: JsonValue) -> Option<UploadResults> {
        match (
            v.unsigned_at("bandwidth"@),
            v.unsigned_at("bytes"@),
            v.unsigned_at("elapsed"@),
            v.member("latency"@),
        ) {
            (Some(bandwidth), Some(bytes), Some(elapsed), Some(l)) => match UploadLatencyResults::decoded(
                l,
            ) {
                Some(latency) => Some(UploadResults { bandwidth, bytes, elapsed, latency }),
                None => None,
            },
            _ => None,
        }
    }

    /// Reads the record out of a document.
    pub fn decode(json: &Json) -> (r: Option<UploadResults>)
        ensures
            r == UploadResults::decoded(json@),
    {
        let bandwidth = match json.unsigned_at("bandwidth") {
            Some(x) => x,
            None => return None,
        };
        let bytes = match json.unsigned_at("bytes") {
            Some(x) => x,
            None => return None,
        };
        let elapsed = match json.unsigned_at("elapsed") {
            Some(x) => x,
            None => return None,
        };
        let latency = match json.get("latency") {
            Some(l) => match UploadLatencyResults::decode(l) {
                Some(x) => x,
                None => return None,
            },
            None => return None,
        };
        Some(UploadResults { bandwidth, bytes, elapsed, latency })
    }
}

impl SpeedTestResult {
    /// The packet loss that a record states: the number `packetLoss`, zero
    /// where there is no such member, `None` where the member is no number.
    pub open spec fn stated_packet_loss(v: JsonValue) -> Option<Binary64> {
        match v.member("packetLoss"@) {
            Some(p) => p.binary64(),
            None => Some(default_packet_loss()),
        }
    }

    /// The record that an object with the members `download`, `ping` and
    /// `upload`, and maybe `packetLoss`, stands for; `None` for anything
    /// else. Further members are ignored.
    pub open spec fn decoded(v: JsonValue) -> Option<SpeedTestResult> {
        match (v.member("download"@), v.member("ping"@), v.member("upload"@)) {
            (Some(d), Some(p), Some(u)) => match (
                DownloadResults::decoded(d),
                SpeedTestResult::stated_packet_loss(v),
                PingResults::decoded(p),
                UploadResults::decoded(u),
            ) {
                (Some(download), Some(packet_loss), Some(ping), Some(upload)) => Some(
                    SpeedTestResult { download, packet_loss, ping, upload },
                ),
                _ => None,
            },
            _ => None,
        }
    }

    /// Reads the record out of a document.
    pub fn decode(json: &Json) -> (r: Option<SpeedTestResult>)
        ensures
            r == SpeedTestResult::decoded(json@),
    {
        let download = match json.get("download") {
            Some(d) => match DownloadResults::decode(d) {
                Some(x) => x,
                None => return None,
            },
            None => return None,
        };
        let packet_loss = match json.get("packetLoss") {
            Some(p) => match p.as_binary64() {
                Some(x) => x,
                None => return None,
            },
            None => default_packet_loss(),
        };
        let ping = match json.get("ping") {
            Some(p) => match PingResults::decode(p) {
                Some(x) => x,
                None => return None,
            },
            None => return None,
        };
        let upload = match json.get("upload") {
            Some(u) => match UploadResults::decode(u) {
                Some(x) => x,
                None => return None,
            },
            None => return None,
        };
        Some(SpeedTestResult { download, packet_loss, ping, upload })
    }
}

/// A record without the member `packetLoss` decodes wherever its other
/// members do, and then with a packet loss of zero.
pub proof fn lemma_missing_packet_loss_is_zero(v: JsonValue)
    requires
        v.member("packetLoss"@) is None,
    ensures
        SpeedTestResult::decoded(v) is Some <==> {
            &&& v.member("download"@) matches Some(d) && DownloadResults::decoded(d) is Some
            &&& v.member("ping"@) matches Some(p) && PingResults::decoded(p) is Some
            &&& v.member("upload"@) matches Some(u) && UploadResults::decoded(u) is Some
        },
        SpeedTestResult::decoded(v) matches Some(result) ==> result.packet_loss == Binary64::zero(),
{
}


} // verus!
