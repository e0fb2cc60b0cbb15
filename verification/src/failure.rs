//! What can go wrong in a probe, and how it is reported.

use vstd::prelude::*;

verus! {

/// The five classes of failure.
#[derive(Clone, Copy, Debug, PartialEq, Eq, Structural)]
pub enum FailureKind {
    /// A network request or its reply was lost.
    Transport,
    /// The router did not hand out a usable session.
    Auth,
    /// A reply was read but does not have the expected shape.
    Parse,
    /// The speed-test program could not be started or read from.
    Process,
    /// A line of the speed-test program's output cannot be classified.
    Line,
}

/// A failure of one probe iteration.
#[derive(Clone, Copy, Debug, PartialEq, Eq, Structural)]
pub enum Failure {
    /// The latency measurement did not complete.
    Measurement,
    /// The login request got no reply.
    LoginUnanswered,
    /// The login reply carries no `set-cookie` header.
    MissingCookie,
    /// The `set-cookie` header holds bytes other than visible ASCII.
    UnreadableCookie,
    /// The `set-cookie` header holds no `name=value` pair.
    MalformedCookie,
    /// The status request got no reply.
    StatusUnanswered,
    /// The status reply is not JSON.
    StatusSyntax,
    /// The status reply lacks the `{"Object": [ .. ]}` envelope.
    Envelope,
    /// The record inside the envelope misses a field or has one of the wrong type.
    StatusRecord,
    /// The speed-test program could not be started.
    Spawn,
    /// The output of the speed-test program could not be read.
    Pipe,
    /// A line of output is not JSON.
    LineSyntax,
    /// A line of output is JSON but not an object.
    LineNotObject,
    /// A line of output has no string member `type`.
    LineUntyped,
    /// The `result` line misses a field or has one of the wrong type.
    ResultRecord,
}

impl Failure {
    /// The class of a failure.
    pub open spec fn kind_spec(self) -> FailureKind {
        match self {
            Failure::Measurement | Failure::StatusUnanswered => FailureKind::Transport,
            Failure::LoginUnanswered
            | Failure::MissingCookie
            | Failure::UnreadableCookie
            | Failure::MalformedCookie => FailureKind::Auth,
            Failure::StatusSyntax
            | Failure::Envelope
            | Failure::StatusRecord
            | Failure::ResultRecord => FailureKind::Parse,
            Failure::Spawn | Failure::Pipe => FailureKind::Process,
            Failure::LineSyntax | Failure::LineNotObject | Failure::LineUntyped => FailureKind::Line,
        }
    }

    /// The class of a failure.
    #[verifier::when_used_as_spec(kind_spec)]
    pub fn kind(self) -> (r: FailureKind)
        ensures
            r == self.kind_spec(),
    {
        match self {
            Failure::Measurement | Failure::StatusUnanswered => FailureKind::Transport,
            Failure::LoginUnanswered
            | Failure::MissingCookie
            | Failure::UnreadableCookie
            | Failure::MalformedCookie => FailureKind::Auth,
            Failure::StatusSyntax
            | Failure::Envelope
            | Failure::StatusRecord
            | Failure::ResultRecord => FailureKind::Parse,
            Failure::Spawn | Failure::Pipe => FailureKind::Process,
            Failure::LineSyntax | Failure::LineNotObject | Failure::LineUntyped => FailureKind::Line,
        }
    }

    /// The text of a failure's log message.
    pub open spec fn message_spec(self) -> Seq<char> {
        match self {
            Failure::Measurement => "Latency measurement did not complete"@,
            Failure::LoginUnanswered => "Unable to reach the router to log in"@,
            Failure::MissingCookie => "Unable to find cookie in auth response"@,
            Failure::UnreadableCookie => "Unable to read cookie in auth response as text"@,
            Failure::MalformedCookie => "Unable to parse cookie in auth response"@,
            Failure::StatusUnanswered => "Unable to fetch wan status"@,
            Failure::StatusSyntax => "Unable to read wan status response as json"@,
            Failure::Envelope => "Unable to parse wam status response"@,
            Failure::StatusRecord => "Unable to read wan status fields"@,
            Failure::Spawn => "Unable to start speedtest"@,
            Failure::Pipe => "Unable to read speedtest output"@,
            Failure::LineSyntax => "Could not parse line as json"@,
            Failure::LineNotObject => "Could not parse json blob as object"@,
            Failure::LineUntyped => "json blob had no type field?"@,
            Failure::ResultRecord => "Unable to read speedtest result fields"@,
        }
    }

    /// A one-line description for the log.
    pub fn message(self) -> (r: &'static str)
        ensures
            r@ == self.message_spec(),
    {
        match self {
            Failure::Measurement => "Latency measurement did not complete",
            Failure::LoginUnanswered => "Unable to reach the router to log in",
            Failure::MissingCookie => "Unable to find cookie in auth response",
            Failure::UnreadableCookie => "Unable to read cookie in auth response as text",
            Failure::MalformedCookie => "Unable to parse cookie in auth response",
            Failure::StatusUnanswered => "Unable to fetch wan status",
            Failure::StatusSyntax => "Unable to read wan status response as json",
            Failure::Envelope => "Unable to parse wam status response",
            Failure::StatusRecord => "Unable to read wan status fields",
            Failure::Spawn => "Unable to start speedtest",
            Failure::Pipe => "Unable to read speedtest output",
            Failure::LineSyntax => "Could not parse line as json",
            Failure::LineNotObject => "Could not parse json blob as object",
            Failure::LineUntyped => "json blob had no type field?",
            Failure::ResultRecord => "Unable to read speedtest result fields",
        }
    }
}

} // verus!
