//! The router probe: logs into the web interface of an NR5103E once and then
//! asks it for the state of the cellular link every few seconds.

use vstd::prelude::*;
use vstd::string::*;
use vstd::utf8::{
    encode_utf8, encode_utf8_valid_utf8, is_ascii_chars, is_ascii_chars_encode_utf8, valid_utf8,
};
use base64::Engine;
use cookie::Cookie;
use crate::failure::Failure;
use crate::json::{document, Json, JsonValue};
use crate::metric::{Label, Name, Reading, Sample};
use crate::nr5103e::types::{SessionId, WanStatus};
use crate::supervise::{Policy, Schedule, Supervisor};
use crate::text::lemma_utf8_injective;

pub use self::types::Password;

pub mod types;

verus! {

/// Where the router answers.
pub const ADDR: &'static str = "https://192.168.1.1";

/// Seconds between two status requests.
pub const PERIOD_SECS: u64 = 5;

/// The login body up to the encoded password.
pub const LOGIN_BODY_HEAD: &'static str = "{\"Input_Account\":\"admin\",\"Input_Passwd\":\"";

/// The login body after the encoded password.
pub const LOGIN_BODY_TAIL: &'static str =
    "\",\"currLang\":\"en\",\"RememberPassword\":0,\"SHA512_password\":false}";

/// A request for the caller to send.
#[derive(Debug)]
pub enum Request {
    /// `POST url` with the given body.
    Login { url: String, body: String },
    /// `GET url` with the header `Cookie` set to `cookie`.
    Status { url: String, cookie: String },
}

/// The mathematical value of a [`Request`].
pub enum RequestView {
    Login { url: Seq<char>, body: Seq<char> },
    Status { url: Seq<char>, cookie: Seq<char> },
}

impl View for Request {
    type V = RequestView;

    open spec fn view(&self) -> RequestView {
        match self {
            Request::Login { url, body } => RequestView::Login { url: url@, body: body@ },
            Request::Status { url, cookie } => RequestView::Status { url: url@, cookie: cookie@ },
        }
    }
}

/// The standard base64 text of some bytes: the alphabet of RFC 4648 with
/// padding, as the crate `base64` writes it.
pub uninterp spec fn base64_standard(data: Seq<u8>) -> Seq<char>;

/// `Engine::encode` of the crate `base64`, on its engine `STANDARD`. Trusted:
/// the text that comes back is [`base64_standard`] of the bytes.
#[verifier::external_body]
fn base64_encode(data: &[u8]) -> (r: String)
    ensures
        r@ == base64_standard(data@),
{
    base64::prelude::BASE64_STANDARD.encode(data)
}

/// The login body around an encoded password: a JSON object that names the
/// account `admin`, the password, and the fixed language and flags.
pub open spec fn login_body_spec(base64_password: Seq<char>) -> Seq<char> {
    LOGIN_BODY_HEAD@ + base64_password + LOGIN_BODY_TAIL@
}

/// Writes the login body around an encoded password.
pub fn login_body(base64_password: &str) -> (r: String)
    ensures
        r@ == login_body_spec(base64_password@),
{
    let mut body = String::from_str(LOGIN_BODY_HEAD);
    body.append(base64_password);
    body.append(LOGIN_BODY_TAIL);
    body
}

/// The login request for a password, which travels as the base64 text of its
/// UTF-8 bytes.
pub open spec fn login_request_spec(password: Seq<char>) -> RequestView {
    RequestView::Login {
        url: ADDR@ + "/UserLogin"@,
        body: login_body_spec(base64_standard(encode_utf8(password))),
    }
}

/// Builds the login request.
pub fn login_request(password: &Password) -> (r: Request)
    ensures
        r@ == login_request_spec(password@),
{
    let mut url = String::from_str(ADDR);
    url.append("/UserLogin");
    let base64_password = base64_encode(password.as_str().as_bytes());
    let body = login_body(base64_password.as_str());
    Request::Login { url, body }
}

/// The status request of a session: the token goes out as the cookie
/// `Session`.
pub open spec fn status_request_spec(session: Seq<char>) -> RequestView {
    RequestView::Status {
        url: ADDR@ + "/cgi-bin/DAL?oid=cellwan_status"@,
        cookie: "Session="@ + session,
    }
}

/// Builds the status request.
pub fn status_request(session: &SessionId) -> (r: Request)
    ensures
        r@ == status_request_spec(session@),
{
    let mut url = String::from_str(ADDR);
    url.append("/cgi-bin/DAL?oid=cellwan_status");
    let mut cookie = String::from_str("Session=");
    cookie.append(session.0.as_str());
    Request::Status { url, cookie }
}

/// The bytes that a header value may hold to count as text: printable ASCII
/// and the tab.
pub open spec fn is_visible_ascii(b: u8) -> bool {
    32 <= b < 127 || b == 9
}

/// Whether every byte of a header value is [`is_visible_ascii`].
pub open spec fn all_visible(bytes: Seq<u8>) -> bool {
    forall|i: int| 0 <= i < bytes.len() ==> is_visible_ascii(#[trigger] bytes[i])
}

/// ASCII bytes as characters.
pub open spec fn ascii_text(bytes: Seq<u8>) -> Seq<char> {
    Seq::new(bytes.len(), |i: int| bytes[i] as char)
}

/// A header value as text; `None` where a byte of it is not visible ASCII.
pub open spec fn header_text_spec(bytes: Seq<u8>) -> Option<Seq<char>> {
    if all_visible(bytes) {
        Some(ascii_text(bytes))
    } else {
        None
    }
}

/// `std::str::Utf8Error`, opaque here: where the bytes stop being UTF-8 is
/// not looked at.
#[verifier::external_type_specification]
#[verifier::external_body]
pub struct ExUtf8Error(std::str::Utf8Error);

/// `std::str::from_utf8`. Trusted: it accepts exactly the byte strings that
/// are UTF-8, and the text that it returns is made of the bytes it was given.
#[verifier::external_body]
fn str_from_utf8(bytes: &[u8]) -> (r: Result<&str, std::str::Utf8Error>)
    ensures
        match r {
            Ok(s) => s.spec_bytes() == bytes@,
            Err(_) => !valid_utf8(bytes@),
        },
{
    std::str::from_utf8(bytes)
}

/// ASCII bytes are the UTF-8 encoding of themselves, read as characters.
pub proof fn lemma_ascii_text_encoding(bytes: Seq<u8>)
    requires
        forall|i: int| 0 <= i < bytes.len() ==> #[trigger] bytes[i] < 128,
    ensures
        encode_utf8(ascii_text(bytes)) == bytes,
        valid_utf8(bytes),
{
    let chars = ascii_text(bytes);
    is_ascii_chars_encode_utf8(chars);
    encode_utf8_valid_utf8(chars);
}

/// Reads a header value as text.
pub fn header_text(bytes: &[u8]) -> (r: Option<&str>)
    ensures
        match r {
            Some(s) => header_text_spec(bytes@) == Some(s@),
            None => header_text_spec(bytes@) is None,
        },
{
    let mut i: usize = 0;
    while i < bytes.len()
        invariant
            i <= bytes@.len(),
            forall|k: int| 0 <= k < i ==> is_visible_ascii(#[trigger] bytes@[k]),
        decreases bytes@.len() - i,
    {
        let b = bytes[i];
        if !((32 <= b && b < 127) || b == 9) {
            return None;
        }
        i += 1;
    }
    proof {
        lemma_ascii_text_encoding(bytes@);
    }
    match str_from_utf8(bytes) {
        Ok(s) => {
            proof {
                lemma_utf8_injective(s@, ascii_text(bytes@));
            }
            Some(s)
        },
        Err(_) => None,
    }
}

/// The characters of a header value that is text: printable ASCII and the tab.
pub open spec fn is_header_char(c: char) -> bool {
    let n = c as u32;
    (32 <= n && n < 127) || n == 9
}

/// The characters that count as blank at the ends of a cookie's name and value.
pub open spec fn is_blank(c: char) -> bool {
    c == ' ' || c == '\t'
}

/// Where `c` first occurs in `s`.
pub open spec fn first_index(s: Seq<char>, c: char) -> Option<int>
    decreases s.len(),
{
    if s.len() == 0 {
        None
    } else if s[0] == c {
        Some(0)
    } else {
        match first_index(s.skip(1), c) {
            Some(i) => Some(i + 1),
            None => None,
        }
    }
}

/// `s` without the blanks it begins with.
pub open spec fn trim_start(s: Seq<char>) -> Seq<char>
    decreases s.len(),
{
    if s.len() > 0 && is_blank(s[0]) {
        trim_start(s.skip(1))
    } else {
        s
    }
}

/// `s` without the blanks it ends with.
pub open spec fn trim_end(s: Seq<char>) -> Seq<char>
    decreases s.len(),
{
    if s.len() > 0 && is_blank(s.last()) {
        trim_end(s.drop_last())
    } else {
        s
    }
}

/// `s` without the blanks at either end.
pub open spec fn trim(s: Seq<char>) -> Seq<char> {
    trim_end(trim_start(s))
}

/// The value of the cookie that a `set-cookie` header sets. The header is
/// `name=value` and then attributes, each after a `;`. Name and value lose
/// the blanks around them; there must be a `=`, and a name before it.
pub open spec fn cookie_value_spec(header: Seq<char>) -> Option<Seq<char>> {
    let pair = match first_index(header, ';') {
        Some(i) => header.take(i),
        None => header,
    };
    match first_index(pair, '=') {
        None => None,
        Some(i) => if trim(pair.take(i)).len() == 0 {
            None
        } else {
            Some(trim(pair.skip(i + 1)))
        },
    }
}

/// `cookie::ParseError`, opaque here: every header that sets no cookie fails
/// the login alike.
#[verifier::external_type_specification]
#[verifier::external_body]
pub struct ExCookieParseError(cookie::ParseError);

/// `Cookie::parse` of the crate `cookie`, and `Cookie::value` on what it
/// returns. Trusted, for headers of visible ASCII and tabs, among which the
/// space and the tab are the only white space: the parse succeeds exactly
/// where [`cookie_value_spec`] names a value, and the cookie has that value.
#[verifier::external_body]
fn cookie_value(header: &str) -> (r: Result<String, cookie::ParseError>)
    requires
        forall|i: int| 0 <= i < header@.len() ==> is_header_char(#[trigger] header@[i]),
    ensures
        match r {
            Ok(value) => cookie_value_spec(header@) == Some(value@),
            Err(_) => cookie_value_spec(header@) is None,
        },
{
    Cookie::parse(header).map(|c| c.value().to_owned())
}

/// The session that a login reply grants, by the value of its `set-cookie`
/// header: the value of the cookie set there. Without the header, with one
/// that is no text, or with one that sets no cookie, the login has failed.
pub open spec fn session_of(set_cookie: Option<Seq<u8>>) -> Result<Seq<char>, Failure> {
    match set_cookie {
        None => Err(Failure::MissingCookie),
        Some(bytes) => match header_text_spec(bytes) {
            None => Err(Failure::UnreadableCookie),
            Some(text) => match cookie_value_spec(text) {
                None => Err(Failure::MalformedCookie),
                Some(value) => Ok(value),
            },
        },
    }
}

/// Whether a computed session is the one that the model names.
pub open spec fn same_session(r: Result<SessionId, Failure>, s: Result<Seq<char>, Failure>) -> bool {
    match r {
        Ok(session) => s == Ok::<Seq<char>, Failure>(session@),
        Err(e) => s == Err::<Seq<char>, Failure>(e),
    }
}

/// The view of an optional byte string.
pub open spec fn bytes_of(bytes: Option<&[u8]>) -> Option<Seq<u8>> {
    match bytes {
        Some(b) => Some(b@),
        None => None,
    }
}

/// Takes the session out of a login reply, given the value of the reply's
/// `set-cookie` header.
pub fn login(set_cookie: Option<&[u8]>) -> (r: Result<SessionId, Failure>)
    ensures
        same_session(r, session_of(bytes_of(set_cookie))),
        set_cookie is None ==> r is Err && r->Err_0.kind() == crate::failure::FailureKind::Auth,
{
    let raw_cookie = match set_cookie {
        Some(bytes) => bytes,
        None => return Err(Failure::MissingCookie),
    };
    let text = match header_text(raw_cookie) {
        Some(text) => text,
        None => return Err(Failure::UnreadableCookie),
    };
    match cookie_value(text) {
        Ok(value) => Ok(SessionId(value)),
        Err(_) => Err(Failure::MalformedCookie),
    }
}


/// The record inside the envelope `{"Object": [ record, .. ]}` of a status
/// reply; `None` where the reply is no object, has no member `Object`, or
/// that member is no array or an empty one.
pub open spec fn record_of(response: JsonValue) -> Option<JsonValue> {
    match response.member("Object"@) {
        Some(list) => list.first_item(),
        None => None,
    }
}

/// The record of a status reply that is fit to decode, or why there is none.
pub open spec fn status_record(response: JsonValue) -> Result<JsonValue, Failure> {
    match record_of(response) {
        None => Err(Failure::Envelope),
        Some(record) => if WanStatus::complete(record) {
            Ok(record)
        } else {
            Err(Failure::StatusRecord)
        },
    }
}

/// Whether a computed status is the one that the model names.
pub open spec fn same_status(r: Result<WanStatus, Failure>, s: Result<JsonValue, Failure>) -> bool {
    match r {
        Ok(status) => s matches Ok(record) && status.holds(record),
        Err(e) => s == Err::<JsonValue, Failure>(e),
    }
}

/// Unwraps the envelope of a status reply and decodes the record in it.
///
/// A reply without the member `Object` never decodes: it fails as
/// [`Failure::Envelope`], which is a failure to parse.
pub fn deser_wan_status_response(response: &Json) -> (r: Result<WanStatus, Failure>)
    ensures
        same_status(r, status_record(response@)),
        response@.member("Object"@) is None ==> r is Err && r->Err_0 == Failure::Envelope,
{
    let raw = match response.get("Object") {
        Some(list) => match list.first() {
            Some(raw) => raw,
            None => return Err(Failure::Envelope),
        },
        None => return Err(Failure::Envelope),
    };
    match WanStatus::decode(raw) {
        Some(status) => Ok(status),
        None => Err(Failure::StatusRecord),
    }
}

/// The record of a status reply by its body, or why there is none.
pub open spec fn body_record(body: Seq<u8>) -> Result<JsonValue, Failure> {
    match document(body) {
        None => Err(Failure::StatusSyntax),
        Some(response) => status_record(response),
    }
}

/// Reads the status out of the body of a status reply.
pub fn get_wan_status(body: &[u8]) -> (r: Result<WanStatus, Failure>)
    ensures
        same_status(r, body_record(body@)),
{
    match Json::parse(body) {
        Some(response) => deser_wan_status_response(&response),
        None => Err(Failure::StatusSyntax),
    }
}

/// One if the link is up, else zero. The link is up when the router says
/// `Up`, letter for letter; `Down` and everything else is not up.
pub open spec fn up_reading(intf_status: Seq<char>) -> Reading {
    Reading::Whole(if intf_status == "Up"@ { 1i64 } else { 0i64 })
}

impl WanStatus {
    /// The samples that a status gives: whether the link is up, then signal
    /// strength and quality of the primary carrier and of the secondary one.
    pub open spec fn samples(self) -> Seq<Sample> {
        seq![
            Sample::plain(Name::CellularUp, up_reading(self.INTF_Status@)),
            Sample::labelled(Name::Rssi, Label::Intf, Reading::Whole(self.INTF_RSSI as i64)),
            Sample::labelled(Name::Rsrp, Label::Intf, Reading::Whole(self.INTF_RSRP as i64)),
            Sample::labelled(Name::Sinr, Label::Intf, Reading::Whole(self.INTF_SINR as i64)),
            Sample::labelled(Name::Rsrq, Label::Intf, Reading::Whole(self.INTF_RSRQ as i64)),
            Sample::labelled(Name::Rssi, Label::Nsa, Reading::Whole(self.NSA_RSSI as i64)),
            Sample::labelled(Name::Rsrp, Label::Nsa, Reading::Whole(self.NSA_RSRP as i64)),
            Sample::labelled(Name::Sinr, Label::Nsa, Reading::Whole(self.NSA_SINR as i64)),
            Sample::labelled(Name::Rsrq, Label::Nsa, Reading::Whole(self.NSA_RSRQ as i64)),
        ]
    }
}

/// The samples that a complete record gives.
pub open spec fn record_samples(record: JsonValue) -> Seq<Sample> {
    seq![
        Sample::plain(Name::CellularUp, up_reading(record.text_at("INTF_Status"@)->0)),
        Sample::labelled(
            Name::Rssi,
            Label::Intf,
            Reading::Whole(record.int32_at("INTF_RSSI"@)->0 as i64),
        ),
        Sample::labelled(
            Name::Rsrp,
            Label::Intf,
            Reading::Whole(record.int32_at("INTF_RSRP"@)->0 as i64),
        ),
        Sample::labelled(
            Name::Sinr,
            Label::Intf,
            Reading::Whole(record.int32_at("INTF_SINR"@)->0 as i64),
        ),
        Sample::labelled(
            Name::Rsrq,
            Label::Intf,
            Reading::Whole(record.int32_at("INTF_RSRQ"@)->0 as i64),
        ),
        Sample::labelled(Name::Rssi, Label::Nsa, Reading::Whole(record.int32_at("NSA_RSSI"@)->0 as i64)),
        Sample::labelled(Name::Rsrp, Label::Nsa, Reading::Whole(record.int32_at("NSA_RSRP"@)->0 as i64)),
        Sample::labelled(Name::Sinr, Label::Nsa, Reading::Whole(record.int32_at("NSA_SINR"@)->0 as i64)),
        Sample::labelled(Name::Rsrq, Label::Nsa, Reading::Whole(record.int32_at("NSA_RSRQ"@)->0 as i64)),
    ]
}

/// A status gives the samples of the record that it was read from.
pub proof fn lemma_samples_of_record(status: WanStatus, record: JsonValue)
    requires
        status.holds(record),
    ensures
        status.samples() == record_samples(record),
{
}

/// The link counts as up for the word `Up` and for no other: `Down`, like
/// every other word, counts as not up.
pub proof fn lemma_up_is_the_only_up(intf_status: Seq<char>)
    ensures
        up_reading(intf_status) == Reading::Whole(1) <==> intf_status == "Up"@,
        up_reading(intf_status) == Reading::Whole(0) <==> intf_status != "Up"@,
        up_reading("Up"@) == Reading::Whole(1),
        up_reading("Down"@) == Reading::Whole(0),
{
    reveal_strlit("Up");
    reveal_strlit("Down");
    assert("Up"@.len() != "Down"@.len());
}

/// Turns a status into samples.
pub fn handle_metrics(wan_status: &WanStatus) -> (r: Vec<Sample>)
    ensures
        r@ == wan_status.samples(),
{
    let up: i64 = if crate::text::str_eq(wan_status.INTF_Status.as_str(), "Up") {
        1
    } else {
        0
    };
    let mut out: Vec<Sample> = Vec::new();
    out.push(Sample::plain(Name::CellularUp, Reading::Whole(up)));
    out.push(Sample::labelled(Name::Rssi, Label::Intf, Reading::Whole(wan_status.INTF_RSSI as i64)));
    out.push(Sample::labelled(Name::Rsrp, Label::Intf, Reading::Whole(wan_status.INTF_RSRP as i64)));
    out.push(Sample::labelled(Name::Sinr, Label::Intf, Reading::Whole(wan_status.INTF_SINR as i64)));
    out.push(Sample::labelled(Name::Rsrq, Label::Intf, Reading::Whole(wan_status.INTF_RSRQ as i64)));
    out.push(Sample::labelled(Name::Rssi, Label::Nsa, Reading::Whole(wan_status.NSA_RSSI as i64)));
    out.push(Sample::labelled(Name::Rsrp, Label::Nsa, Reading::Whole(wan_status.NSA_RSRP as i64)));
    out.push(Sample::labelled(Name::Sinr, Label::Nsa, Reading::Whole(wan_status.NSA_SINR as i64)));
    out.push(Sample::labelled(Name::Rsrq, Label::Nsa, Reading::Whole(wan_status.NSA_RSRQ as i64)));
    out
}


/// The state of the router loop.
pub enum Monitor {
    /// Not logged in yet; holds the password for the one login.
    Unauthenticated(Password),
    /// Logged in; holds the session for every status request.
    Authenticated(SessionId),
    /// Ended by a failure.
    Stopped(Failure),
}

/// The mathematical value of a [`Monitor`].
pub enum MonitorView {
    Unauthenticated(Seq<char>),
    Authenticated(Seq<char>),
    Stopped(Failure),
}

impl View for Monitor {
    type V = MonitorView;

    open spec fn view(&self) -> MonitorView {
        match self {
            Monitor::Unauthenticated(password) => MonitorView::Unauthenticated(password@),
            Monitor::Authenticated(session) => MonitorView::Authenticated(session@),
            Monitor::Stopped(failure) => MonitorView::Stopped(*failure),
        }
    }
}

/// What the caller read of a reply.
pub struct Reply {
    /// The value of the first `set-cookie` header, if there is one.
    pub set_cookie: Option<Vec<u8>>,
    /// The body. Only the reply to a status request is read for it.
    pub body: Vec<u8>,
}

/// The mathematical value of a [`Reply`].
pub struct ReplyView {
    pub set_cookie: Option<Seq<u8>>,
    pub body: Seq<u8>,
}

impl View for Reply {
    type V = ReplyView;

    open spec fn view(&self) -> ReplyView {
        ReplyView {
            set_cookie: match self.set_cookie {
                Some(bytes) => Some(bytes@),
                None => None,
            },
            body: self.body@,
        }
    }
}

/// The view of what came back for a request; `None` is a request without a
/// reply.
pub open spec fn reply_view(reply: Option<Reply>) -> Option<ReplyView> {
    match reply {
        Some(r) => Some(r@),
        None => None,
    }
}

impl MonitorView {
    /// The request that the loop sends next: the login before it has a
    /// session, the status request while it has one, none once it has ended.
    pub open spec fn request(self) -> Option<RequestView> {
        match self {
            MonitorView::Unauthenticated(password) => Some(login_request_spec(password)),
            MonitorView::Authenticated(session) => Some(status_request_spec(session)),
            MonitorView::Stopped(_) => None,
        }
    }

    /// The failure that an answer to [`request`](MonitorView::request) means.
    pub open spec fn failure(self, reply: Option<ReplyView>) -> Option<Failure> {
        match self {
            MonitorView::Unauthenticated(_) => match reply {
                None => Some(Failure::LoginUnanswered),
                Some(r) => match session_of(r.set_cookie) {
                    Ok(_) => None,
                    Err(e) => Some(e),
                },
            },
            MonitorView::Authenticated(_) => match reply {
                None => Some(Failure::StatusUnanswered),
                Some(r) => match body_record(r.body) {
                    Ok(_) => None,
                    Err(e) => Some(e),
                },
            },
            MonitorView::Stopped(_) => None,
        }
    }

    /// The state after an answer. Every failure ends the loop. A login that
    /// succeeds gives the session; after that the session stays as it is.
    pub open spec fn after(self, reply: Option<ReplyView>) -> MonitorView {
        match self.failure(reply) {
            Some(e) => MonitorView::Stopped(e),
            None => match self {
                MonitorView::Unauthenticated(_) => MonitorView::Authenticated(
                    session_of(reply->0.set_cookie)->Ok_0,
                ),
                _ => self,
            },
        }
    }

    /// The samples that an answer gives: those of the status in a good reply
    /// to a status request, and none in any other case.
    pub open spec fn emitted(self, reply: Option<ReplyView>) -> Seq<Sample> {
        match (self, reply) {
            (MonitorView::Authenticated(_), Some(r)) => match body_record(r.body) {
                Ok(record) => record_samples(record),
                Err(_) => Seq::empty(),
            },
            _ => Seq::empty(),
        }
    }

    /// The standing of the loop, which ends with its first failure.
    pub open spec fn supervisor(self) -> Supervisor {
        Supervisor {
            policy: Policy::Halt,
            halted: match self {
                MonitorView::Stopped(e) => Some(e),
                _ => None,
            },
        }
    }
}

/// Sets up the loop, not logged in yet, with the password that `password`
/// converts into.
pub fn start_mon<T: Into<Password>>(password: T) -> (r: Monitor)
    ensures
        r matches Monitor::Unauthenticated(p) && call_ensures(
            <T as Into<Password>>::into,
            (password,),
            p,
        ),
{
    Monitor::Unauthenticated(password.into())
}

/// When the loop asks for the status: at once after the login, and then
/// every [`PERIOD_SECS`] seconds.
pub fn schedule() -> (r: Schedule)
    ensures
        r == (Schedule { delay_secs: 0, period_secs: PERIOD_SECS }),
{
    Schedule { delay_secs: 0, period_secs: PERIOD_SECS }
}

impl Monitor {
    /// The request to send next, if the loop still runs.
    pub fn request(&self) -> (r: Option<Request>)
        ensures
            match r {
                Some(request) => self@.request() == Some(request@),
                None => self@.request() is None,
            },
    {
        match self {
            Monitor::Unauthenticated(password) => Some(login_request(password)),
            Monitor::Authenticated(session) => Some(status_request(session)),
            Monitor::Stopped(_) => None,
        }
    }

    /// The failure that ended the loop, if it has ended.
    pub fn stopped(&self) -> (r: Option<Failure>)
        ensures
            r == self@.supervisor().halted,
    {
        match self {
            Monitor::Stopped(e) => Some(*e),
            _ => None,
        }
    }

    /// Takes in what came back for [`request`](Monitor::request), `None` for
    /// a request without a reply, and hands back the next state with the
    /// samples to publish.
    pub fn on_reply(self, reply: Option<Reply>) -> (r: (Monitor, Vec<Sample>))
        ensures
            r.0@ == self@.after(reply_view(reply)),
            r.1@ == self@.emitted(reply_view(reply)),
    {
        match self {
            Monitor::Unauthenticated(_) => {
                let next = match reply {
                    None => Monitor::Stopped(Failure::LoginUnanswered),
                    Some(r) => {
                        let session = match &r.set_cookie {
                            Some(bytes) => login(Some(bytes.as_slice())),
                            None => login(None),
                        };
                        match session {
                            Ok(session) => Monitor::Authenticated(session),
                            Err(e) => Monitor::Stopped(e),
                        }
                    },
                };
                (next, Vec::new())
            },
            Monitor::Authenticated(session) => match reply {
                None => (Monitor::Stopped(Failure::StatusUnanswered), Vec::new()),
                Some(r) => match get_wan_status(r.body.as_slice()) {
                    Ok(wan_status) => {
                        proof {
                            lemma_samples_of_record(wan_status, body_record(r.body@)->Ok_0);
                        }
                        let samples = handle_metrics(&wan_status);
                        (Monitor::Authenticated(session), samples)
                    },
                    Err(e) => (Monitor::Stopped(e), Vec::new()),
                },
            },
            Monitor::Stopped(e) => (Monitor::Stopped(e), Vec::new()),
        }
    }
}

/// The loop ends with its first failure and with nothing else: each answer
/// moves its standing as [`Policy::Halt`] says.
pub proof fn lemma_monitor_halts_on_failure(m: MonitorView, reply: Option<ReplyView>)
    ensures
        m.after(reply).supervisor() == m.supervisor().after(m.failure(reply)),
{
}

/// A loop that has ended sends nothing more and publishes nothing more.
pub proof fn lemma_stopped_is_silent(m: MonitorView, reply: Option<ReplyView>)
    requires
        m is Stopped,
    ensures
        m.request() is None,
        m.after(reply) == m,
        m.emitted(reply) == Seq::<Sample>::empty(),
{
}

/// A login reply without a `set-cookie` header ends the loop with a failure
/// to authenticate.
pub proof fn lemma_login_needs_cookie(password: Seq<char>, body: Seq<u8>)
    ensures
        session_of(None) == Err::<Seq<char>, Failure>(Failure::MissingCookie),
        Failure::MissingCookie.kind() == crate::failure::FailureKind::Auth,
        MonitorView::Unauthenticated(password).after(Some(ReplyView { set_cookie: None, body }))
            == MonitorView::Stopped(Failure::MissingCookie),
{
}

/// A status reply whose document has no member `Object` is a failure to
/// parse: it ends the loop and publishes nothing.
pub proof fn lemma_status_needs_envelope(session: Seq<char>, reply: ReplyView, response: JsonValue)
    requires
        document(reply.body) == Some(response),
        response.member("Object"@) is None,
    ensures
        status_record(response) == Err::<JsonValue, Failure>(Failure::Envelope),
        Failure::Envelope.kind() == crate::failure::FailureKind::Parse,
        MonitorView::Authenticated(session).after(Some(reply)) == MonitorView::Stopped(
            Failure::Envelope,
        ),
        MonitorView::Authenticated(session).emitted(Some(reply)) == Seq::<Sample>::empty(),
{
}

/// A session, once granted, is the one that every later status request
/// carries: no answer changes it.
pub proof fn lemma_session_is_kept(session: Seq<char>, reply: Option<ReplyView>)
    ensures
        MonitorView::Authenticated(session).after(reply) is Authenticated ==> MonitorView::Authenticated(
            session,
        ).after(reply) == MonitorView::Authenticated(session),
{
}


} // verus!
