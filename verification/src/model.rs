//! The values the Concord API exchanges: tokens, identifiers, process and
//! log segment states, and the log segment requests.

use vstd::prelude::*;
use crate::bindings::{
    check_header_value, header_char_ok, header_value_ok, hex_char, hex_digits, invalid_header_value_text,
    str_debug, str_debug_text, uuid_hyphenated, uuid_text,
};
use crate::error::ApiError;
use crate::text::{i64_text, signed_decimal};

verus! {

/// The `User-Agent` the client sends: the package name and version.
pub const USER_AGENT_VALUE: &'static str = "concord-client/0.1.0";

/// The value of a header as the client checks it: accepted text, or the
/// error `http` reports for it.
pub open spec fn header_value_result(v: Seq<char>) -> Result<Seq<char>, Seq<char>> {
    if header_value_ok(v) {
        Ok(v)
    } else {
        Err("failed to parse header value"@)
    }
}

/// The plain view of a header value result.
pub open spec fn header_result_view(r: Result<String, ApiError>) -> Result<Seq<char>, Seq<char>> {
    match r {
        Ok(v) => Ok(v@),
        Err(e) => Err(e.message@),
    }
}

/// A text as a header value: the text itself when `http` accepts it, else
/// the error it reports.
pub fn header_value_of(v: &str) -> (res: Result<String, ApiError>)
    ensures
        header_result_view(res) == header_value_result(v@),
{
    match check_header_value(v) {
        Ok(()) => Ok(String::from_str(v)),
        Err(e) => {
            let text = invalid_header_value_text(&e);
            Err(ApiError { message: text })
        },
    }
}

/// A session token handed out by the server for one process.
pub struct SessionToken(String);

impl View for SessionToken {
    type V = Seq<char>;

    closed spec fn view(&self) -> Seq<char> {
        self.0@
    }
}

impl SessionToken {
    /// A session token with the given text.
    pub fn new(v: String) -> (res: SessionToken)
        ensures
            res@ == v@,
    {
        SessionToken(v)
    }

    /// The text of the token.
    pub fn as_str(&self) -> (res: &str)
        ensures
            res@ == self@,
    {
        self.0.as_str()
    }

    /// The token as a header value.
    pub fn header_value(&self) -> (res: Result<String, ApiError>)
        ensures
            header_result_view(res) == header_value_result(self@),
    {
        header_value_of(self.0.as_str())
    }

    /// The text `Debug` writes for the token: `SessionToken(<text in Debug form>)`.
    pub fn debug_text(&self) -> (res: String)
        ensures
            res@ == session_token_debug(self@),
    {
        proof {
            reveal_strlit("SessionToken(");
            reveal_strlit(")");
        }
        let mut s = String::from_str("SessionToken(");
        let inner = str_debug(self.0.as_str());
        s.append(inner.as_str());
        s.append(")");
        s
    }
}

/// `Debug` of a session token.
pub open spec fn session_token_debug(t: Seq<char>) -> Seq<char> {
    "SessionToken("@ + str_debug_text(t) + ")"@
}

/// An API token, sent in the `Authorization` header.
pub struct ApiToken(String);

impl View for ApiToken {
    type V = Seq<char>;

    closed spec fn view(&self) -> Seq<char> {
        self.0@
    }
}

/// What `Debug` writes for any API token: the secret is masked.
pub open spec fn api_token_debug() -> Seq<char> {
    "ApiToken(\"********\")"@
}

impl ApiToken {
    /// An API token with the given text.
    pub fn new(v: String) -> (res: ApiToken)
        ensures
            res@ == v@,
    {
        ApiToken(v)
    }

    /// The text of the token.
    pub fn as_str(&self) -> (res: &str)
        ensures
            res@ == self@,
    {
        self.0.as_str()
    }

    /// The token as a header value.
    pub fn header_value(&self) -> (res: Result<String, ApiError>)
        ensures
            header_result_view(res) == header_value_result(self@),
    {
        header_value_of(self.0.as_str())
    }

    /// The text `Debug` writes: the token itself is masked.
    pub fn debug_text(&self) -> (res: String)
        ensures
            res@ == api_token_debug(),
    {
        String::from_str("ApiToken(\"********\")")
    }
}

/// The identifier of a process, a UUID held as its 128-bit value.
#[derive(Clone, Copy, PartialEq, Eq, Structural)]
pub struct ProcessId(u128);

impl View for ProcessId {
    type V = u128;

    closed spec fn view(&self) -> u128 {
        self.0
    }
}

/// `Debug` of a process id.
pub open spec fn process_id_debug(v: u128) -> Seq<char> {
    "ProcessId("@ + uuid_hyphenated(v) + ")"@
}

impl ProcessId {
    /// The process id of the given UUID value.
    pub fn new(v: u128) -> (res: ProcessId)
        ensures
            res@ == v,
    {
        ProcessId(v)
    }

    /// The UUID value.
    pub fn value(&self) -> (res: u128)
        ensures
            res == self@,
    {
        self.0
    }

    /// The text `Display` writes: the hyphenated UUID.
    pub fn to_string(&self) -> (res: String)
        ensures
            res@ == uuid_hyphenated(self@),
    {
        uuid_text(self.0)
    }

    /// The text `Debug` writes: `ProcessId(<hyphenated UUID>)`.
    pub fn debug_text(&self) -> (res: String)
        ensures
            res@ == process_id_debug(self@),
    {
        proof {
            reveal_strlit("ProcessId(");
            reveal_strlit(")");
        }
        let mut s = String::from_str("ProcessId(");
        let id = uuid_text(self.0);
        s.append(id.as_str());
        s.append(")");
        s
    }
}

/// The identifier of an agent, a UUID held as its 128-bit value.
#[derive(Clone, Copy, PartialEq, Eq, Structural)]
pub struct AgentId(pub u128);

impl AgentId {
    /// The text `Display` writes: the hyphenated UUID.
    pub fn to_string(&self) -> (res: String)
        ensures
            res@ == uuid_hyphenated(self.0),
    {
        uuid_text(self.0)
    }

    /// The id as a header value, which `http` always accepts.
    pub fn header_value(&self) -> (res: Result<String, ApiError>)
        ensures
            res matches Ok(v) && v@ == uuid_hyphenated(self.0),
    {
        let text = uuid_text(self.0);
        proof {
            lemma_uuid_header_ok(self.0);
        }
        header_value_of(text.as_str())
    }
}

proof fn lemma_hex_digits_header_ok(v: nat, n: nat)
    ensures
        hex_digits(v, n).len() == n,
        header_value_ok(hex_digits(v, n)),
    decreases n,
{
    if n > 0 {
        lemma_hex_digits_header_ok(v / 16, (n - 1) as nat);
        let prev = hex_digits(v / 16, (n - 1) as nat);
        let d = (v % 16) as int;
        assert(header_char_ok(hex_char(d)));
        assert forall|i: int| 0 <= i < n implies #[trigger] header_char_ok(hex_digits(v, n)[i]) by {
            if i < n - 1 {
                assert(hex_digits(v, n)[i] == prev[i]);
            }
        }
    }
}

/// The hyphenated text of every UUID is a valid header value.
pub proof fn lemma_uuid_header_ok(v: u128)
    ensures
        uuid_hyphenated(v).len() == 36,
        header_value_ok(uuid_hyphenated(v)),
{
    lemma_hex_digits_header_ok(v as nat, 32);
    let u = uuid_hyphenated(v);
    let h = hex_digits(v as nat, 32);
    assert forall|i: int| 0 <= i < u.len() implies #[trigger] header_char_ok(u[i]) by {
        if i < 8 {
            assert(u[i] == h[i]);
        } else if i == 8 || i == 13 || i == 18 || i == 23 {
        } else if i < 13 {
            assert(u[i] == h[i - 1]);
        } else if i < 18 {
            assert(u[i] == h[i - 2]);
        } else if i < 23 {
            assert(u[i] == h[i - 3]);
        } else {
            assert(u[i] == h[i - 4]);
        }
    }
}

/// The status of a Concord process.
#[derive(Clone, Copy, PartialEq, Eq, Structural)]
pub enum ProcessStatus {
    New,
    Preparing,
    Enqueued,
    Waiting,
    Starting,
    Running,
    Suspended,
    Resuming,
    Finished,
    Failed,
    Cancelled,
    TimedOut,
}

/// The name `Display` writes for a process status, which is what the
/// client sends to update it.
pub open spec fn process_status_name(s: ProcessStatus) -> Seq<char> {
    match s {
        ProcessStatus::New => "NEW"@,
        ProcessStatus::Preparing => "PREPARING"@,
        ProcessStatus::Enqueued => "ENQUEUED"@,
        ProcessStatus::Waiting => "WAITING"@,
        ProcessStatus::Starting => "STARTING"@,
        ProcessStatus::Running => "RUNNING"@,
        ProcessStatus::Suspended => "SUSPENDED"@,
        ProcessStatus::Resuming => "RESUMING"@,
        ProcessStatus::Finished => "FINISHED"@,
        ProcessStatus::Failed => "FAILED"@,
        ProcessStatus::Cancelled => "CANCELLED"@,
        ProcessStatus::TimedOut => "TIMED_OUT"@,
    }
}

impl ProcessStatus {
    /// The name `Display` writes for the status.
    pub fn to_string(&self) -> (res: String)
        ensures
            res@ == process_status_name(*self),
    {
        match self {
            ProcessStatus::New => String::from_str("NEW"),
            ProcessStatus::Preparing => String::from_str("PREPARING"),
            ProcessStatus::Enqueued => String::from_str("ENQUEUED"),
            ProcessStatus::Waiting => String::from_str("WAITING"),
            ProcessStatus::Starting => String::from_str("STARTING"),
            ProcessStatus::Running => String::from_str("RUNNING"),
            ProcessStatus::Suspended => String::from_str("SUSPENDED"),
            ProcessStatus::Resuming => String::from_str("RESUMING"),
            ProcessStatus::Finished => String::from_str("FINISHED"),
            ProcessStatus::Failed => String::from_str("FAILED"),
            ProcessStatus::Cancelled => String::from_str("CANCELLED"),
            ProcessStatus::TimedOut => String::from_str("TIMED_OUT"),
        }
    }
}

/// The identifier that ties a log segment to the entries of a process, a
/// UUID held as its 128-bit value.
#[derive(Clone, Copy, PartialEq, Eq, Structural)]
pub struct SegmentCorrelationId(u128);

impl View for SegmentCorrelationId {
    type V = u128;

    closed spec fn view(&self) -> u128 {
        self.0
    }
}

impl SegmentCorrelationId {
    /// The correlation id of the given UUID value.
    pub fn new(v: u128) -> (res: SegmentCorrelationId)
        ensures
            res@ == v,
    {
        SegmentCorrelationId(v)
    }

    /// The UUID value.
    pub fn value(&self) -> (res: u128)
        ensures
            res == self@,
    {
        self.0
    }
}

/// The identifier of a log segment.
#[derive(Clone, Copy, PartialEq, Eq, Structural)]
pub struct LogSegmentId(i64);

impl View for LogSegmentId {
    type V = i64;

    closed spec fn view(&self) -> i64 {
        self.0
    }
}

impl LogSegmentId {
    /// The log segment id with the given number.
    pub fn new(v: i64) -> (res: LogSegmentId)
        ensures
            res@ == v,
    {
        LogSegmentId(v)
    }

    /// The number of the segment.
    pub fn value(&self) -> (res: i64)
        ensures
            res == self@,
    {
        self.0
    }

    /// The text `Display` writes: the number in decimal.
    pub fn to_string(&self) -> (res: String)
        ensures
            res@ == signed_decimal(self@ as int),
    {
        i64_text(self.0)
    }
}

impl Default for LogSegmentId {
    fn default() -> (res: LogSegmentId)
        ensures
            res@ == 0,
    {
        LogSegmentId(0)
    }
}

/// The status of a log segment.
#[derive(Clone, Copy, PartialEq, Eq, Structural)]
pub enum LogSegmentStatus {
    /// The segment finished well (`OK` on the wire).
    Okay,
    Failed,
    Running,
    Suspended,
}

/// A request to open a log segment.
pub struct LogSegmentRequest {
    pub correlation_id: SegmentCorrelationId,
    pub name: String,
}

/// The server's answer to a log segment request.
pub struct LogSegmentOperationResponse {
    pub id: LogSegmentId,
}

/// A change of a log segment; fields left `None` stay as they are.
pub struct LogSegmentUpdateRequest {
    pub status: Option<LogSegmentStatus>,
    pub warnings: Option<u16>,
    pub errors: Option<u16>,
}

impl Default for LogSegmentUpdateRequest {
    fn default() -> (res: LogSegmentUpdateRequest)
        ensures
            res.status is None,
            res.warnings is None,
            res.errors is None,
    {
        LogSegmentUpdateRequest { status: None, warnings: None, errors: None }
    }
}

} // verus!

verus! {

/// Distinct process statuses have distinct names, so the status the client
/// sends tells the server exactly which one is meant.
pub proof fn lemma_process_status_names_distinct(a: ProcessStatus, b: ProcessStatus)
    requires
        a != b,
    ensures
        process_status_name(a) != process_status_name(b),
{
    reveal_strlit("NEW");
    reveal_strlit("PREPARING");
    reveal_strlit("ENQUEUED");
    reveal_strlit("WAITING");
    reveal_strlit("STARTING");
    reveal_strlit("RUNNING");
    reveal_strlit("SUSPENDED");
    reveal_strlit("RESUMING");
    reveal_strlit("FINISHED");
    reveal_strlit("FAILED");
    reveal_strlit("CANCELLED");
    reveal_strlit("TIMED_OUT");
    let na = process_status_name(a);
    let nb = process_status_name(b);
    if na == nb {
        assert(na.len() == nb.len());
        assert(na[0] == nb[0]);
    }
}

} // verus!
