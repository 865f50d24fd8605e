//! The logic of the REST client: which headers it sends, which request each
//! process operation makes, how a response status is judged, and how a free
//! file name for a downloaded process state is searched.

use vstd::prelude::*;
use crate::bindings::{
    header_value_ok, join_url, opt_text, status_code_display, status_is_success, status_text, url_joined,
    uuid_hyphenated,
};
use crate::error::ApiError;
use crate::model::{
    AgentId, ApiToken, LogSegmentId, ProcessId, ProcessStatus, SessionToken, USER_AGENT_VALUE,
    process_status_name,
};
use crate::text::{decimal, lemma_decimal_injective, lemma_decimal_len, signed_decimal, u64_text};

verus! {

/// A header or a query parameter: a name and a value.
pub struct Header {
    pub name: String,
    pub value: String,
}

impl View for Header {
    type V = (Seq<char>, Seq<char>);

    open spec fn view(&self) -> (Seq<char>, Seq<char>) {
        (self.name@, self.value@)
    }
}

/// The plain view of a list of headers.
pub open spec fn headers_view(hs: Seq<Header>) -> Seq<(Seq<char>, Seq<char>)> {
    hs.map_values(|h: Header| h@)
}

fn header(name: &str, value: String) -> (res: Header)
    ensures
        res@ == (name@, value@),
{
    Header { name: String::from_str(name), value }
}

/// How the client authenticates and where it sends its requests.
pub struct Config {
    /// The serialized base URL of the server.
    pub base_url: String,
    pub session_token: Option<SessionToken>,
    pub api_token: Option<ApiToken>,
}

/// The plain view of an optional session token.
pub open spec fn session_view(t: Option<SessionToken>) -> Option<Seq<char>> {
    match t {
        Some(t) => Some(t@),
        None => None,
    }
}

/// The plain view of an optional API token.
pub open spec fn api_token_view(t: Option<ApiToken>) -> Option<Seq<char>> {
    match t {
        Some(t) => Some(t@),
        None => None,
    }
}

/// The headers every request of the client carries: the user agent, and
/// the session token when there is one, else the API token when there is
/// one. A token that is no valid header value is refused with an error
/// that names it.
pub open spec fn spec_default_headers(session: Option<Seq<char>>, api: Option<Seq<char>>) -> Result<Seq<(Seq<char>, Seq<char>)>, Seq<char>> {
    let user_agent = ("user-agent"@, USER_AGENT_VALUE@);
    match session {
        Some(t) => if header_value_ok(t) {
            Ok(seq![user_agent, ("X-Concord-SessionToken"@, t)])
        } else {
            Err("Invalid session_token: "@ + "failed to parse header value"@)
        },
        None => match api {
            Some(t) => if header_value_ok(t) {
                Ok(seq![user_agent, ("Authorization"@, t)])
            } else {
                Err("Invalid api_token: "@ + "failed to parse header value"@)
            },
            None => Ok(seq![user_agent]),
        },
    }
}

/// The plain view of a list of headers or an error.
pub open spec fn headers_result_view(r: Result<Vec<Header>, ApiError>) -> Result<Seq<(Seq<char>, Seq<char>)>, Seq<char>> {
    match r {
        Ok(hs) => Ok(headers_view(hs@)),
        Err(e) => Err(e.message@),
    }
}

/// The default headers of a client made with `config`.
pub fn default_headers(config: &Config) -> (res: Result<Vec<Header>, ApiError>)
    ensures
        headers_result_view(res) == spec_default_headers(session_view(config.session_token), api_token_view(config.api_token)),
{
    let mut headers: Vec<Header> = Vec::new();
    headers.push(header("user-agent", String::from_str(USER_AGENT_VALUE)));
    match &config.session_token {
        Some(token) => {
            match token.header_value() {
                Ok(v) => headers.push(header("X-Concord-SessionToken", v)),
                Err(e) => return Err(ApiError::with_detail("Invalid session_token: ", e.message.as_str())),
            }
        },
        None => match &config.api_token {
            Some(token) => {
                match token.header_value() {
                    Ok(v) => headers.push(header("Authorization", v)),
                    Err(e) => return Err(ApiError::with_detail("Invalid api_token: ", e.message.as_str())),
                }
            },
            None => {},
        },
    }
    proof {
        assert(headers_view(headers@) =~= spec_default_headers(session_view(config.session_token), api_token_view(config.api_token))->Ok_0);
    }
    Ok(headers)
}

} // verus!

verus! {

/// The HTTP method of a request.
#[derive(Clone, Copy, PartialEq, Eq, Structural)]
pub enum HttpMethod {
    Get,
    Post,
}

/// What a request carries as its body.
pub enum RequestBody {
    /// No body.
    Empty,
    /// The multipart form of the process's inputs.
    Multipart,
    /// The JSON form of the request value of the operation.
    Json,
    /// The raw bytes handed to the operation.
    Bytes,
    /// The given text.
    Text(String),
}

/// The operations of the process API.
#[derive(Clone, Copy, PartialEq, Eq, Structural)]
pub enum ProcessAction {
    StartProcess,
    GetProcess,
    UpdateStatus,
    DownloadState,
    CreateLogSegment,
    UpdateLogSegment,
    AppendToLogSegment,
}

/// A request of the process API, ready for an HTTP client to send.
pub struct RequestPlan {
    pub action: ProcessAction,
    pub method: HttpMethod,
    /// The path, resolved against the base URL.
    pub path: String,
    /// The query parameters.
    pub query: Vec<Header>,
    /// The `Content-Type` the request sets itself, if any.
    pub content_type: Option<String>,
    pub body: RequestBody,
}

/// The path of a process.
pub open spec fn process_path(id: u128) -> Seq<char> {
    "/api/v1/process/"@ + uuid_hyphenated(id)
}

/// The path of the log segments of a process.
pub open spec fn log_segments_path(id: u128) -> Seq<char> {
    "/api/v2/process/"@ + uuid_hyphenated(id) + "/log/segment"@
}

/// The path of one log segment of a process.
pub open spec fn log_segment_path(id: u128, segment: i64) -> Seq<char> {
    log_segments_path(id) + "/"@ + signed_decimal(segment as int)
}

fn process_path_text(process_id: &ProcessId) -> (res: String)
    ensures
        res@ == process_path(process_id@),
{
    let mut s = String::from_str("/api/v1/process/");
    let id = process_id.to_string();
    s.append(id.as_str());
    s
}

fn log_segments_path_text(process_id: &ProcessId) -> (res: String)
    ensures
        res@ == log_segments_path(process_id@),
{
    let mut s = String::from_str("/api/v2/process/");
    let id = process_id.to_string();
    s.append(id.as_str());
    s.append("/log/segment");
    s
}

fn log_segment_path_text(process_id: &ProcessId, segment_id: &LogSegmentId) -> (res: String)
    ensures
        res@ == log_segment_path(process_id@, segment_id@),
{
    let mut s = log_segments_path_text(process_id);
    s.append("/");
    let seg = segment_id.to_string();
    s.append(seg.as_str());
    s
}

/// Starts a process: a multipart form posted to the process collection.
pub fn start_process_request() -> (res: RequestPlan)
    ensures
        res.action == ProcessAction::StartProcess,
        res.method == HttpMethod::Post,
        res.path@ == "/api/v1/process"@,
        res.query@.len() == 0,
        res.content_type is None,
        res.body is Multipart,
{
    RequestPlan {
        action: ProcessAction::StartProcess,
        method: HttpMethod::Post,
        path: String::from_str("/api/v1/process"),
        query: Vec::new(),
        content_type: None,
        body: RequestBody::Multipart,
    }
}

/// Reads a process.
pub fn get_process_request(process_id: &ProcessId) -> (res: RequestPlan)
    ensures
        res.action == ProcessAction::GetProcess,
        res.method == HttpMethod::Get,
        res.path@ == process_path(process_id@),
        res.query@.len() == 0,
        res.content_type is None,
        res.body is Empty,
{
    RequestPlan {
        action: ProcessAction::GetProcess,
        method: HttpMethod::Get,
        path: process_path_text(process_id),
        query: Vec::new(),
        content_type: None,
        body: RequestBody::Empty,
    }
}

/// Sets the status of a process on behalf of an agent: the status name as
/// plain text, the agent in the query.
pub fn update_status_request(process_id: ProcessId, agent_id: AgentId, status: ProcessStatus) -> (res: RequestPlan)
    ensures
        res.action == ProcessAction::UpdateStatus,
        res.method == HttpMethod::Post,
        res.path@ == process_path(process_id@) + "/status"@,
        headers_view(res.query@) == seq![("agent_id"@, uuid_hyphenated(agent_id.0))],
        res.content_type matches Some(t) && t@ == "text/plain"@,
        res.body matches RequestBody::Text(t) && t@ == process_status_name(status),
{
    let mut path = process_path_text(&process_id);
    path.append("/status");
    let mut query: Vec<Header> = Vec::new();
    query.push(header("agent_id", agent_id.to_string()));
    proof {
        assert(headers_view(query@) =~= seq![("agent_id"@, uuid_hyphenated(agent_id.0))]);
    }
    RequestPlan {
        action: ProcessAction::UpdateStatus,
        method: HttpMethod::Post,
        path,
        query,
        content_type: Some(String::from_str("text/plain")),
        body: RequestBody::Text(status.to_string()),
    }
}

/// Downloads the state snapshot of a process.
pub fn download_state_request(process_id: &ProcessId) -> (res: RequestPlan)
    ensures
        res.action == ProcessAction::DownloadState,
        res.method == HttpMethod::Get,
        res.path@ == process_path(process_id@) + "/state/snapshot"@,
        res.query@.len() == 0,
        res.content_type is None,
        res.body is Empty,
{
    let mut path = process_path_text(process_id);
    path.append("/state/snapshot");
    RequestPlan {
        action: ProcessAction::DownloadState,
        method: HttpMethod::Get,
        path,
        query: Vec::new(),
        content_type: None,
        body: RequestBody::Empty,
    }
}

/// Opens a log segment of a process: the request as JSON.
pub fn create_log_segment_request(process_id: &ProcessId) -> (res: RequestPlan)
    ensures
        res.action == ProcessAction::CreateLogSegment,
        res.method == HttpMethod::Post,
        res.path@ == log_segments_path(process_id@),
        res.query@.len() == 0,
        res.content_type matches Some(t) && t@ == "application/json"@,
        res.body is Json,
{
    RequestPlan {
        action: ProcessAction::CreateLogSegment,
        method: HttpMethod::Post,
        path: log_segments_path_text(process_id),
        query: Vec::new(),
        content_type: Some(String::from_str("application/json")),
        body: RequestBody::Json,
    }
}

/// Changes a log segment of a process: the update as JSON.
pub fn update_log_segment_request(process_id: &ProcessId, segment_id: &LogSegmentId) -> (res: RequestPlan)
    ensures
        res.action == ProcessAction::UpdateLogSegment,
        res.method == HttpMethod::Post,
        res.path@ == log_segment_path(process_id@, segment_id@),
        res.query@.len() == 0,
        res.content_type matches Some(t) && t@ == "application/json"@,
        res.body is Json,
{
    RequestPlan {
        action: ProcessAction::UpdateLogSegment,
        method: HttpMethod::Post,
        path: log_segment_path_text(process_id, segment_id),
        query: Vec::new(),
        content_type: Some(String::from_str("application/json")),
        body: RequestBody::Json,
    }
}

/// Appends bytes to a log segment of a process.
pub fn append_to_log_segment_request(process_id: &ProcessId, segment_id: &LogSegmentId) -> (res: RequestPlan)
    ensures
        res.action == ProcessAction::AppendToLogSegment,
        res.method == HttpMethod::Post,
        res.path@ == log_segment_path(process_id@, segment_id@) + "/data"@,
        res.query@.len() == 0,
        res.content_type matches Some(t) && t@ == "application/octet-stream"@,
        res.body is Bytes,
{
    let mut path = log_segment_path_text(process_id, segment_id);
    path.append("/data");
    RequestPlan {
        action: ProcessAction::AppendToLogSegment,
        method: HttpMethod::Post,
        path,
        query: Vec::new(),
        content_type: Some(String::from_str("application/octet-stream")),
        body: RequestBody::Bytes,
    }
}

/// The URL a request goes to: its path resolved against the base URL, or
/// none when `url` cannot resolve it.
pub fn endpoint_url(base_url: &str, plan: &RequestPlan) -> (res: Option<String>)
    ensures
        opt_text(res) == url_joined(base_url@, plan.path@),
{
    join_url(base_url, plan.path.as_str())
}

/// What an operation reports when the server answers with a failure.
pub open spec fn failure_prefix(action: ProcessAction) -> Seq<char> {
    match action {
        ProcessAction::StartProcess => "Failed to start a process"@,
        ProcessAction::GetProcess => "Failed to get process"@,
        ProcessAction::DownloadState => "Failed to download process state"@,
        _ => "Failed to update status"@,
    }
}

fn failure_prefix_text(action: ProcessAction) -> (res: String)
    ensures
        res@ == failure_prefix(action),
{
    match action {
        ProcessAction::StartProcess => String::from_str("Failed to start a process"),
        ProcessAction::GetProcess => String::from_str("Failed to get process"),
        ProcessAction::DownloadState => String::from_str("Failed to download process state"),
        _ => String::from_str("Failed to update status"),
    }
}

/// Judges the status code of the server's response to an operation: a
/// success (200 to 299) lets the operation go on, any other code fails it
/// with "<what failed>: <status>".
pub fn check_response(action: ProcessAction, status: u16) -> (res: Result<(), ApiError>)
    requires
        100 <= status <= 999,
    ensures
        res is Ok <==> 200 <= status < 300,
        res matches Err(e) ==> e.message@ == failure_prefix(action) + ": "@ + status_code_display(status),
{
    if status_is_success(status) {
        Ok(())
    } else {
        let mut message = failure_prefix_text(action);
        message.append(": ");
        let text = status_text(status);
        message.append(text.as_str());
        Err(ApiError { message })
    }
}

} // verus!

verus! {

/// The directory where downloaded process states go, which the
/// configuration must name.
pub fn require_temp_dir<T>(temp_dir: Option<T>) -> (res: Result<T, ApiError>)
    ensures
        temp_dir matches Some(d) ==> res == Ok::<T, ApiError>(d),
        temp_dir is None ==> (res matches Err(e) && e.message@ == "config.temp_dir is not set"@),
{
    match temp_dir {
        Some(d) => Ok(d),
        None => Err(ApiError::simple("config.temp_dir is not set")),
    }
}

/// The file name a search tries at a given attempt: first the prefix and
/// suffix alone, then with "-0", "-1", ... between them.
pub open spec fn state_file_name(prefix: Seq<char>, suffix: Seq<char>, attempt: nat) -> Seq<char> {
    if attempt == 0 {
        prefix + suffix
    } else {
        prefix + "-"@ + decimal((attempt - 1) as nat) + suffix
    }
}

/// The search for a file name that is not taken yet.
pub struct StateFileSearch {
    prefix: String,
    suffix: String,
    attempt: u32,
}

impl StateFileSearch {
    /// The text before the varying part of the names.
    pub closed spec fn prefix(&self) -> Seq<char> {
        self.prefix@
    }

    /// The text after the varying part of the names.
    pub closed spec fn suffix(&self) -> Seq<char> {
        self.suffix@
    }

    /// How many names were refused so far.
    pub closed spec fn attempts(&self) -> nat {
        self.attempt as nat
    }

    /// A search that starts with `prefix` followed by `suffix`.
    pub fn new(prefix: &str, suffix: &str) -> (res: StateFileSearch)
        ensures
            res.prefix() == prefix@,
            res.suffix() == suffix@,
            res.attempts() == 0,
    {
        StateFileSearch { prefix: String::from_str(prefix), suffix: String::from_str(suffix), attempt: 0 }
    }

    /// The search for the file of a process's downloaded state: named after
    /// the process, ending in ".zip".
    pub fn for_process(process_id: &ProcessId) -> (res: StateFileSearch)
        ensures
            res.prefix() == uuid_hyphenated(process_id@),
            res.suffix() == ".zip"@,
            res.attempts() == 0,
    {
        let prefix = process_id.to_string();
        StateFileSearch::new(prefix.as_str(), ".zip")
    }

    /// How many names were refused so far.
    pub fn attempt(&self) -> (res: u32)
        ensures
            res == self.attempts(),
    {
        self.attempt
    }

    /// The name to try now.
    pub fn candidate(&self) -> (res: String)
        ensures
            res@ == state_file_name(self.prefix(), self.suffix(), self.attempts()),
    {
        let mut name = String::from_str(self.prefix.as_str());
        if self.attempt > 0 {
            name.append("-");
            let index = u64_text((self.attempt - 1) as u64);
            name.append(index.as_str());
        }
        name.append(self.suffix.as_str());
        name
    }

    /// Moves on to the next name, after the current one was found taken.
    /// The counter of names is an `i32`, which bounds the search.
    pub fn advance(&mut self)
        requires
            old(self).attempts() < 2147483647,
        ensures
            final(self).prefix() == old(self).prefix(),
            final(self).suffix() == old(self).suffix(),
            final(self).attempts() == old(self).attempts() + 1,
    {
        self.attempt = self.attempt + 1;
    }
}

impl StateFileSearch {
    /// One step of the search, told whether the current name is taken: a
    /// free name ends the search and is returned, with the search left as it
    /// is; a taken name moves the search on to the next name. The counter of
    /// names is an `i32`, so a taken name needs the counter below its bound.
    pub fn step(&mut self, taken: bool) -> (res: Option<String>)
        requires
            taken ==> old(self).attempts() < 2147483647,
        ensures
            final(self).prefix() == old(self).prefix(),
            final(self).suffix() == old(self).suffix(),
            !taken ==> (res matches Some(name)
                && name@ == state_file_name(old(self).prefix(), old(self).suffix(), old(self).attempts())
                && final(self).attempts() == old(self).attempts()),
            taken ==> (res is None && final(self).attempts() == old(self).attempts() + 1),
    {
        if taken {
            self.advance();
            None
        } else {
            Some(self.candidate())
        }
    }
}

/// A search never tries the same name twice: the names of distinct
/// attempts differ, so it ends once it reaches a name that is not taken.
pub proof fn lemma_state_file_names_distinct(prefix: Seq<char>, suffix: Seq<char>, a: nat, b: nat)
    requires
        a != b,
    ensures
        state_file_name(prefix, suffix, a) != state_file_name(prefix, suffix, b),
{
    let na = state_file_name(prefix, suffix, a);
    let nb = state_file_name(prefix, suffix, b);
    reveal_strlit("-");
    if na == nb {
        if a == 0 || b == 0 {
            let k: nat = if a == 0 { (b - 1) as nat } else { (a - 1) as nat };
            lemma_decimal_len(k);
            assert(na.len() != nb.len());
        } else {
            let da = decimal((a - 1) as nat);
            let db = decimal((b - 1) as nat);
            assert(na.len() == prefix.len() + 1 + da.len() + suffix.len());
            assert(nb.len() == prefix.len() + 1 + db.len() + suffix.len());
            assert(da.len() == db.len());
            let start: int = prefix.len() as int + 1;
            assert(na.subrange(start, start + da.len() as int) =~= da);
            assert(nb.subrange(start, start + db.len() as int) =~= db);
            lemma_decimal_injective((a - 1) as nat, (b - 1) as nat);
        }
    }
}

} // verus!

verus! {

/// How a client authenticates its REST requests. Every request carries the
/// user agent first. A session token that is a valid header value is sent
/// as `X-Concord-SessionToken`, whatever the API token; without a session
/// token, a valid API token is sent as `Authorization`; without either,
/// only the user agent goes out. A token that is no valid header value
/// fails the client, and an invalid session token does so even when a valid
/// API token is there.
pub proof fn lemma_default_headers_authenticate(session: Option<Seq<char>>, api: Option<Seq<char>>)
    ensures
        spec_default_headers(session, api) matches Ok(hs) ==> hs.len() >= 1 && hs[0] == ("user-agent"@, USER_AGENT_VALUE@),
        (session is Some && header_value_ok(session->Some_0)) ==> spec_default_headers(session, api) == Ok::<Seq<(Seq<char>, Seq<char>)>, Seq<char>>(
            seq![("user-agent"@, USER_AGENT_VALUE@), ("X-Concord-SessionToken"@, session->Some_0)]),
        (session is Some && !header_value_ok(session->Some_0)) ==> spec_default_headers(session, api) == Err::<Seq<(Seq<char>, Seq<char>)>, Seq<char>>(
            "Invalid session_token: failed to parse header value"@),
        (session is None && api is Some && header_value_ok(api->Some_0)) ==> spec_default_headers(session, api) == Ok::<Seq<(Seq<char>, Seq<char>)>, Seq<char>>(
            seq![("user-agent"@, USER_AGENT_VALUE@), ("Authorization"@, api->Some_0)]),
        (session is None && api is Some && !header_value_ok(api->Some_0)) ==> spec_default_headers(session, api) == Err::<Seq<(Seq<char>, Seq<char>)>, Seq<char>>(
            "Invalid api_token: failed to parse header value"@),
        (session is None && api is None) ==> spec_default_headers(session, api) == Ok::<Seq<(Seq<char>, Seq<char>)>, Seq<char>>(
            seq![("user-agent"@, USER_AGENT_VALUE@)]),
{
    reveal_strlit("Invalid session_token: ");
    reveal_strlit("failed to parse header value");
    reveal_strlit("Invalid session_token: failed to parse header value");
    reveal_strlit("Invalid api_token: ");
    reveal_strlit("Invalid api_token: failed to parse header value");
    assert("Invalid session_token: "@ + "failed to parse header value"@ =~= "Invalid session_token: failed to parse header value"@);
    assert("Invalid api_token: "@ + "failed to parse header value"@ =~= "Invalid api_token: failed to parse header value"@);
}

} // verus!
