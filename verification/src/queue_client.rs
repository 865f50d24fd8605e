//! The logic of the websocket queue client: correlation ids, the messages
//! it exchanges with the server, how replies are matched to the requests
//! that wait for them, what its reader does with each frame, and the
//! request that opens the connection.

use vstd::prelude::*;
use crate::bindings::{
    generate_ws_key, header_value_ok, parse_uri_authority, uri_authority, uuid_hyphenated, ws_key_shape,
};
use crate::api_client::{Header, headers_view};
use crate::error::ApiError;
use crate::model::{
    header_value_of, header_value_result, AgentId, ApiToken, ProcessId,
    SessionToken, USER_AGENT_VALUE, process_id_debug, session_token_debug,
};
use crate::text::{decimal, i64_text, signed_decimal, u64_text};

verus! {

/// The identifier that ties a reply of the server to the request it answers.
#[derive(Clone, Copy, PartialEq, Eq, Structural, Hash, Debug)]
pub struct CorrelationId(i64);

impl View for CorrelationId {
    type V = i64;

    closed spec fn view(&self) -> i64 {
        self.0
    }
}

/// `Debug` of a correlation id.
pub open spec fn correlation_id_debug(v: i64) -> Seq<char> {
    "CorrelationId("@ + signed_decimal(v as int) + ")"@
}

impl CorrelationId {
    /// The correlation id with the given number.
    pub fn new(v: i64) -> (res: CorrelationId)
        ensures
            res@ == v,
    {
        CorrelationId(v)
    }

    /// The number of the id.
    pub fn value(&self) -> (res: i64)
        ensures
            res == self@,
    {
        self.0
    }

    /// The text `Debug` writes: `CorrelationId(<number>)`.
    pub fn debug_text(&self) -> (res: String)
        ensures
            res@ == correlation_id_debug(self@),
    {
        proof {
            reveal_strlit("CorrelationId(");
            reveal_strlit(")");
        }
        let mut s = String::from_str("CorrelationId(");
        let n = i64_text(self.0);
        s.append(n.as_str());
        s.append(")");
        s
    }
}

/// The number after `v` on a 64-bit counter that wraps around.
pub open spec fn successor(v: i64) -> i64 {
    if v == i64::MAX {
        i64::MIN
    } else {
        (v + 1) as i64
    }
}

/// The id a generator that starts at `start` hands out at its `k`-th call
/// (counting from zero).
pub open spec fn issued(start: i64, k: nat) -> i64
    decreases k,
{
    if k == 0 {
        start
    } else {
        successor(issued(start, (k - 1) as nat))
    }
}

/// Hands out the correlation ids of one client, one after the other.
pub struct CorrelationIdGenerator {
    v: i64,
}

impl CorrelationIdGenerator {
    /// The id the next call hands out.
    pub closed spec fn counter(&self) -> i64 {
        self.v
    }

    /// The next id: the counter as it stands, after which the counter moves
    /// on (wrapping around as an atomic add does).
    pub fn next(&mut self) -> (id: CorrelationId)
        ensures
            id@ == old(self).counter(),
            final(self).counter() == successor(old(self).counter()),
    {
        let id = self.v;
        self.v = if id == i64::MAX { i64::MIN } else { id + 1 };
        CorrelationId(id)
    }
}

impl Default for CorrelationIdGenerator {
    fn default() -> (res: CorrelationIdGenerator)
        ensures
            res.counter() == 0,
    {
        CorrelationIdGenerator { v: 0 }
    }
}

proof fn lemma_issued_mod(start: i64, k: nat)
    ensures
        issued(start, k) as int == (start as int - i64::MIN as int + k) % 0x1_0000_0000_0000_0000 + i64::MIN as int,
    decreases k,
{
    let m: int = 0x1_0000_0000_0000_0000;
    let y: int = start as int - i64::MIN as int + k;
    if k == 0 {
        vstd::arithmetic::div_mod::lemma_small_mod(y as nat, m as nat);
    } else {
        lemma_issued_mod(start, (k - 1) as nat);
        let x: int = y - 1;
        vstd::arithmetic::div_mod::lemma_mod_bound(x, m);
        vstd::arithmetic::div_mod::lemma_add_mod_noop(x, 1, m);
        vstd::arithmetic::div_mod::lemma_small_mod(1, m as nat);
        if x % m + 1 < m {
            vstd::arithmetic::div_mod::lemma_small_mod((x % m + 1) as nat, m as nat);
        } else {
            vstd::arithmetic::div_mod::lemma_mod_self_0(m);
        }
    }
}

/// A client never hands out one correlation id twice: any two of its first
/// 2^64 requests carry distinct ids, so a reply can only be matched to the
/// request it answers.
pub proof fn lemma_correlation_ids_unique(start: i64, j: nat, k: nat)
    requires
        j < k,
        k < 0x1_0000_0000_0000_0000,
    ensures
        issued(start, j) != issued(start, k),
{
    let m: int = 0x1_0000_0000_0000_0000;
    let y: int = start as int - i64::MIN as int;
    lemma_issued_mod(start, j);
    lemma_issued_mod(start, k);
    if issued(start, j) == issued(start, k) {
        vstd::arithmetic::div_mod::lemma_mod_equivalence(y + k, y + j, m);
        assert((y + k) - (y + j) == k - j);
        vstd::arithmetic::div_mod::lemma_small_mod((k - j) as nat, m as nat);
    }
}


/// While the counter does not wrap, ids come one after the other: the `k`-th
/// id after the counter stood at `start` is `start + k`.
pub proof fn lemma_correlation_ids_consecutive(start: i64, k: nat)
    requires
        start + k <= i64::MAX,
    ensures
        issued(start, k) == start + k,
    decreases k,
{
    if k > 0 {
        lemma_correlation_ids_consecutive(start, (k - 1) as nat);
    }
}

/// The ids handed out by the first `n` calls from a counter at `start`.
pub open spec fn first_ids(start: i64, n: nat) -> Set<i64> {
    Set::new(|x: i64| exists|k: nat| k < n && #[trigger] issued(start, k) == x)
}

/// The ids of `n` calls made one after the other, from a counter at `start`
/// and short of a wrap, are exactly `start` to `start + n - 1`, each once.
/// Calls from several tasks are made one after the other too, since `next`
/// takes the generator exclusively.
pub proof fn lemma_correlation_ids_range(start: i64, n: nat)
    requires
        start + n - 1 <= i64::MAX,
    ensures
        first_ids(start, n) =~= Set::new(|x: i64| start <= x < start + n),
        forall|j: nat, k: nat| j < k < n ==> #[trigger] issued(start, j) != #[trigger] issued(start, k),
{
    assert forall|x: i64| #[trigger] first_ids(start, n).contains(x) <==> start <= x < start + n by {
        if first_ids(start, n).contains(x) {
            let k = choose|k: nat| k < n && #[trigger] issued(start, k) == x;
            lemma_correlation_ids_consecutive(start, k);
        }
        if start <= x < start + n {
            let k = (x - start) as nat;
            lemma_correlation_ids_consecutive(start, k);
            assert(issued(start, k) == x);
        }
    }
    assert forall|j: nat, k: nat| j < k < n implies #[trigger] issued(start, j) != #[trigger] issued(start, k) by {
        lemma_correlation_ids_consecutive(start, j);
        lemma_correlation_ids_consecutive(start, k);
    }
}

} // verus!

verus! {

#[verifier::external_type_specification]
#[verifier::external_body]
pub struct ExJsonValue(serde_json::Value);

/// A message of the queue protocol; it travels as JSON tagged by its
/// `messageType`.
pub enum Message {
    /// Asks for the next command for an agent.
    CommandRequest { correlation_id: CorrelationId, agent_id: AgentId },
    /// The server's answer to a command request.
    CommandResponse { correlation_id: CorrelationId },
    /// Asks for the next process to run, for an agent with the given
    /// capabilities.
    ProcessRequest { correlation_id: CorrelationId, capabilities: serde_json::Value },
    /// The server's answer to a process request.
    ProcessResponse { correlation_id: CorrelationId, session_token: SessionToken, process_id: ProcessId },
}

/// The next command, as the server handed it out.
pub struct CommandResponse {
    pub correlation_id: CorrelationId,
}

/// The next process, as the server handed it out.
pub struct ProcessResponse {
    pub correlation_id: CorrelationId,
    pub session_token: SessionToken,
    pub process_id: ProcessId,
}

/// A reply of the server that answers a waiting request.
pub enum ServerReply {
    CommandResponse { correlation_id: CorrelationId },
    ProcessResponse { correlation_id: CorrelationId, session_token: SessionToken, process_id: ProcessId },
}

/// The text `Debug` writes for the message of a reply.
pub open spec fn reply_debug(r: ServerReply) -> Seq<char> {
    match r {
        ServerReply::CommandResponse { correlation_id } =>
            "CommandResponse { correlation_id: "@ + correlation_id_debug(correlation_id@) + " }"@,
        ServerReply::ProcessResponse { correlation_id, session_token, process_id } =>
            "ProcessResponse { correlation_id: "@ + correlation_id_debug(correlation_id@)
                + ", session_token: "@ + session_token_debug(session_token@)
                + ", process_id: "@ + process_id_debug(process_id@) + " }"@,
    }
}

impl ServerReply {
    /// The text `Debug` writes for the message of the reply.
    pub fn debug_text(&self) -> (res: String)
        ensures
            res@ == reply_debug(*self),
    {
        match self {
            ServerReply::CommandResponse { correlation_id } => {
                let mut s = String::from_str("CommandResponse { correlation_id: ");
                let id = correlation_id.debug_text();
                s.append(id.as_str());
                s.append(" }");
                s
            },
            ServerReply::ProcessResponse { correlation_id, session_token, process_id } => {
                let mut s = String::from_str("ProcessResponse { correlation_id: ");
                let id = correlation_id.debug_text();
                s.append(id.as_str());
                s.append(", session_token: ");
                let token = session_token.debug_text();
                s.append(token.as_str());
                s.append(", process_id: ");
                let process = process_id.debug_text();
                s.append(process.as_str());
                s.append(" }");
                s
            },
        }
    }
}

/// The request for the next command of an agent, with a fresh id.
pub fn command_request(ids: &mut CorrelationIdGenerator, agent_id: AgentId) -> (res: (CorrelationId, Message))
    ensures
        res.0@ == old(ids).counter(),
        final(ids).counter() == successor(old(ids).counter()),
        res.1 == (Message::CommandRequest { correlation_id: res.0, agent_id }),
{
    let correlation_id = ids.next();
    (correlation_id, Message::CommandRequest { correlation_id, agent_id })
}

/// The request for the next process, with a fresh id and the agent's
/// capabilities.
pub fn process_request(ids: &mut CorrelationIdGenerator, capabilities: serde_json::Value) -> (res: (CorrelationId, Message))
    ensures
        res.0@ == old(ids).counter(),
        final(ids).counter() == successor(old(ids).counter()),
        res.1 == (Message::ProcessRequest { correlation_id: res.0, capabilities }),
{
    let correlation_id = ids.next();
    (correlation_id, Message::ProcessRequest { correlation_id, capabilities })
}

/// What the client makes of the reply to a command request: the command
/// when the reply is a command response with the request's id; otherwise an
/// error that says what came instead.
pub fn command_reply(expected: CorrelationId, reply: Result<ServerReply, ApiError>) -> (res: Result<CommandResponse, ApiError>)
    ensures
        match reply {
            Ok(ServerReply::CommandResponse { correlation_id }) => if correlation_id == expected {
                res matches Ok(c) && c.correlation_id == expected
            } else {
                res matches Err(e) && e.message@ == "Unexpected correlation ID: "@ + correlation_id_debug(correlation_id@)
            },
            Ok(other) => res matches Err(e) && e.message@ == "Unexpected message: "@ + reply_debug(other),
            Err(err) => res matches Err(e) && e.message@ == "Error while parsing message: "@ + err.message@,
        },
{
    match reply {
        Ok(ServerReply::CommandResponse { correlation_id }) => {
            if correlation_id == expected {
                Ok(CommandResponse { correlation_id: expected })
            } else {
                let id = correlation_id.debug_text();
                Err(ApiError::with_detail("Unexpected correlation ID: ", id.as_str()))
            }
        },
        Ok(other) => {
            let text = other.debug_text();
            Err(ApiError::with_detail("Unexpected message: ", text.as_str()))
        },
        Err(err) => Err(ApiError::with_detail("Error while parsing message: ", err.message.as_str())),
    }
}

/// What the client makes of the reply to a process request: the process
/// when the reply is a process response with the request's id; otherwise an
/// error that says what came instead.
pub fn process_reply(expected: CorrelationId, reply: Result<ServerReply, ApiError>) -> (res: Result<ProcessResponse, ApiError>)
    ensures
        match reply {
            Ok(ServerReply::ProcessResponse { correlation_id, session_token, process_id }) => if correlation_id == expected {
                res matches Ok(p) && p.correlation_id == expected && p.session_token == session_token && p.process_id == process_id
            } else {
                res matches Err(e) && e.message@ == "Unexpected correlation ID: "@ + correlation_id_debug(correlation_id@)
            },
            Ok(other) => res matches Err(e) && e.message@ == "Unexpected message: "@ + reply_debug(other),
            Err(err) => res matches Err(e) && e.message@ == "Error while parsing message: "@ + err.message@,
        },
{
    match reply {
        Ok(ServerReply::ProcessResponse { correlation_id, session_token, process_id }) => {
            if correlation_id == expected {
                Ok(ProcessResponse { correlation_id: expected, session_token, process_id })
            } else {
                let id = correlation_id.debug_text();
                Err(ApiError::with_detail("Unexpected correlation ID: ", id.as_str()))
            }
        },
        Ok(other) => {
            let text = other.debug_text();
            Err(ApiError::with_detail("Unexpected message: ", text.as_str()))
        },
        Err(err) => Err(ApiError::with_detail("Error while parsing message: ", err.message.as_str())),
    }
}

} // verus!

verus! {

broadcast use vstd::std_specs::hash::group_hash_axioms;

/// A request that waits for its reply: its id and the channel to hand the
/// reply to.
pub struct Responder<T> {
    pub correlation_id: CorrelationId,
    pub channel: T,
}

/// The requests that were sent and wait for their replies, by correlation id.
pub struct ResponseQueue<T> {
    waiting: std::collections::HashMap<i64, T>,
}

impl<T> View for ResponseQueue<T> {
    type V = Map<i64, T>;

    closed spec fn view(&self) -> Map<i64, T> {
        self.waiting@
    }
}

impl<T> ResponseQueue<T> {
    /// A queue with no request waiting.
    pub fn new() -> (res: ResponseQueue<T>)
        ensures
            res@ == Map::<i64, T>::empty(),
    {
        ResponseQueue { waiting: std::collections::HashMap::new() }
    }

    /// Lets the request with the given id wait for its reply; a request
    /// waiting under the same id before is dropped.
    pub fn register(&mut self, correlation_id: CorrelationId, channel: T)
        ensures
            final(self)@ == old(self)@.insert(correlation_id@, channel),
    {
        let id = correlation_id.value();
        self.waiting.insert(id, channel);
    }

    /// Takes the request that waits under the given id out of the queue.
    pub fn take(&mut self, correlation_id: CorrelationId) -> (res: Option<T>)
        ensures
            final(self)@ == old(self)@.remove(correlation_id@),
            old(self)@.contains_key(correlation_id@) ==> res == Some(old(self)@[correlation_id@]),
            !old(self)@.contains_key(correlation_id@) ==> res is None,
    {
        let id = correlation_id.value();
        self.waiting.remove(&id)
    }

    /// Whether a request waits under the given id.
    pub fn is_waiting(&self, correlation_id: CorrelationId) -> (res: bool)
        ensures
            res == self@.contains_key(correlation_id@),
    {
        let id = correlation_id.value();
        self.waiting.contains_key(&id)
    }
}

/// The reply handed back is the one registered under its id, and taking
/// it out leaves nothing waiting under that id; requests under other ids
/// are untouched.
pub proof fn lemma_register_then_take<T>(q: Map<i64, T>, id: i64, other: i64, channel: T)
    requires
        other != id,
    ensures
        q.insert(id, channel).contains_key(id),
        q.insert(id, channel)[id] == channel,
        !q.insert(id, channel).remove(id).contains_key(id),
        q.insert(id, channel).remove(id).contains_key(other) == q.contains_key(other),
        q.contains_key(other) ==> q.insert(id, channel).remove(id)[other] == q[other],
{
}

/// A frame the writer sends to the server.
pub enum OutgoingFrame {
    /// A ping with no payload.
    Ping,
    /// A pong with no payload.
    Pong,
    /// A message as JSON text.
    Text(String),
}

/// A frame to send, with the request that then waits for a reply, if any.
pub struct MessageToSend<T> {
    pub frame: OutgoingFrame,
    pub resp: Option<Responder<T>>,
}

impl<T> MessageToSend<T> {
    /// A ping, which no request waits on.
    pub fn ping() -> (res: MessageToSend<T>)
        ensures
            res.frame is Ping,
            res.resp is None,
    {
        MessageToSend { frame: OutgoingFrame::Ping, resp: None }
    }

    /// A pong, which no request waits on.
    pub fn pong() -> (res: MessageToSend<T>)
        ensures
            res.frame is Pong,
            res.resp is None,
    {
        MessageToSend { frame: OutgoingFrame::Pong, resp: None }
    }

    /// A message, whose request then waits for its reply.
    pub fn text(text: String, resp: Responder<T>) -> (res: MessageToSend<T>)
        ensures
            res.frame == OutgoingFrame::Text(text),
            res.resp == Some(resp),
    {
        MessageToSend { frame: OutgoingFrame::Text(text), resp: Some(resp) }
    }
}

/// What the writer does once a frame went out, or failed to: a sent request
/// starts to wait for its reply; a request whose frame failed is handed
/// back with the error to answer it with, "Write error: <why>".
pub fn after_write<T>(queue: &mut ResponseQueue<T>, resp: Option<Responder<T>>, outcome: Result<(), String>) -> (res: Option<(T, ApiError)>)
    ensures
        match outcome {
            Ok(()) => {
                &&& res is None
                &&& match resp {
                    Some(r) => final(queue)@ == old(queue)@.insert(r.correlation_id@, r.channel),
                    None => final(queue)@ == old(queue)@,
                }
            },
            Err(why) => {
                &&& final(queue)@ == old(queue)@
                &&& match resp {
                    Some(r) => res matches Some((c, e)) && c == r.channel && e.message@ == "Write error: "@ + why@,
                    None => res is None,
                }
            },
        },
{
    match outcome {
        Ok(()) => {
            match resp {
                Some(r) => queue.register(r.correlation_id, r.channel),
                None => {},
            }
            None
        },
        Err(why) => match resp {
            Some(r) => Some((r.channel, ApiError::with_detail("Write error: ", why.as_str()))),
            None => None,
        },
    }
}

/// What becomes of a text message from the server.
pub enum Incoming<T> {
    /// A reply to a waiting request: the request's channel and the reply.
    Deliver(T, ServerReply),
    /// A reply that no request waits for; it is dropped.
    NoneWaiting,
    /// A message the server should not send; it is logged and dropped.
    Unexpected(Message),
    /// Text that is no message; the parse error is logged.
    Malformed(String),
}

/// Handles a text message from the server, parsed or not: a command or
/// process response goes to the request waiting under its id, which stops
/// waiting; anything else leaves the waiting requests as they are.
pub fn on_text_message<T>(queue: &mut ResponseQueue<T>, parsed: Result<Message, String>) -> (res: Incoming<T>)
    ensures
        match parsed {
            Ok(Message::CommandResponse { correlation_id }) => {
                &&& final(queue)@ == old(queue)@.remove(correlation_id@)
                &&& if old(queue)@.contains_key(correlation_id@) {
                    res == Incoming::Deliver(old(queue)@[correlation_id@], ServerReply::CommandResponse { correlation_id })
                } else {
                    res is NoneWaiting
                }
            },
            Ok(Message::ProcessResponse { correlation_id, session_token, process_id }) => {
                &&& final(queue)@ == old(queue)@.remove(correlation_id@)
                &&& if old(queue)@.contains_key(correlation_id@) {
                    res == Incoming::Deliver(old(queue)@[correlation_id@], ServerReply::ProcessResponse { correlation_id, session_token, process_id })
                } else {
                    res is NoneWaiting
                }
            },
            Ok(other) => final(queue)@ == old(queue)@ && res == Incoming::<T>::Unexpected(other),
            Err(why) => final(queue)@ == old(queue)@ && res == Incoming::<T>::Malformed(why),
        },
{
    match parsed {
        Ok(Message::CommandResponse { correlation_id }) => match queue.take(correlation_id) {
            Some(channel) => Incoming::Deliver(channel, ServerReply::CommandResponse { correlation_id }),
            None => Incoming::NoneWaiting,
        },
        Ok(Message::ProcessResponse { correlation_id, session_token, process_id }) => match queue.take(correlation_id) {
            Some(channel) => Incoming::Deliver(channel, ServerReply::ProcessResponse { correlation_id, session_token, process_id }),
            None => Incoming::NoneWaiting,
        },
        Ok(other) => Incoming::Unexpected(other),
        Err(why) => Incoming::Malformed(why),
    }
}

/// What the reader gets from the connection.
pub enum ReaderEvent {
    /// The client is shutting down.
    Cancelled,
    Ping,
    Pong,
    Text(String),
    /// A binary, close or other frame.
    OtherFrame,
    /// Reading failed with the given error.
    ReadFailed(String),
    /// The connection ended.
    Closed,
}

/// What the reader does about an event.
pub enum ReaderAction {
    /// Answer the server's ping with a pong.
    SendPong,
    /// Note the server's pong.
    NotePong,
    /// Handle a text message.
    HandleText(String),
    /// Log a frame of a kind the protocol does not use.
    WarnUnexpected,
    /// Log the error and shut the whole client down.
    CancelAll(String),
    /// Stop reading.
    Stop,
}

/// The reader's decision for each event: pings are answered, pongs noted,
/// text handled, other frames logged; a read error shuts the client down;
/// cancellation and the end of the connection stop the reader.
pub fn reader_action(event: ReaderEvent) -> (res: ReaderAction)
    ensures
        match event {
            ReaderEvent::Cancelled => res is Stop,
            ReaderEvent::Ping => res is SendPong,
            ReaderEvent::Pong => res is NotePong,
            ReaderEvent::Text(t) => res == ReaderAction::HandleText(t),
            ReaderEvent::OtherFrame => res is WarnUnexpected,
            ReaderEvent::ReadFailed(why) => res == ReaderAction::CancelAll(why),
            ReaderEvent::Closed => res is Stop,
        },
{
    match event {
        ReaderEvent::Cancelled => ReaderAction::Stop,
        ReaderEvent::Ping => ReaderAction::SendPong,
        ReaderEvent::Pong => ReaderAction::NotePong,
        ReaderEvent::Text(t) => ReaderAction::HandleText(t),
        ReaderEvent::OtherFrame => ReaderAction::WarnUnexpected,
        ReaderEvent::ReadFailed(why) => ReaderAction::CancelAll(why),
        ReaderEvent::Closed => ReaderAction::Stop,
    }
}

} // verus!

verus! {


/// The request that opens the websocket connection: where it goes and the
/// headers of the handshake.
pub struct ConnectRequest {
    pub uri: String,
    pub headers: Vec<Header>,
}

/// The `Host` of the handshake: the URI's host and port, "localhost" and
/// 8001 when it names none.
pub open spec fn connect_host(host: Option<Seq<char>>, port: Option<u16>) -> Seq<char> {
    let h = match host {
        Some(h) => h,
        None => "localhost"@,
    };
    let p: u16 = match port {
        Some(p) => p,
        None => 8001,
    };
    h + ":"@ + decimal(p as nat)
}

/// The headers of the handshake, in the order the client sets them.
pub open spec fn connect_headers(host: Seq<char>, api_token: Seq<char>, agent_id: u128, ws_key: Seq<char>) -> Seq<(Seq<char>, Seq<char>)> {
    seq![
        ("host"@, host),
        ("authorization"@, api_token),
        ("connection"@, "Upgrade"@),
        ("upgrade"@, "websocket"@),
        ("sec-websocket-version"@, "13"@),
        ("sec-websocket-key"@, ws_key),
        ("user-agent"@, USER_AGENT_VALUE@),
        ("X-Concord-Agent-Id"@, uuid_hyphenated(agent_id)),
        ("X-Concord-Agent"@, USER_AGENT_VALUE@),
    ]
}

/// Every value of a list of headers is one `http` accepts.
pub open spec fn all_values_ok(hs: Seq<(Seq<char>, Seq<char>)>) -> bool {
    forall|i: int| 0 <= i < hs.len() ==> #[trigger] header_value_ok(hs[i].1)
}

/// The handshake that opens a connection, or the error `http` reports when
/// one of its header values is refused.
pub open spec fn spec_connect_request(uri: Seq<char>, host: Seq<char>, api_token: Seq<char>, agent_id: u128, ws_key: Seq<char>) -> Result<(Seq<char>, Seq<(Seq<char>, Seq<char>)>), Seq<char>> {
    let hs = connect_headers(host, api_token, agent_id, ws_key);
    if all_values_ok(hs) {
        Ok((uri, hs))
    } else {
        Err("failed to parse header value"@)
    }
}

/// The plain view of a handshake or an error.
pub open spec fn connect_result_view(r: Result<ConnectRequest, ApiError>) -> Result<(Seq<char>, Seq<(Seq<char>, Seq<char>)>), Seq<char>> {
    match r {
        Ok(c) => Ok((c.uri@, headers_view(c.headers@))),
        Err(e) => Err(e.message@),
    }
}

fn checked_header(name: &str, value: &str) -> (res: Result<Header, ApiError>)
    ensures
        match header_value_result(value@) {
            Ok(v) => res matches Ok(h) && h@ == (name@, v),
            Err(e) => res matches Err(err) && err.message@ == e,
        },
{
    match header_value_of(value) {
        Ok(v) => Ok(Header { name: String::from_str(name), value: v }),
        Err(e) => Err(e),
    }
}

/// The handshake for a URI whose host and port are given, with the given
/// key.
pub fn connect_request_with(uri: &str, host: Option<&str>, port: Option<u16>, api_token: &ApiToken, agent_id: &AgentId, ws_key: &str) -> (res: Result<ConnectRequest, ApiError>)
    ensures
        connect_result_view(res) == spec_connect_request(
            uri@,
            connect_host(match host { Some(h) => Some(h@), None => None }, port),
            api_token@,
            agent_id.0,
            ws_key@,
        ),
{
    let ghost host_view = match host { Some(h) => Some(h@), None => None::<Seq<char>> };
    let mut host_text = match host {
        Some(h) => String::from_str(h),
        None => String::from_str("localhost"),
    };
    let p: u16 = match port {
        Some(p) => p,
        None => 8001,
    };
    host_text.append(":");
    let port_text = u64_text(p as u64);
    host_text.append(port_text.as_str());
    assert(host_text@ == connect_host(host_view, port));
    let ghost hs = connect_headers(host_text@, api_token@, agent_id.0, ws_key@);
    let agent_text = agent_id.to_string();
    let mut headers: Vec<Header> = Vec::new();
    match checked_header("host", host_text.as_str()) {
        Ok(h) => headers.push(h),
        Err(e) => {
            assert(!header_value_ok(hs[0].1));
            return Err(e);
        },
    }
    match checked_header("authorization", api_token.as_str()) {
        Ok(h) => headers.push(h),
        Err(e) => {
            assert(!header_value_ok(hs[1].1));
            return Err(e);
        },
    }
    match checked_header("connection", "Upgrade") {
        Ok(h) => headers.push(h),
        Err(e) => {
            assert(!header_value_ok(hs[2].1));
            return Err(e);
        },
    }
    match checked_header("upgrade", "websocket") {
        Ok(h) => headers.push(h),
        Err(e) => {
            assert(!header_value_ok(hs[3].1));
            return Err(e);
        },
    }
    match checked_header("sec-websocket-version", "13") {
        Ok(h) => headers.push(h),
        Err(e) => {
            assert(!header_value_ok(hs[4].1));
            return Err(e);
        },
    }
    match checked_header("sec-websocket-key", ws_key) {
        Ok(h) => headers.push(h),
        Err(e) => {
            assert(!header_value_ok(hs[5].1));
            return Err(e);
        },
    }
    match checked_header("user-agent", USER_AGENT_VALUE) {
        Ok(h) => headers.push(h),
        Err(e) => {
            assert(!header_value_ok(hs[6].1));
            return Err(e);
        },
    }
    match checked_header("X-Concord-Agent-Id", agent_text.as_str()) {
        Ok(h) => headers.push(h),
        Err(e) => {
            assert(!header_value_ok(hs[7].1));
            return Err(e);
        },
    }
    match checked_header("X-Concord-Agent", USER_AGENT_VALUE) {
        Ok(h) => headers.push(h),
        Err(e) => {
            assert(!header_value_ok(hs[8].1));
            return Err(e);
        },
    }
    assert(headers_view(headers@) =~= hs);
    Ok(ConnectRequest { uri: String::from_str(uri), headers })
}

} // verus!

verus! {

/// With a key as `tungstenite` makes them, the handshake's headers are all
/// accepted exactly when its host and API token are: the other values are
/// fixed texts, the agent's UUID and the key.
pub proof fn lemma_connect_headers_ok(host: Seq<char>, api_token: Seq<char>, agent_id: u128, ws_key: Seq<char>)
    requires
        ws_key_shape(ws_key),
    ensures
        all_values_ok(connect_headers(host, api_token, agent_id, ws_key)) <==> (header_value_ok(host) && header_value_ok(api_token)),
{
    reveal_strlit("Upgrade");
    reveal_strlit("websocket");
    reveal_strlit("13");
    reveal_strlit("concord-client/0.1.0");
    crate::model::lemma_uuid_header_ok(agent_id);
    let hs = connect_headers(host, api_token, agent_id, ws_key);
    assert(header_value_ok(ws_key)) by {
        assert forall|i: int| 0 <= i < ws_key.len() implies #[trigger] crate::bindings::header_char_ok(ws_key[i]) by {
            if i < 22 {
                assert(crate::bindings::base64_digit(ws_key[i]));
            }
        }
    }
    assert(header_value_ok("Upgrade"@)) by {
        assert forall|i: int| 0 <= i < "Upgrade"@.len() implies #[trigger] crate::bindings::header_char_ok("Upgrade"@[i]) by {}
    }
    assert(header_value_ok("websocket"@)) by {
        assert forall|i: int| 0 <= i < "websocket"@.len() implies #[trigger] crate::bindings::header_char_ok("websocket"@[i]) by {}
    }
    assert(header_value_ok("13"@)) by {
        assert forall|i: int| 0 <= i < "13"@.len() implies #[trigger] crate::bindings::header_char_ok("13"@[i]) by {}
    }
    assert(header_value_ok(USER_AGENT_VALUE@)) by {
        assert forall|i: int| 0 <= i < USER_AGENT_VALUE@.len() implies #[trigger] crate::bindings::header_char_ok(USER_AGENT_VALUE@[i]) by {}
    }
    if header_value_ok(host) && header_value_ok(api_token) {
        assert forall|i: int| 0 <= i < hs.len() implies #[trigger] header_value_ok(hs[i].1) by {
            assert(i == 0 || i == 1 || i == 2 || i == 3 || i == 4 || i == 5 || i == 6 || i == 7 || i == 8);
        }
    }
    if all_values_ok(hs) {
        assert(header_value_ok(hs[0].1));
        assert(header_value_ok(hs[1].1));
    }
}

proof fn lemma_decimal_header_ok(n: nat)
    ensures
        header_value_ok(decimal(n)),
    decreases n,
{
    if n >= 10 {
        lemma_decimal_header_ok(n / 10);
        let prev = decimal(n / 10);
        assert forall|i: int| 0 <= i < decimal(n).len() implies #[trigger] crate::bindings::header_char_ok(decimal(n)[i]) by {
            if i < prev.len() {
                assert(decimal(n)[i] == prev[i]);
            }
        }
    } else {
        assert forall|i: int| 0 <= i < decimal(n).len() implies #[trigger] crate::bindings::header_char_ok(decimal(n)[i]) by {
            assert(decimal(n)[i] == crate::text::digit_char(n as int));
        }
    }
}

/// A host of printable ASCII characters, or none, makes a `Host` value that
/// `http` accepts.
pub proof fn lemma_connect_host_ok(host: Option<Seq<char>>, port: Option<u16>)
    requires
        host matches Some(h) ==> crate::bindings::visible_ascii(h),
    ensures
        header_value_ok(connect_host(host, port)),
{
    reveal_strlit("localhost");
    reveal_strlit(":");
    let h = match host {
        Some(h) => h,
        None => "localhost"@,
    };
    let p: u16 = match port {
        Some(p) => p,
        None => 8001,
    };
    let d = decimal(p as nat);
    lemma_decimal_header_ok(p as nat);
    let all = connect_host(host, port);
    assert(all == h + ":"@ + d);
    assert forall|i: int| 0 <= i < all.len() implies #[trigger] crate::bindings::header_char_ok(all[i]) by {
        if i < h.len() {
            assert(all[i] == h[i]);
        } else if i == h.len() {
            assert(all[i] == ':');
        } else {
            assert(all[i] == d[i - h.len() - 1]);
        }
    }
}

/// The handshake that opens a connection to `uri`, with a fresh random key:
/// it fails with `http`'s error when the URI does not parse, or when its
/// host or the API token is no valid header value.
pub fn create_connect_request(uri: &str, api_token: &ApiToken, agent_id: &AgentId) -> (res: Result<ConnectRequest, ApiError>)
    ensures
        match uri_authority(uri@) {
            Err(why) => res matches Err(e) && e.message@ == why,
            Ok((host, port)) => {
                &&& exists|key: Seq<char>| ws_key_shape(key) && connect_result_view(res) == #[trigger] spec_connect_request(
                    uri@, connect_host(host, port), api_token@, agent_id.0, key)
                &&& (res is Ok <==> header_value_ok(connect_host(host, port)) && header_value_ok(api_token@))
                &&& (res is Ok <==> header_value_ok(api_token@))
            },
        },
{
    match parse_uri_authority(uri) {
        Err(why) => Err(ApiError { message: why }),
        Ok((host, port)) => {
            let key = generate_ws_key();
            let host_ref: Option<&str> = match &host {
                Some(h) => Some(h.as_str()),
                None => None,
            };
            let res = connect_request_with(uri, host_ref, port, api_token, agent_id, key.as_str());
            proof {
                let host_view = crate::bindings::opt_text(host);
                let hv = connect_host(host_view, port);
                lemma_connect_headers_ok(hv, api_token@, agent_id.0, key@);
                lemma_connect_host_ok(host_view, port);
            }
            res
        },
    }
}

} // verus!

verus! {

/// What a handshake is made of. When it succeeds it goes to the given URI
/// with nine headers: the host, the API token as `authorization`, the
/// websocket upgrade (`Upgrade`, `websocket`, version 13), the given key,
/// the user agent, the agent's hyphenated UUID as `X-Concord-Agent-Id`, and
/// the user agent again as `X-Concord-Agent`. Both user agents are the very
/// one the REST client sends. With a key of the generator's form it
/// succeeds exactly when the host and the API token are valid header values.
pub proof fn lemma_handshake_headers(uri: Seq<char>, host: Seq<char>, api_token: Seq<char>, agent_id: u128, ws_key: Seq<char>)
    ensures
        spec_connect_request(uri, host, api_token, agent_id, ws_key) matches Ok(r) ==> {
            &&& r.0 == uri
            &&& r.1.len() == 9
            &&& r.1[0] == ("host"@, host)
            &&& r.1[1] == ("authorization"@, api_token)
            &&& r.1[2] == ("connection"@, "Upgrade"@)
            &&& r.1[3] == ("upgrade"@, "websocket"@)
            &&& r.1[4] == ("sec-websocket-version"@, "13"@)
            &&& r.1[5] == ("sec-websocket-key"@, ws_key)
            &&& r.1[6] == ("user-agent"@, USER_AGENT_VALUE@)
            &&& r.1[7] == ("X-Concord-Agent-Id"@, uuid_hyphenated(agent_id))
            &&& r.1[8] == ("X-Concord-Agent"@, USER_AGENT_VALUE@)
            &&& r.1[6].1 == crate::api_client::spec_default_headers(None, None)->Ok_0[0].1
            &&& r.1[8].1 == crate::api_client::spec_default_headers(None, None)->Ok_0[0].1
        },
        spec_connect_request(uri, host, api_token, agent_id, ws_key) is Err
            ==> spec_connect_request(uri, host, api_token, agent_id, ws_key) == Err::<(Seq<char>, Seq<(Seq<char>, Seq<char>)>), Seq<char>>("failed to parse header value"@),
        ws_key_shape(ws_key) ==> (spec_connect_request(uri, host, api_token, agent_id, ws_key) is Ok
            <==> header_value_ok(host) && header_value_ok(api_token)),
{
    crate::api_client::lemma_default_headers_authenticate(None, None);
    if ws_key_shape(ws_key) {
        lemma_connect_headers_ok(host, api_token, agent_id, ws_key);
    }
}

} // verus!
