use concord_client::error::ApiError;
use concord_client::model::{AgentId, ApiToken, ProcessId, SessionToken};
use concord_client::queue_client::{
    after_write, command_reply, command_request, connect_request_with, create_connect_request, on_text_message,
    process_reply, reader_action, CorrelationId, CorrelationIdGenerator, Incoming, Message, MessageToSend,
    OutgoingFrame, ReaderAction, ReaderEvent, Responder, ResponseQueue, ServerReply,
};

#[test]
fn correlation_ids_count_up_from_zero() {
    let mut ids = CorrelationIdGenerator::default();
    assert_eq!(ids.next().value(), 0);
    assert_eq!(ids.next().value(), 1);
    assert_eq!(ids.next().value(), 2);
    let mut near_top = CorrelationIdGenerator::default();
    for _ in 0..5 {
        near_top.next();
    }
    assert_eq!(near_top.next().value(), 5);
    let (id, message) = command_request(&mut ids, AgentId(9));
    assert_eq!(id.value(), 3);
    match message {
        Message::CommandRequest { correlation_id, agent_id } => {
            assert!(correlation_id == id);
            assert!(agent_id == AgentId(9));
        },
        _ => panic!("a command request"),
    }
    assert_eq!(CorrelationId::new(-12).debug_text(), "CorrelationId(-12)");
}

#[test]
fn command_reply_matches_the_request_id() {
    let ok = command_reply(CorrelationId::new(4), Ok(ServerReply::CommandResponse { correlation_id: CorrelationId::new(4) }));
    assert_eq!(ok.ok().unwrap().correlation_id.value(), 4);
    let wrong = command_reply(CorrelationId::new(4), Ok(ServerReply::CommandResponse { correlation_id: CorrelationId::new(5) }));
    assert_eq!(wrong.err().unwrap().message, "Unexpected correlation ID: CorrelationId(5)");
    let failed = command_reply(CorrelationId::new(4), Err(ApiError::simple("Send error: channel closed")));
    assert_eq!(failed.err().unwrap().message, "Error while parsing message: Send error: channel closed");
}

#[test]
fn command_reply_refuses_a_process_response() {
    let reply = ServerReply::ProcessResponse {
        correlation_id: CorrelationId::new(4),
        session_token: SessionToken::new("tok".to_string()),
        process_id: ProcessId::new(1),
    };
    assert_eq!(
        command_reply(CorrelationId::new(4), Ok(reply)).err().unwrap().message,
        "Unexpected message: ProcessResponse { correlation_id: CorrelationId(4), session_token: SessionToken(\"tok\"), process_id: ProcessId(00000000-0000-0000-0000-000000000001) }"
    );
}

#[test]
fn process_reply_matches_the_request_id() {
    let reply = ServerReply::ProcessResponse {
        correlation_id: CorrelationId::new(7),
        session_token: SessionToken::new("tok".to_string()),
        process_id: ProcessId::new(2),
    };
    let p = process_reply(CorrelationId::new(7), Ok(reply)).ok().unwrap();
    assert_eq!(p.correlation_id.value(), 7);
    assert_eq!(p.session_token.as_str(), "tok");
    assert_eq!(p.process_id.value(), 2);
    let other = process_reply(CorrelationId::new(7), Ok(ServerReply::CommandResponse { correlation_id: CorrelationId::new(7) }));
    assert_eq!(other.err().unwrap().message, "Unexpected message: CommandResponse { correlation_id: CorrelationId(7) }");
    let wrong = process_reply(
        CorrelationId::new(7),
        Ok(ServerReply::ProcessResponse {
            correlation_id: CorrelationId::new(8),
            session_token: SessionToken::new("t".to_string()),
            process_id: ProcessId::new(2),
        }),
    );
    assert_eq!(wrong.err().unwrap().message, "Unexpected correlation ID: CorrelationId(8)");
}

#[test]
fn replies_reach_the_request_that_waits() {
    let mut queue: ResponseQueue<&str> = ResponseQueue::new();
    queue.register(CorrelationId::new(1), "first");
    queue.register(CorrelationId::new(2), "second");
    assert!(queue.is_waiting(CorrelationId::new(2)));
    match on_text_message(&mut queue, Ok(Message::CommandResponse { correlation_id: CorrelationId::new(2) })) {
        Incoming::Deliver(channel, ServerReply::CommandResponse { correlation_id }) => {
            assert_eq!(channel, "second");
            assert_eq!(correlation_id.value(), 2);
        },
        _ => panic!("the reply goes to the second request"),
    }
    assert!(!queue.is_waiting(CorrelationId::new(2)));
    assert!(queue.is_waiting(CorrelationId::new(1)));
    assert!(matches!(
        on_text_message(&mut queue, Ok(Message::CommandResponse { correlation_id: CorrelationId::new(2) })),
        Incoming::NoneWaiting
    ));
    assert!(matches!(on_text_message(&mut queue, Err("bad json".to_string())), Incoming::Malformed(_)));
    assert!(matches!(
        on_text_message(&mut queue, Ok(Message::CommandRequest { correlation_id: CorrelationId::new(1), agent_id: AgentId(0) })),
        Incoming::Unexpected(_)
    ));
    assert!(queue.is_waiting(CorrelationId::new(1)));
    assert_eq!(queue.take(CorrelationId::new(1)), Some("first"));
    assert_eq!(queue.take(CorrelationId::new(1)), None);
}

#[test]
fn writes_register_or_answer_the_request() {
    let mut queue: ResponseQueue<u32> = ResponseQueue::new();
    let sent = after_write(&mut queue, Some(Responder { correlation_id: CorrelationId::new(3), channel: 30 }), Ok(()));
    assert!(sent.is_none());
    assert!(queue.is_waiting(CorrelationId::new(3)));
    let failed = after_write(
        &mut queue,
        Some(Responder { correlation_id: CorrelationId::new(4), channel: 40 }),
        Err("connection reset".to_string()),
    );
    let (channel, error) = failed.unwrap();
    assert_eq!(channel, 40);
    assert_eq!(error.message, "Write error: connection reset");
    assert!(!queue.is_waiting(CorrelationId::new(4)));
    assert!(after_write(&mut queue, None, Err("x".to_string())).is_none());
}

#[test]
fn messages_to_send() {
    let ping: MessageToSend<u8> = MessageToSend::ping();
    assert!(matches!(ping.frame, OutgoingFrame::Ping) && ping.resp.is_none());
    let pong: MessageToSend<u8> = MessageToSend::pong();
    assert!(matches!(pong.frame, OutgoingFrame::Pong) && pong.resp.is_none());
    let text = MessageToSend::text("{}".to_string(), Responder { correlation_id: CorrelationId::new(1), channel: 5u8 });
    match text.frame {
        OutgoingFrame::Text(t) => assert_eq!(t, "{}"),
        _ => panic!("a text frame"),
    }
    assert_eq!(text.resp.unwrap().channel, 5);
}

#[test]
fn the_reader_answers_each_event() {
    assert!(matches!(reader_action(ReaderEvent::Ping), ReaderAction::SendPong));
    assert!(matches!(reader_action(ReaderEvent::Pong), ReaderAction::NotePong));
    match reader_action(ReaderEvent::Text("hi".to_string())) {
        ReaderAction::HandleText(t) => assert_eq!(t, "hi"),
        _ => panic!("text is handled"),
    }
    assert!(matches!(reader_action(ReaderEvent::OtherFrame), ReaderAction::WarnUnexpected));
    assert!(matches!(reader_action(ReaderEvent::ReadFailed("e".to_string())), ReaderAction::CancelAll(_)));
    assert!(matches!(reader_action(ReaderEvent::Closed), ReaderAction::Stop));
    assert!(matches!(reader_action(ReaderEvent::Cancelled), ReaderAction::Stop));
}

#[test]
fn connect_request_headers() {
    let token = ApiToken::new("tok".to_string());
    let request = connect_request_with("ws://h:9000/websocket", Some("h"), Some(9000), &token, &AgentId(1), "dGhlIHNhbXBsZSBub25jZQ==").ok().unwrap();
    assert_eq!(request.uri, "ws://h:9000/websocket");
    let pairs: Vec<(String, String)> = request.headers.into_iter().map(|h| (h.name, h.value)).collect();
    assert_eq!(pairs[0], ("host".to_string(), "h:9000".to_string()));
    assert_eq!(pairs[1], ("authorization".to_string(), "tok".to_string()));
    assert_eq!(pairs[2], ("connection".to_string(), "Upgrade".to_string()));
    assert_eq!(pairs[3], ("upgrade".to_string(), "websocket".to_string()));
    assert_eq!(pairs[4], ("sec-websocket-version".to_string(), "13".to_string()));
    assert_eq!(pairs[5], ("sec-websocket-key".to_string(), "dGhlIHNhbXBsZSBub25jZQ==".to_string()));
    assert_eq!(pairs[7], ("X-Concord-Agent-Id".to_string(), "00000000-0000-0000-0000-000000000001".to_string()));
    assert_eq!(pairs.len(), 9);
}

#[test]
fn connect_request_defaults_and_failures() {
    let token = ApiToken::new("tok".to_string());
    let request = create_connect_request("ws://example.org/websocket", &token, &AgentId(1)).ok().unwrap();
    assert_eq!(request.headers[0].value, "example.org:8001");
    let key: Vec<char> = request.headers[5].value.chars().collect();
    assert_eq!(key.len(), 24);
    assert!(key[..22].iter().all(|c| c.is_ascii_alphanumeric() || *c == '+' || *c == '/'));
    assert!(matches!(key[21], 'A' | 'Q' | 'g' | 'w'));
    assert_eq!(key[22], '=');
    assert_eq!(key[23], '=');
    let bare = connect_request_with("/websocket", None, None, &token, &AgentId(1), "k").ok().unwrap();
    assert_eq!(bare.headers[0].value, "localhost:8001");
    let bad = create_connect_request("ws://example.org/", &ApiToken::new("a\nb".to_string()), &AgentId(1));
    assert_eq!(bad.err().unwrap().message, "failed to parse header value");
    assert!(create_connect_request("ws://exa mple/", &token, &AgentId(1)).is_err());
}

#[test]
fn process_request_carries_the_capabilities() {
    let mut ids = CorrelationIdGenerator::default();
    let first = ids.next();
    assert_eq!(first.value(), 0);
    let caps = serde_json::Value::String("linux".to_string());
    let (id, message) = concord_client::queue_client::process_request(&mut ids, caps.clone());
    assert_eq!(id.value(), 1);
    match message {
        Message::ProcessRequest { correlation_id, capabilities } => {
            assert!(correlation_id == id);
            assert_eq!(capabilities, caps);
        },
        _ => panic!("a process request"),
    }
}

#[test]
fn api_error_messages() {
    assert_eq!(ApiError::simple("boom").message, "boom");
    assert_eq!(ApiError::with_detail("Send error: ", "channel closed").to_string(), "Send error: channel closed");
}

#[test]
fn only_the_token_can_refuse_a_parsed_uri() {
    let token = ApiToken::new("tok".to_string());
    let v6 = create_connect_request("ws://[::1]:9000/websocket", &token, &AgentId(2)).ok().unwrap();
    assert_eq!(v6.headers[0].value, "[::1]:9000");
    let user = create_connect_request("ws://user%20x@host.example/", &token, &AgentId(2)).ok().unwrap();
    assert_eq!(user.headers[0].value, "host.example:8001");
    assert!(create_connect_request("ws://host.example/", &ApiToken::new("t\u{1}".to_string()), &AgentId(2)).is_err());
}
