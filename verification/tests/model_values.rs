use concord_client::api_client::{default_headers, Config};
use concord_client::model::{
    header_value_of, AgentId, ApiToken, LogSegmentId, LogSegmentUpdateRequest, ProcessId, ProcessStatus,
    SegmentCorrelationId, SessionToken, USER_AGENT_VALUE,
};
use concord_client::text::{i64_text, u64_text};

const SAMPLE_UUID: u128 = 0x67e5_5044_10b1_426f_9247_bb68_0e5f_e0c8;

#[test]
fn decimal_text_of_numbers() {
    assert_eq!(u64_text(0), "0");
    assert_eq!(u64_text(7), "7");
    assert_eq!(u64_text(10), "10");
    assert_eq!(u64_text(18446744073709551615), "18446744073709551615");
    assert_eq!(i64_text(-1), "-1");
    assert_eq!(i64_text(i64::MIN), "-9223372036854775808");
    assert_eq!(i64_text(i64::MAX), "9223372036854775807");
}

#[test]
fn process_id_displays_hyphenated_uuid() {
    let id = ProcessId::new(SAMPLE_UUID);
    assert_eq!(id.to_string(), "67e55044-10b1-426f-9247-bb680e5fe0c8");
    assert_eq!(id.debug_text(), "ProcessId(67e55044-10b1-426f-9247-bb680e5fe0c8)");
    assert_eq!(id.value(), SAMPLE_UUID);
    assert_eq!(ProcessId::new(0).to_string(), "00000000-0000-0000-0000-000000000000");
}

#[test]
fn agent_id_is_always_a_header_value() {
    let agent = AgentId(SAMPLE_UUID);
    assert_eq!(agent.to_string(), "67e55044-10b1-426f-9247-bb680e5fe0c8");
    let value = agent.header_value();
    assert!(value.is_ok());
    assert_eq!(value.ok().unwrap(), "67e55044-10b1-426f-9247-bb680e5fe0c8");
    assert!(AgentId(u128::MAX).header_value().is_ok());
}

#[test]
fn process_status_names() {
    let all = [
        (ProcessStatus::New, "NEW"),
        (ProcessStatus::Preparing, "PREPARING"),
        (ProcessStatus::Enqueued, "ENQUEUED"),
        (ProcessStatus::Waiting, "WAITING"),
        (ProcessStatus::Starting, "STARTING"),
        (ProcessStatus::Running, "RUNNING"),
        (ProcessStatus::Suspended, "SUSPENDED"),
        (ProcessStatus::Resuming, "RESUMING"),
        (ProcessStatus::Finished, "FINISHED"),
        (ProcessStatus::Failed, "FAILED"),
        (ProcessStatus::Cancelled, "CANCELLED"),
        (ProcessStatus::TimedOut, "TIMED_OUT"),
    ];
    for (status, name) in all.iter() {
        assert_eq!(status.to_string(), *name);
    }
    for (i, (a, _)) in all.iter().enumerate() {
        for (j, (b, _)) in all.iter().enumerate() {
            assert_eq!(i == j, a.to_string() == b.to_string());
        }
    }
}

#[test]
fn api_token_debug_hides_the_secret() {
    let a = ApiToken::new("secret-one".to_string());
    let b = ApiToken::new("another".to_string());
    assert_eq!(a.debug_text(), "ApiToken(\"********\")");
    assert_eq!(a.debug_text(), b.debug_text());
    assert!(!a.debug_text().contains("secret-one"));
    assert_eq!(a.as_str(), "secret-one");
}

#[test]
fn session_token_debug_quotes_its_text() {
    let t = SessionToken::new("abc".to_string());
    assert_eq!(t.debug_text(), "SessionToken(\"abc\")");
    let q = SessionToken::new("a\"b".to_string());
    assert_eq!(q.debug_text(), "SessionToken(\"a\\\"b\")");
}

#[test]
fn header_values_follow_http() {
    assert_eq!(header_value_of("token-1").ok().unwrap(), "token-1");
    assert_eq!(header_value_of("with\ttab").ok().unwrap(), "with\ttab");
    assert_eq!(header_value_of("na\u{ef}ve").ok().unwrap(), "na\u{ef}ve");
    let err = header_value_of("line\nbreak").err().unwrap();
    assert_eq!(err.message, "failed to parse header value");
    assert!(header_value_of("del\u{7f}").is_err());
    assert!(SessionToken::new("x\ry".to_string()).header_value().is_err());
    assert_eq!(ApiToken::new("ok".to_string()).header_value().ok().unwrap(), "ok");
}

#[test]
fn log_segment_values() {
    assert_eq!(LogSegmentId::new(42).to_string(), "42");
    assert_eq!(LogSegmentId::new(-3).to_string(), "-3");
    assert_eq!(LogSegmentId::default().value(), 0);
    assert_eq!(SegmentCorrelationId::new(5).value(), 5);
    let update = LogSegmentUpdateRequest::default();
    assert!(update.status.is_none());
    assert!(update.warnings.is_none());
    assert!(update.errors.is_none());
}

#[test]
fn default_headers_prefer_the_session_token() {
    let config = Config {
        base_url: "http://localhost:8001/".to_string(),
        session_token: Some(SessionToken::new("sess".to_string())),
        api_token: Some(ApiToken::new("api".to_string())),
    };
    let headers = default_headers(&config).ok().unwrap();
    assert_eq!(headers.len(), 2);
    assert_eq!(headers[0].name, "user-agent");
    assert_eq!(headers[0].value, USER_AGENT_VALUE);
    assert_eq!(headers[1].name, "X-Concord-SessionToken");
    assert_eq!(headers[1].value, "sess");
}

#[test]
fn default_headers_use_the_api_token_without_session() {
    let config = Config {
        base_url: "http://localhost:8001/".to_string(),
        session_token: None,
        api_token: Some(ApiToken::new("api".to_string())),
    };
    let headers = default_headers(&config).ok().unwrap();
    assert_eq!(headers.len(), 2);
    assert_eq!(headers[1].name, "Authorization");
    assert_eq!(headers[1].value, "api");

    let bare = Config { base_url: "http://localhost/".to_string(), session_token: None, api_token: None };
    let headers = default_headers(&bare).ok().unwrap();
    assert_eq!(headers.len(), 1);
    assert_eq!(headers[0].name, "user-agent");
}

#[test]
fn default_headers_refuse_bad_tokens() {
    let bad_session = Config {
        base_url: "http://localhost/".to_string(),
        session_token: Some(SessionToken::new("a\nb".to_string())),
        api_token: Some(ApiToken::new("fine".to_string())),
    };
    assert_eq!(
        default_headers(&bad_session).err().unwrap().message,
        "Invalid session_token: failed to parse header value"
    );
    let bad_api = Config {
        base_url: "http://localhost/".to_string(),
        session_token: None,
        api_token: Some(ApiToken::new("a\nb".to_string())),
    };
    assert_eq!(
        default_headers(&bad_api).err().unwrap().message,
        "Invalid api_token: failed to parse header value"
    );
}
