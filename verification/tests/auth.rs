use quotax::auth::{
    classify_error_reply, classify_token_response, default_expires_in, default_interval,
    device_auth_failure, login_session, next_interval, refetch_after, session_lifetime_secs,
    DeviceAuthResponse, ErrorResponse, LoginEvent, LoginSlot, PollEvent, PollStep, TokenPoll,
    TokenPoller, TokenReply,
};
use quotax::credentials::{CredError, TokenResponse};

fn err_reply(code: &str) -> TokenReply {
    TokenReply::Error(Some(ErrorResponse { error: code.to_string(), error_description: None }))
}

fn token_reply() -> TokenReply {
    TokenReply::Token(Ok(TokenResponse {
        access_token: "a".to_string(),
        refresh_token: Some("r".to_string()),
        expires_in: Some(900),
        expires_at: None,
        scope: Some("kimi-code".to_string()),
    }))
}

#[test]
fn classify_token_responses() {
    let now = 1_700_000_000;
    assert!(matches!(
        classify_token_response(400, r#"{"error":"authorization_pending"}"#, err_reply("authorization_pending"), now),
        TokenPoll::Pending
    ));
    assert!(matches!(
        classify_token_response(400, r#"{"error":"slow_down"}"#, err_reply("slow_down"), now),
        TokenPoll::SlowDown
    ));
    assert!(matches!(
        classify_token_response(400, r#"{"error":"expired_token"}"#, err_reply("expired_token"), now),
        TokenPoll::Expired
    ));
    assert!(matches!(
        classify_token_response(400, r#"{"error":"access_denied"}"#, err_reply("access_denied"), now),
        TokenPoll::Denied
    ));
    assert!(matches!(
        classify_token_response(
            200,
            r#"{"access_token":"a","refresh_token":"r","expires_in":900,"token_type":"Bearer","scope":"kimi-code"}"#,
            token_reply(),
            now
        ),
        TokenPoll::Success(_)
    ));
    assert!(matches!(
        classify_token_response(400, r#"{"error":"invalid_grant"}"#, err_reply("invalid_grant"), now),
        TokenPoll::Failed(_)
    ));
    assert!(matches!(
        classify_token_response(500, "internal error", TokenReply::Error(None), now),
        TokenPoll::Failed(_)
    ));
}

#[test]
fn interval_adjustment() {
    assert_eq!(next_interval(5, &TokenPoll::Pending), 5);
    assert_eq!(next_interval(5, &TokenPoll::SlowDown), 10);
    assert_eq!(next_interval(10, &TokenPoll::SlowDown), 15);
}

#[test]
fn success_reply_builds_credentials() {
    match classify_token_response(200, "", token_reply(), 1_000) {
        TokenPoll::Success(c) => {
            assert_eq!(c.access_token, "a");
            assert_eq!(c.refresh_token, "r");
            assert_eq!(c.expires_at, 1_900);
            assert_eq!(c.expires_in, 900);
            assert_eq!(c.token_type, "Bearer");
            assert_eq!(c.scope.as_deref(), Some("kimi-code"));
        }
        _ => panic!("expected success"),
    }
}

#[test]
fn unparsable_success_reply_fails_with_parser_message() {
    match classify_token_response(200, "x", TokenReply::Token(Err("expected value".to_string())), 0) {
        TokenPoll::Failed(m) => assert_eq!(m, "解析凭证失败: expected value"),
        _ => panic!("expected failure"),
    }
}

#[test]
fn error_codes_are_trimmed_and_described() {
    let p = ErrorResponse { error: "  slow_down\n".to_string(), error_description: None };
    assert!(matches!(classify_error_reply(400, "", Some(p)), TokenPoll::SlowDown));
    let p = ErrorResponse {
        error: "invalid_grant".to_string(),
        error_description: Some("bad code".to_string()),
    };
    match classify_error_reply(400, "body", Some(p)) {
        TokenPoll::Failed(m) => assert_eq!(m, "HTTP 400: invalid_grant bad code"),
        _ => panic!("expected failure"),
    }
    let p = ErrorResponse { error: "invalid_grant".to_string(), error_description: None };
    match classify_error_reply(401, "body", Some(p)) {
        TokenPoll::Failed(m) => assert_eq!(m, "HTTP 401: invalid_grant "),
        _ => panic!("expected failure"),
    }
}

#[test]
fn blank_error_code_reports_the_body_prefix() {
    let p = ErrorResponse { error: "   ".to_string(), error_description: Some("x".to_string()) };
    match classify_error_reply(502, "bad gateway", Some(p)) {
        TokenPoll::Failed(m) => assert_eq!(m, "HTTP 502: bad gateway"),
        _ => panic!("expected failure"),
    }
    let long: String = "错".repeat(250);
    match classify_error_reply(500, &long, None) {
        TokenPoll::Failed(m) => {
            assert_eq!(m, format!("HTTP 500: {}", "错".repeat(200)));
        }
        _ => panic!("expected failure"),
    }
}

#[test]
fn device_auth_defaults_values() {
    assert_eq!(default_expires_in(), 1800);
    assert_eq!(default_interval(), 5);
}

#[test]
fn device_auth_failure_message() {
    assert_eq!(device_auth_failure(200, "ok"), None);
    assert_eq!(device_auth_failure(204, "ok"), None);
    assert_eq!(
        device_auth_failure(503, "down"),
        Some("申请设备码失败 (HTTP 503): down".to_string())
    );
}

#[test]
fn login_session_prefers_complete_link() {
    let da = DeviceAuthResponse {
        device_code: "JctDBN8i2uzW8oLJOvSvtTWps0TAQGK77huTQNe_".to_string(),
        user_code: "7BZD-DZYB".to_string(),
        verification_uri: "https://www.kimi.com/code/authorize_device".to_string(),
        verification_uri_complete: Some(
            "https://www.kimi.com/code/authorize_device?user_code=7BZD-DZYB".to_string(),
        ),
        expires_in: 1800,
        interval: 5,
    };
    let l = login_session(Ok(da)).unwrap();
    assert_eq!(l.device_code, "JctDBN8i2uzW8oLJOvSvtTWps0TAQGK77huTQNe_");
    assert_eq!(l.session.user_code, "7BZD-DZYB");
    assert!(l.session.verification_uri_complete.contains("user_code=7BZD-DZYB"));
    assert_eq!(l.session.expires_in, 1800);
    assert_eq!(l.session.interval, 5);

    let da = DeviceAuthResponse {
        device_code: "d".to_string(),
        user_code: "u".to_string(),
        verification_uri: "https://x".to_string(),
        verification_uri_complete: None,
        expires_in: default_expires_in(),
        interval: default_interval(),
    };
    let l = login_session(Ok(da)).unwrap();
    assert_eq!(l.session.verification_uri_complete, "https://x");
    assert_eq!(l.session.verification_uri, "https://x");

    assert_eq!(
        login_session(Err("missing field `device_code`".to_string())).err(),
        Some("解析设备码响应失败: missing field `device_code`".to_string())
    );
}

#[test]
fn session_lifetime_is_at_least_one_second() {
    assert_eq!(session_lifetime_secs(1800), 1800);
    assert_eq!(session_lifetime_secs(0), 1);
    assert_eq!(session_lifetime_secs(-5), 1);
}

#[test]
fn poller_walks_a_login() {
    let mut p = TokenPoller::new(5);
    assert!(matches!(p.start(), PollStep::CheckDeadline));
    assert!(matches!(p.step(PollEvent::Deadline { passed: false }), PollStep::RequestToken));
    assert!(matches!(p.step(PollEvent::Reply(TokenPoll::Pending)), PollStep::Sleep(5)));
    assert!(matches!(p.step(PollEvent::Reply(TokenPoll::SlowDown)), PollStep::Sleep(10)));
    assert_eq!(p.interval, 10);
    assert!(matches!(p.step(PollEvent::Woke { cancelled: false }), PollStep::CheckDeadline));
    assert!(matches!(
        p.step(PollEvent::Deadline { passed: true }),
        PollStep::Finish(LoginEvent::Expired)
    ));
}

#[test]
fn third_transport_failure_ends_the_login() {
    let mut p = TokenPoller::new(0);
    assert!(matches!(p.step(PollEvent::TransportError("a".to_string())), PollStep::Sleep(1)));
    assert!(matches!(p.step(PollEvent::TransportError("b".to_string())), PollStep::Sleep(1)));
    assert!(matches!(p.step(PollEvent::Reply(TokenPoll::Pending)), PollStep::Sleep(1)));
    assert_eq!(p.transport_failures, 0);
    assert!(matches!(p.step(PollEvent::TransportError("c".to_string())), PollStep::Sleep(1)));
    assert!(matches!(p.step(PollEvent::TransportError("d".to_string())), PollStep::Sleep(1)));
    match p.step(PollEvent::TransportError("timeout".to_string())) {
        PollStep::Finish(LoginEvent::Error { message }) => assert_eq!(message, "网络错误: timeout"),
        _ => panic!("expected the login to end"),
    }
    assert_eq!(p.transport_failures, 3);
}

#[test]
fn poller_outcomes() {
    let mut p = TokenPoller::new(5);
    assert!(matches!(p.step(PollEvent::Reply(TokenPoll::Denied)), PollStep::Finish(LoginEvent::Denied)));
    assert!(matches!(p.step(PollEvent::Reply(TokenPoll::Expired)), PollStep::Finish(LoginEvent::Expired)));
    assert!(matches!(p.step(PollEvent::Woke { cancelled: true }), PollStep::Finish(LoginEvent::Cancelled)));
    match p.step(PollEvent::Reply(TokenPoll::Failed("HTTP 400: x ".to_string()))) {
        PollStep::Finish(LoginEvent::Error { message }) => assert_eq!(message, "HTTP 400: x "),
        _ => panic!(),
    }
    assert!(matches!(p.step(PollEvent::Written(Ok(()))), PollStep::Finish(LoginEvent::Success)));
    match p.step(PollEvent::Written(Err(CredError::Io("denied".to_string())))) {
        PollStep::Finish(LoginEvent::Error { message }) => {
            assert_eq!(message, "登录成功但写入凭证失败: 凭证文件 IO 失败: denied")
        }
        _ => panic!(),
    }
}

#[test]
fn refetch_only_after_success() {
    assert!(refetch_after(&LoginEvent::Success));
    assert!(!refetch_after(&LoginEvent::Cancelled));
    assert!(!refetch_after(&LoginEvent::Error { message: String::new() }));
}

#[test]
fn login_slot_keeps_newer_login() {
    let mut slot: LoginSlot<u32> = LoginSlot::new();
    assert_eq!(slot.take(), None);
    slot.install("old".to_string(), "https://a".to_string(), 1);
    assert_eq!(slot.cancel_handle(), Some(&1));
    assert_eq!(slot.auth_url().map(|s| s.as_str()), Some("https://a"));
    assert_eq!(slot.take(), Some(1));
    assert!(slot.auth_url().is_none());
    slot.install("new".to_string(), "https://b".to_string(), 2);
    slot.finish("old");
    assert_eq!(slot.cancel_handle(), Some(&2));
    slot.finish("new");
    assert!(slot.cancel_handle().is_none());
}

#[test]
fn reopening_needs_a_login_in_progress() {
    let mut slot: LoginSlot<u32> = LoginSlot::new();
    assert_eq!(slot.auth_url_to_open(), Err("当前没有进行中的登录会话".to_string()));
    slot.install("d".to_string(), "https://auth/page".to_string(), 7);
    assert_eq!(slot.auth_url_to_open(), Ok("https://auth/page".to_string()));
    assert_eq!(slot.cancel_handle(), Some(&7));
    assert_eq!(slot.cancel_handle(), Some(&7));
    assert_eq!(slot.auth_url_to_open(), Ok("https://auth/page".to_string()));
}
