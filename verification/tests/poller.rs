use quotax::credentials::{CredError, Credentials};
use quotax::poller::{
    backoff_secs, retry_pending_write, transport_message, usage_reply, FetchAction, FetchEvent,
    FetchFailure, FetchMachine,
    PendingCheck, PollLoop, UpdateEvent,
};
use quotax::usage::{RawUsageResponse, UsagePayload};

fn creds(token: &str, expires_at: i64) -> Credentials {
    Credentials {
        access_token: token.to_string(),
        refresh_token: format!("{}-refresh", token),
        expires_at,
        expires_in: 900,
        token_type: "Bearer".to_string(),
        scope: Some("kimi-code".to_string()),
    }
}

fn raw() -> RawUsageResponse {
    RawUsageResponse { user: None, usage: None, limits: vec![], parallel: None, booster_wallet: None }
}

fn failure(message: &str) -> FetchFailure {
    FetchFailure { message: message.to_string(), needs_login: false }
}

fn payload(at: i64) -> UsagePayload {
    UsagePayload {
        summary: None,
        limits: vec![],
        extra_usage: None,
        parallel_limit: None,
        membership: None,
        fetched_at: at,
    }
}

#[test]
fn backoff_schedule() {
    assert_eq!(backoff_secs(0), 60);
    assert_eq!(backoff_secs(1), 120);
    assert_eq!(backoff_secs(2), 300);
    assert_eq!(backoff_secs(9), 300);
}

#[test]
fn usage_replies() {
    assert!(usage_reply(200, "{}", Some(Ok(raw()))).is_ok());
    assert_eq!(
        usage_reply(200, "x", Some(Err("expected value".to_string()))).err(),
        Some((false, "响应解析失败: expected value".to_string()))
    );
    assert_eq!(usage_reply(401, "no", None).err(), Some((true, "token 失效 (401)".to_string())));
    assert_eq!(
        usage_reply(503, "busy", None).err(),
        Some((false, "服务端错误 (HTTP 503): busy".to_string()))
    );
}

#[test]
fn transport_failures_by_kind() {
    assert_eq!(transport_message(true, true, "x"), "请求超时");
    assert_eq!(transport_message(false, true, "x"), "无法连接服务器");
    assert_eq!(transport_message(false, false, "reset"), "网络错误: reset");
}

#[test]
fn pending_write_is_settled_or_rewritten() {
    let mut pending = Some(creds("new", 2_000));
    match retry_pending_write(&mut pending, &Ok(creds("new", 1))) {
        PendingCheck::Settled(m) => assert_eq!(m, "[quotax] 凭证写回重试成功"),
        _ => panic!(),
    }
    assert!(pending.is_none());

    let mut pending = Some(creds("new", 2_000));
    match retry_pending_write(&mut pending, &Ok(creds("cli", 3_000))) {
        PendingCheck::Settled(m) => assert_eq!(m, "[quotax] 检测到 CLI 已刷新凭证，丢弃待写回"),
        _ => panic!(),
    }
    assert!(pending.is_none());

    let mut pending = Some(creds("new", 2_000));
    match retry_pending_write(&mut pending, &Ok(creds("old", 1_000))) {
        PendingCheck::Rewrite(c) => assert_eq!(c.access_token, "new"),
        _ => panic!(),
    }
    assert!(pending.is_some());

    let mut pending = Some(creds("new", 2_000));
    assert!(matches!(
        retry_pending_write(&mut pending, &Err(CredError::Io("busy".to_string()))),
        PendingCheck::Keep
    ));
    assert!(pending.is_some());

    let mut none: Option<Credentials> = None;
    assert!(matches!(retry_pending_write(&mut none, &Ok(creds("x", 0))), PendingCheck::Keep));
}

fn read(c: Credentials, now: i64) -> FetchEvent {
    FetchEvent::FileRead { result: Ok(c), now }
}

#[test]
fn fresh_credentials_fetch_directly() {
    let (mut m, s) = FetchMachine::start(None);
    assert!(matches!(s.action, FetchAction::ReadFile));
    let s = m.step(read(creds("tok", 10_000), 1_000));
    match s.action {
        FetchAction::GetUsage(t) => assert_eq!(t, "tok"),
        _ => panic!(),
    }
    let s = m.step(FetchEvent::Usage(Ok(raw())));
    assert!(matches!(s.action, FetchAction::Done(Ok(_))));
    assert!(m.is_finished());
}

#[test]
fn stale_credentials_refresh_and_defer_failed_write() {
    let (mut m, _) = FetchMachine::start(None);
    let s = m.step(read(creds("old", 1_030), 1_000));
    match s.action {
        FetchAction::Refresh(rt) => assert_eq!(rt, "old-refresh"),
        _ => panic!(),
    }
    let s = m.step(FetchEvent::Refreshed(Ok(creds("fresh", 5_000))));
    assert!(matches!(s.action, FetchAction::WriteFile(_)));
    let s = m.step(FetchEvent::Written(Err(CredError::Io("locked".to_string()))));
    assert_eq!(
        s.log.as_deref(),
        Some("[quotax] 写回凭证失败（将自动重试）: 凭证文件 IO 失败: locked")
    );
    match s.action {
        FetchAction::GetUsage(t) => assert_eq!(t, "fresh"),
        _ => panic!(),
    }
    assert_eq!(m.pending.as_ref().map(|c| c.access_token.as_str()), Some("fresh"));
}

#[test]
fn failed_refresh_falls_back_to_old_token() {
    let (mut m, _) = FetchMachine::start(None);
    m.step(read(creds("old", 0), 1_000));
    let s = m.step(FetchEvent::Refreshed(Err(CredError::Transport("down".to_string()))));
    assert_eq!(s.log.as_deref(), Some("[quotax] 网络错误: down，先用现有 token 尝试"));
    match s.action {
        FetchAction::GetUsage(t) => assert_eq!(t, "old"),
        _ => panic!(),
    }
}

#[test]
fn rejected_refresh_reuses_cli_rotation() {
    let (mut m, _) = FetchMachine::start(None);
    m.step(read(creds("old", 0), 1_000));
    let s = m.step(FetchEvent::Refreshed(Err(CredError::Refresh { status: 401, body: String::new() })));
    assert!(matches!(s.action, FetchAction::ReadFile));
    let s = m.step(read(creds("cli", 9_000), 1_000));
    assert!(s.log.is_none());
    match s.action {
        FetchAction::GetUsage(t) => assert_eq!(t, "cli"),
        _ => panic!(),
    }
}

#[test]
fn unauthorized_rereads_then_refreshes_once() {
    let (mut m, _) = FetchMachine::start(None);
    m.step(read(creds("tok", 9_000), 1_000));
    let s = m.step(FetchEvent::Usage(Err((true, "token 失效 (401)".to_string()))));
    assert!(matches!(s.action, FetchAction::ReadFile));
    let s = m.step(read(creds("tok", 9_000), 1_000));
    assert!(matches!(s.action, FetchAction::Refresh(_)));
    let s = m.step(FetchEvent::Refreshed(Err(CredError::Transport("x".to_string()))));
    match s.action {
        FetchAction::Done(Err(f)) => {
            assert_eq!(f.message, "网络错误: x");
            assert!(!f.needs_login);
        }
        _ => panic!(),
    }
    assert!(m.is_finished());
}

#[test]
fn unauthorized_with_rotated_file_retries_with_it() {
    let (mut m, _) = FetchMachine::start(None);
    m.step(read(creds("tok", 9_000), 1_000));
    m.step(FetchEvent::Usage(Err((true, "token 失效 (401)".to_string()))));
    let s = m.step(read(creds("rotated", 9_000), 1_000));
    match s.action {
        FetchAction::GetUsage(t) => assert_eq!(t, "rotated"),
        _ => panic!(),
    }
    let s = m.step(FetchEvent::Usage(Err((true, "token 失效 (401)".to_string()))));
    match s.action {
        FetchAction::Refresh(rt) => assert_eq!(rt, "rotated-refresh"),
        _ => panic!(),
    }
    let s = m.step(FetchEvent::Refreshed(Ok(creds("fresh", 9_900))));
    assert!(matches!(s.action, FetchAction::WriteFile(_)));
    let s = m.step(FetchEvent::Written(Ok(())));
    match s.action {
        FetchAction::GetUsage(t) => assert_eq!(t, "fresh"),
        _ => panic!(),
    }
    let s = m.step(FetchEvent::Usage(Ok(raw())));
    assert!(matches!(s.action, FetchAction::Done(Ok(_))));
    assert!(m.is_finished());
}

#[test]
fn retry_with_rotated_file_ends_on_other_failures() {
    let (mut m, _) = FetchMachine::start(None);
    m.step(read(creds("tok", 9_000), 1_000));
    m.step(FetchEvent::Usage(Err((true, "token 失效 (401)".to_string()))));
    m.step(read(creds("rotated", 9_000), 1_000));
    let s = m.step(FetchEvent::Usage(Err((false, "请求超时".to_string()))));
    match s.action {
        FetchAction::Done(Err(f)) => {
            assert_eq!(f.message, "请求超时");
            assert!(!f.needs_login);
        }
        _ => panic!(),
    }
}

#[test]
fn missing_credentials_end_the_fetch() {
    let (mut m, _) = FetchMachine::start(None);
    let s = m.step(FetchEvent::FileRead { result: Err(CredError::NotFound("p".to_string())), now: 0 });
    match s.action {
        FetchAction::Done(Err(f)) => {
            assert_eq!(f.message, "未检测到 Kimi Code 登录（缺少 p），请先在 CLI 中执行 /login");
            assert!(f.needs_login);
        }
        _ => panic!(),
    }
    assert!(!m.accepts(&FetchEvent::Usage(Ok(raw()))));
}

#[test]
fn refused_refresh_after_unauthorized_asks_for_login() {
    let (mut m, _) = FetchMachine::start(None);
    m.step(read(creds("tok", 9_000), 1_000));
    m.step(FetchEvent::Usage(Err((true, "token 失效 (401)".to_string()))));
    let s = m.step(read(creds("tok", 9_000), 1_000));
    assert!(matches!(s.action, FetchAction::Refresh(_)));
    let s = m.step(FetchEvent::Refreshed(Err(CredError::Refresh {
        status: 400,
        body: "invalid_grant".to_string(),
    })));
    assert!(matches!(s.action, FetchAction::ReadFile));
    let s = m.step(read(creds("tok", 9_000), 1_000));
    match s.action {
        FetchAction::Done(Err(f)) => {
            assert_eq!(f.message, "刷新 token 失败 (HTTP 400): invalid_grant");
            assert!(f.needs_login);
        }
        _ => panic!(),
    }
}

#[test]
fn refresh_refused_by_server_error_does_not_ask_for_login() {
    let (mut m, _) = FetchMachine::start(None);
    m.step(read(creds("tok", 9_000), 1_000));
    m.step(FetchEvent::Usage(Err((true, "token 失效 (401)".to_string()))));
    m.step(read(creds("tok", 9_000), 1_000));
    m.step(FetchEvent::Refreshed(Err(CredError::Refresh { status: 503, body: "busy".to_string() })));
    let s = m.step(FetchEvent::FileRead { result: Err(CredError::Io("locked".to_string())), now: 1_000 });
    match s.action {
        FetchAction::Done(Err(f)) => {
            assert_eq!(f.message, "刷新 token 失败 (HTTP 503): busy");
            assert!(!f.needs_login);
        }
        _ => panic!(),
    }
}

#[test]
fn deferred_write_is_retried_first() {
    let (mut m, s) = FetchMachine::start(Some(creds("fresh", 5_000)));
    assert!(matches!(s.action, FetchAction::ReadFile));
    let s = m.step(read(creds("old", 1_000), 1_000));
    assert!(matches!(s.action, FetchAction::WriteFile(_)));
    let s = m.step(FetchEvent::Written(Ok(())));
    assert_eq!(s.log.as_deref(), Some("[quotax] 凭证写回重试成功"));
    assert!(m.pending.is_none());
    assert!(matches!(s.action, FetchAction::ReadFile));
}

#[test]
fn poll_loop_backoff_and_stale_data() {
    let mut l = PollLoop::new();
    assert_eq!(l.next_wait_secs(60), 60);
    let (e, log) = l.on_result(Err(failure("boom")));
    assert!(matches!(e, UpdateEvent::Error { stale: None, .. }));
    assert_eq!(log.as_deref(), Some("[quotax] 刷新失败: boom，60s 后重试"));
    assert_eq!(l.next_wait_secs(60), 60);
    let (_, log) = l.on_result(Err(failure("boom")));
    assert_eq!(log.as_deref(), Some("[quotax] 刷新失败: boom，120s 后重试"));
    assert_eq!(l.next_wait_secs(60), 120);
    let (e, log) = l.on_result(Ok(payload(5)));
    assert!(matches!(e, UpdateEvent::Fetched { .. }));
    assert!(log.is_none());
    assert_eq!(l.next_wait_secs(90), 90);
    for _ in 0..3 {
        l.on_result(Err(failure("x")));
    }
    assert_eq!(l.next_wait_secs(90), 300);
    match l.on_result(Err(FetchFailure { message: "y".to_string(), needs_login: true })) {
        (UpdateEvent::Error { message, stale: Some(p), needs_login }, Some(log)) => {
            assert!(needs_login);
            assert_eq!(message, "y");
            assert_eq!(p.fetched_at, 5);
            assert_eq!(log, "[quotax] 刷新失败: y，300s 后重试");
        }
        _ => panic!(),
    }
}
