//! Fetching usage: the single fetch (credential reuse, refresh, 401 retry,
//! deferred credential write-back) as a state machine, and the polling
//! schedule with its backoff.
use vstd::prelude::*;
use crate::credentials::{
    cred_error_message, is_stale_at, stale_at, CredError, CredErrorView, Credentials, CredentialsView,
};
use crate::text::{concat2, concat3, copy_string, decimal, prefix_chars, take_chars, u64_to_decimal};
use crate::usage::{RawUsageResponse, UsagePayload, UsagePayloadView};

verus! {

/// Failure backoff, in seconds: 1 minute, 2 minutes, then 5 minutes.
pub open spec fn backoff_spec(i: int) -> u64 {
    if i <= 0 {
        60
    } else if i == 1 {
        120
    } else {
        300
    }
}

/// The backoff after failure number `i` (counting from 0), capped at the
/// last step.
pub fn backoff_secs(i: u64) -> (r: u64)
    ensures
        r == backoff_spec(i as int),
{
    if i == 0 {
        60
    } else if i == 1 {
        120
    } else {
        300
    }
}

/// What the widget is told after each fetch (the success variant is `ok` on
/// the wire).
#[derive(Debug)]
pub enum UpdateEvent {
    Fetched { payload: UsagePayload },
    /// The failure's message, with the last data that was fetched, if any,
    /// and whether the user has to log in.
    Error { message: String, stale: Option<UsagePayload>, needs_login: bool },
}

/// The outcome of one usage request: 200 gives the parsed reply (or the
/// parse error), 401 a retryable failure, anything else a failure. The flag
/// says whether the failure was a 401.
pub open spec fn usage_reply_ok(
    status: u16,
    body: Seq<char>,
    parsed: Option<Result<RawUsageResponse, String>>,
    r: Result<RawUsageResponse, (bool, String)>,
) -> bool {
    if status == 200 {
        match parsed {
            Some(Ok(raw)) => r matches Ok(x) && x == raw,
            Some(Err(e)) => r matches Err((f, m)) && !f && m@ == "响应解析失败: "@ + e@,
            None => false,
        }
    } else if status == 401 {
        r matches Err((f, m)) && f && m@ == "token 失效 (401)"@
    } else {
        r matches Err((f, m)) && !f && m@ == "服务端错误 (HTTP "@ + decimal(status as nat) + "): "@
            + take_chars(body, 200)
    }
}

/// Maps a usage reply to the parsed reply or a failure; the caller parses the
/// body only for status 200.
pub fn usage_reply(status: u16, body: &str, parsed: Option<Result<RawUsageResponse, String>>) -> (r: Result<RawUsageResponse, (bool, String)>)
    requires
        (status == 200) == (parsed is Some),
    ensures
        usage_reply_ok(status, body@, parsed, r),
{
    if status == 200 {
        match parsed {
            Some(Ok(raw)) => Ok(raw),
            Some(Err(e)) => Err((false, concat2("响应解析失败: ", e.as_str()))),
            None => Err((false, String::new())),
        }
    } else if status == 401 {
        Err((true, String::from_str("token 失效 (401)")))
    } else {
        let mut m = concat2("服务端错误 (HTTP ", u64_to_decimal(status as u64).as_str());
        m.append("): ");
        m.append(prefix_chars(body, 200).as_str());
        Err((false, m))
    }
}

/// The message for a usage request that failed in transport: a timeout, a
/// failed connection, or any other error by its text.
pub fn transport_message(timed_out: bool, connect_failed: bool, detail: &str) -> (r: String)
    ensures
        timed_out ==> r@ == "请求超时"@,
        !timed_out && connect_failed ==> r@ == "无法连接服务器"@,
        !timed_out && !connect_failed ==> r@ == "网络错误: "@ + detail@,
{
    if timed_out {
        String::from_str("请求超时")
    } else if connect_failed {
        String::from_str("无法连接服务器")
    } else {
        concat2("网络错误: ", detail)
    }
}

/// The log line when a deferred write turns out to be done.
pub open spec fn log_retry_done() -> Seq<char> {
    "[quotax] 凭证写回重试成功"@
}

/// The log line when the CLI has refreshed the file meanwhile.
pub open spec fn log_superseded() -> Seq<char> {
    "[quotax] 检测到 CLI 已刷新凭证，丢弃待写回"@
}

/// What to do with credentials whose write-back was deferred, given the
/// file's current contents.
#[derive(Debug)]
pub enum PendingCheck {
    /// Nothing is deferred, or the file could not be read: try again later.
    Keep,
    /// The deferred write is settled (and is dropped); log this line.
    Settled(String),
    /// Write these credentials again.
    Rewrite(Credentials),
}

/// The credentials' view, when present.
pub open spec fn opt_cred_view(c: Option<Credentials>) -> Option<CredentialsView> {
    match c {
        Some(x) => Some(x@),
        None => None,
    }
}

/// Decides about deferred credentials after reading the file: they are
/// dropped when the file already holds their access token, or holds
/// credentials that expire later (the CLI refreshed them); otherwise they are
/// written again. A failed read keeps them.
pub fn retry_pending_write(pending: &mut Option<Credentials>, file: &Result<Credentials, CredError>) -> (r: PendingCheck)
    ensures
        match (*old(pending), *file) {
            (Some(p), Ok(cur)) => if cur.access_token@ == p.access_token@ {
                *final(pending) is None && (r matches PendingCheck::Settled(m) && m@ == log_retry_done())
            } else if cur.expires_at > p.expires_at {
                *final(pending) is None && (r matches PendingCheck::Settled(m) && m@ == log_superseded())
            } else {
                opt_cred_view(*final(pending)) == Some(p@) && (r matches PendingCheck::Rewrite(c) && c@ == p@)
            },
            _ => opt_cred_view(*final(pending)) == opt_cred_view(*old(pending)) && r is Keep,
        },
{
    let decision = match (&*pending, file) {
        (Some(p), Ok(cur)) => {
            if crate::text::str_eq(cur.access_token.as_str(), p.access_token.as_str()) {
                PendingCheck::Settled(String::from_str("[quotax] 凭证写回重试成功"))
            } else if cur.expires_at > p.expires_at {
                PendingCheck::Settled(String::from_str("[quotax] 检测到 CLI 已刷新凭证，丢弃待写回"))
            } else {
                PendingCheck::Rewrite(p.duplicate())
            }
        },
        _ => PendingCheck::Keep,
    };
    match decision {
        PendingCheck::Settled(_) => {
            *pending = None;
        },
        _ => {},
    }
    decision
}

/// Why a refresh was started, which decides what follows it.
#[derive(Debug)]
pub enum RefreshPurpose {
    /// The credentials read were about to expire.
    Stale,
    /// The usage request was refused with 401 and the file had not changed.
    Unauthorized,
}

/// Where a fetch stands.
#[derive(Debug)]
pub enum FetchPhase {
    /// Reading the file to settle a deferred write.
    RetryRead,
    /// Writing the deferred credentials again.
    RetryWrite,
    /// Reading the credentials.
    ReadMain,
    /// Waiting for the refresh of `guarded`.
    RefreshCall { guarded: Credentials, purpose: RefreshPurpose },
    /// Writing freshly refreshed credentials.
    RefreshWrite { fresh: Credentials, purpose: RefreshPurpose },
    /// The refresh was refused: re-reading the file in case the CLI rotated
    /// the token meanwhile.
    RefreshReread { guarded: Credentials, message: String, purpose: RefreshPurpose, refused: bool },
    /// The first usage request, made with `token`.
    FirstUsage { token: String },
    /// The first usage request got 401: re-reading the file.
    Reread401 { token: String },
    /// The file held another token after the 401: retrying with the
    /// credentials `guarded` that were read.
    RetryUsage { guarded: Credentials },
    /// The last usage request.
    LastUsage,
    Finished,
}

/// What the fetch needs done next.
#[derive(Debug)]
pub enum FetchAction {
    /// Read the credentials file.
    ReadFile,
    /// Write these credentials to the file (atomically).
    WriteFile(Credentials),
    /// Refresh with this refresh token.
    Refresh(String),
    /// Request usage with this access token.
    GetUsage(String),
    /// The fetch is over.
    Done(Result<RawUsageResponse, FetchFailure>),
}

/// Why a fetch failed: the message, and whether the user has to log in
/// (the credentials file is missing, or the token endpoint refused the
/// refresh with HTTP 400 or 401).
#[derive(Debug)]
pub struct FetchFailure {
    pub message: String,
    pub needs_login: bool,
}

/// A log line to print, if any, and the next action.
#[derive(Debug)]
pub struct FetchStep {
    pub log: Option<String>,
    pub action: FetchAction,
}

/// What the caller observed for the last action.
#[derive(Debug)]
pub enum FetchEvent {
    /// The file's contents (or the read error), with the clock at that time.
    FileRead { result: Result<Credentials, CredError>, now: i64 },
    /// The outcome of a write.
    Written(Result<(), CredError>),
    /// The outcome of a refresh.
    Refreshed(Result<Credentials, CredError>),
    /// The outcome of a usage request (see [`usage_reply`]).
    Usage(Result<RawUsageResponse, (bool, String)>),
}

/// The phase of a fetch, by its characters.
pub enum PhaseView {
    RetryRead,
    RetryWrite,
    ReadMain,
    RefreshCall { guarded: CredentialsView, stale: bool },
    RefreshWrite { fresh: CredentialsView, stale: bool },
    RefreshReread { guarded: CredentialsView, message: Seq<char>, stale: bool, refused: bool },
    FirstUsage { token: Seq<char> },
    Reread401 { token: Seq<char> },
    RetryUsage { guarded: CredentialsView },
    LastUsage,
    Finished,
}

/// An action, by its characters.
pub enum ActionView {
    ReadFile,
    WriteFile(CredentialsView),
    Refresh(Seq<char>),
    GetUsage(Seq<char>),
    Done(Result<RawUsageResponse, (Seq<char>, bool)>),
}

impl View for FetchPhase {
    type V = PhaseView;

    open spec fn view(&self) -> PhaseView {
        match self {
            FetchPhase::RetryRead => PhaseView::RetryRead,
            FetchPhase::RetryWrite => PhaseView::RetryWrite,
            FetchPhase::ReadMain => PhaseView::ReadMain,
            FetchPhase::RefreshCall { guarded, purpose } => PhaseView::RefreshCall {
                guarded: guarded@,
                stale: *purpose is Stale,
            },
            FetchPhase::RefreshWrite { fresh, purpose } => PhaseView::RefreshWrite {
                fresh: fresh@,
                stale: *purpose is Stale,
            },
            FetchPhase::RefreshReread { guarded, message, purpose, refused } => PhaseView::RefreshReread {
                guarded: guarded@,
                message: message@,
                stale: *purpose is Stale,
                refused: *refused,
            },
            FetchPhase::FirstUsage { token } => PhaseView::FirstUsage { token: token@ },
            FetchPhase::Reread401 { token } => PhaseView::Reread401 { token: token@ },
            FetchPhase::RetryUsage { guarded } => PhaseView::RetryUsage { guarded: guarded@ },
            FetchPhase::LastUsage => PhaseView::LastUsage,
            FetchPhase::Finished => PhaseView::Finished,
        }
    }
}

impl View for FetchAction {
    type V = ActionView;

    open spec fn view(&self) -> ActionView {
        match self {
            FetchAction::ReadFile => ActionView::ReadFile,
            FetchAction::WriteFile(c) => ActionView::WriteFile(c@),
            FetchAction::Refresh(t) => ActionView::Refresh(t@),
            FetchAction::GetUsage(t) => ActionView::GetUsage(t@),
            FetchAction::Done(Ok(raw)) => ActionView::Done(Ok(*raw)),
            FetchAction::Done(Err(f)) => ActionView::Done(Err((f.message@, f.needs_login))),
        }
    }
}

/// Whether a refresh error means the refresh token was refused: the token
/// endpoint answered HTTP 400 or 401.
pub open spec fn refresh_refused(e: CredErrorView) -> bool {
    e matches CredErrorView::Refresh { status, .. } && (status == 400 || status == 401)
}

/// The log line when a refreshed token could not be written back.
pub open spec fn log_write_deferred(e: CredErrorView) -> Seq<char> {
    "[quotax] 写回凭证失败（将自动重试）: "@ + cred_error_message(e)
}

/// The log line when a refresh of stale credentials failed.
pub open spec fn log_refresh_fallback(message: Seq<char>) -> Seq<char> {
    "[quotax] "@ + message + "，先用现有 token 尝试"@
}

/// The state that follows a successful (or recovered) refresh, and its
/// action.
pub open spec fn after_refresh_ok(fresh: CredentialsView, stale: bool) -> (PhaseView, ActionView) {
    if stale {
        (PhaseView::FirstUsage { token: fresh.access_token }, ActionView::GetUsage(fresh.access_token))
    } else {
        (PhaseView::LastUsage, ActionView::GetUsage(fresh.access_token))
    }
}

/// The state that follows a failed refresh, its log line and its action: for
/// stale credentials the old token is still tried; after a 401 the fetch
/// fails with the refresh error.
pub open spec fn after_refresh_failed(guarded: CredentialsView, message: Seq<char>, stale: bool, refused: bool) -> (PhaseView, Option<Seq<char>>, ActionView) {
    if stale {
        (
            PhaseView::FirstUsage { token: guarded.access_token },
            Some(log_refresh_fallback(message)),
            ActionView::GetUsage(guarded.access_token),
        )
    } else {
        (PhaseView::Finished, None, ActionView::Done(Err((message, refused))))
    }
}

/// Whether an event answers the action that a phase waits on.
pub open spec fn fetch_accepts(phase: PhaseView, event: FetchEvent) -> bool {
    match phase {
        PhaseView::RetryRead | PhaseView::ReadMain | PhaseView::RefreshReread { .. }
        | PhaseView::Reread401 { .. } => event is FileRead,
        PhaseView::RetryWrite | PhaseView::RefreshWrite { .. } => event is Written,
        PhaseView::RefreshCall { .. } => event is Refreshed,
        PhaseView::FirstUsage { .. } | PhaseView::RetryUsage { .. } | PhaseView::LastUsage => event is Usage,
        PhaseView::Finished => false,
    }
}

/// The error of a result, by its characters.
pub open spec fn err_view(r: Result<(), CredError>) -> Option<CredErrorView> {
    match r {
        Ok(_) => None,
        Err(e) => Some(e@),
    }
}

/// One transition of a fetch: from a phase, the deferred credentials and an
/// event, to the next phase, deferred credentials, log line and action.
pub open spec fn fetch_next(
    phase: PhaseView,
    pending: Option<CredentialsView>,
    event: FetchEvent,
) -> (PhaseView, Option<CredentialsView>, Option<Seq<char>>, ActionView) {
    match (phase, event) {
        (PhaseView::RetryRead, FetchEvent::FileRead { result, now }) => match (pending, result) {
            (Some(p), Ok(cur)) => if cur.access_token@ == p.access_token {
                (PhaseView::ReadMain, None, Some(log_retry_done()), ActionView::ReadFile)
            } else if cur.expires_at > p.expires_at {
                (PhaseView::ReadMain, None, Some(log_superseded()), ActionView::ReadFile)
            } else {
                (PhaseView::RetryWrite, pending, None, ActionView::WriteFile(p))
            },
            _ => (PhaseView::ReadMain, pending, None, ActionView::ReadFile),
        },
        (PhaseView::RetryWrite, FetchEvent::Written(w)) => match w {
            Ok(_) => (PhaseView::ReadMain, None, Some(log_retry_done()), ActionView::ReadFile),
            Err(_) => (PhaseView::ReadMain, pending, None, ActionView::ReadFile),
        },
        (PhaseView::ReadMain, FetchEvent::FileRead { result, now }) => match result {
            Err(e) => (
                PhaseView::Finished,
                pending,
                None,
                ActionView::Done(Err((cred_error_message(e@), e@ is NotFound))),
            ),
            Ok(c) => if stale_at(c.expires_at, now) {
                (
                    PhaseView::RefreshCall { guarded: c@, stale: true },
                    pending,
                    None,
                    ActionView::Refresh(c.refresh_token@),
                )
            } else {
                (
                    PhaseView::FirstUsage { token: c.access_token@ },
                    pending,
                    None,
                    ActionView::GetUsage(c.access_token@),
                )
            },
        },
        (PhaseView::RefreshCall { guarded, stale }, FetchEvent::Refreshed(r)) => match r {
            Ok(fresh) => (
                PhaseView::RefreshWrite { fresh: fresh@, stale },
                pending,
                None,
                ActionView::WriteFile(fresh@),
            ),
            Err(e) => if e@ is Refresh {
                (
                    PhaseView::RefreshReread {
                        guarded,
                        message: cred_error_message(e@),
                        stale,
                        refused: refresh_refused(e@),
                    },
                    pending,
                    None,
                    ActionView::ReadFile,
                )
            } else {
                let (ph, log, act) = after_refresh_failed(guarded, cred_error_message(e@), stale, false);
                (ph, pending, log, act)
            },
        },
        (PhaseView::RefreshWrite { fresh, stale }, FetchEvent::Written(w)) => {
            let (ph, act) = after_refresh_ok(fresh, stale);
            match w {
                Ok(_) => (ph, pending, None, act),
                Err(e) => (
                    ph,
                    Some(fresh),
                    if pending is None {
                        Some(log_write_deferred(e@))
                    } else {
                        None
                    },
                    act,
                ),
            }
        },
        (PhaseView::RefreshReread { guarded, message, stale, refused }, FetchEvent::FileRead { result, now }) => {
            match result {
                Ok(c) => if !stale_at(c.expires_at, now) && c.access_token@ != guarded.access_token {
                    let (ph, act) = after_refresh_ok(c@, stale);
                    (ph, pending, None, act)
                } else {
                    let (ph, log, act) = after_refresh_failed(guarded, message, stale, refused);
                    (ph, pending, log, act)
                },
                Err(_) => {
                    let (ph, log, act) = after_refresh_failed(guarded, message, stale, refused);
                    (ph, pending, log, act)
                },
            }
        },
        (PhaseView::FirstUsage { token }, FetchEvent::Usage(u)) => match u {
            Ok(raw) => (PhaseView::Finished, pending, None, ActionView::Done(Ok(raw))),
            Err((unauthorized, m)) => if unauthorized {
                (PhaseView::Reread401 { token }, pending, None, ActionView::ReadFile)
            } else {
                (PhaseView::Finished, pending, None, ActionView::Done(Err((m@, false))))
            },
        },
        (PhaseView::Reread401 { token }, FetchEvent::FileRead { result, now }) => match result {
            Err(e) => (
                PhaseView::Finished,
                pending,
                None,
                ActionView::Done(Err((cred_error_message(e@), e@ is NotFound))),
            ),
            Ok(c) => if c.access_token@ != token {
                (PhaseView::RetryUsage { guarded: c@ }, pending, None, ActionView::GetUsage(c.access_token@))
            } else {
                (
                    PhaseView::RefreshCall { guarded: c@, stale: false },
                    pending,
                    None,
                    ActionView::Refresh(c.refresh_token@),
                )
            },
        },
        (PhaseView::RetryUsage { guarded }, FetchEvent::Usage(u)) => match u {
            Ok(raw) => (PhaseView::Finished, pending, None, ActionView::Done(Ok(raw))),
            Err((unauthorized, m)) => if unauthorized {
                (
                    PhaseView::RefreshCall { guarded, stale: false },
                    pending,
                    None,
                    ActionView::Refresh(guarded.refresh_token),
                )
            } else {
                (PhaseView::Finished, pending, None, ActionView::Done(Err((m@, false))))
            },
        },
        (PhaseView::LastUsage, FetchEvent::Usage(u)) => match u {
            Ok(raw) => (PhaseView::Finished, pending, None, ActionView::Done(Ok(raw))),
            Err((_, m)) => (PhaseView::Finished, pending, None, ActionView::Done(Err((m@, false)))),
        },
        _ => (phase, pending, None, ActionView::ReadFile),
    }
}

/// One fetch of usage data.
#[derive(Debug)]
pub struct FetchMachine {
    pub phase: FetchPhase,
    /// Refreshed credentials whose write-back failed, to be written later.
    pub pending: Option<Credentials>,
}

/// The optional log line, by its characters.
pub open spec fn log_view(l: Option<String>) -> Option<Seq<char>> {
    match l {
        Some(s) => Some(s@),
        None => None,
    }
}

impl FetchMachine {
    /// Well-formed: while settling a deferred write, there is one.
    pub open spec fn wf(&self) -> bool {
        (self.phase is RetryRead || self.phase is RetryWrite) ==> self.pending is Some
    }

    /// Starts a fetch: a deferred write is settled first, then the
    /// credentials are read.
    pub fn start(pending: Option<Credentials>) -> (r: (FetchMachine, FetchStep))
        ensures
            r.0.wf(),
            opt_cred_view(r.0.pending) == opt_cred_view(pending),
            r.1.log is None,
            r.1.action is ReadFile,
            (pending is Some) ==> (r.0.phase is RetryRead),
            (pending is None) ==> (r.0.phase is ReadMain),
            usage_requests_ahead(r.0.phase@) == 3,
            refreshes_ahead(r.0.phase@) == 2,
    {
        let phase = match &pending {
            Some(_) => FetchPhase::RetryRead,
            None => FetchPhase::ReadMain,
        };
        (FetchMachine { phase, pending }, FetchStep { log: None, action: FetchAction::ReadFile })
    }

    /// Whether `event` answers the action this fetch waits on.
    pub fn accepts(&self, event: &FetchEvent) -> (r: bool)
        ensures
            r == fetch_accepts(self.phase@, *event),
    {
        match (&self.phase, event) {
            (FetchPhase::RetryRead, FetchEvent::FileRead { .. }) => true,
            (FetchPhase::ReadMain, FetchEvent::FileRead { .. }) => true,
            (FetchPhase::RefreshReread { .. }, FetchEvent::FileRead { .. }) => true,
            (FetchPhase::Reread401 { .. }, FetchEvent::FileRead { .. }) => true,
            (FetchPhase::RetryWrite, FetchEvent::Written(_)) => true,
            (FetchPhase::RefreshWrite { .. }, FetchEvent::Written(_)) => true,
            (FetchPhase::RefreshCall { .. }, FetchEvent::Refreshed(_)) => true,
            (FetchPhase::FirstUsage { .. }, FetchEvent::Usage(_)) => true,
            (FetchPhase::RetryUsage { .. }, FetchEvent::Usage(_)) => true,
            (FetchPhase::LastUsage, FetchEvent::Usage(_)) => true,
            _ => false,
        }
    }

    /// Whether the fetch is over.
    pub fn is_finished(&self) -> (r: bool)
        ensures
            r == (self.phase is Finished),
    {
        match self.phase {
            FetchPhase::Finished => true,
            _ => false,
        }
    }

    fn after_ok(fresh: &Credentials, purpose: RefreshPurpose) -> (r: (FetchPhase, FetchAction))
        ensures
            (r.0@, r.1@) == after_refresh_ok(fresh@, purpose is Stale),
    {
        match purpose {
            RefreshPurpose::Stale => (
                FetchPhase::FirstUsage { token: copy_string(&fresh.access_token) },
                FetchAction::GetUsage(copy_string(&fresh.access_token)),
            ),
            RefreshPurpose::Unauthorized => (
                FetchPhase::LastUsage,
                FetchAction::GetUsage(copy_string(&fresh.access_token)),
            ),
        }
    }

    fn after_failed(guarded: &Credentials, message: String, purpose: RefreshPurpose, refused: bool) -> (r: (FetchPhase, Option<String>, FetchAction))
        ensures
            (r.0@, log_view(r.1), r.2@) == after_refresh_failed(guarded@, message@, purpose is Stale, refused),
    {
        match purpose {
            RefreshPurpose::Stale => (
                FetchPhase::FirstUsage { token: copy_string(&guarded.access_token) },
                Some(concat3("[quotax] ", message.as_str(), "，先用现有 token 尝试")),
                FetchAction::GetUsage(copy_string(&guarded.access_token)),
            ),
            RefreshPurpose::Unauthorized => (
                FetchPhase::Finished,
                None,
                FetchAction::Done(Err(FetchFailure { message, needs_login: refused })),
            ),
        }
    }

    /// Advances the fetch by the outcome of its last action.
    pub fn step(&mut self, event: FetchEvent) -> (r: FetchStep)
        requires
            old(self).wf(),
            fetch_accepts(old(self).phase@, event),
        ensures
            final(self).wf(),
            (final(self).phase@, opt_cred_view(final(self).pending), log_view(r.log), r.action@)
                == fetch_next(old(self).phase@, opt_cred_view(old(self).pending), event),
    {
        let mut phase = FetchPhase::Finished;
        std::mem::swap(&mut phase, &mut self.phase);
        match (phase, event) {
            (FetchPhase::RetryRead, FetchEvent::FileRead { result, now }) => {
                match retry_pending_write(&mut self.pending, &result) {
                    PendingCheck::Settled(m) => {
                        self.phase = FetchPhase::ReadMain;
                        FetchStep { log: Some(m), action: FetchAction::ReadFile }
                    },
                    PendingCheck::Rewrite(c) => {
                        self.phase = FetchPhase::RetryWrite;
                        FetchStep { log: None, action: FetchAction::WriteFile(c) }
                    },
                    PendingCheck::Keep => {
                        self.phase = FetchPhase::ReadMain;
                        FetchStep { log: None, action: FetchAction::ReadFile }
                    },
                }
            },
            (FetchPhase::RetryWrite, FetchEvent::Written(w)) => {
                self.phase = FetchPhase::ReadMain;
                match w {
                    Ok(_) => {
                        self.pending = None;
                        FetchStep {
                            log: Some(String::from_str("[quotax] 凭证写回重试成功")),
                            action: FetchAction::ReadFile,
                        }
                    },
                    Err(_) => FetchStep { log: None, action: FetchAction::ReadFile },
                }
            },
            (FetchPhase::ReadMain, FetchEvent::FileRead { result, now }) => {
                match result {
                    Err(e) => {
                        self.phase = FetchPhase::Finished;
                        let needs_login = e.is_missing_file();
                        FetchStep {
                            log: None,
                            action: FetchAction::Done(Err(FetchFailure { message: e.message(), needs_login })),
                        }
                    },
                    Ok(c) => {
                        if is_stale_at(&c, now) {
                            let rt = copy_string(&c.refresh_token);
                            self.phase = FetchPhase::RefreshCall { guarded: c, purpose: RefreshPurpose::Stale };
                            FetchStep { log: None, action: FetchAction::Refresh(rt) }
                        } else {
                            let t = copy_string(&c.access_token);
                            self.phase = FetchPhase::FirstUsage { token: c.access_token };
                            FetchStep { log: None, action: FetchAction::GetUsage(t) }
                        }
                    },
                }
            },
            (FetchPhase::RefreshCall { guarded, purpose }, FetchEvent::Refreshed(r)) => {
                match r {
                    Ok(fresh) => {
                        let copy = fresh.duplicate();
                        self.phase = FetchPhase::RefreshWrite { fresh, purpose };
                        FetchStep { log: None, action: FetchAction::WriteFile(copy) }
                    },
                    Err(e) => {
                        let message = e.message();
                        if e.is_refresh_rejection() {
                            let refused = e.is_refused_refresh();
                            self.phase = FetchPhase::RefreshReread { guarded, message, purpose, refused };
                            FetchStep { log: None, action: FetchAction::ReadFile }
                        } else {
                            let (ph, log, act) = Self::after_failed(&guarded, message, purpose, false);
                            self.phase = ph;
                            FetchStep { log, action: act }
                        }
                    },
                }
            },
            (FetchPhase::RefreshWrite { fresh, purpose }, FetchEvent::Written(w)) => {
                let (ph, act) = Self::after_ok(&fresh, purpose);
                self.phase = ph;
                match w {
                    Ok(_) => FetchStep { log: None, action: act },
                    Err(e) => {
                        let log = match &self.pending {
                            None => Some(concat2("[quotax] 写回凭证失败（将自动重试）: ", e.message().as_str())),
                            Some(_) => None,
                        };
                        self.pending = Some(fresh);
                        FetchStep { log, action: act }
                    },
                }
            },
            (FetchPhase::RefreshReread { guarded, message, purpose, refused }, FetchEvent::FileRead { result, now }) => {
                let recovered = match &result {
                    Ok(c) => !is_stale_at(c, now) && !crate::text::str_eq(
                        c.access_token.as_str(),
                        guarded.access_token.as_str(),
                    ),
                    Err(_) => false,
                };
                if recovered {
                    match &result {
                        Ok(c) => {
                            let (ph, act) = Self::after_ok(c, purpose);
                            self.phase = ph;
                            FetchStep { log: None, action: act }
                        },
                        Err(_) => FetchStep { log: None, action: FetchAction::ReadFile },
                    }
                } else {
                    let (ph, log, act) = Self::after_failed(&guarded, message, purpose, refused);
                    self.phase = ph;
                    FetchStep { log, action: act }
                }
            },
            (FetchPhase::FirstUsage { token }, FetchEvent::Usage(u)) => {
                match u {
                    Ok(raw) => FetchStep { log: None, action: FetchAction::Done(Ok(raw)) },
                    Err((unauthorized, m)) => {
                        if unauthorized {
                            self.phase = FetchPhase::Reread401 { token };
                            FetchStep { log: None, action: FetchAction::ReadFile }
                        } else {
                            FetchStep {
                                log: None,
                                action: FetchAction::Done(Err(FetchFailure { message: m, needs_login: false })),
                            }
                        }
                    },
                }
            },
            (FetchPhase::Reread401 { token }, FetchEvent::FileRead { result, now }) => {
                match result {
                    Err(e) => {
                        let needs_login = e.is_missing_file();
                        FetchStep {
                            log: None,
                            action: FetchAction::Done(Err(FetchFailure { message: e.message(), needs_login })),
                        }
                    },
                    Ok(c) => {
                        if !crate::text::str_eq(c.access_token.as_str(), token.as_str()) {
                            let t = copy_string(&c.access_token);
                            self.phase = FetchPhase::RetryUsage { guarded: c };
                            FetchStep { log: None, action: FetchAction::GetUsage(t) }
                        } else {
                            let rt = copy_string(&c.refresh_token);
                            self.phase = FetchPhase::RefreshCall {
                                guarded: c,
                                purpose: RefreshPurpose::Unauthorized,
                            };
                            FetchStep { log: None, action: FetchAction::Refresh(rt) }
                        }
                    },
                }
            },
            (FetchPhase::RetryUsage { guarded }, FetchEvent::Usage(u)) => {
                match u {
                    Ok(raw) => FetchStep { log: None, action: FetchAction::Done(Ok(raw)) },
                    Err((unauthorized, m)) => {
                        if unauthorized {
                            let rt = copy_string(&guarded.refresh_token);
                            self.phase = FetchPhase::RefreshCall {
                                guarded,
                                purpose: RefreshPurpose::Unauthorized,
                            };
                            FetchStep { log: None, action: FetchAction::Refresh(rt) }
                        } else {
                            FetchStep {
                                log: None,
                                action: FetchAction::Done(Err(FetchFailure { message: m, needs_login: false })),
                            }
                        }
                    },
                }
            },
            (FetchPhase::LastUsage, FetchEvent::Usage(u)) => {
                match u {
                    Ok(raw) => FetchStep { log: None, action: FetchAction::Done(Ok(raw)) },
                    Err((_, m)) => FetchStep {
                        log: None,
                        action: FetchAction::Done(Err(FetchFailure { message: m, needs_login: false })),
                    },
                }
            },
            (ph, _) => {
                self.phase = ph;
                FetchStep { log: None, action: FetchAction::ReadFile }
            },
        }
    }
}


/// The rank of a phase: every accepted outcome lowers it, so a fetch is over
/// after at most 14 actions.
pub open spec fn phase_rank(p: PhaseView) -> nat {
    match p {
        PhaseView::RetryRead => 14,
        PhaseView::RetryWrite => 13,
        PhaseView::ReadMain => 12,
        PhaseView::RefreshCall { stale, .. } => if stale {
            11
        } else {
            6
        },
        PhaseView::RefreshWrite { stale, .. } => if stale {
            10
        } else {
            5
        },
        PhaseView::RefreshReread { stale, .. } => if stale {
            10
        } else {
            5
        },
        PhaseView::FirstUsage { .. } => 9,
        PhaseView::Reread401 { .. } => 8,
        PhaseView::RetryUsage { .. } => 7,
        PhaseView::LastUsage => 4,
        PhaseView::Finished => 0,
    }
}

/// A fetch always ends: each outcome it accepts moves it to a phase of lower
/// rank, and only the finished phase (which accepts nothing) has rank 0.
pub proof fn fetch_always_progresses(phase: PhaseView, pending: Option<CredentialsView>, event: FetchEvent)
    requires
        fetch_accepts(phase, event),
    ensures
        phase_rank(fetch_next(phase, pending, event).0) < phase_rank(phase),
        fetch_next(phase, pending, event).0 is Finished <==> fetch_next(phase, pending, event).3 is Done,
{
}

/// A 401 is answered by re-reading the credentials file. If the file holds
/// another token, the request is retried with it, and a 401 on that retry
/// leads to a refresh; if it holds the same token, the refresh comes at once.
pub proof fn unauthorized_rereads_retries_then_refreshes(
    phase: PhaseView,
    pending: Option<CredentialsView>,
    event: FetchEvent,
)
    requires
        fetch_accepts(phase, event),
    ensures
        (phase is FirstUsage && event matches FetchEvent::Usage(Err((true, _)))) ==> (fetch_next(
            phase,
            pending,
            event,
        ).0 is Reread401 && fetch_next(phase, pending, event).3 is ReadFile),
        phase matches PhaseView::Reread401 { token } ==> (event matches FetchEvent::FileRead {
            result: Ok(c),
            ..
        } ==> (if c.access_token@ != token {
            fetch_next(phase, pending, event).0 == PhaseView::RetryUsage { guarded: c@ }
                && fetch_next(phase, pending, event).3 == ActionView::GetUsage(c.access_token@)
        } else {
            fetch_next(phase, pending, event).0 == PhaseView::RefreshCall { guarded: c@, stale: false }
                && fetch_next(phase, pending, event).3 == ActionView::Refresh(c.refresh_token@)
        })),
        phase matches PhaseView::RetryUsage { guarded } ==> (event matches FetchEvent::Usage(
            Err((true, _)),
        ) ==> (fetch_next(phase, pending, event).0 == PhaseView::RefreshCall {
            guarded,
            stale: false,
        } && fetch_next(phase, pending, event).3 == ActionView::Refresh(guarded.refresh_token))),
{
}

/// How many more usage requests a fetch may still make once the action its
/// phase waits on is answered.
pub open spec fn usage_requests_ahead(p: PhaseView) -> nat {
    match p {
        PhaseView::RetryRead | PhaseView::RetryWrite | PhaseView::ReadMain => 3,
        PhaseView::RefreshCall { stale, .. } => if stale {
            3
        } else {
            1
        },
        PhaseView::RefreshWrite { stale, .. } => if stale {
            3
        } else {
            1
        },
        PhaseView::RefreshReread { stale, .. } => if stale {
            3
        } else {
            1
        },
        PhaseView::FirstUsage { .. } | PhaseView::Reread401 { .. } => 2,
        PhaseView::RetryUsage { .. } => 1,
        PhaseView::LastUsage | PhaseView::Finished => 0,
    }
}

/// How many more refreshes a fetch may still make once the action its phase
/// waits on is answered.
pub open spec fn refreshes_ahead(p: PhaseView) -> nat {
    match p {
        PhaseView::RetryRead | PhaseView::RetryWrite | PhaseView::ReadMain => 2,
        PhaseView::RefreshCall { stale, .. } => if stale {
            1
        } else {
            0
        },
        PhaseView::RefreshWrite { stale, .. } => if stale {
            1
        } else {
            0
        },
        PhaseView::RefreshReread { stale, .. } => if stale {
            1
        } else {
            0
        },
        PhaseView::FirstUsage { .. } | PhaseView::Reread401 { .. } | PhaseView::RetryUsage { .. } => 1,
        PhaseView::LastUsage | PhaseView::Finished => 0,
    }
}

/// A fetch makes at most three usage requests and at most two refreshes: it
/// starts with that budget (see [`FetchMachine::start`]), each usage request
/// or refresh it asks for uses one up, and no step adds any back.
pub proof fn fetch_requests_are_bounded(phase: PhaseView, pending: Option<CredentialsView>, event: FetchEvent)
    requires
        fetch_accepts(phase, event),
    ensures
        usage_requests_ahead(fetch_next(phase, pending, event).0) + (if fetch_next(
            phase,
            pending,
            event,
        ).3 is GetUsage {
            1int
        } else {
            0int
        }) <= usage_requests_ahead(phase),
        refreshes_ahead(fetch_next(phase, pending, event).0) + (if fetch_next(
            phase,
            pending,
            event,
        ).3 is Refresh {
            1int
        } else {
            0int
        }) <= refreshes_ahead(phase),
{
}

/// Deferred credentials are never dropped silently: a step that drops them
/// either read a file holding the same access token or credentials that
/// expire later, or wrote them successfully.
pub proof fn deferred_write_dropped_only_when_settled(phase: PhaseView, pending: Option<CredentialsView>, event: FetchEvent)
    requires
        fetch_accepts(phase, event),
        pending is Some,
        fetch_next(phase, pending, event).1 is None,
    ensures
        ({
            let p = pending->Some_0;
            ||| (phase is RetryRead && (event matches FetchEvent::FileRead { result: Ok(cur), .. } && (
            cur.access_token@ == p.access_token || cur.expires_at > p.expires_at)))
            ||| (phase is RetryWrite && (event matches FetchEvent::Written(Ok(_))))
        }),
{
}

/// A fetch asks the user to log in only when the credentials file is
/// missing, or after the token endpoint refused a refresh made for a 401
/// (HTTP 400 or 401); transport, server and parse failures never do.
pub proof fn login_requested_only_for_missing_or_refused_credentials(
    phase: PhaseView,
    pending: Option<CredentialsView>,
    event: FetchEvent,
)
    requires
        fetch_accepts(phase, event),
    ensures
        fetch_next(phase, pending, event).3 matches ActionView::Done(Err((_, true))) ==> {
            ||| (event matches FetchEvent::FileRead { result: Err(e), .. } && e@ is NotFound)
            ||| (phase matches PhaseView::RefreshReread { refused: true, stale: false, .. })
        },
        fetch_next(phase, pending, event).0 matches PhaseView::RefreshReread { refused: true, .. } ==> (
        event matches FetchEvent::Refreshed(Err(e)) && refresh_refused(e@)),
{
}

/// Deferred credentials never overwrite newer ones: when the file read
/// before the retry holds credentials that expire later (the CLI refreshed
/// them meanwhile), or holds the same access token (the write did land), the
/// deferred credentials are dropped and the fetch reads the credentials
/// again; it does not write them.
pub proof fn newer_file_supersedes_deferred_write(p: CredentialsView, cur: Credentials, now: i64)
    requires
        cur.expires_at > p.expires_at || cur.access_token@ == p.access_token,
    ensures
        ({
            let n = fetch_next(PhaseView::RetryRead, Some(p), FetchEvent::FileRead { result: Ok(cur), now });
            &&& n.0 is ReadMain
            &&& n.1 is None
            &&& n.3 is ReadFile
        }),
{
}

/// Deferred credentials are written again, unchanged, when the file holds
/// another access token that does not expire later; they stay deferred
/// until that write is known to have landed.
pub proof fn older_file_gets_the_deferred_write(p: CredentialsView, cur: Credentials, now: i64)
    requires
        cur.expires_at <= p.expires_at,
        cur.access_token@ != p.access_token,
    ensures
        ({
            let n = fetch_next(PhaseView::RetryRead, Some(p), FetchEvent::FileRead { result: Ok(cur), now });
            &&& n.3 == ActionView::WriteFile(p)
            &&& n.1 == Some(p)
        }),
{
}

/// Credentials read from the file are used as they are while they expire
/// 60 seconds or more after the time of the read; otherwise they are
/// refreshed first, with their own refresh token. A failed read ends the
/// fetch with its message.
pub proof fn fresh_credentials_are_used_stale_ones_refreshed(
    pending: Option<CredentialsView>,
    result: Result<Credentials, CredError>,
    now: i64,
)
    ensures
        ({
            let n = fetch_next(PhaseView::ReadMain, pending, FetchEvent::FileRead { result, now });
            &&& result matches Ok(c) ==> (if c.expires_at - now >= 60 {
                n.3 == ActionView::GetUsage(c.access_token@)
            } else {
                n.3 == ActionView::Refresh(c.refresh_token@)
            })
            &&& result matches Err(e) ==> (n.3 matches ActionView::Done(Err((m, _))) && m
                == cred_error_message(e@))
            &&& n.1 == pending
        }),
{
}

/// A refreshed token whose write-back failed is kept for the next fetch.
pub proof fn failed_write_back_is_deferred(fresh: CredentialsView, stale: bool, pending: Option<CredentialsView>, e: CredError)
    ensures
        fetch_next(
            PhaseView::RefreshWrite { fresh, stale },
            pending,
            FetchEvent::Written(Err(e)),
        ).1 == Some(fresh),
{
}

/// The backoff never shrinks as failures accumulate, and stays between one
/// and five minutes.
pub proof fn backoff_grows_and_is_capped(a: int, b: int)
    requires
        a <= b,
    ensures
        backoff_spec(a) <= backoff_spec(b),
        60 <= backoff_spec(a) <= 300,
{
}

/// The payload's view, when present.
pub open spec fn opt_payload_view(p: Option<UsagePayload>) -> Option<crate::usage::UsagePayloadView> {
    match p {
        Some(x) => Some(x@),
        None => None,
    }
}

/// The log line for a failed fetch, with the backoff that follows it.
pub open spec fn failure_log(message: Seq<char>, failures_before: u64) -> Seq<char> {
    "[quotax] 刷新失败: "@ + message + "，"@ + decimal(backoff_spec(failures_before as int) as nat)
        + "s 后重试"@
}

/// The failure count after one more round: 0 after a success, one more
/// after a failure.
pub open spec fn next_fail_count(count: int, ok: bool) -> int {
    if ok {
        0
    } else {
        count + 1
    }
}

/// The data kept after one more round: the round's data if it succeeded,
/// else what was kept before.
pub open spec fn next_last_ok(kept: Option<UsagePayloadView>, round: Option<UsagePayloadView>) -> Option<UsagePayloadView> {
    match round {
        Some(p) => Some(p),
        None => kept,
    }
}

/// A round's outcome: its data when it succeeded, `None` when it failed.
pub open spec fn round_view(result: Result<UsagePayload, FetchFailure>) -> Option<UsagePayloadView> {
    match result {
        Ok(p) => Some(p@),
        Err(_) => None,
    }
}

/// The wait before the next round: the configured interval when the last
/// round succeeded, else the backoff for the failures so far.
pub open spec fn poll_wait(fail_count: int, interval: u64) -> u64 {
    if fail_count == 0 {
        interval
    } else {
        backoff_spec(fail_count - 1)
    }
}

/// The failure count after a sequence of rounds (each `None` for a failure,
/// `Some` with its data for a success), starting from a new loop.
pub open spec fn fail_count_after(rounds: Seq<Option<UsagePayloadView>>) -> int
    decreases rounds.len(),
{
    if rounds.len() == 0 {
        0
    } else {
        next_fail_count(fail_count_after(rounds.drop_last()), rounds.last() is Some)
    }
}

/// The data kept after a sequence of rounds, starting from a new loop.
pub open spec fn last_ok_after(rounds: Seq<Option<UsagePayloadView>>) -> Option<UsagePayloadView>
    decreases rounds.len(),
{
    if rounds.len() == 0 {
        None
    } else {
        next_last_ok(last_ok_after(rounds.drop_last()), rounds.last())
    }
}

/// After `k` failing rounds in a row (since the start or the last success),
/// the loop waits the configured interval if `k` is 0, else 60, 120, then
/// 300 seconds for every further failure.
pub proof fn consecutive_failures_back_off(rounds: Seq<Option<UsagePayloadView>>, k: nat, interval: u64)
    requires
        k <= rounds.len(),
        forall|i: int| rounds.len() - k <= i < rounds.len() ==> #[trigger] rounds[i] is None,
        k < rounds.len() ==> rounds[rounds.len() - k - 1] is Some,
    ensures
        fail_count_after(rounds) == k,
        poll_wait(fail_count_after(rounds), interval) == (if k == 0 {
            interval
        } else if k == 1 {
            60
        } else if k == 2 {
            120
        } else {
            300
        }),
    decreases k,
{
    if rounds.len() > 0 {
        let prev = rounds.drop_last();
        if k > 0 {
            assert forall|i: int| prev.len() - (k - 1) <= i < prev.len() implies #[trigger] prev[i] is None by {
                assert(prev[i] == rounds[i]);
            }
            if k - 1 < prev.len() {
                assert(prev[prev.len() - (k - 1) - 1] == rounds[rounds.len() - k - 1]);
            }
            assert(rounds.last() == rounds[rounds.len() - 1]);
            consecutive_failures_back_off(prev, (k - 1) as nat, interval);
        } else {
            assert(rounds.last() == rounds[rounds.len() - 1]);
        }
    }
}

/// The data kept is that of the last successful round, however many rounds
/// failed after it.
pub proof fn last_good_payload_is_kept(rounds: Seq<Option<UsagePayloadView>>, j: int)
    requires
        0 <= j < rounds.len(),
        rounds[j] is Some,
        forall|i: int| j < i < rounds.len() ==> #[trigger] rounds[i] is None,
    ensures
        last_ok_after(rounds) == rounds[j],
    decreases rounds.len(),
{
    let prev = rounds.drop_last();
    assert(rounds.last() == rounds[rounds.len() - 1]);
    if j < rounds.len() - 1 {
        assert forall|i: int| j < i < prev.len() implies #[trigger] prev[i] is None by {
            assert(prev[i] == rounds[i]);
        }
        assert(prev[j] == rounds[j]);
        last_good_payload_is_kept(prev, j);
    }
}

/// Before any round succeeds, no data is kept.
pub proof fn nothing_kept_before_a_success(rounds: Seq<Option<UsagePayloadView>>)
    requires
        forall|i: int| 0 <= i < rounds.len() ==> #[trigger] rounds[i] is None,
    ensures
        last_ok_after(rounds) is None,
    decreases rounds.len(),
{
    if rounds.len() > 0 {
        let prev = rounds.drop_last();
        assert forall|i: int| 0 <= i < prev.len() implies #[trigger] prev[i] is None by {
            assert(prev[i] == rounds[i]);
        }
        assert(rounds.last() == rounds[rounds.len() - 1]);
        nothing_kept_before_a_success(prev);
    }
}

/// The polling loop's memory: consecutive failures and the last data
/// fetched.
#[derive(Debug)]
pub struct PollLoop {
    pub fail_count: u64,
    pub last_ok: Option<UsagePayload>,
}

impl PollLoop {
    /// A loop that has not fetched yet.
    pub fn new() -> (r: PollLoop)
        ensures
            r.fail_count == 0,
            r.last_ok is None,
    {
        PollLoop { fail_count: 0, last_ok: None }
    }

    /// Records a fetch's outcome and gives the event for the widget and the
    /// log line: success resets the failures and remembers the data; failure
    /// counts one more and reports the last data with the error.
    pub fn on_result(&mut self, result: Result<UsagePayload, FetchFailure>) -> (r: (UpdateEvent, Option<String>))
        requires
            result is Err ==> old(self).fail_count < u64::MAX,
        ensures
            final(self).fail_count == next_fail_count(old(self).fail_count as int, result is Ok),
            opt_payload_view(final(self).last_ok) == next_last_ok(
                opt_payload_view(old(self).last_ok),
                round_view(result),
            ),
            match result {
                Ok(p) => final(self).fail_count == 0 && opt_payload_view(final(self).last_ok) == Some(p@)
                    && r.0 == UpdateEvent::Fetched { payload: p } && r.1 is None,
                Err(f) => final(self).fail_count == old(self).fail_count + 1 && opt_payload_view(
                    final(self).last_ok,
                ) == opt_payload_view(old(self).last_ok) && (r.0 matches UpdateEvent::Error {
                    message,
                    stale,
                    needs_login,
                } && message@ == f.message@ && needs_login == f.needs_login && opt_payload_view(stale)
                    == opt_payload_view(old(self).last_ok)) && log_view(r.1) == Some(
                    failure_log(f.message@, old(self).fail_count),
                ),
            },
    {
        match result {
            Ok(p) => {
                self.fail_count = 0;
                self.last_ok = Some(p.duplicate());
                (UpdateEvent::Fetched { payload: p }, None)
            },
            Err(f) => {
                let stale = match &self.last_ok {
                    Some(p) => Some(p.duplicate()),
                    None => None,
                };
                let mut log = concat3("[quotax] 刷新失败: ", f.message.as_str(), "，");
                log.append(u64_to_decimal(backoff_secs(self.fail_count)).as_str());
                log.append("s 后重试");
                self.fail_count = self.fail_count + 1;
                (UpdateEvent::Error { message: f.message, stale, needs_login: f.needs_login }, Some(log))
            },
        }
    }

    /// How long to wait before the next fetch: the configured interval after
    /// a success, the backoff after failures.
    pub fn next_wait_secs(&self, poll_interval_secs: u64) -> (r: u64)
        ensures
            r == poll_wait(self.fail_count as int, poll_interval_secs),
            self.fail_count == 0 ==> r == poll_interval_secs,
            self.fail_count > 0 ==> r == backoff_spec(self.fail_count - 1),
    {
        if self.fail_count == 0 {
            poll_interval_secs
        } else {
            backoff_secs(self.fail_count - 1)
        }
    }
}

}
