//! The OAuth device-code login (RFC 8628): reply classification, the
//! polling state machine, and the single login slot.
use vstd::prelude::*;
use crate::credentials::{
    cred_error_message, parse_token_response, reply_credentials, reply_fits, success_status,
    CredError, CredErrorView, Credentials, TokenResponse,
};
use crate::text::{
    concat2, decimal, prefix_chars, str_eq, take_chars, trim, trim_spec, u64_to_decimal,
};

verus! {

/// The device-authorization endpoint, relative to the OAuth host.
pub const DEVICE_AUTH_PATH: &'static str = "/api/oauth/device_authorization";

/// Transport failures tolerated while polling the token endpoint; the next
/// one ends the login.
pub const MAX_TRANSPORT_FAILURES: u32 = 3;

/// The grant type of a device-code token request.
pub const DEVICE_CODE_GRANT: &'static str = "urn:ietf:params:oauth:grant-type:device_code";

/// What the login UI shows: the user code, the authorization links and the
/// timing the server asked for.
#[derive(Debug)]
pub struct LoginSession {
    pub user_code: String,
    pub verification_uri: String,
    pub verification_uri_complete: String,
    /// Lifetime of the device code (seconds).
    pub expires_in: i64,
    /// Suggested polling interval (seconds).
    pub interval: u64,
}

/// How a login attempt ended.
#[derive(Debug)]
pub enum LoginEvent {
    Success,
    Cancelled,
    /// The device code expired (reported by the server or past its lifetime).
    Expired,
    /// The user refused on the authorization page.
    Denied,
    Error { message: String },
}

/// The device-authorization endpoint's reply.
#[derive(Debug)]
pub struct DeviceAuthResponse {
    pub device_code: String,
    pub user_code: String,
    pub verification_uri: String,
    pub verification_uri_complete: Option<String>,
    pub expires_in: i64,
    pub interval: u64,
}

/// The device-code lifetime assumed when the reply gives none.
pub fn default_expires_in() -> (r: i64)
    ensures
        r == 1800,
{
    1800
}

/// The polling interval assumed when the reply gives none.
pub fn default_interval() -> (r: u64)
    ensures
        r == 5,
{
    5
}

/// One poll of the token endpoint, classified.
#[derive(Debug)]
pub enum TokenPoll {
    /// 2xx: the token was exchanged.
    Success(Credentials),
    /// `authorization_pending`: keep waiting.
    Pending,
    /// `slow_down`: wait 5 seconds longer between polls.
    SlowDown,
    /// `expired_token`.
    Expired,
    /// `access_denied`.
    Denied,
    /// Anything else: a non-standard error code or an unreadable reply.
    Failed(String),
}

/// The error body of a non-2xx token reply.
#[derive(Debug)]
pub struct ErrorResponse {
    /// The error code (empty when the field is absent).
    pub error: String,
    pub error_description: Option<String>,
}

/// A token reply as the caller parsed it: a 2xx body as a token reply (or the
/// parser's message), any other body as an error body (or `None` when it is
/// not one).
#[derive(Debug)]
pub enum TokenReply {
    Token(Result<TokenResponse, String>),
    Error(Option<ErrorResponse>),
}

/// The error code of a parsed error body, trimmed; `None` when there is no
/// body or the code is blank.
pub open spec fn error_code(parsed: Option<ErrorResponse>) -> Option<Seq<char>> {
    match parsed {
        Some(p) => if trim_spec(p.error@).len() > 0 {
            Some(trim_spec(p.error@))
        } else {
            None
        },
        None => None,
    }
}

/// The description of a parsed error body, empty when absent.
pub open spec fn error_description(parsed: Option<ErrorResponse>) -> Seq<char> {
    match parsed {
        Some(p) => match p.error_description {
            Some(d) => d@,
            None => Seq::empty(),
        },
        None => Seq::empty(),
    }
}

/// `HTTP {status}: `
pub open spec fn http_prefix(status: u16) -> Seq<char> {
    "HTTP "@ + decimal(status as nat) + ": "@
}

/// The message of a non-2xx reply whose error code is not a standard one:
/// the code and description, or, with no code, the body's first 200
/// characters.
pub open spec fn error_reply_message(status: u16, body: Seq<char>, parsed: Option<ErrorResponse>) -> Seq<char> {
    match error_code(parsed) {
        Some(code) => http_prefix(status) + code + " "@ + error_description(parsed),
        None => http_prefix(status) + take_chars(body, 200),
    }
}

/// Whether a classification is a failure carrying the given message.
pub open spec fn poll_is_failure(p: TokenPoll, msg: Seq<char>) -> bool {
    p matches TokenPoll::Failed(m) && m@ == msg
}

/// The classification of a non-2xx reply (RFC 8628 error codes).
pub open spec fn error_reply_poll_ok(status: u16, body: Seq<char>, parsed: Option<ErrorResponse>, r: TokenPoll) -> bool {
    match error_code(parsed) {
        Some(code) => if code == "authorization_pending"@ {
            r is Pending
        } else if code == "slow_down"@ {
            r is SlowDown
        } else if code == "expired_token"@ {
            r is Expired
        } else if code == "access_denied"@ {
            r is Denied
        } else {
            poll_is_failure(r, error_reply_message(status, body, parsed))
        },
        None => poll_is_failure(r, error_reply_message(status, body, parsed)),
    }
}

fn http_prefix_string(status: u16) -> (r: String)
    ensures
        r@ == http_prefix(status),
{
    let mut s = concat2("HTTP ", u64_to_decimal(status as u64).as_str());
    s.append(": ");
    s
}

/// Classifies a non-2xx token reply from its status, its body and the body
/// parsed as an error body (`None` when it is not one).
pub fn classify_error_reply(status: u16, body: &str, parsed: Option<ErrorResponse>) -> (r: TokenPoll)
    ensures
        error_reply_poll_ok(status, body@, parsed, r),
{
    let code: Option<String> = match &parsed {
        Some(p) => {
            let t = trim(p.error.as_str());
            if t.unicode_len() > 0 {
                Some(t)
            } else {
                None
            }
        },
        None => None,
    };
    match code {
        Some(c) => {
            if str_eq(c.as_str(), "authorization_pending") {
                TokenPoll::Pending
            } else if str_eq(c.as_str(), "slow_down") {
                TokenPoll::SlowDown
            } else if str_eq(c.as_str(), "expired_token") {
                TokenPoll::Expired
            } else if str_eq(c.as_str(), "access_denied") {
                TokenPoll::Denied
            } else {
                let mut m = http_prefix_string(status);
                m.append(c.as_str());
                m.append(" ");
                match &parsed {
                    Some(p) => match &p.error_description {
                        Some(d) => m.append(d.as_str()),
                        None => {},
                    },
                    None => {},
                }
                TokenPoll::Failed(m)
            }
        },
        None => {
            let mut m = http_prefix_string(status);
            m.append(prefix_chars(body, 200).as_str());
            TokenPoll::Failed(m)
        },
    }
}

/// Classifies a 2xx token reply: the exchanged credentials at time `now`, or
/// a failure carrying the parse error's message.
pub fn classify_token_reply(parsed: Result<TokenResponse, String>, now: i64) -> (r: TokenPoll)
    requires
        parsed matches Ok(resp) ==> reply_fits(resp, now),
    ensures
        match parsed {
            Ok(resp) => r matches TokenPoll::Success(c) && c@ == reply_credentials(resp, None, now),
            Err(e) => poll_is_failure(r, cred_error_message(CredErrorView::Parse(e@))),
        },
{
    match parse_token_response(parsed, None, now) {
        Ok(creds) => TokenPoll::Success(creds),
        Err(e) => TokenPoll::Failed(e.message()),
    }
}

/// Classifies one token-endpoint reply: a 2xx status by its parsed token
/// reply, any other status by its error body.
pub fn classify_token_response(status: u16, body: &str, reply: TokenReply, now: i64) -> (r: TokenPoll)
    requires
        success_status(status) <==> (reply is Token),
        reply matches TokenReply::Token(Ok(resp)) ==> reply_fits(resp, now),
    ensures
        match reply {
            TokenReply::Token(Ok(resp)) => r matches TokenPoll::Success(c) && c@ == reply_credentials(
                resp,
                None,
                now,
            ),
            TokenReply::Token(Err(e)) => poll_is_failure(
                r,
                cred_error_message(CredErrorView::Parse(e@)),
            ),
            TokenReply::Error(parsed) => error_reply_poll_ok(status, body@, parsed, r),
        },
{
    match reply {
        TokenReply::Token(parsed) => classify_token_reply(parsed, now),
        TokenReply::Error(parsed) => classify_error_reply(status, body, parsed),
    }
}

/// The next polling interval: 5 seconds longer after `slow_down`, otherwise
/// unchanged.
pub fn next_interval(interval: u64, poll: &TokenPoll) -> (r: u64)
    requires
        *poll is SlowDown ==> interval + 5 <= u64::MAX,
    ensures
        *poll is SlowDown ==> r == interval + 5,
        !(*poll is SlowDown) ==> r == interval,
{
    match poll {
        TokenPoll::SlowDown => interval + 5,
        _ => interval,
    }
}

/// A device code ready for polling, with what the UI shows for it.
#[derive(Debug)]
pub struct DeviceLogin {
    pub device_code: String,
    /// The session shown to the user; its `verification_uri_complete` is the
    /// page opened for authorization.
    pub session: LoginSession,
}

/// The message for a device-authorization reply that is not a success:
/// the status and the body's first 200 characters; `None` for 2xx.
pub fn device_auth_failure(status: u16, body: &str) -> (r: Option<String>)
    ensures
        success_status(status) ==> (r is None),
        !success_status(status) ==> (r matches Some(m) && m@ == "申请设备码失败 (HTTP "@ + decimal(
            status as nat,
        ) + "): "@ + take_chars(body@, 200)),
{
    if 200 <= status && status < 300 {
        None
    } else {
        let mut m = concat2("申请设备码失败 (HTTP ", u64_to_decimal(status as u64).as_str());
        m.append("): ");
        m.append(prefix_chars(body, 200).as_str());
        Some(m)
    }
}

/// The page to open for authorization: the complete link, else the plain one.
pub open spec fn auth_url_of(da: DeviceAuthResponse) -> Seq<char> {
    match da.verification_uri_complete {
        Some(u) => u@,
        None => da.verification_uri@,
    }
}

/// Starts a login from the parsed device-authorization reply; a reply that
/// did not parse gives the parser's message after a fixed prefix.
pub fn login_session(parsed: Result<DeviceAuthResponse, String>) -> (r: Result<DeviceLogin, String>)
    ensures
        match parsed {
            Ok(da) => r matches Ok(l) && l.device_code@ == da.device_code@ && l.session.user_code@
                == da.user_code@ && l.session.verification_uri@ == da.verification_uri@
                && l.session.verification_uri_complete@ == auth_url_of(da) && l.session.expires_in
                == da.expires_in && l.session.interval == da.interval,
            Err(e) => r matches Err(m) && m@ == "解析设备码响应失败: "@ + e@,
        },
{
    match parsed {
        Ok(da) => {
            let auth_url = match da.verification_uri_complete {
                Some(u) => u,
                None => da.verification_uri.clone(),
            };
            Ok(
                DeviceLogin {
                    device_code: da.device_code,
                    session: LoginSession {
                        user_code: da.user_code,
                        verification_uri: da.verification_uri,
                        verification_uri_complete: auth_url,
                        expires_in: da.expires_in,
                        interval: da.interval,
                    },
                },
            )
        },
        Err(e) => Err(concat2("解析设备码响应失败: ", e.as_str())),
    }
}

/// How long a device code may be polled: its lifetime, at least one second.
pub fn session_lifetime_secs(expires_in: i64) -> (r: u64)
    ensures
        expires_in >= 1 ==> r == expires_in,
        expires_in < 1 ==> r == 1,
{
    if expires_in < 1 {
        1
    } else {
        expires_in as u64
    }
}

/// What the token-polling task does next.
#[derive(Debug)]
pub enum PollStep {
    /// Compare the clock with the device code's deadline.
    CheckDeadline,
    /// Send one device-code token request.
    RequestToken,
    /// Write the new credentials to the shared file.
    WriteCredentials(Credentials),
    /// Wait this many seconds, unless the login is cancelled first.
    Sleep(u64),
    /// Stop and report the outcome.
    Finish(LoginEvent),
}

/// What the token-polling task observed.
#[derive(Debug)]
pub enum PollEvent {
    /// The deadline check's result.
    Deadline { passed: bool },
    /// A classified token reply.
    Reply(TokenPoll),
    /// The token request did not reach the server (the error's text).
    TransportError(String),
    /// The outcome of writing the credentials.
    Written(Result<(), CredError>),
    /// The wait ended, by time or by cancellation.
    Woke { cancelled: bool },
}

/// The state of one device-code polling loop: the current interval and the
/// transport failures in a row since the last reply from the server.
#[derive(Debug)]
pub struct TokenPoller {
    pub interval: u64,
    pub transport_failures: u32,
}

/// How long to sleep for an interval: at least one second.
pub open spec fn sleep_secs(interval: u64) -> u64 {
    if interval < 1 {
        1
    } else {
        interval
    }
}

/// The step and state that follow `event` from a poller with the given
/// interval and failure count.
pub open spec fn poll_transition(interval: u64, failures: u32, event: PollEvent, next: TokenPoller, step: PollStep) -> bool {
    match event {
        PollEvent::Deadline { passed } => next.interval == interval && next.transport_failures
            == failures && (if passed {
            step matches PollStep::Finish(LoginEvent::Expired)
        } else {
            step is RequestToken
        }),
        PollEvent::Reply(poll) => next.transport_failures == 0 && (match poll {
            TokenPoll::Success(c) => next.interval == interval && step == PollStep::WriteCredentials(
                c,
            ),
            TokenPoll::Pending => next.interval == interval && step == PollStep::Sleep(
                sleep_secs(interval),
            ),
            TokenPoll::SlowDown => next.interval == interval + 5 && step == PollStep::Sleep(
                sleep_secs((interval + 5) as u64),
            ),
            TokenPoll::Expired => next.interval == interval && step matches PollStep::Finish(
                LoginEvent::Expired,
            ),
            TokenPoll::Denied => next.interval == interval && step matches PollStep::Finish(
                LoginEvent::Denied,
            ),
            TokenPoll::Failed(m) => next.interval == interval && (step matches PollStep::Finish(
                LoginEvent::Error { message },
            ) && message@ == m@),
        }),
        PollEvent::TransportError(e) => next.interval == interval && next.transport_failures
            == failures + 1 && (if failures + 1 >= MAX_TRANSPORT_FAILURES {
            (step matches PollStep::Finish(LoginEvent::Error { message }) && message@ == "网络错误: "@
                + e@)
        } else {
            step == PollStep::Sleep(sleep_secs(interval))
        }),
        PollEvent::Written(w) => next.interval == interval && next.transport_failures == failures
            && (match w {
            Ok(_) => step matches PollStep::Finish(LoginEvent::Success),
            Err(e) => (step matches PollStep::Finish(LoginEvent::Error { message }) && message@
                == "登录成功但写入凭证失败: "@ + cred_error_message(e@)),
        }),
        PollEvent::Woke { cancelled } => next.interval == interval && next.transport_failures
            == failures && (if cancelled {
            step matches PollStep::Finish(LoginEvent::Cancelled)
        } else {
            step is CheckDeadline
        }),
    }
}

impl TokenPoller {
    /// A poller that starts with the server's suggested interval.
    pub fn new(interval: u64) -> (r: TokenPoller)
        ensures
            r.interval == interval,
            r.transport_failures == 0,
    {
        TokenPoller { interval, transport_failures: 0 }
    }

    /// The first step: check the deadline.
    pub fn start(&self) -> (r: PollStep)
        ensures
            r is CheckDeadline,
    {
        PollStep::CheckDeadline
    }

    /// Advances the loop by one observation: `slow_down` adds 5 seconds to
    /// the interval; any reply clears the transport failures, and the third
    /// failure in a row ends the login with an error; `expired_token`,
    /// `access_denied`, other errors, a passed deadline and cancellation end
    /// it; new credentials are written before success is reported.
    pub fn step(&mut self, event: PollEvent) -> (r: PollStep)
        requires
            event matches PollEvent::Reply(TokenPoll::SlowDown) ==> old(self).interval + 5 <= u64::MAX,
            event is TransportError ==> old(self).transport_failures < u32::MAX,
        ensures
            poll_transition(old(self).interval, old(self).transport_failures, event, *final(self), r),
    {
        match event {
            PollEvent::Deadline { passed } => {
                if passed {
                    PollStep::Finish(LoginEvent::Expired)
                } else {
                    PollStep::RequestToken
                }
            },
            PollEvent::Reply(poll) => {
                self.transport_failures = 0;
                match poll {
                    TokenPoll::Success(c) => PollStep::WriteCredentials(c),
                    TokenPoll::Pending => PollStep::Sleep(
                        if self.interval < 1 {
                            1
                        } else {
                            self.interval
                        },
                    ),
                    TokenPoll::SlowDown => {
                        self.interval = next_interval(self.interval, &TokenPoll::SlowDown);
                        PollStep::Sleep(
                            if self.interval < 1 {
                                1
                            } else {
                                self.interval
                            },
                        )
                    },
                    TokenPoll::Expired => PollStep::Finish(LoginEvent::Expired),
                    TokenPoll::Denied => PollStep::Finish(LoginEvent::Denied),
                    TokenPoll::Failed(m) => PollStep::Finish(LoginEvent::Error { message: m }),
                }
            },
            PollEvent::TransportError(e) => {
                self.transport_failures = self.transport_failures + 1;
                if self.transport_failures >= MAX_TRANSPORT_FAILURES {
                    PollStep::Finish(LoginEvent::Error { message: concat2("网络错误: ", e.as_str()) })
                } else {
                    PollStep::Sleep(
                        if self.interval < 1 {
                            1
                        } else {
                            self.interval
                        },
                    )
                }
            },
            PollEvent::Written(w) => {
                match w {
                    Ok(_) => PollStep::Finish(LoginEvent::Success),
                    Err(e) => PollStep::Finish(
                        LoginEvent::Error {
                            message: concat2("登录成功但写入凭证失败: ", e.message().as_str()),
                        },
                    ),
                }
            },
            PollEvent::Woke { cancelled } => {
                if cancelled {
                    PollStep::Finish(LoginEvent::Cancelled)
                } else {
                    PollStep::CheckDeadline
                }
            },
        }
    }
}

/// Whether a finished login should trigger an immediate usage fetch.
pub fn refetch_after(event: &LoginEvent) -> (r: bool)
    ensures
        r == (*event is Success),
{
    match event {
        LoginEvent::Success => true,
        _ => false,
    }
}

/// The login in progress: its device code, the page it opened, and the
/// handle that cancels its polling task.
#[derive(Debug)]
pub struct ActiveLogin<H> {
    pub device_code: String,
    pub auth_url: String,
    pub cancel: H,
}

/// The single login slot: at most one login is in progress.
#[derive(Debug)]
pub struct LoginSlot<H> {
    pub current: Option<ActiveLogin<H>>,
}

impl<H> LoginSlot<H> {
    /// An empty slot.
    pub fn new() -> (r: LoginSlot<H>)
        ensures
            r.current is None,
    {
        LoginSlot { current: None }
    }

    /// Empties the slot and hands back the cancel handle of the login that
    /// was in progress, if any.
    pub fn take(&mut self) -> (r: Option<H>)
        ensures
            final(self).current is None,
            match old(self).current {
                Some(a) => r == Some(a.cancel),
                None => r is None,
            },
    {
        match self.current.take() {
            Some(a) => Some(a.cancel),
            None => None,
        }
    }

    /// Records a new login, replacing whatever the slot held.
    pub fn install(&mut self, device_code: String, auth_url: String, cancel: H)
        ensures
            final(self).current == Some(ActiveLogin { device_code, auth_url, cancel }),
    {
        self.current = Some(ActiveLogin { device_code, auth_url, cancel });
    }

    /// The cancel handle of the login in progress.
    pub fn cancel_handle(&self) -> (r: Option<&H>)
        ensures
            match self.current {
                Some(a) => r == Some(&a.cancel),
                None => r is None,
            },
    {
        match &self.current {
            Some(a) => Some(&a.cancel),
            None => None,
        }
    }

    /// The authorization page of the login in progress.
    pub fn auth_url(&self) -> (r: Option<&String>)
        ensures
            match self.current {
                Some(a) => r == Some(&a.auth_url),
                None => r is None,
            },
    {
        match &self.current {
            Some(a) => Some(&a.auth_url),
            None => None,
        }
    }

    /// What reopening the authorization page uses: the page of the login in
    /// progress, or the error that no login is in progress.
    pub fn auth_url_to_open(&self) -> (r: Result<String, String>)
        ensures
            match self.current {
                Some(a) => r matches Ok(u) && u@ == a.auth_url@,
                None => r matches Err(m) && m@ == "当前没有进行中的登录会话"@,
            },
    {
        match &self.current {
            Some(a) => Ok(a.auth_url.clone()),
            None => Err(String::from_str("当前没有进行中的登录会话")),
        }
    }

    /// Ends the login with `device_code`: the slot is emptied only when it
    /// still holds that login, so a newer login is left alone.
    pub fn finish(&mut self, device_code: &str)
        ensures
            (old(self).current matches Some(a) && a.device_code@ == device_code@) ==> (final(self).current is None),
            !(old(self).current matches Some(a) && a.device_code@ == device_code@) ==> (*final(self) == *old(self)),
    {
        let matches = match &self.current {
            Some(a) => str_eq(a.device_code.as_str(), device_code),
            None => false,
        };
        if matches {
            self.current = None;
        }
    }
}


/// The polling interval never shrinks, and grows exactly on `slow_down`; the
/// transport-failure count grows by one on a transport error, returns to 0 on
/// any reply, and is otherwise unchanged.
pub proof fn poll_interval_only_grows_on_slow_down(
    interval: u64,
    failures: u32,
    event: PollEvent,
    next: TokenPoller,
    step: PollStep,
)
    requires
        poll_transition(interval, failures, event, next, step),
    ensures
        next.interval >= interval,
        (next.interval > interval) == (event matches PollEvent::Reply(TokenPoll::SlowDown)),
        event is TransportError ==> next.transport_failures == failures + 1,
        event is Reply ==> next.transport_failures == 0,
        !(event is TransportError || event is Reply) ==> next.transport_failures == failures,
{
}

/// A transport error ends the login exactly when it makes the count of
/// failures in a row reach three (a reply resets the count, see
/// [`poll_interval_only_grows_on_slow_down`]).
pub proof fn third_consecutive_transport_failure_ends_the_login(
    interval: u64,
    failures: u32,
    e: String,
    next: TokenPoller,
    step: PollStep,
)
    requires
        poll_transition(interval, failures, PollEvent::TransportError(e), next, step),
    ensures
        (step is Finish) == (failures + 1 >= MAX_TRANSPORT_FAILURES),
{
}

/// Each poll reply other than `authorization_pending`, `slow_down` and a
/// success ends the login; those three keep it going.
pub proof fn terminal_replies_end_the_login(interval: u64, failures: u32, poll: TokenPoll, next: TokenPoller, step: PollStep)
    requires
        poll_transition(interval, failures, PollEvent::Reply(poll), next, step),
    ensures
        (step is Finish) == !(poll is Pending || poll is SlowDown || poll is Success),
{
}


/// A token the server grants is written to the shared file exactly as
/// granted, and nothing else happens first: the poll is not answered by
/// sleeping, polling again or checking the deadline. The interval and the
/// failure count are left as they were.
pub proof fn granted_token_is_written(interval: u64, failures: u32, c: Credentials, next: TokenPoller, step: PollStep)
    requires
        poll_transition(interval, failures, PollEvent::Reply(TokenPoll::Success(c)), next, step),
    ensures
        step == PollStep::WriteCredentials(c),
        !(step is Sleep || step is RequestToken || step is CheckDeadline || step is Finish),
        next.interval == interval,
{
}

/// Once the granted credentials are written, the login ends in success; a
/// failed write ends it with an error instead, never with success.
pub proof fn written_credentials_end_the_login(
    interval: u64,
    failures: u32,
    w: Result<(), CredError>,
    next: TokenPoller,
    step: PollStep,
)
    requires
        poll_transition(interval, failures, PollEvent::Written(w), next, step),
    ensures
        w is Ok ==> (step matches PollStep::Finish(LoginEvent::Success)),
        w is Err ==> (step matches PollStep::Finish(LoginEvent::Error { .. })),
{
}

/// A non-2xx reply whose error code is one of RFC 8628's is classified by
/// that code alone (after trimming), whatever its description and the body
/// say: `authorization_pending` keeps polling, `slow_down` slows down,
/// `expired_token` and `access_denied` end the login as expired and denied.
/// Any other code, or none, is a failure.
pub proof fn standard_error_codes_decide(status: u16, body: Seq<char>, parsed: Option<ErrorResponse>, r: TokenPoll)
    requires
        error_reply_poll_ok(status, body, parsed, r),
    ensures
        parsed is Some && trim_spec(parsed->Some_0.error@) == "authorization_pending"@ ==> r is Pending,
        parsed is Some && trim_spec(parsed->Some_0.error@) == "slow_down"@ ==> r is SlowDown,
        parsed is Some && trim_spec(parsed->Some_0.error@) == "expired_token"@ ==> r is Expired,
        parsed is Some && trim_spec(parsed->Some_0.error@) == "access_denied"@ ==> r is Denied,
        parsed is Some && !(trim_spec(parsed->Some_0.error@) == "authorization_pending"@ || trim_spec(
            parsed->Some_0.error@,
        ) == "slow_down"@ || trim_spec(parsed->Some_0.error@) == "expired_token"@ || trim_spec(
            parsed->Some_0.error@,
        ) == "access_denied"@) ==> r is Failed,
        parsed is None ==> r is Failed,
{
    reveal_strlit("authorization_pending");
    reveal_strlit("slow_down");
    reveal_strlit("expired_token");
    reveal_strlit("access_denied");
    assert("access_denied"@[0] != "expired_token"@[0]);
}


/// How each observation moves the login: `authorization_pending` and
/// `slow_down` wait (at least a second, the longer interval after
/// `slow_down`) and then poll again; `expired_token`, `access_denied` and any
/// other failure end it as expired, denied or with that failure's message; a
/// passed deadline ends it as expired and a deadline not yet passed sends
/// the next request; a cancelled wait ends it as cancelled and an elapsed
/// one checks the deadline.
pub proof fn login_outcomes(interval: u64, failures: u32, event: PollEvent, next: TokenPoller, step: PollStep)
    requires
        poll_transition(interval, failures, event, next, step),
    ensures
        event matches PollEvent::Reply(TokenPoll::Pending) ==> (step matches PollStep::Sleep(s) && s >= 1
            && s >= interval),
        event matches PollEvent::Reply(TokenPoll::SlowDown) ==> (step matches PollStep::Sleep(s) && s
            == interval + 5),
        event matches PollEvent::Reply(TokenPoll::Expired) ==> (step matches PollStep::Finish(
            LoginEvent::Expired,
        )),
        event matches PollEvent::Reply(TokenPoll::Denied) ==> (step matches PollStep::Finish(
            LoginEvent::Denied,
        )),
        event matches PollEvent::Reply(TokenPoll::Failed(m)) ==> (step matches PollStep::Finish(
            LoginEvent::Error { message },
        ) && message@ == m@),
        event == (PollEvent::Deadline { passed: true }) ==> (step matches PollStep::Finish(
            LoginEvent::Expired,
        )),
        event == (PollEvent::Deadline { passed: false }) ==> step is RequestToken,
        event == (PollEvent::Woke { cancelled: true }) ==> (step matches PollStep::Finish(
            LoginEvent::Cancelled,
        )),
        event == (PollEvent::Woke { cancelled: false }) ==> step is CheckDeadline,
{
}

}
