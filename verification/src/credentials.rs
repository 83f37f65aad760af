//! Credentials shared with the Kimi Code CLI: the record, its errors, the
//! token-endpoint reply that produces it, and its staleness.
use vstd::prelude::*;
use crate::text::{
    concat2, concat3, copy_opt_string, copy_string, decimal, opt_view, prefix_chars, take_chars,
    trim_end_char, trim_end_char_spec, u64_to_decimal,
};

verus! {

/// The OAuth client id that the CLI uses.
pub const CLIENT_ID: &'static str = "17e5f671-d194-4dfb-9706-5516cb48c098";

/// The OAuth host used when no override is set.
pub const DEFAULT_OAUTH_HOST: &'static str = "https://auth.kimi.com";

/// The token endpoint, relative to the OAuth host.
pub const TOKEN_PATH: &'static str = "/api/oauth/token";

/// Credentials count as stale this many seconds before they expire.
pub const EXPIRY_MARGIN_SECS: i64 = 60;

/// The expiry assumed when a token reply gives none.
pub const DEFAULT_TOKEN_LIFETIME_SECS: i64 = 900;

/// The credentials file's contents.
#[derive(Debug)]
pub struct Credentials {
    pub access_token: String,
    pub refresh_token: String,
    pub expires_at: i64,
    pub expires_in: i64,
    pub token_type: String,
    pub scope: Option<String>,
}

/// The characters and numbers of a [`Credentials`] record.
pub struct CredentialsView {
    pub access_token: Seq<char>,
    pub refresh_token: Seq<char>,
    pub expires_at: i64,
    pub expires_in: i64,
    pub token_type: Seq<char>,
    pub scope: Option<Seq<char>>,
}

impl View for Credentials {
    type V = CredentialsView;

    open spec fn view(&self) -> CredentialsView {
        CredentialsView {
            access_token: self.access_token@,
            refresh_token: self.refresh_token@,
            expires_at: self.expires_at,
            expires_in: self.expires_in,
            token_type: self.token_type@,
            scope: opt_view(self.scope),
        }
    }
}

impl Credentials {
    /// A field-by-field copy.
    pub fn duplicate(&self) -> (r: Credentials)
        ensures
            r@ == self@,
    {
        Credentials {
            access_token: copy_string(&self.access_token),
            refresh_token: copy_string(&self.refresh_token),
            expires_at: self.expires_at,
            expires_in: self.expires_in,
            token_type: copy_string(&self.token_type),
            scope: copy_opt_string(&self.scope),
        }
    }
}

/// The token type written into new credentials.
pub fn default_token_type() -> (r: String)
    ensures
        r@ == "Bearer"@,
{
    String::from_str("Bearer")
}

/// Why credentials could not be had.
#[derive(Debug)]
pub enum CredError {
    /// The credentials file is missing (its path, as displayed).
    NotFound(String),
    /// Reading or writing the file failed (the I/O error's text).
    Io(String),
    /// A reply or the file could not be parsed (the parser's message).
    Parse(String),
    /// The token endpoint refused the refresh.
    Refresh { status: u16, body: String },
    /// The request did not reach the server (the transport error's text).
    Transport(String),
}

/// The characters held by a [`CredError`].
pub enum CredErrorView {
    NotFound(Seq<char>),
    Io(Seq<char>),
    Parse(Seq<char>),
    Refresh { status: u16, body: Seq<char> },
    Transport(Seq<char>),
}

impl View for CredError {
    type V = CredErrorView;

    open spec fn view(&self) -> CredErrorView {
        match self {
            CredError::NotFound(p) => CredErrorView::NotFound(p@),
            CredError::Io(m) => CredErrorView::Io(m@),
            CredError::Parse(m) => CredErrorView::Parse(m@),
            CredError::Refresh { status, body } => CredErrorView::Refresh {
                status: *status,
                body: body@,
            },
            CredError::Transport(m) => CredErrorView::Transport(m@),
        }
    }
}

/// The user-facing text of an error.
pub open spec fn cred_error_message(e: CredErrorView) -> Seq<char> {
    match e {
        CredErrorView::NotFound(p) => "未检测到 Kimi Code 登录（缺少 "@ + p
            + "），请先在 CLI 中执行 /login"@,
        CredErrorView::Io(m) => "凭证文件 IO 失败: "@ + m,
        CredErrorView::Parse(m) => "解析凭证失败: "@ + m,
        CredErrorView::Refresh { status, body } => "刷新 token 失败 (HTTP "@ + decimal(
            status as nat,
        ) + "): "@ + body,
        CredErrorView::Transport(m) => "网络错误: "@ + m,
    }
}

impl CredError {
    /// The user-facing text of the error.
    pub fn message(&self) -> (r: String)
        ensures
            r@ == cred_error_message(self@),
    {
        match self {
            CredError::NotFound(p) => concat3(
                "未检测到 Kimi Code 登录（缺少 ",
                p.as_str(),
                "），请先在 CLI 中执行 /login",
            ),
            CredError::Io(m) => concat2("凭证文件 IO 失败: ", m.as_str()),
            CredError::Parse(m) => concat2("解析凭证失败: ", m.as_str()),
            CredError::Refresh { status, body } => {
                let mut s = concat2("刷新 token 失败 (HTTP ", u64_to_decimal(*status as u64).as_str());
                s.append("): ");
                s.append(body.as_str());
                s
            },
            CredError::Transport(m) => concat2("网络错误: ", m.as_str()),
        }
    }

    /// Whether the token endpoint refused a refresh.
    pub fn is_refresh_rejection(&self) -> (r: bool)
        ensures
            r == (self@ is Refresh),
    {
        match self {
            CredError::Refresh { .. } => true,
            _ => false,
        }
    }

    /// Whether the token endpoint refused the refresh token itself (HTTP
    /// 400 or 401).
    pub fn is_refused_refresh(&self) -> (r: bool)
        ensures
            r == (self@ matches CredErrorView::Refresh { status, .. } && (status == 400 || status
                == 401)),
    {
        match self {
            CredError::Refresh { status, .. } => *status == 400 || *status == 401,
            _ => false,
        }
    }

    /// Whether the credentials file is missing.
    pub fn is_missing_file(&self) -> (r: bool)
        ensures
            r == (self@ is NotFound),
    {
        match self {
            CredError::NotFound(_) => true,
            _ => false,
        }
    }
}

/// A successful token-endpoint reply, for a refresh or a device-code grant.
#[derive(Debug)]
pub struct TokenResponse {
    pub access_token: String,
    pub refresh_token: Option<String>,
    pub expires_in: Option<i64>,
    pub expires_at: Option<i64>,
    pub scope: Option<String>,
}

/// The lifetime a reply grants: its `expires_in`, else 900 seconds.
pub open spec fn reply_lifetime(resp: TokenResponse) -> i64 {
    match resp.expires_in {
        Some(e) => e,
        None => DEFAULT_TOKEN_LIFETIME_SECS,
    }
}

/// `now` plus the reply's lifetime fits in `i64`.
pub open spec fn reply_fits(resp: TokenResponse, now: i64) -> bool {
    i64::MIN <= now + reply_lifetime(resp) <= i64::MAX
}

/// Whether `now` plus the reply's lifetime fits in `i64`.
pub fn token_reply_fits(resp: &TokenResponse, now: i64) -> (r: bool)
    ensures
        r == reply_fits(*resp, now),
{
    let lifetime: i64 = match resp.expires_in {
        Some(e) => e,
        None => DEFAULT_TOKEN_LIFETIME_SECS,
    };
    let sum: i128 = now as i128 + lifetime as i128;
    i64::MIN as i128 <= sum && sum <= i64::MAX as i128
}

/// The credentials a reply yields at time `now`: the refresh token falls back
/// to `prev`, then to empty; the expiry falls back to `now` plus the
/// lifetime; the type is `Bearer`; the scope falls back to `kimi-code`.
pub open spec fn reply_credentials(resp: TokenResponse, prev: Option<Seq<char>>, now: i64) -> CredentialsView {
    CredentialsView {
        access_token: resp.access_token@,
        refresh_token: match resp.refresh_token {
            Some(r) => r@,
            None => match prev {
                Some(p) => p,
                None => Seq::empty(),
            },
        },
        expires_at: match resp.expires_at {
            Some(a) => a,
            None => (now + reply_lifetime(resp)) as i64,
        },
        expires_in: reply_lifetime(resp),
        token_type: "Bearer"@,
        scope: match resp.scope {
            Some(s) => Some(s@),
            None => Some("kimi-code"@),
        },
    }
}

/// Turns a parsed token reply into credentials at time `now`; a reply that
/// did not parse becomes `CredError::Parse` with the parser's message.
pub fn parse_token_response(
    parsed: Result<TokenResponse, String>,
    prev_refresh_token: Option<&str>,
    now: i64,
) -> (r: Result<Credentials, CredError>)
    requires
        parsed matches Ok(resp) ==> reply_fits(resp, now),
    ensures
        match parsed {
            Ok(resp) => r matches Ok(c) && c@ == reply_credentials(
                resp,
                match prev_refresh_token {
                    Some(p) => Some(p@),
                    None => None,
                },
                now,
            ),
            Err(e) => r matches Err(err) && err@ == CredErrorView::Parse(e@),
        },
{
    match parsed {
        Ok(resp) => {
            let expires_in = match resp.expires_in {
                Some(e) => e,
                None => DEFAULT_TOKEN_LIFETIME_SECS,
            };
            let fallback_expiry = now + expires_in;
            let refresh_token = match resp.refresh_token {
                Some(r) => r,
                None => match prev_refresh_token {
                    Some(p) => String::from_str(p),
                    None => String::new(),
                },
            };
            let scope = match resp.scope {
                Some(s) => Some(s),
                None => Some(String::from_str("kimi-code")),
            };
            Ok(
                Credentials {
                    access_token: resp.access_token,
                    refresh_token,
                    expires_at: match resp.expires_at {
                        Some(a) => a,
                        None => fallback_expiry,
                    },
                    expires_in,
                    token_type: default_token_type(),
                    scope,
                },
            )
        },
        Err(e) => Err(CredError::Parse(e)),
    }
}

/// Whether credentials that expire at `expires_at` are stale at `now`.
pub open spec fn stale_at(expires_at: i64, now: i64) -> bool {
    expires_at - now < EXPIRY_MARGIN_SECS
}

/// Whether the credentials are stale at time `now`: they expire within the
/// margin (or already have).
pub fn is_stale_at(creds: &Credentials, now: i64) -> (r: bool)
    ensures
        r == stale_at(creds.expires_at, now),
{
    (creds.expires_at as i128) - (now as i128) < EXPIRY_MARGIN_SECS as i128
}

/// Whether the credentials are stale now.
pub fn is_stale(creds: &Credentials) -> (r: bool)
    ensures
        exists|reading: Option<u64>| r == stale_at(creds.expires_at, unix_secs_spec(reading)),
{
    let now = now_secs();
    is_stale_at(creds, now)
}

#[verifier::external_type_specification]
#[verifier::external_body]
pub struct ExSystemTime(std::time::SystemTime);

/// `SystemTime::now()`: the clock's current reading; nothing is claimed of it.
#[verifier::external_body]
fn system_time_now() -> std::time::SystemTime {
    std::time::SystemTime::now()
}

/// `SystemTime::duration_since(UNIX_EPOCH)`: the time elapsed since the
/// epoch, `None` when the clock reads earlier; nothing is claimed of it.
#[verifier::external_body]
fn since_unix_epoch(t: &std::time::SystemTime) -> Option<std::time::Duration> {
    t.duration_since(std::time::UNIX_EPOCH).ok()
}

/// `Duration::as_secs()`: the whole seconds of a duration; nothing is claimed
/// of it.
#[verifier::external_body]
fn duration_whole_secs(d: &std::time::Duration) -> u64 {
    d.as_secs()
}

/// The Unix time for a clock reading: the whole seconds since the epoch,
/// taken as an `i64`, or 0 for a clock that reads before the epoch (`None`).
pub open spec fn unix_secs_spec(reading: Option<u64>) -> i64 {
    match reading {
        Some(s) => s as i64,
        None => 0,
    }
}

/// The Unix time for a clock reading (see [`unix_secs_spec`]).
pub fn unix_secs(reading: Option<u64>) -> (r: i64)
    ensures
        r == unix_secs_spec(reading),
{
    match reading {
        Some(s) => s as i64,
        None => 0,
    }
}

/// The current Unix time in seconds; 0 when the clock reads before the epoch.
/// The reading itself is the clock's: nothing more is known of it.
pub fn now_secs() -> (r: i64)
    ensures
        exists|reading: Option<u64>| r == unix_secs_spec(reading),
{
    let reading = match since_unix_epoch(&system_time_now()) {
        Some(d) => Some(duration_whole_secs(&d)),
        None => None,
    };
    unix_secs(reading)
}

/// The environment value that is set, first `primary` then `secondary`, else
/// `default`.
pub open spec fn first_set(primary: Option<Seq<char>>, secondary: Option<Seq<char>>, default: Seq<char>) -> Seq<char> {
    match primary {
        Some(p) => p,
        None => match secondary {
            Some(s) => s,
            None => default,
        },
    }
}

/// The characters of an optional `&str`.
pub open spec fn opt_str_view(s: Option<&str>) -> Option<Seq<char>> {
    match s {
        Some(v) => Some(v@),
        None => None,
    }
}

/// The OAuth host: `KIMI_CODE_OAUTH_HOST`, else `KIMI_OAUTH_HOST`, else the
/// default, without trailing slashes. The caller passes the two variables'
/// values (`None` where unset).
pub fn oauth_host(code_host: Option<&str>, host: Option<&str>) -> (r: String)
    ensures
        r@ == trim_end_char_spec(
            first_set(opt_str_view(code_host), opt_str_view(host), DEFAULT_OAUTH_HOST@),
            '/',
        ),
{
    match code_host {
        Some(h) => trim_end_char(h, '/'),
        None => match host {
            Some(h) => trim_end_char(h, '/'),
            None => trim_end_char(DEFAULT_OAUTH_HOST, '/'),
        },
    }
}

/// Whether an HTTP status is a success (2xx).
pub open spec fn success_status(status: u16) -> bool {
    200 <= status < 300
}

/// Whether an HTTP status is a success (2xx).
pub fn is_success_status(status: u16) -> (r: bool)
    ensures
        r == success_status(status),
{
    200 <= status && status < 300
}

/// The outcome of a refresh reply with status `status` and body `body`: a
/// reply that is not a success is the `Refresh` error with the status and
/// the body's first 300 characters; a 2xx reply gives the credentials of the
/// parsed body at time `now`, keeping `refresh_token` when the reply carries
/// none (the caller parses the body only for 2xx).
pub fn refresh_outcome(
    status: u16,
    body: &str,
    parsed: Option<Result<TokenResponse, String>>,
    refresh_token: &str,
    now: i64,
) -> (r: Result<Credentials, CredError>)
    requires
        success_status(status) <==> (parsed is Some),
        parsed matches Some(Ok(resp)) ==> reply_fits(resp, now),
    ensures
        !success_status(status) ==> (r matches Err(e) && e@ == (CredErrorView::Refresh {
            status,
            body: take_chars(body@, 300),
        })),
        success_status(status) ==> match parsed {
            Some(Ok(resp)) => r matches Ok(c) && c@ == reply_credentials(resp, Some(refresh_token@), now),
            Some(Err(e)) => r matches Err(err) && err@ == CredErrorView::Parse(e@),
            None => false,
        },
{
    match refresh_rejection(status, body) {
        Some(e) => Err(e),
        None => match parsed {
            Some(p) => parse_token_response(p, Some(refresh_token), now),
            None => Err(CredError::Parse(String::new())),
        },
    }
}

/// The error for a refresh reply that is not a success: `Refresh` with the
/// status and the body's first 300 characters; `None` for a 2xx reply.
pub fn refresh_rejection(status: u16, body: &str) -> (r: Option<CredError>)
    ensures
        success_status(status) ==> (r is None),
        !success_status(status) ==> (r matches Some(e) && e@ == (CredErrorView::Refresh {
            status,
            body: take_chars(body@, 300),
        })),
{
    if is_success_status(status) {
        None
    } else {
        Some(CredError::Refresh { status, body: prefix_chars(body, 300) })
    }
}


/// A token reply that carries its own refresh token yields the same
/// credentials whether it answers a refresh (with the old refresh token as
/// fallback) or a device-code grant (with none).
pub proof fn reply_credentials_independent_of_fallback(resp: TokenResponse, prev: Option<Seq<char>>, now: i64)
    requires
        resp.refresh_token is Some,
    ensures
        reply_credentials(resp, prev, now) == reply_credentials(resp, None, now),
{
}

}
