//! The `/usages` reply and its mapping to the rows the widget shows.
use vstd::prelude::*;
use crate::credentials::{first_set, now_secs, opt_str_view, unix_secs_spec};
use crate::json::{json_as_i64, json_as_str, json_get, JsonNumber, JsonValue};
use crate::text::{
    concat2, copy_string, decimal, parse_i64, parse_i64_spec, parse_u64, parse_u64_spec,
    trim_end_char, trim_end_char_spec, u64_to_decimal,
};

verus! {

/// The usage API's base used when no override is set.
pub const DEFAULT_BASE_URL: &'static str = "https://api.kimi.com/coding/v1";

/// Minutes in an hour, a day and a week.
pub const MINUTES_PER_HOUR: u64 = 60;

pub const MINUTES_PER_DAY: u64 = 1440;

pub const MINUTES_PER_WEEK: u64 = 10080;

/// The usage API's base: `KIMI_CODE_BASE_URL` (the caller passes its value,
/// `None` where unset), else the default, without trailing slashes.
pub fn base_url(env_base: Option<&str>) -> (r: String)
    ensures
        r@ == trim_end_char_spec(first_set(opt_str_view(env_base), None, DEFAULT_BASE_URL@), '/'),
{
    match env_base {
        Some(b) => trim_end_char(b, '/'),
        None => trim_end_char(DEFAULT_BASE_URL, '/'),
    }
}

/// The usage endpoint: the base followed by `/usages`.
pub fn usage_url(env_base: Option<&str>) -> (r: String)
    ensures
        r@ == trim_end_char_spec(first_set(opt_str_view(env_base), None, DEFAULT_BASE_URL@), '/')
            + "/usages"@,
{
    let mut s = base_url(env_base);
    s.append("/usages");
    s
}

/// The value a lenient numeric field takes: a number or a numeric string,
/// with `null` as 0; `Err` holds the parser message for anything else.
pub open spec fn lenient_u64_spec(v: JsonValue) -> Result<u64, Seq<char>> {
    match v {
        JsonValue::Number(JsonNumber::PosInt(u)) => Ok(u),
        JsonValue::Number(JsonNumber::NegInt(_)) => Ok(0),
        JsonValue::Number(JsonNumber::Float { as_u64 }) => Ok(as_u64),
        JsonValue::Str(s) => match parse_u64_spec(s@) {
            Some(n) => Ok(n),
            None => Err("invalid numeric string: "@ + s@),
        },
        JsonValue::Null => Ok(0),
        _ => Err("expected number or numeric string"@),
    }
}

/// Reads a numeric field that the service may send as a number or as a
/// numeric string: integers as they are, negative numbers as 0, other
/// numbers by a saturating cast, strings by `parse::<u64>`, `null` as 0.
pub fn lenient_u64(v: &JsonValue) -> (r: Result<u64, String>)
    ensures
        match (r, lenient_u64_spec(*v)) {
            (Ok(a), Ok(b)) => a == b,
            (Err(a), Err(b)) => a@ == b,
            _ => false,
        },
{
    match v {
        JsonValue::Number(JsonNumber::PosInt(u)) => Ok(*u),
        JsonValue::Number(JsonNumber::NegInt(_)) => Ok(0),
        JsonValue::Number(JsonNumber::Float { as_u64 }) => Ok(*as_u64),
        JsonValue::Str(s) => match parse_u64(s.as_str()) {
            Some(n) => Ok(n),
            None => Err(concat2("invalid numeric string: ", s.as_str())),
        },
        JsonValue::Null => Ok(0),
        _ => Err(String::from_str("expected number or numeric string")),
    }
}

/// One quota: its limit, what is used, and when it resets (RFC 3339).
#[derive(Debug)]
pub struct RawUsageEntry {
    pub limit: u64,
    pub used: u64,
    pub reset_time: String,
}

/// A quota window: `duration` units of `time_unit` (`TIME_UNIT_MINUTE`,
/// `TIME_UNIT_HOUR`, `TIME_UNIT_DAY` or `TIME_UNIT_WEEK`).
#[derive(Debug)]
pub struct RawWindow {
    pub duration: u64,
    pub time_unit: String,
}

/// A windowed quota.
#[derive(Debug)]
pub struct RawLimitItem {
    pub window: Option<RawWindow>,
    pub detail: RawUsageEntry,
}

/// The account part of the reply.
#[derive(Debug)]
pub struct RawUser {
    pub membership: Option<JsonValue>,
}

/// The concurrency limit.
#[derive(Debug)]
pub struct RawParallel {
    pub limit: u64,
}

/// The `/usages` reply.
#[derive(Debug)]
pub struct RawUsageResponse {
    pub user: Option<RawUser>,
    pub usage: Option<RawUsageEntry>,
    pub limits: Vec<RawLimitItem>,
    pub parallel: Option<RawParallel>,
    pub booster_wallet: Option<JsonValue>,
}

/// One row of the widget.
#[derive(Debug)]
pub struct UsageRow {
    /// Display name, such as `5 小时窗口`.
    pub name: String,
    /// Short label for the bar, such as `5h`.
    pub short: String,
    /// The window's length in minutes.
    pub window_minutes: u64,
    pub used: u64,
    pub limit: u64,
    /// RFC 3339 reset time.
    pub reset_at: String,
}

/// The booster wallet's balance.
#[derive(Debug)]
pub struct ExtraUsage {
    pub balance_cents: i64,
    pub currency: String,
}

/// What the widget renders.
#[derive(Debug)]
pub struct UsagePayload {
    pub summary: Option<UsageRow>,
    pub limits: Vec<UsageRow>,
    pub extra_usage: Option<ExtraUsage>,
    pub parallel_limit: Option<u64>,
    pub membership: Option<String>,
    /// When the data was fetched (Unix seconds).
    pub fetched_at: i64,
}

/// The minutes in one unit of `unit`: 60 for hours, 1440 for days, 10080 for
/// weeks, 1 for minutes and unknown units.
pub open spec fn unit_minutes(unit: Seq<char>) -> u64 {
    if unit == "TIME_UNIT_HOUR"@ {
        MINUTES_PER_HOUR
    } else if unit == "TIME_UNIT_DAY"@ {
        MINUTES_PER_DAY
    } else if unit == "TIME_UNIT_WEEK"@ {
        MINUTES_PER_WEEK
    } else {
        1
    }
}

/// A window's length in minutes; no window means one week.
pub open spec fn window_minutes_spec(w: Option<RawWindow>) -> int {
    match w {
        Some(w) => w.duration * unit_minutes(w.time_unit@),
        None => MINUTES_PER_WEEK as int,
    }
}

/// The window's length in minutes fits in `u64`.
pub open spec fn window_fits(w: Option<RawWindow>) -> bool {
    window_minutes_spec(w) <= u64::MAX
}

/// A window's length in minutes; no window means one week.
pub fn window_to_minutes(w: &Option<RawWindow>) -> (r: u64)
    requires
        window_fits(*w),
    ensures
        r == window_minutes_spec(*w),
{
    match w {
        Some(w) => {
            let unit = w.time_unit.as_str();
            let mult: u64 = if crate::text::str_eq(unit, "TIME_UNIT_HOUR") {
                MINUTES_PER_HOUR
            } else if crate::text::str_eq(unit, "TIME_UNIT_DAY") {
                MINUTES_PER_DAY
            } else if crate::text::str_eq(unit, "TIME_UNIT_WEEK") {
                MINUTES_PER_WEEK
            } else {
                1
            };
            w.duration * mult
        },
        None => MINUTES_PER_WEEK,
    }
}

/// Every window of the reply has a length in minutes that fits in `u64`.
pub open spec fn reply_windows_fit(raw: RawUsageResponse) -> bool {
    forall|i: int| 0 <= i < raw.limits@.len() ==> window_fits(#[trigger] raw.limits@[i].window)
}

/// Whether every window of the reply has a length in minutes that fits in
/// `u64`.
pub fn windows_fit(raw: &RawUsageResponse) -> (r: bool)
    ensures
        r == reply_windows_fit(*raw),
{
    let n = raw.limits.len();
    let mut i: usize = 0;
    while i < n
        invariant
            n == raw.limits@.len(),
            i <= n,
            forall|j: int| 0 <= j < i ==> window_fits(#[trigger] raw.limits@[j].window),
        decreases n - i,
    {
        let fits = match &raw.limits[i].window {
            Some(w) => {
                let unit = w.time_unit.as_str();
                let mult: u64 = if crate::text::str_eq(unit, "TIME_UNIT_HOUR") {
                    MINUTES_PER_HOUR
                } else if crate::text::str_eq(unit, "TIME_UNIT_DAY") {
                    MINUTES_PER_DAY
                } else if crate::text::str_eq(unit, "TIME_UNIT_WEEK") {
                    MINUTES_PER_WEEK
                } else {
                    1
                };
                w.duration <= u64::MAX / mult
            },
            None => true,
        };
        if !fits {
            proof {
                let w = raw.limits@[i as int].window->Some_0;
                let m = unit_minutes(w.time_unit@);
                assert(w.duration * m > u64::MAX) by (nonlinear_arith)
                    requires
                        w.duration > u64::MAX / m,
                        m >= 1,
                ;
            }
            return false;
        }
        proof {
            if raw.limits@[i as int].window is Some {
                let w = raw.limits@[i as int].window->Some_0;
                let m = unit_minutes(w.time_unit@);
                assert(w.duration * m <= u64::MAX) by (nonlinear_arith)
                    requires
                        w.duration <= u64::MAX / m,
                        m >= 1,
                ;
            }
        }
        i = i + 1;
    }
    true
}

/// The display name and short label of a window of `mins` minutes: one week
/// is `周额度（7 天）`/`周`; whole days `N 天窗口`/`Nd`; whole hours
/// `N 小时窗口`/`Nh`; otherwise `N 分钟窗口`/`Nm`.
pub open spec fn display_spec(mins: u64) -> (Seq<char>, Seq<char>) {
    if mins == MINUTES_PER_WEEK {
        ("周额度（7 天）"@, "周"@)
    } else if mins % MINUTES_PER_DAY == 0 {
        (
            decimal((mins / MINUTES_PER_DAY) as nat) + " 天窗口"@,
            decimal((mins / MINUTES_PER_DAY) as nat) + "d"@,
        )
    } else if mins % MINUTES_PER_HOUR == 0 {
        (
            decimal((mins / MINUTES_PER_HOUR) as nat) + " 小时窗口"@,
            decimal((mins / MINUTES_PER_HOUR) as nat) + "h"@,
        )
    } else {
        (decimal(mins as nat) + " 分钟窗口"@, decimal(mins as nat) + "m"@)
    }
}

fn labels(n: u64, long_suffix: &str, short_suffix: &str) -> (r: (String, String))
    ensures
        r.0@ == decimal(n as nat) + long_suffix@,
        r.1@ == decimal(n as nat) + short_suffix@,
{
    let mut a = u64_to_decimal(n);
    let mut b = u64_to_decimal(n);
    a.append(long_suffix);
    b.append(short_suffix);
    (a, b)
}

/// The display name and short label of a window of `mins` minutes.
pub fn minutes_to_display(mins: u64) -> (r: (String, String))
    ensures
        (r.0@, r.1@) == display_spec(mins),
{
    if mins == MINUTES_PER_WEEK {
        (String::from_str("周额度（7 天）"), String::from_str("周"))
    } else if mins % MINUTES_PER_DAY == 0 {
        labels(mins / MINUTES_PER_DAY, " 天窗口", "d")
    } else if mins % MINUTES_PER_HOUR == 0 {
        labels(mins / MINUTES_PER_HOUR, " 小时窗口", "h")
    } else {
        labels(mins, " 分钟窗口", "m")
    }
}

/// The characters and numbers of a [`UsageRow`].
pub struct UsageRowView {
    pub name: Seq<char>,
    pub short: Seq<char>,
    pub window_minutes: u64,
    pub used: u64,
    pub limit: u64,
    pub reset_at: Seq<char>,
}

impl View for UsageRow {
    type V = UsageRowView;

    open spec fn view(&self) -> UsageRowView {
        UsageRowView {
            name: self.name@,
            short: self.short@,
            window_minutes: self.window_minutes,
            used: self.used,
            limit: self.limit,
            reset_at: self.reset_at@,
        }
    }
}

/// The row for a quota over a window.
pub open spec fn row_spec(entry: RawUsageEntry, window: Option<RawWindow>) -> UsageRowView {
    let mins = window_minutes_spec(window) as u64;
    UsageRowView {
        name: display_spec(mins).0,
        short: display_spec(mins).1,
        window_minutes: mins,
        used: entry.used,
        limit: entry.limit,
        reset_at: entry.reset_time@,
    }
}

/// The row for a quota over a window.
pub fn row_from_entry(entry: &RawUsageEntry, window: &Option<RawWindow>) -> (r: UsageRow)
    requires
        window_fits(*window),
    ensures
        r@ == row_spec(*entry, *window),
{
    let mins = window_to_minutes(window);
    let (name, short) = minutes_to_display(mins);
    UsageRow {
        name,
        short,
        window_minutes: mins,
        used: entry.used,
        limit: entry.limit,
        reset_at: copy_string(&entry.reset_time),
    }
}

/// A wallet amount: an integer in range, or a string that `parse::<i64>`
/// accepts.
pub open spec fn amount_of(v: JsonValue) -> Option<i64> {
    match json_as_i64(v) {
        Some(n) => Some(n),
        None => match json_as_str(v) {
            Some(s) => parse_i64_spec(s),
            None => None,
        },
    }
}

/// The first of the keys whose member is an amount, and that amount.
pub open spec fn pick_amount(obj: JsonValue, keys: Seq<Seq<char>>) -> Option<i64>
    decreases keys.len(),
{
    if keys.len() == 0 {
        None
    } else {
        match json_get(obj, keys[0]) {
            Some(x) => match amount_of(x) {
                Some(n) => Some(n),
                None => pick_amount(obj, keys.drop_first()),
            },
            None => pick_amount(obj, keys.drop_first()),
        }
    }
}

/// The balance keys, in the order they are tried.
pub open spec fn balance_keys() -> Seq<Seq<char>> {
    seq!["balance_cents"@, "balanceCents"@]
}

/// The booster wallet's balance: needs an object with an amount under
/// `balance_cents` or, failing that, `balanceCents`; the currency is the
/// `currency` string, else `CNY`.
pub open spec fn booster_spec(v: Option<JsonValue>) -> Option<(i64, Seq<char>)> {
    match v {
        Some(obj) => if obj is Object {
            match pick_amount(obj, balance_keys()) {
                Some(cents) => Some(
                    (
                        cents,
                        match json_get(obj, "currency"@) {
                            Some(c) => match json_as_str(c) {
                                Some(s) => s,
                                None => "CNY"@,
                            },
                            None => "CNY"@,
                        },
                    ),
                ),
                None => None,
            }
        } else {
            None
        },
        None => None,
    }
}

fn amount(v: &JsonValue) -> (r: Option<i64>)
    ensures
        r == amount_of(*v),
{
    match v.as_i64() {
        Some(n) => Some(n),
        None => match v.as_str() {
            Some(s) => parse_i64(s.as_str()),
            None => None,
        },
    }
}

/// The booster wallet's balance, if the reply carries one.
pub fn parse_booster(v: &Option<JsonValue>) -> (r: Option<ExtraUsage>)
    ensures
        match booster_spec(*v) {
            Some((cents, currency)) => r matches Some(e) && e.balance_cents == cents && e.currency@
                == currency,
            None => r is None,
        },
{
    let obj = match v {
        Some(o) => o,
        None => return None,
    };
    match obj {
        JsonValue::Object(_) => {},
        _ => return None,
    }
    proof {
        reveal_strlit("balance_cents");
        reveal_strlit("balanceCents");
    }
    let ghost keys = balance_keys();
    assert(keys.drop_first() =~= seq!["balanceCents"@]);
    assert(keys.drop_first().drop_first() =~= Seq::<Seq<char>>::empty());
    assert(keys[0] == "balance_cents"@);
    assert(keys.drop_first()[0] == "balanceCents"@);
    assert(pick_amount(*obj, keys.drop_first().drop_first()) is None);
    assert(pick_amount(*obj, keys.drop_first()) == match json_get(*obj, "balanceCents"@) {
        Some(x) => amount_of(x),
        None => None,
    });
    let first = match obj.get("balance_cents") {
        Some(x) => amount(x),
        None => None,
    };
    let cents = match first {
        Some(n) => n,
        None => match obj.get("balanceCents") {
            Some(x) => match amount(x) {
                Some(n) => n,
                None => return None,
            },
            None => return None,
        },
    };
    let currency = match obj.get("currency") {
        Some(c) => match c.as_str() {
            Some(s) => copy_string(s),
            None => String::from_str("CNY"),
        },
        None => String::from_str("CNY"),
    };
    Some(ExtraUsage { balance_cents: cents, currency })
}

/// The membership level: the `level` string of the user's membership object.
pub open spec fn membership_spec(user: Option<RawUser>) -> Option<Seq<char>> {
    match user {
        Some(u) => match u.membership {
            Some(m) => match json_get(m, "level"@) {
                Some(l) => json_as_str(l),
                None => None,
            },
            None => None,
        },
        None => None,
    }
}

/// The membership level, if the reply carries one.
pub fn membership_level(user: &Option<RawUser>) -> (r: Option<String>)
    ensures
        match r {
            Some(s) => membership_spec(*user) == Some(s@),
            None => membership_spec(*user) is None,
        },
{
    match user {
        Some(u) => match &u.membership {
            Some(m) => match m.get("level") {
                Some(l) => match l.as_str() {
                    Some(s) => Some(copy_string(s)),
                    None => None,
                },
                None => None,
            },
            None => None,
        },
        None => None,
    }
}

/// The rows of the reply's windowed quotas, in order.
pub open spec fn limit_rows_spec(raw: RawUsageResponse) -> Seq<UsageRowView> {
    Seq::new(raw.limits@.len(), |i: int| row_spec(raw.limits@[i].detail, raw.limits@[i].window))
}

/// What the widget renders for a reply fetched at `fetched_at`: the main
/// quota as a one-week row, one row per windowed quota, the wallet, the
/// concurrency limit and the membership level.
pub open spec fn payload_matches(raw: RawUsageResponse, fetched_at: i64, p: UsagePayload) -> bool {
    &&& match raw.usage {
        Some(e) => p.summary matches Some(row) && row@ == row_spec(e, None),
        None => p.summary is None,
    }
    &&& p.limits@.len() == raw.limits@.len()
    &&& forall|i: int| 0 <= i < p.limits@.len() ==> #[trigger] p.limits@[i]@ == limit_rows_spec(raw)[i]
    &&& match booster_spec(raw.booster_wallet) {
        Some((cents, currency)) => p.extra_usage matches Some(e) && e.balance_cents == cents
            && e.currency@ == currency,
        None => p.extra_usage is None,
    }
    &&& p.parallel_limit == match raw.parallel {
        Some(par) => Some(par.limit),
        None => None,
    }
    &&& match membership_spec(raw.user) {
        Some(level) => p.membership matches Some(m) && m@ == level,
        None => p.membership is None,
    }
    &&& p.fetched_at == fetched_at
}

/// What the widget renders for a reply fetched at `fetched_at`.
pub fn payload_at(raw: &RawUsageResponse, fetched_at: i64) -> (r: UsagePayload)
    requires
        reply_windows_fit(*raw),
    ensures
        payload_matches(*raw, fetched_at, r),
{
    let summary = match &raw.usage {
        Some(e) => Some(row_from_entry(e, &None)),
        None => None,
    };
    let n = raw.limits.len();
    let mut limits: Vec<UsageRow> = Vec::new();
    let mut i: usize = 0;
    while i < n
        invariant
            n == raw.limits@.len(),
            i <= n,
            reply_windows_fit(*raw),
            limits@.len() == i,
            forall|j: int| 0 <= j < i ==> #[trigger] limits@[j]@ == limit_rows_spec(*raw)[j],
        decreases n - i,
    {
        let item = &raw.limits[i];
        assert(window_fits(raw.limits@[i as int].window));
        limits.push(row_from_entry(&item.detail, &item.window));
        i = i + 1;
    }
    UsagePayload {
        summary,
        limits,
        extra_usage: parse_booster(&raw.booster_wallet),
        parallel_limit: match &raw.parallel {
            Some(p) => Some(p.limit),
            None => None,
        },
        membership: membership_level(&raw.user),
        fetched_at,
    }
}

/// Each windowed quota gets a row of its own, in order: its length in
/// minutes is its own window's duration times that window's unit (60 for
/// hours, 1440 for days, 10080 for weeks, 1 otherwise), its labels are those
/// of that length, and its numbers and reset time are its own.
pub proof fn each_row_has_its_own_window(raw: RawUsageResponse, fetched_at: i64, p: UsagePayload, i: int)
    requires
        reply_windows_fit(raw),
        payload_matches(raw, fetched_at, p),
        0 <= i < raw.limits@.len(),
    ensures
        p.limits@.len() == raw.limits@.len(),
        p.limits@[i].window_minutes == match raw.limits@[i].window {
            Some(w) => w.duration * if w.time_unit@ == "TIME_UNIT_HOUR"@ {
                60int
            } else if w.time_unit@ == "TIME_UNIT_DAY"@ {
                1440int
            } else if w.time_unit@ == "TIME_UNIT_WEEK"@ {
                10080int
            } else {
                1int
            },
            None => 10080int,
        },
        (p.limits@[i].name@, p.limits@[i].short@) == display_spec(p.limits@[i].window_minutes),
        p.limits@[i].used == raw.limits@[i].detail.used,
        p.limits@[i].limit == raw.limits@[i].detail.limit,
        p.limits@[i].reset_at@ == raw.limits@[i].detail.reset_time@,
{
    assert(window_fits(raw.limits@[i].window));
    assert(p.limits@[i]@ == limit_rows_spec(raw)[i]);
}

/// A week-long window is labelled as the weekly quota; any other whole
/// number of days, hours or minutes is labelled with that number and unit.
pub proof fn window_labels(mins: u64)
    ensures
        mins == MINUTES_PER_WEEK ==> display_spec(mins) == ("周额度（7 天）"@, "周"@),
        mins != MINUTES_PER_WEEK && mins % 1440 == 0 ==> display_spec(mins) == (
            decimal((mins / 1440) as nat) + " 天窗口"@,
            decimal((mins / 1440) as nat) + "d"@,
        ),
        mins % 1440 != 0 && mins % 60 == 0 ==> display_spec(mins) == (
            decimal((mins / 60) as nat) + " 小时窗口"@,
            decimal((mins / 60) as nat) + "h"@,
        ),
        mins % 60 != 0 ==> display_spec(mins) == (decimal(mins as nat) + " 分钟窗口"@, decimal(
            mins as nat,
        ) + "m"@),
{
}

/// The main quota, when the reply has one, is the weekly row: 10080
/// minutes, labelled `周额度（7 天）`/`周`, with its own numbers and reset
/// time; the concurrency limit is the reply's; the data carries the time it
/// was fetched.
pub proof fn main_quota_is_the_weekly_row(raw: RawUsageResponse, fetched_at: i64, p: UsagePayload)
    requires
        payload_matches(raw, fetched_at, p),
    ensures
        raw.usage matches Some(e) ==> (p.summary matches Some(row) && row.window_minutes == 10080
            && row.name@ == "周额度（7 天）"@ && row.short@ == "周"@ && row.used == e.used && row.limit
            == e.limit && row.reset_at@ == e.reset_time@),
        raw.usage is None ==> p.summary is None,
        p.parallel_limit == match raw.parallel {
            Some(par) => Some(par.limit),
            None => None,
        },
        p.fetched_at == fetched_at,
{
}

/// What the widget renders for a reply fetched now.
pub fn to_payload(raw: &RawUsageResponse) -> (r: UsagePayload)
    requires
        reply_windows_fit(*raw),
    ensures
        payload_matches(*raw, r.fetched_at, r),
        exists|reading: Option<u64>| r.fetched_at == unix_secs_spec(reading),
{
    payload_at(raw, now_secs())
}


/// The characters and numbers of an [`ExtraUsage`].
pub open spec fn extra_view(e: Option<ExtraUsage>) -> Option<(i64, Seq<char>)> {
    match e {
        Some(x) => Some((x.balance_cents, x.currency@)),
        None => None,
    }
}

/// The rows of an optional row.
pub open spec fn opt_row_view(r: Option<UsageRow>) -> Option<UsageRowView> {
    match r {
        Some(x) => Some(x@),
        None => None,
    }
}

/// The characters and numbers of a [`UsagePayload`].
pub struct UsagePayloadView {
    pub summary: Option<UsageRowView>,
    pub limits: Seq<UsageRowView>,
    pub extra_usage: Option<(i64, Seq<char>)>,
    pub parallel_limit: Option<u64>,
    pub membership: Option<Seq<char>>,
    pub fetched_at: i64,
}

impl View for UsagePayload {
    type V = UsagePayloadView;

    open spec fn view(&self) -> UsagePayloadView {
        UsagePayloadView {
            summary: opt_row_view(self.summary),
            limits: self.limits@.map_values(|r: UsageRow| r@),
            extra_usage: extra_view(self.extra_usage),
            parallel_limit: self.parallel_limit,
            membership: crate::text::opt_view(self.membership),
            fetched_at: self.fetched_at,
        }
    }
}

impl UsageRow {
    /// A field-by-field copy.
    pub fn duplicate(&self) -> (r: UsageRow)
        ensures
            r@ == self@,
    {
        UsageRow {
            name: copy_string(&self.name),
            short: copy_string(&self.short),
            window_minutes: self.window_minutes,
            used: self.used,
            limit: self.limit,
            reset_at: copy_string(&self.reset_at),
        }
    }
}

impl UsagePayload {
    /// A field-by-field copy.
    pub fn duplicate(&self) -> (r: UsagePayload)
        ensures
            r@ == self@,
    {
        let summary = match &self.summary {
            Some(row) => Some(row.duplicate()),
            None => None,
        };
        let n = self.limits.len();
        let mut limits: Vec<UsageRow> = Vec::new();
        let mut i: usize = 0;
        while i < n
            invariant
                n == self.limits@.len(),
                i <= n,
                limits@.len() == i,
                forall|j: int| 0 <= j < i ==> #[trigger] limits@[j]@ == self.limits@[j]@,
            decreases n - i,
        {
            limits.push(self.limits[i].duplicate());
            i = i + 1;
        }
        assert(limits@.map_values(|r: UsageRow| r@) =~= self.limits@.map_values(|r: UsageRow| r@));
        let extra_usage = match &self.extra_usage {
            Some(e) => Some(ExtraUsage { balance_cents: e.balance_cents, currency: copy_string(&e.currency) }),
            None => None,
        };
        UsagePayload {
            summary,
            limits,
            extra_usage,
            parallel_limit: self.parallel_limit,
            membership: crate::text::copy_opt_string(&self.membership),
            fetched_at: self.fetched_at,
        }
    }
}

}
