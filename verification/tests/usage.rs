use quotax::json::{JsonNumber, JsonValue};
use quotax::usage::{
    base_url, lenient_u64, membership_level, minutes_to_display, parse_booster, payload_at,
    row_from_entry, to_payload, usage_url, window_to_minutes, windows_fit, RawLimitItem,
    RawParallel, RawUsageEntry, RawUsageResponse, RawUser, RawWindow,
};

fn obj(entries: Vec<(&str, JsonValue)>) -> JsonValue {
    JsonValue::Object(entries.into_iter().map(|(k, v)| (k.to_string(), v)).collect())
}

fn s(v: &str) -> JsonValue {
    JsonValue::Str(v.to_string())
}

fn window(duration: u64, unit: &str) -> Option<RawWindow> {
    Some(RawWindow { duration, time_unit: unit.to_string() })
}

fn entry(used: u64, limit: u64) -> RawUsageEntry {
    RawUsageEntry { limit, used, reset_time: "2026-01-01T08:00:00.000000Z".to_string() }
}

#[test]
fn urls() {
    assert_eq!(base_url(None), "https://api.kimi.com/coding/v1");
    assert_eq!(usage_url(None), "https://api.kimi.com/coding/v1/usages");
    assert_eq!(usage_url(Some("http://localhost:8080/v1/")), "http://localhost:8080/v1/usages");
}

#[test]
fn lenient_numbers() {
    assert_eq!(lenient_u64(&JsonValue::Number(JsonNumber::PosInt(100))), Ok(100));
    assert_eq!(lenient_u64(&s("100")), Ok(100));
    assert_eq!(lenient_u64(&s("+7")), Ok(7));
    assert_eq!(lenient_u64(&JsonValue::Null), Ok(0));
    assert_eq!(lenient_u64(&JsonValue::Number(JsonNumber::NegInt(-3))), Ok(0));
    assert_eq!(lenient_u64(&JsonValue::Number(JsonNumber::Float { as_u64: 12 })), Ok(12));
    assert_eq!(lenient_u64(&s("1e3")), Err("invalid numeric string: 1e3".to_string()));
    assert_eq!(lenient_u64(&s("-1")), Err("invalid numeric string: -1".to_string()));
    assert_eq!(
        lenient_u64(&JsonValue::Bool(true)),
        Err("expected number or numeric string".to_string())
    );
}

#[test]
fn window_lengths() {
    assert_eq!(window_to_minutes(&window(300, "TIME_UNIT_MINUTE")), 300);
    assert_eq!(window_to_minutes(&window(5, "TIME_UNIT_HOUR")), 300);
    assert_eq!(window_to_minutes(&window(2, "TIME_UNIT_DAY")), 2880);
    assert_eq!(window_to_minutes(&window(1, "TIME_UNIT_WEEK")), 10080);
    assert_eq!(window_to_minutes(&window(7, "TIME_UNIT_FORTNIGHT")), 7);
    assert_eq!(window_to_minutes(&None), 10080);
}

#[test]
fn window_names() {
    let d = |m| {
        let (a, b) = minutes_to_display(m);
        (a, b)
    };
    assert_eq!(d(10080), ("周额度（7 天）".to_string(), "周".to_string()));
    assert_eq!(d(2880), ("2 天窗口".to_string(), "2d".to_string()));
    assert_eq!(d(300), ("5 小时窗口".to_string(), "5h".to_string()));
    assert_eq!(d(45), ("45 分钟窗口".to_string(), "45m".to_string()));
    assert_eq!(d(0), ("0 天窗口".to_string(), "0d".to_string()));
    assert_eq!(d(20160), ("14 天窗口".to_string(), "14d".to_string()));
}

#[test]
fn rows() {
    let r = row_from_entry(&entry(7, 100), &window(300, "TIME_UNIT_MINUTE"));
    assert_eq!(r.name, "5 小时窗口");
    assert_eq!(r.short, "5h");
    assert_eq!(r.window_minutes, 300);
    assert_eq!(r.used, 7);
    assert_eq!(r.limit, 100);
    assert_eq!(r.reset_at, "2026-01-01T08:00:00.000000Z");
}

#[test]
fn booster_wallet() {
    assert!(parse_booster(&None).is_none());
    assert!(parse_booster(&Some(s("x"))).is_none());
    assert!(parse_booster(&Some(obj(vec![("currency", s("USD"))]))).is_none());
    let e = parse_booster(&Some(obj(vec![("balanceCents", s("2500"))]))).unwrap();
    assert_eq!(e.balance_cents, 2500);
    assert_eq!(e.currency, "CNY");
    let e = parse_booster(&Some(obj(vec![
        ("balance_cents", s("abc")),
        ("balanceCents", JsonValue::Number(JsonNumber::NegInt(-5))),
        ("currency", s("USD")),
    ])))
    .unwrap();
    assert_eq!(e.balance_cents, -5);
    assert_eq!(e.currency, "USD");
    let e = parse_booster(&Some(obj(vec![
        ("balance_cents", JsonValue::Number(JsonNumber::PosInt(10))),
        ("balanceCents", JsonValue::Number(JsonNumber::PosInt(20))),
        ("currency", JsonValue::Null),
    ])))
    .unwrap();
    assert_eq!(e.balance_cents, 10);
    assert_eq!(e.currency, "CNY");
    assert!(parse_booster(&Some(obj(vec![(
        "balance_cents",
        JsonValue::Number(JsonNumber::PosInt(u64::MAX))
    )])))
    .is_none());
}

#[test]
fn membership() {
    assert_eq!(membership_level(&None), None);
    let u = Some(RawUser { membership: Some(obj(vec![("level", s("LEVEL_BASIC"))])) });
    assert_eq!(membership_level(&u), Some("LEVEL_BASIC".to_string()));
    let u = Some(RawUser { membership: Some(s("LEVEL_BASIC")) });
    assert_eq!(membership_level(&u), None);
}

fn sample() -> RawUsageResponse {
    RawUsageResponse {
        user: Some(RawUser { membership: Some(obj(vec![("level", s("LEVEL_BASIC"))])) }),
        usage: Some(entry(42, 100)),
        limits: vec![RawLimitItem { window: window(300, "TIME_UNIT_MINUTE"), detail: entry(7, 100) }],
        parallel: Some(RawParallel { limit: 10 }),
        booster_wallet: None,
    }
}

#[test]
fn payload_mapping() {
    let raw = sample();
    assert!(windows_fit(&raw));
    let p = payload_at(&raw, 1_787_919_731);
    let summary = p.summary.unwrap();
    assert_eq!(summary.name, "周额度（7 天）");
    assert_eq!(summary.short, "周");
    assert_eq!(summary.window_minutes, 10080);
    assert_eq!((summary.used, summary.limit), (42, 100));
    assert_eq!(p.limits.len(), 1);
    assert_eq!(p.limits[0].short, "5h");
    assert!(p.extra_usage.is_none());
    assert_eq!(p.parallel_limit, Some(10));
    assert_eq!(p.membership.as_deref(), Some("LEVEL_BASIC"));
    assert_eq!(p.fetched_at, 1_787_919_731);
    assert!(to_payload(&raw).fetched_at > 1_577_836_800);
}

#[test]
fn overflowing_window_is_detected() {
    let mut raw = sample();
    raw.limits.push(RawLimitItem { window: window(u64::MAX, "TIME_UNIT_HOUR"), detail: entry(0, 0) });
    assert!(!windows_fit(&raw));
}
