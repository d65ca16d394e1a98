use registrar_node::access::check_skew;
use registrar_node::config::StatsReportConfig;
use registrar_node::stats::{
    accumulate_day, accumulate_registrar_stats, count_records, registrar_stats_body,
    registrar_stats_report, stats_report, stats_report_outcome, stats_windows, window_texts, RegistrarStats, StatsWindows,
};
use registrar_node::time::Instant;
use serde_json::Value;

fn json(text: &str) -> Value {
    serde_json::from_str(text).unwrap()
}

/// 2026-09-18T10:20:30Z, a Friday.
fn friday() -> Instant {
    Instant::new(1789726830, 0).unwrap()
}

fn record(kind: &str, submitted_at: &str) -> Value {
    json(&format!(
        "{{\"resourceType\": \"{kind}\", \"submittedAt\": \"{submitted_at}\"}}"
    ))
}

#[test]
fn instants_exist_within_the_calendar() {
    assert!(Instant::new(-8334601228800, 0).is_some());
    assert!(Instant::new(-8334601228801, 0).is_none());
    assert!(Instant::new(8210266876799, 999_999_999).is_some());
    assert!(Instant::new(8210266876800, 0).is_none());
    assert!(Instant::new(59, 1_999_999_999).is_some());
    assert!(Instant::new(-1, 1_000_000_000).is_some());
    assert!(Instant::new(58, 1_000_000_000).is_none());
    assert!(Instant::new(59, 2_000_000_000).is_none());
    for (seconds, nanos) in [
        (0, 0),
        (59, 1_500_000_000),
        (60, 1_500_000_000),
        (-8334601228800, 5),
        (8210266876799, 1_000_000_000),
        (8210266876800, 0),
        (i64::MIN, 0),
        (i64::MAX, 0),
    ] {
        let held = chrono::DateTime::<chrono::Utc>::from_timestamp(seconds, nanos);
        assert_eq!(Instant::new(seconds, nanos).is_some(), held.is_some());
    }
}

#[test]
fn instants_are_ordered_and_moved() {
    let early = Instant::new(100, 5).unwrap();
    let late = Instant::new(100, 6).unwrap();
    assert!(late.is_after(&early) && !early.is_after(&late) && !early.is_after(&early));
    assert!(Instant::new(101, 0).unwrap().is_after(&late));
    for (seconds, nanos) in [(0, 0), (59, 1_500_000_000), (1789726830, 7)] {
        let moved = Instant::new(seconds, nanos).unwrap().plus_seconds(300);
        let expected = chrono::DateTime::<chrono::Utc>::from_timestamp(seconds, nanos).unwrap()
            + chrono::Duration::seconds(300);
        assert_eq!(moved.timestamp(), expected.to_rfc3339_opts(chrono::SecondsFormat::AutoSi, true));
    }
}

#[test]
fn instants_are_written_like_those_of_chrono() {
    assert_eq!(friday().rfc3339(), "2026-09-18T10:20:30+00:00");
    assert_eq!(friday().timestamp(), "2026-09-18T10:20:30Z");
    let text = |seconds: i64, nanos: u32| Instant::new(seconds, nanos).unwrap().timestamp();
    assert_eq!(text(59, 1_000_000_000), "1970-01-01T00:00:60Z");
    assert_eq!(text(86399, 7), "1970-01-01T23:59:59.000000007Z");
    assert_eq!(text(-1, 120_000_000), "1969-12-31T23:59:59.120Z");
    assert_eq!(text(0, 45_000), "1970-01-01T00:00:00.000045Z");
    assert_eq!(text(253402300800, 0), "+10000-01-01T00:00:00Z");
    assert_eq!(text(-62198755200, 0), "-0001-01-01T00:00:00Z");
    for (seconds, nanos) in [(0, 0), (-1, 1), (1789726830, 120_000_000), (59, 1_000_000_000)] {
        let held = chrono::DateTime::<chrono::Utc>::from_timestamp(seconds, nanos).unwrap();
        let instant = Instant::new(seconds, nanos).unwrap();
        assert_eq!(Value::from(instant.timestamp()), serde_json::to_value(held).unwrap());
        assert_eq!(instant.rfc3339(), held.to_rfc3339());
    }
}

#[test]
fn days_are_counted_from_the_year_one() {
    assert_eq!(Instant::new(0, 0).unwrap().day(), 719163);
    assert_eq!(Instant::new(-1, 0).unwrap().day(), 719162);
    assert_eq!(friday().day(), 739877);
    assert_eq!(Instant::new(-8334601228800, 0).unwrap().day(), -95746129);
    assert_eq!(Instant::new(8210266876799, 0).unwrap().day(), 95745399);
}

#[test]
fn windows_begin_today_on_monday_and_on_the_first() {
    let windows = stats_windows(&friday());
    assert_eq!((windows.today, windows.week_start, windows.month_start), (739877, 739873, 739860));
    assert_eq!(
        window_texts(&windows),
        ("2026-09-18".to_string(), "2026-09-14".to_string(), "2026-09-01".to_string())
    );
    for day in 0..400i64 {
        let instant = Instant::new(1767225600 + day * 86400, 0).unwrap();
        let held = chrono::DateTime::<chrono::Utc>::from_timestamp(1767225600 + day * 86400, 0);
        let date = held.unwrap().date_naive();
        let windows = stats_windows(&instant);
        let (today, week, month) = window_texts(&windows);
        assert_eq!(today, date.to_string());
        assert_eq!(week, date.week(chrono::Weekday::Mon).first_day().to_string());
        assert_eq!(month, format!("{}-01", &today[..7]));
    }
}

#[test]
fn months_begin_on_the_first_in_every_year() {
    let mut texts = Vec::new();
    for (year, month, day) in [
        (-262143, 1, 7),
        (-1, 12, 31),
        (0, 2, 29),
        (1900, 2, 28),
        (2000, 2, 29),
        (2024, 2, 29),
        (2025, 3, 1),
        (9999, 12, 31),
        (10000, 1, 1),
        (262142, 12, 31),
    ] {
        let date = chrono::NaiveDate::from_ymd_opt(year, month, day).unwrap();
        let seconds = date.and_hms_opt(12, 0, 0).unwrap().and_utc().timestamp();
        let windows = stats_windows(&Instant::new(seconds, 0).unwrap());
        let (today, _, month_start) = window_texts(&windows);
        assert_eq!(today, date.to_string());
        assert_eq!(month_start, format!("{}01", &today[..today.len() - 2]));
        assert_eq!(windows.today - windows.month_start + 1, day as i32);
        if (0..=9999).contains(&year) {
            texts.push(today);
        }
    }
    assert_eq!(texts[0], "0000-02-29");
    assert!(texts.windows(2).all(|pair| pair[0] < pair[1] && pair[0].len() == 10));
}

#[test]
fn records_are_counted_by_type_and_window() {
    let kept = vec![
        record("skill", "2026-09-18T00:00:00Z"),
        record("agent_service", "2026-09-18T01:00:00+02:00"),
        record("mcp_server", "2026-09-14T00:00:00Z"),
        record("tool_api", "2026-09-01T12:00:00Z"),
        record("skill", "2026-08-31T23:59:59Z"),
        record("skill", "2026-12-01T00:00:00Z"),
        record("organization", "no time"),
        json("{\"resourceType\": 4, \"submittedAt\": 5}"),
        json("null"),
    ];
    let body = registrar_stats_body("did:x", &friday(), &kept);
    assert_eq!(
        body,
        json(
            "{\"registrarDid\": \"did:x\", \"generatedAt\": \"2026-09-18T10:20:30+00:00\", \
              \"windowTimezone\": \"UTC\", \"resourceRecordCount\": 9, \"agentServiceCount\": 1, \
              \"skillCount\": 3, \"mcpServerCount\": 1, \"toolApiCount\": 1, \
              \"todayRegistrationCount\": 1, \"weekRegistrationCount\": 4, \
              \"monthRegistrationCount\": 5}"
        )
    );
    let stats = count_records(&kept, stats_windows(&friday()));
    assert_eq!(registrar_stats_report("did:x", &friday().rfc3339(), &stats), body);
    assert!(stats.today_count <= stats.week_count && stats.today_count <= stats.month_count);
    assert!(stats.type_counts.iter().sum::<i64>() <= stats.resource_record_count as i64);
}

#[test]
fn counts_add_up() {
    let left = vec![record("skill", "2026-09-18T00:00:00Z"), record("tool_api", "x")];
    let right = vec![record("skill", "2026-09-15T00:00:00Z")];
    let windows = stats_windows(&friday());
    let both: Vec<Value> = left.iter().chain(right.iter()).cloned().collect();
    let (a, b) = (count_records(&left, windows), count_records(&right, windows));
    let sum = count_records(&both, windows);
    for i in 0..4 {
        assert_eq!(a.type_counts[i] + b.type_counts[i], sum.type_counts[i]);
    }
    assert_eq!(a.week_count + b.week_count, sum.week_count);
    assert_eq!(a.resource_record_count + b.resource_record_count, sum.resource_record_count);
}

#[test]
fn records_are_counted_in_any_order() {
    let mut kept = vec![
        record("skill", "2026-09-18T00:00:00Z"),
        record("tool_api", "2026-09-02T00:00:00Z"),
        record("skill", "2026-09-15T00:00:00Z"),
    ];
    let body = registrar_stats_body("did:x", &friday(), &kept);
    assert_eq!(body["weekRegistrationCount"], 2);
    kept.rotate_left(1);
    assert_eq!(registrar_stats_body("did:x", &friday(), &kept), body);
    kept.reverse();
    assert_eq!(registrar_stats_body("did:x", &friday(), &kept), body);
}

#[test]
fn one_record_is_counted_in() {
    let windows = StatsWindows { today: 739877, week_start: 739873, month_start: 739860 };
    let mut types = [1, 2, 3, 4];
    let (mut today, mut week, mut month) = (5, 6, 7);
    accumulate_registrar_stats(
        &record("mcp_server", "2026-09-17T00:00:00Z"),
        &mut types,
        &mut today,
        &mut week,
        &mut month,
        windows,
    );
    assert_eq!((types, today, week, month), ([1, 2, 4, 4], 5, 7, 8));
    accumulate_day(739877, &mut today, &mut week, &mut month, windows);
    assert_eq!((today, week, month), (6, 8, 9));
    accumulate_day(739859, &mut today, &mut week, &mut month, windows);
    assert_eq!((today, week, month), (6, 8, 9));
}

#[test]
fn what_is_registered_today_is_counted_today() {
    let now = friday();
    let mut kept = vec![record("skill", "2026-01-01T00:00:00Z")];
    let windows = stats_windows(&now);
    let before = count_records(&kept, windows);
    kept.push(record("skill", &now.timestamp()));
    let after = count_records(&kept, windows);
    assert_eq!(after.today_count, before.today_count + 1);
    assert_eq!(after.week_count, before.week_count + 1);
    assert_eq!(after.month_count, before.month_count + 1);
}

#[test]
fn reports_need_their_settings() {
    let stats = RegistrarStats {
        resource_record_count: 12,
        type_counts: [1, 2, 3, 4],
        today_count: 5,
        week_count: 6,
        month_count: 7,
    };
    let body = registrar_stats_report("did:x", &friday().rfc3339(), &stats);
    let mut config = StatsReportConfig {
        enabled: true,
        node_id: None,
        endpoint: None,
        token: None,
        interval_seconds: 60,
    };
    assert_eq!(stats_report(&config, &body).unwrap_err(), "stats_report.endpoint is required");
    config.endpoint = Some("http://home".to_string());
    assert_eq!(stats_report(&config, &body).unwrap_err(), "stats_report.token is required");
    config.token = Some("t".to_string());
    assert_eq!(stats_report(&config, &body).unwrap_err(), "stats_report.node_id is required");
    config.node_id = Some("n".to_string());
    let report = stats_report(&config, &body).unwrap();
    assert_eq!((report.endpoint.as_str(), report.token.as_str()), ("http://home", "t"));
    assert_eq!(
        report.payload,
        json(
            "{\"nodeId\": \"n\", \"role\": \"registrar\", \"status\": \"online\", \
              \"generatedAt\": \"2026-09-18T10:20:30+00:00\", \
              \"resourceTotals\": {\"registeredResources\": 12}, \
              \"resourcesByType\": {\"agentService\": 1, \"skill\": 2, \"mcpServer\": 3, \
                \"toolApi\": 4}, \
              \"registrationWindows\": {\"today\": 5, \"thisWeek\": 6, \"thisMonth\": 7}}"
        )
    );
    let empty = stats_report(&config, &json("{}")).unwrap();
    assert!(empty.payload["resourceTotals"]["registeredResources"].is_null());
}

#[test]
fn answers_to_reports_are_judged_by_status() {
    assert_eq!(stats_report_outcome(200, "200 OK", ""), Ok(()));
    assert_eq!(stats_report_outcome(299, "299", ""), Ok(()));
    assert_eq!(
        stats_report_outcome(401, "401 Unauthorized", "bad token"),
        Err("homepage returned 401 Unauthorized: bad token".to_string())
    );
    assert!(stats_report_outcome(300, "300", "").is_err());
    assert!(stats_report_outcome(199, "199", "").is_err());
}

#[test]
fn instants_are_read_back_from_what_was_written() {
    for (seconds, nanos) in [
        (0, 0),
        (1789726830, 1),
        (1789726830, 120_000_000),
        (59, 1_500_000_000),
        (253402300799, 999_999_999),
    ] {
        let written = Instant::new(seconds, nanos).unwrap().timestamp();
        let read = Instant::parse(&written).unwrap();
        assert_eq!(read.timestamp(), written);
        let held = chrono::DateTime::parse_from_rfc3339(&written).unwrap();
        assert_eq!((held.timestamp(), held.timestamp_subsec_nanos()), (seconds, nanos));
    }
    assert_eq!(Instant::parse("2026-09-18T12:20:30+02:00").unwrap().timestamp(), friday().timestamp());
    assert!(Instant::parse("2026-09-18").is_none());
    assert!(Instant::parse("").is_none());
}

#[test]
fn clocks_may_be_apart_by_the_skew() {
    let now = friday();
    let at = |seconds: i64, nanos: u32| Instant::new(1789726830 + seconds, nanos).unwrap();
    assert!(check_skew(&now, &now));
    assert!(check_skew(&at(300, 0), &now) && check_skew(&at(-300, 0), &now));
    assert!(!check_skew(&at(300, 1), &now) && !check_skew(&at(-301, 999_999_999), &now));
}
