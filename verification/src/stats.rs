//! How many resources are registered, of which type, and how many of them lately.

use crate::calendar;
use crate::config::{self, StatsReportConfig};
use crate::error;
use crate::json::{self, JsonModel};
use crate::text;
use crate::time::{self, Instant};
use serde_json::Value;
use vstd::prelude::*;

verus! {

/// The days on which the windows begin that registrations are counted in.
#[derive(Clone, Copy, Debug)]
pub struct StatsWindows {
    pub today: i32,
    pub week_start: i32,
    pub month_start: i32,
}

/// The windows of a day: the day itself, its week from Monday on, and its month.
pub open spec fn windows_of(day: int) -> (int, int, int) {
    (day, day - time::days_since_monday(day), time::month_start_of(day))
}

impl View for StatsWindows {
    type V = (int, int, int);

    open spec fn view(&self) -> (int, int, int) {
        (self.today as int, self.week_start as int, self.month_start as int)
    }
}

/// Counts of registered resources: all of them, by type (Agent Service, Skill, MCP Server,
/// Tool/API), and by window.
#[derive(Debug)]
pub struct RegistrarStats {
    pub resource_record_count: usize,
    pub type_counts: [i64; 4],
    pub today_count: i64,
    pub week_count: i64,
    pub month_count: i64,
}

/// Counts as a mathematical value.
pub struct Counts {
    pub total: int,
    pub agent_service: int,
    pub skill: int,
    pub mcp_server: int,
    pub tool_api: int,
    pub today: int,
    pub week: int,
    pub month: int,
}

impl View for RegistrarStats {
    type V = Counts;

    open spec fn view(&self) -> Counts {
        Counts {
            total: self.resource_record_count as int,
            agent_service: self.type_counts@[0] as int,
            skill: self.type_counts@[1] as int,
            mcp_server: self.type_counts@[2] as int,
            tool_api: self.type_counts@[3] as int,
            today: self.today_count as int,
            week: self.week_count as int,
            month: self.month_count as int,
        }
    }
}

/// Whether a record is of the type.
pub open spec fn is_type(record: JsonModel, name: Seq<char>) -> bool {
    json::text_field(record, "resourceType"@) == Some(name)
}

/// The day on which a record says that its resource was submitted.
pub open spec fn day_submitted(record: JsonModel) -> Option<int> {
    match json::text_field(record, "submittedAt"@) {
        Some(written) => time::submitted_day(written),
        None => None,
    }
}

/// Whether a record was submitted on the day.
pub open spec fn submitted_on(record: JsonModel, day: int) -> bool {
    day_submitted(record) == Some(day)
}

/// Whether a record was submitted on the day or later.
pub open spec fn submitted_since(record: JsonModel, day: int) -> bool {
    day_submitted(record) is Some && day_submitted(record)->0 >= day
}

/// How many records something is true of.
pub open spec fn count(records: Seq<JsonModel>, property: spec_fn(JsonModel) -> bool) -> int
    decreases records.len(),
{
    if records.len() == 0 {
        0
    } else {
        count(records.drop_last(), property) + (if property(records.last()) {
            1int
        } else {
            0
        })
    }
}

/// The counts of the records, in the windows that begin on the given days.
pub open spec fn counts_of(records: Seq<JsonModel>, windows: (int, int, int)) -> Counts {
    Counts {
        total: records.len() as int,
        agent_service: count(records, |record: JsonModel| is_type(record, "agent_service"@)),
        skill: count(records, |record: JsonModel| is_type(record, "skill"@)),
        mcp_server: count(records, |record: JsonModel| is_type(record, "mcp_server"@)),
        tool_api: count(records, |record: JsonModel| is_type(record, "tool_api"@)),
        today: count(records, |record: JsonModel| submitted_on(record, windows.0)),
        week: count(records, |record: JsonModel| submitted_since(record, windows.1)),
        month: count(records, |record: JsonModel| submitted_since(record, windows.2)),
    }
}

/// One more if the condition holds.
pub open spec fn one_more(before: i64, condition: bool) -> int {
    if condition {
        before + 1
    } else {
        before as int
    }
}

/// The four names of types are different.
proof fn types_differ()
    ensures
        "agent_service"@ != "skill"@,
        "agent_service"@ != "mcp_server"@,
        "agent_service"@ != "tool_api"@,
        "skill"@ != "mcp_server"@,
        "skill"@ != "tool_api"@,
        "mcp_server"@ != "tool_api"@,
{
    reveal_strlit("agent_service");
    reveal_strlit("skill");
    reveal_strlit("mcp_server");
    reveal_strlit("tool_api");
    assert("agent_service"@.len() == 13 && "skill"@.len() == 5);
    assert("mcp_server"@.len() == 10 && "tool_api"@.len() == 8);
}

/// Counts a day on which a resource was submitted in.
pub fn accumulate_day(
    day: i32,
    today_count: &mut i64,
    week_count: &mut i64,
    month_count: &mut i64,
    windows: StatsWindows,
)
    requires
        *old(today_count) < i64::MAX,
        *old(week_count) < i64::MAX,
        *old(month_count) < i64::MAX,
    ensures
        *final(today_count) == one_more(*old(today_count), day == windows@.0),
        *final(week_count) == one_more(*old(week_count), day >= windows@.1),
        *final(month_count) == one_more(*old(month_count), day >= windows@.2),
{
    if day == windows.today {
        *today_count = *today_count + 1;
    }
    if day >= windows.week_start {
        *week_count = *week_count + 1;
    }
    if day >= windows.month_start {
        *month_count = *month_count + 1;
    }
}

/// Counts a record in.
pub fn accumulate_registrar_stats(
    record: &Value,
    type_counts: &mut [i64; 4],
    today_count: &mut i64,
    week_count: &mut i64,
    month_count: &mut i64,
    windows: StatsWindows,
)
    requires
        forall|i: int| 0 <= i < 4 ==> #[trigger] old(type_counts)@[i] < i64::MAX,
        *old(today_count) < i64::MAX,
        *old(week_count) < i64::MAX,
        *old(month_count) < i64::MAX,
    ensures
        final(type_counts)@[0] == one_more(
            old(type_counts)@[0],
            is_type(json::contents(*record), "agent_service"@),
        ),
        final(type_counts)@[1] == one_more(
            old(type_counts)@[1],
            is_type(json::contents(*record), "skill"@),
        ),
        final(type_counts)@[2] == one_more(
            old(type_counts)@[2],
            is_type(json::contents(*record), "mcp_server"@),
        ),
        final(type_counts)@[3] == one_more(
            old(type_counts)@[3],
            is_type(json::contents(*record), "tool_api"@),
        ),
        *final(today_count) == one_more(
            *old(today_count),
            submitted_on(json::contents(*record), windows@.0),
        ),
        *final(week_count) == one_more(
            *old(week_count),
            submitted_since(json::contents(*record), windows@.1),
        ),
        *final(month_count) == one_more(
            *old(month_count),
            submitted_since(json::contents(*record), windows@.2),
        ),
{
    proof {
        types_differ();
    }
    if let Some(name) = json::get_text(record, "resourceType") {
        if text::same_text(name.as_str(), "agent_service") {
            type_counts[0] = type_counts[0] + 1;
        } else if text::same_text(name.as_str(), "skill") {
            type_counts[1] = type_counts[1] + 1;
        } else if text::same_text(name.as_str(), "mcp_server") {
            type_counts[2] = type_counts[2] + 1;
        } else if text::same_text(name.as_str(), "tool_api") {
            type_counts[3] = type_counts[3] + 1;
        }
    }
    if let Some(written) = json::get_text(record, "submittedAt") {
        if let Some(instant) = Instant::parse(written.as_str()) {
            accumulate_day(instant.day(), today_count, week_count, month_count, windows);
        }
    }
}

/// The windows at a point in time. Its week has to begin on a day that exists.
pub fn stats_windows(generated_at: &Instant) -> (windows: StatsWindows)
    requires
        time::day_of(generated_at@) - time::days_since_monday(time::day_of(generated_at@))
            >= time::FIRST_DAY,
    ensures
        windows@ == windows_of(time::day_of(generated_at@)),
        time::FIRST_DAY <= windows.week_start <= windows.today <= time::LAST_DAY,
        time::FIRST_DAY <= windows.month_start <= windows.today,
{
    let today = generated_at.day();
    let since_first: i32 = today - time::FIRST_DAY;
    assert((time::FIRST_DAY - 1) % 7 == 3);
    let since_monday: i32 = (since_first + 3) % 7;
    assert(since_monday == time::days_since_monday(today as int));
    let month_start = time::month_start(today);
    proof {
        calendar::law_every_day_has_one_date(today as int);
    }
    StatsWindows { today, week_start: today - since_monday, month_start }
}

/// Counts records.
pub fn count_records(records: &Vec<Value>, windows: StatsWindows) -> (stats: RegistrarStats)
    requires
        records@.len() <= i64::MAX,
    ensures
        stats@ == counts_of(json::contents_of(records@), windows@),
{
    let ghost models = json::contents_of(records@);
    let mut type_counts: [i64; 4] = [0, 0, 0, 0];
    let mut today_count: i64 = 0;
    let mut week_count: i64 = 0;
    let mut month_count: i64 = 0;
    let mut i: usize = 0;
    while i < records.len()
        invariant
            i <= records@.len() <= i64::MAX,
            models == json::contents_of(records@),
            ({
                let counts = counts_of(models.take(i as int), windows@);
                &&& type_counts@[0] == counts.agent_service
                &&& type_counts@[1] == counts.skill
                &&& type_counts@[2] == counts.mcp_server
                &&& type_counts@[3] == counts.tool_api
                &&& today_count == counts.today
                &&& week_count == counts.week
                &&& month_count == counts.month
            }),
        decreases records@.len() - i,
    {
        proof {
            counts_are_small(models.take(i as int), windows@);
            assert(models.take(i + 1).drop_last() == models.take(i as int));
            assert(models.take(i + 1).last() == json::contents(records@[i as int]));
            assert forall|k: int| 0 <= k < 4 implies #[trigger] type_counts@[k] < i64::MAX by {
                assert(k == 0 || k == 1 || k == 2 || k == 3);
            }
        }
        accumulate_registrar_stats(
            &records[i],
            &mut type_counts,
            &mut today_count,
            &mut week_count,
            &mut month_count,
            windows,
        );
        i = i + 1;
    }
    assert(models.take(models.len() as int) == models);
    RegistrarStats {
        resource_record_count: records.len(),
        type_counts,
        today_count,
        week_count,
        month_count,
    }
}

/// A count is not negative and not above the number of records.
proof fn count_is_small(records: Seq<JsonModel>, property: spec_fn(JsonModel) -> bool)
    ensures
        0 <= count(records, property) <= records.len(),
    decreases records.len(),
{
    if records.len() > 0 {
        count_is_small(records.drop_last(), property);
    }
}

/// None of the counts is above the number of records.
proof fn counts_are_small(records: Seq<JsonModel>, windows: (int, int, int))
    ensures
        ({
            let counts = counts_of(records, windows);
            &&& 0 <= counts.agent_service <= records.len()
            &&& 0 <= counts.skill <= records.len()
            &&& 0 <= counts.mcp_server <= records.len()
            &&& 0 <= counts.tool_api <= records.len()
            &&& 0 <= counts.today <= records.len()
            &&& 0 <= counts.week <= records.len()
            &&& 0 <= counts.month <= records.len()
        }),
{
    count_is_small(records, |record: JsonModel| is_type(record, "agent_service"@));
    count_is_small(records, |record: JsonModel| is_type(record, "skill"@));
    count_is_small(records, |record: JsonModel| is_type(record, "mcp_server"@));
    count_is_small(records, |record: JsonModel| is_type(record, "tool_api"@));
    count_is_small(records, |record: JsonModel| submitted_on(record, windows.0));
    count_is_small(records, |record: JsonModel| submitted_since(record, windows.1));
    count_is_small(records, |record: JsonModel| submitted_since(record, windows.2));
}

/// The counts as they are sent.
pub open spec fn stats_body(did: Seq<char>, generated_at: Seq<char>, counts: Counts) -> JsonModel {
    JsonModel::Object(
        Map::empty().insert("registrarDid"@, JsonModel::Text(did)).insert(
            "generatedAt"@,
            JsonModel::Text(generated_at),
        ).insert("windowTimezone"@, JsonModel::Text("UTC"@)).insert(
            "resourceRecordCount"@,
            JsonModel::Integer(counts.total),
        ).insert("agentServiceCount"@, JsonModel::Integer(counts.agent_service)).insert(
            "skillCount"@,
            JsonModel::Integer(counts.skill),
        ).insert("mcpServerCount"@, JsonModel::Integer(counts.mcp_server)).insert(
            "toolApiCount"@,
            JsonModel::Integer(counts.tool_api),
        ).insert("todayRegistrationCount"@, JsonModel::Integer(counts.today)).insert(
            "weekRegistrationCount"@,
            JsonModel::Integer(counts.week),
        ).insert("monthRegistrationCount"@, JsonModel::Integer(counts.month)),
    )
}

/// The counts as they are sent.
pub fn registrar_stats_report(did: &str, generated_at: &str, stats: &RegistrarStats) -> (body:
    Value)
    ensures
        json::contents(body) == stats_body(did@, generated_at@, stats@),
{
    let mut body = json::object();
    json::set(&mut body, "registrarDid", json::text(did));
    json::set(&mut body, "generatedAt", json::text(generated_at));
    json::set(&mut body, "windowTimezone", json::text("UTC"));
    json::set(&mut body, "resourceRecordCount", json::unsigned(stats.resource_record_count as u64));
    json::set(&mut body, "agentServiceCount", json::signed(stats.type_counts[0]));
    json::set(&mut body, "skillCount", json::signed(stats.type_counts[1]));
    json::set(&mut body, "mcpServerCount", json::signed(stats.type_counts[2]));
    json::set(&mut body, "toolApiCount", json::signed(stats.type_counts[3]));
    json::set(&mut body, "todayRegistrationCount", json::signed(stats.today_count));
    json::set(&mut body, "weekRegistrationCount", json::signed(stats.week_count));
    json::set(&mut body, "monthRegistrationCount", json::signed(stats.month_count));
    body
}

/// The counts of the records that are kept in files, as they are sent.
pub fn registrar_stats_body(did: &str, generated_at: &Instant, records: &Vec<Value>) -> (body:
    Value)
    requires
        records@.len() <= i64::MAX,
        time::day_of(generated_at@) - time::days_since_monday(time::day_of(generated_at@))
            >= time::FIRST_DAY,
    ensures
        json::contents(body) == stats_body(
            did@,
            time::rfc3339_text(generated_at@.seconds, generated_at@.nanos),
            counts_of(json::contents_of(records@), windows_of(time::day_of(generated_at@))),
        ),
{
    let windows = stats_windows(generated_at);
    let stats = count_records(records, windows);
    registrar_stats_report(did, generated_at.rfc3339().as_str(), &stats)
}

/// The first days of the windows as a database compares them: `YYYY-MM-DD`.
pub fn window_texts(windows: &StatsWindows) -> (found: (String, String, String))
    requires
        time::FIRST_DAY <= windows.today <= time::LAST_DAY,
        time::FIRST_DAY <= windows.week_start <= time::LAST_DAY,
        time::FIRST_DAY <= windows.month_start <= time::LAST_DAY,
    ensures
        found.0@ == time::day_text_of(windows@.0),
        found.1@ == time::day_text_of(windows@.1),
        found.2@ == time::day_text_of(windows@.2),
{
    (
        time::day_text(windows.today),
        time::day_text(windows.week_start),
        time::day_text(windows.month_start),
    )
}

/// A report that is ready to be sent to the homepage.
#[derive(Debug)]
pub struct StatsReport {
    pub endpoint: String,
    pub token: String,
    pub payload: Value,
}

/// What is reported of the counts.
pub open spec fn report_payload(node_id: Seq<char>, stats: JsonModel) -> JsonModel {
    JsonModel::Object(
        Map::empty().insert("nodeId"@, JsonModel::Text(node_id)).insert(
            "role"@,
            JsonModel::Text("registrar"@),
        ).insert("status"@, JsonModel::Text("online"@)).insert(
            "generatedAt"@,
            json::member_or_null(stats, "generatedAt"@),
        ).insert(
            "resourceTotals"@,
            JsonModel::Object(
                Map::empty().insert(
                    "registeredResources"@,
                    json::member_or_null(stats, "resourceRecordCount"@),
                ),
            ),
        ).insert(
            "resourcesByType"@,
            JsonModel::Object(
                Map::empty().insert(
                    "agentService"@,
                    json::member_or_null(stats, "agentServiceCount"@),
                ).insert("skill"@, json::member_or_null(stats, "skillCount"@)).insert(
                    "mcpServer"@,
                    json::member_or_null(stats, "mcpServerCount"@),
                ).insert("toolApi"@, json::member_or_null(stats, "toolApiCount"@)),
            ),
        ).insert(
            "registrationWindows"@,
            JsonModel::Object(
                Map::empty().insert(
                    "today"@,
                    json::member_or_null(stats, "todayRegistrationCount"@),
                ).insert("thisWeek"@, json::member_or_null(stats, "weekRegistrationCount"@)).insert(
                    "thisMonth"@,
                    json::member_or_null(stats, "monthRegistrationCount"@),
                ),
            ),
        ),
    )
}

/// The report of the counts, or the setting that it lacks.
pub fn stats_report(config: &StatsReportConfig, stats: &Value) -> (result: Result<
    StatsReport,
    String,
>)
    ensures
        match (config.endpoint, config.token, config.node_id) {
            (None, _, _) => result is Err && result->Err_0@ == "stats_report.endpoint is required"@,
            (Some(_), None, _) => result is Err && result->Err_0@
                == "stats_report.token is required"@,
            (Some(_), Some(_), None) => result is Err && result->Err_0@
                == "stats_report.node_id is required"@,
            (Some(endpoint), Some(token), Some(node_id)) => {
                &&& result is Ok
                &&& result->Ok_0.endpoint@ == endpoint@
                &&& result->Ok_0.token@ == token@
                &&& json::contents(result->Ok_0.payload) == report_payload(
                    node_id@,
                    json::contents(*stats),
                )
            },
        },
{
    let endpoint = match &config.endpoint {
        Some(endpoint) => endpoint.clone(),
        None => {
            return Err("stats_report.endpoint is required".to_owned());
        },
    };
    let token = match &config.token {
        Some(token) => token.clone(),
        None => {
            return Err("stats_report.token is required".to_owned());
        },
    };
    let node_id = match &config.node_id {
        Some(node_id) => node_id.clone(),
        None => {
            return Err("stats_report.node_id is required".to_owned());
        },
    };
    let mut totals = json::object();
    json::set(&mut totals, "registeredResources", json::member(stats, "resourceRecordCount"));
    let mut by_type = json::object();
    json::set(&mut by_type, "agentService", json::member(stats, "agentServiceCount"));
    json::set(&mut by_type, "skill", json::member(stats, "skillCount"));
    json::set(&mut by_type, "mcpServer", json::member(stats, "mcpServerCount"));
    json::set(&mut by_type, "toolApi", json::member(stats, "toolApiCount"));
    let mut windows = json::object();
    json::set(&mut windows, "today", json::member(stats, "todayRegistrationCount"));
    json::set(&mut windows, "thisWeek", json::member(stats, "weekRegistrationCount"));
    json::set(&mut windows, "thisMonth", json::member(stats, "monthRegistrationCount"));
    let mut payload = json::object();
    json::set(&mut payload, "nodeId", json::text(node_id.as_str()));
    json::set(&mut payload, "role", json::text("registrar"));
    json::set(&mut payload, "status", json::text("online"));
    json::set(&mut payload, "generatedAt", json::member(stats, "generatedAt"));
    json::set(&mut payload, "resourceTotals", totals);
    json::set(&mut payload, "resourcesByType", by_type);
    json::set(&mut payload, "registrationWindows", windows);
    Ok(StatsReport { endpoint, token, payload })
}

/// What the homepage's answer to a report comes to. The answer's status is given as a number
/// and in words.
pub fn stats_report_outcome(status: u16, status_text: &str, body: &str) -> (result: Result<
    (),
    String,
>)
    ensures
        error::complaint(result) == (if 200 <= status <= 299 {
            Ok(())
        } else {
            Err("homepage returned "@ + status_text@ + ": "@ + body@)
        }),
{
    if status >= 200 && status <= 299 {
        return Ok(());
    }
    let mut message = text::joined("homepage returned ", status_text);
    message.append(": ");
    message.append(body);
    Err(message)
}

/// A configuration that is switched on and was found valid lacks nothing that a report needs.
pub proof fn law_valid_configurations_can_report(config: StatsReportConfig)
    requires
        config.enabled,
        config::report_config_verdict(config) is Ok,
    ensures
        config.endpoint is Some,
        config.token is Some,
        config.node_id is Some,
        config.interval_seconds > 0,
{
}

/// Records that are kept apart are counted like the same records together.
pub proof fn law_counts_add_up(
    left: Seq<JsonModel>,
    right: Seq<JsonModel>,
    property: spec_fn(JsonModel) -> bool,
)
    ensures
        count(left + right, property) == count(left, property) + count(right, property),
    decreases right.len(),
{
    if right.len() == 0 {
        assert(left + right == left);
    } else {
        assert((left + right).drop_last() == left + right.drop_last());
        law_counts_add_up(left, right.drop_last(), property);
    }
}

/// Taking a record out takes its count out.
proof fn count_without(
    records: Seq<JsonModel>,
    at: int,
    property: spec_fn(JsonModel) -> bool,
)
    requires
        0 <= at < records.len(),
    ensures
        count(records, property) == count(records.remove(at), property) + (if property(
            records[at],
        ) {
            1int
        } else {
            0
        }),
    decreases records.len(),
{
    if at == records.len() - 1 {
        assert(records.remove(at) == records.drop_last());
    } else {
        count_without(records.drop_last(), at, property);
        assert(records.remove(at).drop_last() == records.drop_last().remove(at));
        assert(records.remove(at).last() == records.last());
    }
}

/// The same records in another order are counted as often.
proof fn count_in_another_order(
    left: Seq<JsonModel>,
    right: Seq<JsonModel>,
    property: spec_fn(JsonModel) -> bool,
)
    requires
        left.to_multiset() == right.to_multiset(),
    ensures
        count(left, property) == count(right, property),
    decreases left.len(),
{
    broadcast use vstd::seq_lib::group_to_multiset_ensures;

    assert(left.len() == left.to_multiset().len());
    assert(right.len() == right.to_multiset().len());
    if left.len() > 0 {
        let last = left.last();
        assert(left.contains(last));
        assert(right.to_multiset().count(last) > 0);
        assert(right.contains(last));
        let at = choose|i: int| 0 <= i < right.len() && right[i] == last;
        count_without(right, at, property);
        assert(left.drop_last() == left.remove(left.len() - 1));
        count_in_another_order(left.drop_last(), right.remove(at), property);
    }
}

/// It does not matter in which order the records are kept.
pub proof fn law_counts_ignore_the_order_of_records(
    left: Seq<JsonModel>,
    right: Seq<JsonModel>,
    windows: (int, int, int),
)
    requires
        left.to_multiset() == right.to_multiset(),
    ensures
        counts_of(left, windows) == counts_of(right, windows),
{
    broadcast use vstd::seq_lib::group_to_multiset_ensures;

    assert(left.len() == left.to_multiset().len());
    assert(right.len() == right.to_multiset().len());
    count_in_another_order(left, right, |record: JsonModel| is_type(record, "agent_service"@));
    count_in_another_order(left, right, |record: JsonModel| is_type(record, "skill"@));
    count_in_another_order(left, right, |record: JsonModel| is_type(record, "mcp_server"@));
    count_in_another_order(left, right, |record: JsonModel| is_type(record, "tool_api"@));
    count_in_another_order(left, right, |record: JsonModel| submitted_on(record, windows.0));
    count_in_another_order(left, right, |record: JsonModel| submitted_since(record, windows.1));
    count_in_another_order(left, right, |record: JsonModel| submitted_since(record, windows.2));
}

/// What is true of more records is counted more often.
proof fn weaker_property_counts_more(
    records: Seq<JsonModel>,
    strong: spec_fn(JsonModel) -> bool,
    weak: spec_fn(JsonModel) -> bool,
)
    requires
        forall|record: JsonModel| #[trigger] strong(record) ==> weak(record),
    ensures
        count(records, strong) <= count(records, weak),
    decreases records.len(),
{
    if records.len() > 0 {
        weaker_property_counts_more(records.drop_last(), strong, weak);
    }
}

/// Whoever registered today registered this week and this month, and nobody is counted who
/// is not on record.
pub proof fn law_windows_contain_today(records: Seq<JsonModel>, windows: (int, int, int))
    requires
        windows.1 <= windows.0,
        windows.2 <= windows.0,
    ensures
        0 <= counts_of(records, windows).today <= counts_of(records, windows).week <= records.len(),
        0 <= counts_of(records, windows).today <= counts_of(records, windows).month
            <= records.len(),
{
    counts_are_small(records, windows);
    let today = |record: JsonModel| submitted_on(record, windows.0);
    weaker_property_counts_more(
        records,
        today,
        |record: JsonModel| submitted_since(record, windows.1),
    );
    weaker_property_counts_more(
        records,
        today,
        |record: JsonModel| submitted_since(record, windows.2),
    );
}

/// No record is counted under two types.
pub proof fn law_types_do_not_overlap(records: Seq<JsonModel>, windows: (int, int, int))
    ensures
        ({
            let counts = counts_of(records, windows);
            counts.agent_service + counts.skill + counts.mcp_server + counts.tool_api
                <= counts.total
        }),
    decreases records.len(),
{
    types_differ();
    if records.len() > 0 {
        law_types_do_not_overlap(records.drop_last(), windows);
    }
}

/// A registration of today is counted today, this week and this month.
pub proof fn law_a_registration_of_today_is_counted(
    records: Seq<JsonModel>,
    record: JsonModel,
    windows: (int, int, int),
)
    requires
        windows.1 <= windows.0,
        windows.2 <= windows.0,
        submitted_on(record, windows.0),
    ensures
        counts_of(records.push(record), windows).total == counts_of(records, windows).total + 1,
        counts_of(records.push(record), windows).today == counts_of(records, windows).today + 1,
        counts_of(records.push(record), windows).week == counts_of(records, windows).week + 1,
        counts_of(records.push(record), windows).month == counts_of(records, windows).month + 1,
{
    assert(records.push(record).drop_last() == records);
}

/// The windows of a day begin on the day or before it, the week on a Monday at most six days
/// before.
pub proof fn law_week_begins_on_monday(day: int)
    ensures
        windows_of(day).1 <= windows_of(day).0 <= windows_of(day).1 + 6,
        time::days_since_monday(windows_of(day).1) == 0,
{
}

/// The month's window begins on the first of the month that the day lies in, and holds the day.
pub proof fn law_month_begins_on_the_first(day: int)
    ensures
        calendar::date_of(windows_of(day).2) == (calendar::Date {
            day: 1,
            ..calendar::date_of(day)
        }),
        windows_of(day).2 <= windows_of(day).0,
{
    let date = calendar::date_of(day);
    calendar::law_every_day_has_one_date(day);
    calendar::law_months_begin_on_the_first(date);
    calendar::law_months_begin_on_the_first(calendar::Date { day: 1, ..date });
}

/// The keys of the counts that are sent are all different.
proof fn stats_keys_differ()
    ensures
        "registrarDid"@.len() == 12 && "registrarDid"@[0] == 'r',
        "generatedAt"@.len() == 11,
        "windowTimezone"@.len() == 14 && "windowTimezone"@[0] == 'w',
        "resourceRecordCount"@.len() == 19,
        "agentServiceCount"@.len() == 17,
        "skillCount"@.len() == 10,
        "mcpServerCount"@.len() == 14 && "mcpServerCount"@[0] == 'm',
        "toolApiCount"@.len() == 12 && "toolApiCount"@[0] == 't',
        "todayRegistrationCount"@.len() == 22 && "todayRegistrationCount"@[0] == 't',
        "weekRegistrationCount"@.len() == 21,
        "monthRegistrationCount"@.len() == 22 && "monthRegistrationCount"@[0] == 'm',
{
    reveal_strlit("registrarDid");
    reveal_strlit("generatedAt");
    reveal_strlit("windowTimezone");
    reveal_strlit("resourceRecordCount");
    reveal_strlit("agentServiceCount");
    reveal_strlit("skillCount");
    reveal_strlit("mcpServerCount");
    reveal_strlit("toolApiCount");
    reveal_strlit("todayRegistrationCount");
    reveal_strlit("weekRegistrationCount");
    reveal_strlit("monthRegistrationCount");
}

/// The counts can be read back from the form in which they are sent.
pub proof fn law_sent_counts_are_the_counts(did: Seq<char>, at: Seq<char>, counts: Counts)
    ensures
        ({
            let body = stats_body(did, at, counts);
            &&& json::field(body, "registrarDid"@) == Some(JsonModel::Text(did))
            &&& json::field(body, "generatedAt"@) == Some(JsonModel::Text(at))
            &&& json::field(body, "windowTimezone"@) == Some(JsonModel::Text("UTC"@))
            &&& json::field(body, "resourceRecordCount"@) == Some(JsonModel::Integer(counts.total))
            &&& json::field(body, "agentServiceCount"@) == Some(
                JsonModel::Integer(counts.agent_service),
            )
            &&& json::field(body, "skillCount"@) == Some(JsonModel::Integer(counts.skill))
            &&& json::field(body, "mcpServerCount"@) == Some(JsonModel::Integer(counts.mcp_server))
            &&& json::field(body, "toolApiCount"@) == Some(JsonModel::Integer(counts.tool_api))
            &&& json::field(body, "todayRegistrationCount"@) == Some(
                JsonModel::Integer(counts.today),
            )
            &&& json::field(body, "weekRegistrationCount"@) == Some(
                JsonModel::Integer(counts.week),
            )
            &&& json::field(body, "monthRegistrationCount"@) == Some(
                JsonModel::Integer(counts.month),
            )
        }),
{
    stats_keys_differ();
}

/// A report says what the counts say.
pub proof fn law_report_repeats_the_counts(
    node_id: Seq<char>,
    did: Seq<char>,
    at: Seq<char>,
    counts: Counts,
)
    ensures
        ({
            let report = report_payload(node_id, stats_body(did, at, counts));
            let totals = json::field(report, "resourceTotals"@)->0;
            let by_type = json::field(report, "resourcesByType"@)->0;
            let windows = json::field(report, "registrationWindows"@)->0;
            &&& json::field(report, "nodeId"@) == Some(JsonModel::Text(node_id))
            &&& json::field(report, "generatedAt"@) == Some(JsonModel::Text(at))
            &&& json::field(totals, "registeredResources"@) == Some(
                JsonModel::Integer(counts.total),
            )
            &&& json::field(by_type, "agentService"@) == Some(
                JsonModel::Integer(counts.agent_service),
            )
            &&& json::field(by_type, "skill"@) == Some(JsonModel::Integer(counts.skill))
            &&& json::field(by_type, "mcpServer"@) == Some(JsonModel::Integer(counts.mcp_server))
            &&& json::field(by_type, "toolApi"@) == Some(JsonModel::Integer(counts.tool_api))
            &&& json::field(windows, "today"@) == Some(JsonModel::Integer(counts.today))
            &&& json::field(windows, "thisWeek"@) == Some(JsonModel::Integer(counts.week))
            &&& json::field(windows, "thisMonth"@) == Some(JsonModel::Integer(counts.month))
        }),
{
    law_sent_counts_are_the_counts(did, at, counts);
    reveal_strlit("nodeId");
    reveal_strlit("role");
    reveal_strlit("status");
    reveal_strlit("generatedAt");
    reveal_strlit("resourceTotals");
    reveal_strlit("resourcesByType");
    reveal_strlit("registrationWindows");
    assert("nodeId"@.len() == 6 && "nodeId"@[0] == 'n' && "role"@.len() == 4);
    assert("status"@.len() == 6 && "status"@[0] == 's' && "generatedAt"@.len() == 11);
    assert("resourceTotals"@.len() == 14 && "resourcesByType"@.len() == 15);
    assert("registrationWindows"@.len() == 19);
    reveal_strlit("agentService");
    reveal_strlit("skill");
    reveal_strlit("mcpServer");
    reveal_strlit("toolApi");
    assert("agentService"@.len() == 12 && "skill"@.len() == 5);
    assert("mcpServer"@.len() == 9 && "toolApi"@.len() == 7);
    reveal_strlit("today");
    reveal_strlit("thisWeek");
    reveal_strlit("thisMonth");
    assert("today"@.len() == 5 && "thisWeek"@.len() == 8 && "thisMonth"@.len() == 9);
}

/// Where a record says that its resource was submitted at a point in time, it counts as
/// submitted on a day if that point in time lies between the day's midnights, and since a day if
/// it lies behind its first midnight.
pub proof fn law_records_are_submitted_on_their_day(
    record: JsonModel,
    written: Seq<char>,
    moment: time::Moment,
    day: int,
)
    requires
        json::field(record, "submittedAt"@) == Some(JsonModel::Text(written)),
        time::written_moment(written) == Some(moment),
    ensures
        submitted_on(record, day) <==> (day - 719163) * 86400 <= moment.seconds < (day - 719163 + 1)
            * 86400,
        submitted_since(record, day) <==> (day - 719163) * 86400 <= moment.seconds,
{
}

/// A record that does not say when, in words that can be read, was submitted on no day.
pub proof fn law_records_without_a_time_are_in_no_window(record: JsonModel, day: int)
    requires
        match json::member_or_null(record, "submittedAt"@) {
            JsonModel::Text(written) => time::written_moment(written) is None,
            _ => true,
        },
    ensures
        !submitted_on(record, day),
        !submitted_since(record, day),
{
}

/// One more record is counted where it belongs and nowhere else: once in all, under its own type
/// if that is one of the four, today if it was submitted on the day, this week and this month if
/// it was submitted since the week and the month began.
pub proof fn law_one_more_record_is_counted_where_it_belongs(
    records: Seq<JsonModel>,
    record: JsonModel,
    windows: (int, int, int),
)
    ensures
        ({
            let before = counts_of(records, windows);
            let after = counts_of(records.push(record), windows);
            let kind = json::text_field(record, "resourceType"@);
            let one = |condition: bool|
                if condition {
                    1int
                } else {
                    0
                };
            &&& after.total == before.total + 1
            &&& after.agent_service == before.agent_service + one(kind == Some("agent_service"@))
            &&& after.skill == before.skill + one(kind == Some("skill"@))
            &&& after.mcp_server == before.mcp_server + one(kind == Some("mcp_server"@))
            &&& after.tool_api == before.tool_api + one(kind == Some("tool_api"@))
            &&& after.today == before.today + one(submitted_on(record, windows.0))
            &&& after.week == before.week + one(submitted_since(record, windows.1))
            &&& after.month == before.month + one(submitted_since(record, windows.2))
        }),
{
    assert(records.push(record).drop_last() == records);
}

/// What was submitted before a window began is not counted in it: a registration from before
/// this week's Monday is none of this week, one from before the first is none of this month, and
/// one of another day is none of today.
pub proof fn law_earlier_registrations_are_not_counted(
    records: Seq<JsonModel>,
    record: JsonModel,
    windows: (int, int, int),
    written: Seq<char>,
    moment: time::Moment,
)
    requires
        json::field(record, "submittedAt"@) == Some(JsonModel::Text(written)),
        time::written_moment(written) == Some(moment),
    ensures
        ({
            let before = counts_of(records, windows);
            let after = counts_of(records.push(record), windows);
            let day = moment.seconds / 86400 + 719163;
            &&& after.today == before.today <==> day != windows.0
            &&& after.week == before.week <==> day < windows.1
            &&& after.month == before.month <==> day < windows.2
        }),
{
    law_one_more_record_is_counted_where_it_belongs(records, record, windows);
    law_records_are_submitted_on_their_day(record, written, moment, windows.0);
    law_records_are_submitted_on_their_day(record, written, moment, windows.1);
    law_records_are_submitted_on_their_day(record, written, moment, windows.2);
}

/// Of no records nothing is counted.
pub proof fn law_nothing_is_counted_of_nothing(windows: (int, int, int))
    ensures
        counts_of(Seq::empty(), windows) == (Counts {
            total: 0,
            agent_service: 0,
            skill: 0,
            mcp_server: 0,
            tool_api: 0,
            today: 0,
            week: 0,
            month: 0,
        }),
{
}

/// The windows of a day are the day, the days from the last Monday on (that day itself if it is
/// one), and the days from the first of its month on. The day 1 was a Monday.
pub proof fn law_windows_begin_on_these_days(day: int)
    ensures
        windows_of(day).0 == day,
        (windows_of(day).1 - 1) % 7 == 0,
        day - 7 < windows_of(day).1 <= day,
        calendar::date_of(windows_of(day).2).day == 1,
        calendar::date_of(windows_of(day).2).month == calendar::date_of(day).month,
        calendar::date_of(windows_of(day).2).year == calendar::date_of(day).year,
{
    law_month_begins_on_the_first(day);
}

/// The keys of a report are all different.
proof fn report_keys_differ()
    ensures
        "nodeId"@.len() == 6 && "nodeId"@[0] == 'n',
        "role"@.len() == 4,
        "status"@.len() == 6 && "status"@[0] == 's',
        "generatedAt"@.len() == 11,
        "resourceTotals"@.len() == 14,
        "resourcesByType"@.len() == 15,
        "registrationWindows"@.len() == 19,
{
    reveal_strlit("nodeId");
    reveal_strlit("role");
    reveal_strlit("status");
    reveal_strlit("generatedAt");
    reveal_strlit("resourceTotals");
    reveal_strlit("resourcesByType");
    reveal_strlit("registrationWindows");
}

/// A report comes from a registrar that is online, and holds nothing but its seven members.
pub proof fn law_reports_come_from_a_registrar_that_is_online(node_id: Seq<char>, stats: JsonModel)
    ensures
        json::text_field(report_payload(node_id, stats), "nodeId"@) == Some(node_id),
        json::text_field(report_payload(node_id, stats), "role"@) == Some("registrar"@),
        json::text_field(report_payload(node_id, stats), "status"@) == Some("online"@),
        report_payload(node_id, stats)->Object_0.dom() =~= set![
            "nodeId"@, "role"@, "status"@, "generatedAt"@, "resourceTotals"@, "resourcesByType"@,
            "registrationWindows"@,
        ],
{
    report_keys_differ();
}

/// Counts are seen as they are, each under its own name, and so are the days that windows begin
/// on.
pub proof fn law_counts_are_seen_as_they_are(stats: RegistrarStats, windows: StatsWindows)
    ensures
        stats@.total == stats.resource_record_count,
        stats@.agent_service == stats.type_counts@[0],
        stats@.skill == stats.type_counts@[1],
        stats@.mcp_server == stats.type_counts@[2],
        stats@.tool_api == stats.type_counts@[3],
        stats@.today == stats.today_count,
        stats@.week == stats.week_count,
        stats@.month == stats.month_count,
        windows@.0 == windows.today,
        windows@.1 == windows.week_start,
        windows@.2 == windows.month_start,
{
}

/// Counting in adds one or nothing.
pub proof fn law_counting_in_adds_one_or_nothing(before: i64)
    ensures
        one_more(before, true) == before + 1,
        one_more(before, false) == before,
{
}

/// The counts are sent with nothing else.
pub proof fn law_counts_are_sent_with_nothing_else(did: Seq<char>, at: Seq<char>, counts: Counts)
    ensures
        stats_body(did, at, counts)->Object_0.dom() =~= set![
            "registrarDid"@, "generatedAt"@, "windowTimezone"@, "resourceRecordCount"@,
            "agentServiceCount"@, "skillCount"@, "mcpServerCount"@, "toolApiCount"@,
            "todayRegistrationCount"@, "weekRegistrationCount"@, "monthRegistrationCount"@,
        ],
{
    stats_keys_differ();
}

/// The keys in the parts of a report are all different.
proof fn report_parts_differ()
    ensures
        "agentService"@.len() == 12,
        "skill"@.len() == 5 && "skill"@[0] == 's',
        "mcpServer"@.len() == 9 && "mcpServer"@[0] == 'm',
        "toolApi"@.len() == 7,
        "today"@.len() == 5 && "today"@[0] == 't',
        "thisWeek"@.len() == 8,
        "thisMonth"@.len() == 9 && "thisMonth"@[0] == 't',
{
    reveal_strlit("agentService");
    reveal_strlit("skill");
    reveal_strlit("mcpServer");
    reveal_strlit("toolApi");
    reveal_strlit("today");
    reveal_strlit("thisWeek");
    reveal_strlit("thisMonth");
}

/// A report takes each number over as it was counted, whatever it is, and null where it is
/// missing.
pub proof fn law_reports_take_every_number_over(node_id: Seq<char>, stats: JsonModel)
    ensures
        ({
            let report = report_payload(node_id, stats);
            let totals = json::member_or_null(report, "resourceTotals"@);
            let by_type = json::member_or_null(report, "resourcesByType"@);
            let windows = json::member_or_null(report, "registrationWindows"@);
            let same = |part: JsonModel, key: Seq<char>, counted: Seq<char>|
                json::field(part, key) == Some(json::member_or_null(stats, counted));
            &&& same(report, "generatedAt"@, "generatedAt"@)
            &&& same(totals, "registeredResources"@, "resourceRecordCount"@)
            &&& same(by_type, "agentService"@, "agentServiceCount"@)
            &&& same(by_type, "skill"@, "skillCount"@)
            &&& same(by_type, "mcpServer"@, "mcpServerCount"@)
            &&& same(by_type, "toolApi"@, "toolApiCount"@)
            &&& same(windows, "today"@, "todayRegistrationCount"@)
            &&& same(windows, "thisWeek"@, "weekRegistrationCount"@)
            &&& same(windows, "thisMonth"@, "monthRegistrationCount"@)
            &&& totals->Object_0.dom() =~= set!["registeredResources"@]
            &&& by_type->Object_0.dom() =~= set![
                "agentService"@, "skill"@, "mcpServer"@, "toolApi"@,
            ]
            &&& windows->Object_0.dom() =~= set!["today"@, "thisWeek"@, "thisMonth"@]
        }),
{
    report_keys_differ();
    report_parts_differ();
}

} // verus!
