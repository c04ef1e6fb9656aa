//! Properties of the library as a whole: what routing promises for the tool
//! catalog, how forecast points are resolved, what a forecast row holds, which
//! forecast assets are chosen and what `unsupported` lists.
use vstd::prelude::*;

use crate::csv_table::unix_newlines;
use crate::forecast::{
    asset_name_parts, at_time, cams_day_time, is_compact_date, field_matches, field_equals, greatest_text, hour_limit,
    latest_for, partial_matches, point_mentions, point_query_key, resolution,
    unsupported_entries, ForecastPoint, MetricStatus, PointField,
};
use crate::mcp_engine::{
    lists_tools, object_schemas, tool_view, ToolInfo, ToolsListResponse, JSONRPC_VERSION, rejects, routes_request, routes_tool_call, tool_catalog_spec, RequestAction, ToolCallParams,
    INVALID_PARAMS, METHOD_NOT_FOUND,
};
use crate::text::{
    ascii_upper, is_white_space, lemma_case_folding, lemma_trimmed_padded, lemma_lex_irreflexive, lemma_lex_total, lemma_lex_transitive,
    lemma_split_nonempty, lex_lt, split_on,
};

verus! {

// ── Routing ─────────────────────────────────────────────────────────────────

/// Every tool that `tools/list` names can be called through `tools/call`: when
/// the request names it and gives its required arguments, the request runs a
/// tool and is not refused.
pub proof fn law_listed_tools_are_callable(k: int, params: ToolCallParams, action: RequestAction)
    requires
        0 <= k < tool_catalog_spec().len(),
        params.name matches Some(n) && n@ == tool_catalog_spec()[k].0,
        tool_catalog_spec()[k].3.contains("species"@) ==> params.arguments.species is Some,
        tool_catalog_spec()[k].3.contains("point_query"@) ==> params.arguments.point_query is Some,
        routes_tool_call(params, action),
    ensures
        action is CallTool,
{
    reveal_strlit("list_weather_stations");
    reveal_strlit("get_precipitation");
    reveal_strlit("get_wind_speed_10min");
    reveal_strlit("get_wind_gusts_10min");
    reveal_strlit("get_sunshine");
    reveal_strlit("get_global_radiation");
    reveal_strlit("list_pollen_stations");
    reveal_strlit("get_pollen_measurement");
    reveal_strlit("get_local_forecast");
    reveal_strlit("species");
    reveal_strlit("point_query");
    let names = seq![
        "list_weather_stations"@,
        "get_precipitation"@,
        "get_wind_speed_10min"@,
        "get_wind_gusts_10min"@,
        "get_sunshine"@,
        "get_global_radiation"@,
        "list_pollen_stations"@,
        "get_pollen_measurement"@,
        "get_local_forecast"@,
    ];
    assert(tool_catalog_spec()[k].0 == names[k]);
    // the names differ pairwise
    assert forall|a: int, b: int| 0 <= a < b < 9 implies names[a] != names[b] by {
        if names[a].len() == names[b].len() {
            assert(names[a][9] != names[b][9] || names[a][4] != names[b][4] || names[a][0] != names[b][0]);
        }
    }
    let required = tool_catalog_spec()[k].3;
    if k == 7 {
        assert(required[0] == "species"@);
    }
    if k == 8 {
        assert(required[0] == "point_query"@);
    }
}

/// The tool list does not depend on the request: any two answers to
/// `tools/list` list the same tools with the same schemas, every schema an
/// object, each carrying its own request's id.
pub proof fn law_tool_list_does_not_depend_on_id(
    r1: ToolsListResponse,
    id1: serde_json::Value,
    r2: ToolsListResponse,
    id2: serde_json::Value,
)
    requires
        lists_tools(r1, id1),
        lists_tools(r2, id2),
    ensures
        r1.tools@.map_values(|t: ToolInfo| tool_view(t)) == r2.tools@.map_values(|t: ToolInfo| tool_view(t)),
        object_schemas(r1.tools@),
        object_schemas(r2.tools@),
        r1.jsonrpc@ == JSONRPC_VERSION@ && r2.jsonrpc@ == JSONRPC_VERSION@,
        r1.id == Some(id1) && r2.id == Some(id2),
{
}

/// A refused request gets one of the two documented codes: `-32602` for a
/// missing argument, `-32601` for an unknown method or tool.
pub proof fn law_rejection_codes(method: Seq<char>, params: ToolCallParams, action: RequestAction)
    requires
        routes_request(method, params, action),
        action is Reject,
    ensures
        action->Reject_0.code == INVALID_PARAMS || action->Reject_0.code == METHOD_NOT_FOUND,
{
}

/// A `tools/call` request without a tool name is refused as a missing
/// argument, whatever else it holds.
pub proof fn law_missing_tool_name(params: ToolCallParams, action: RequestAction)
    requires
        params.name is None,
        routes_request("tools/call"@, params, action),
    ensures
        rejects(action, INVALID_PARAMS, "Missing argument 'name'"@),
{
    reveal_strlit("tools/call");
    reveal_strlit("initialize");
    reveal_strlit("notifications/initialized");
    reveal_strlit("tools/list");
    assert("tools/call"@ != "initialize"@) by {
        assert("tools/call"@[0] != "initialize"@[0]);
    }
    assert("tools/call"@ != "notifications/initialized"@) by {
        assert("tools/call"@.len() != "notifications/initialized"@.len());
    }
    assert("tools/call"@ != "tools/list"@) by {
        assert("tools/call"@[6] != "tools/list"@[6]);
    }
}

// ── Point resolution ────────────────────────────────────────────────────────

proof fn lemma_filter_member(s: Seq<ForecastPoint>, pred: spec_fn(ForecastPoint) -> bool, i: int)
    requires
        0 <= i < s.filter(pred).len(),
    ensures
        s.contains(s.filter(pred)[i]),
        pred(s.filter(pred)[i]),
    decreases s.len(),
{
    reveal(Seq::filter);
    let sub = s.drop_last().filter(pred);
    if pred(s.last()) && i == sub.len() {
        assert(s[s.len() - 1] == s.filter(pred)[i]);
    } else {
        assert(s.filter(pred)[i] == sub[i]);
        lemma_filter_member(s.drop_last(), pred, i);
        let w = choose|w: int| 0 <= w < s.drop_last().len() && s.drop_last()[w] == sub[i];
        assert(s[w] == sub[i]);
    }
}

/// A resolved point is one of the given points, and it answers the query:
/// one of its identifiers equals the normalised query, or its name, station
/// abbreviation or postal code contains it.
pub proof fn law_resolved_point_matches_query(points: Seq<ForecastPoint>, query: Seq<char>)
    requires
        resolution(points, query) is Ok,
    ensures
        ({
            let p = resolution(points, query)->Ok_0;
            let q = point_query_key(query);
            &&& points.contains(p)
            &&& field_equals(p, PointField::PointId, q) || field_equals(p, PointField::StationAbbr, q)
                || field_equals(p, PointField::PostalCode, q) || field_equals(p, PointField::PointName, q)
                || point_mentions(p, q)
        }),
{
    let q = point_query_key(query);
    let ids = field_matches(points, PointField::PointId, q);
    let abbrs = field_matches(points, PointField::StationAbbr, q);
    let postals = field_matches(points, PointField::PostalCode, q);
    let names = field_matches(points, PointField::PointName, q);
    let partial = partial_matches(points, q);
    if ids.len() == 1 {
        lemma_filter_member(points, |p: ForecastPoint| field_equals(p, PointField::PointId, q), 0);
    } else if ids.len() == 0 && abbrs.len() == 1 {
        lemma_filter_member(points, |p: ForecastPoint| field_equals(p, PointField::StationAbbr, q), 0);
    } else if ids.len() == 0 && abbrs.len() == 0 && postals.len() == 1 {
        lemma_filter_member(points, |p: ForecastPoint| field_equals(p, PointField::PostalCode, q), 0);
    } else if ids.len() == 0 && abbrs.len() == 0 && postals.len() == 0 && names.len() == 1 {
        lemma_filter_member(points, |p: ForecastPoint| field_equals(p, PointField::PointName, q), 0);
    } else if ids.len() == 0 && abbrs.len() == 0 && postals.len() == 0 && names.len() == 0
        && partial.len() == 1 {
        lemma_filter_member(points, |p: ForecastPoint| point_mentions(p, q), 0);
    }
}

/// A single exact point-id match decides the query, whatever the other
/// points' abbreviations, postal codes and names say.
pub proof fn law_point_id_match_comes_first(points: Seq<ForecastPoint>, query: Seq<char>)
    requires
        point_query_key(query).len() > 0,
        field_matches(points, PointField::PointId, point_query_key(query)).len() == 1,
    ensures
        resolution(points, query) == Ok::<ForecastPoint, Seq<char>>(
            field_matches(points, PointField::PointId, point_query_key(query))[0],
        ),
{
}

/// When no identifier matches exactly and several points match partially,
/// the query is refused as ambiguous.
pub proof fn law_ambiguous_partial_match_is_refused(points: Seq<ForecastPoint>, query: Seq<char>)
    requires
        point_query_key(query).len() > 0,
        field_matches(points, PointField::PointId, point_query_key(query)).len() == 0,
        field_matches(points, PointField::StationAbbr, point_query_key(query)).len() == 0,
        field_matches(points, PointField::PostalCode, point_query_key(query)).len() == 0,
        field_matches(points, PointField::PointName, point_query_key(query)).len() == 0,
        partial_matches(points, point_query_key(query)).len() >= 2,
    ensures
        resolution(points, query) is Err,
{
}

/// Two queries with the same normalised form resolve alike: both to the same
/// point, or both fail (their messages may quote the queries as given).
pub proof fn law_same_key_same_point(points: Seq<ForecastPoint>, q1: Seq<char>, q2: Seq<char>)
    requires
        point_query_key(q1) == point_query_key(q2),
    ensures
        (resolution(points, q1) is Ok) == (resolution(points, q2) is Ok),
        resolution(points, q1) is Ok ==> resolution(points, q2) == resolution(points, q1),
{
}

/// A point query ignores ASCII case and surrounding whitespace: padding it
/// with whitespace and uppercasing it resolves to the same point, or fails
/// as well.
pub proof fn law_point_query_ignores_case_and_padding(
    points: Seq<ForecastPoint>,
    query: Seq<char>,
    left: Seq<char>,
    right: Seq<char>,
)
    requires
        forall|k: int| 0 <= k < left.len() ==> is_white_space(#[trigger] left[k]),
        forall|k: int| 0 <= k < right.len() ==> is_white_space(#[trigger] right[k]),
    ensures
        ({
            let padded = left + ascii_upper(query) + right;
            &&& (resolution(points, padded) is Ok) == (resolution(points, query) is Ok)
            &&& resolution(points, query) is Ok ==> resolution(points, padded) == resolution(points, query)
        }),
{
    let padded = left + ascii_upper(query) + right;
    lemma_trimmed_padded(left, ascii_upper(query), right);
    lemma_case_folding(query);
    lemma_case_folding(crate::text::trimmed(query));
    assert(point_query_key(padded) == point_query_key(query));
    law_same_key_same_point(points, query, padded);
}

// ── Forecast rows and assets ────────────────────────────────────────────────

/// A forecast row holds only what the series forecast for its time: each of
/// its (field, value) pairs is a (field, time, value) entry of the series.
pub proof fn law_row_values_come_from_series(
    entries: Seq<(Seq<char>, Seq<char>, Seq<char>)>,
    t: Seq<char>,
    k: int,
)
    requires
        0 <= k < at_time(entries, t).len(),
    ensures
        entries.contains((at_time(entries, t)[k].0, t, at_time(entries, t)[k].1)),
    decreases entries.len(),
{
    let prev = at_time(entries.drop_last(), t);
    if entries.last().1 == t && k == prev.len() {
        assert(entries[entries.len() - 1] == (at_time(entries, t)[k].0, t, at_time(entries, t)[k].1));
    } else {
        assert(at_time(entries, t)[k] == prev[k]);
        law_row_values_come_from_series(entries.drop_last(), t, k);
        let w = choose|w: int|
            0 <= w < entries.drop_last().len() && entries.drop_last()[w] == (prev[k].0, t, prev[k].1);
        assert(entries[w] == entries.drop_last()[w]);
    }
}

/// The asset name is one for parameter `code`.
pub open spec fn names_code(name: Seq<char>, code: Seq<char>) -> bool {
    asset_name_parts(name) matches Some((_, c)) && c == code
}

/// The issue timestamp that an asset name gives (empty when it gives none).
pub open spec fn name_timestamp(name: Seq<char>) -> Seq<char> {
    match asset_name_parts(name) {
        Some((t, _)) => t,
        None => Seq::empty(),
    }
}

/// The asset chosen for a parameter is the newest one listed for it: it is
/// one of the listed assets, named for that parameter, and no asset for the
/// parameter has a later issue timestamp. Nothing is chosen only when no
/// asset is for the parameter.
pub proof fn law_latest_asset_is_newest(assets: Seq<(Seq<char>, Seq<char>)>, code: Seq<char>)
    ensures
        match latest_for(assets, code) {
            Some((t, h)) => {
                &&& exists|j: int|
                    0 <= j < assets.len() && #[trigger] assets[j].1 == h && asset_name_parts(assets[j].0)
                        == Some((t, code))
                &&& forall|j: int|
                    0 <= j < assets.len() ==> (#[trigger] names_code(assets[j].0, code) ==> !lex_lt(t, name_timestamp(assets[j].0)))
            },
            None => forall|j: int|
                0 <= j < assets.len() ==> !#[trigger] names_code(assets[j].0, code),
        },
    decreases assets.len(),
{
    if assets.len() > 0 {
        let init = assets.drop_last();
        law_latest_asset_is_newest(init, code);
        let last = assets.last();
        let n = assets.len() - 1;
        assert forall|j: int| 0 <= j < n implies #[trigger] assets[j] == init[j] by {}
        match latest_for(init, code) {
            Some((pt, ph)) => {
                let w = choose|j: int|
                    0 <= j < init.len() && #[trigger] init[j].1 == ph && asset_name_parts(init[j].0) == Some(
                        (pt, code),
                    );
                assert(assets[w] == init[w]);
                match asset_name_parts(last.0) {
                    Some((ts, c)) => {
                        if c == code && lex_lt(pt, ts) {
                            assert(assets[n] == last);
                            assert forall|j: int|
                                0 <= j < assets.len() implies (#[trigger] names_code(assets[j].0, code) ==> !lex_lt(ts, name_timestamp(assets[j].0))) by {
                                if j < n {
                                    if names_code(assets[j].0, code) {
                                        let ts2 = name_timestamp(assets[j].0);
                                        assert(!lex_lt(pt, ts2));
                                        if lex_lt(ts, ts2) {
                                            lemma_lex_transitive(pt, ts, ts2);
                                        }
                                    }
                                } else {
                                    lemma_lex_irreflexive(ts);
                                }
                            }
                        } else {
                            assert forall|j: int|
                                0 <= j < assets.len() implies (#[trigger] names_code(assets[j].0, code) ==> !lex_lt(pt, name_timestamp(assets[j].0))) by {
                                if j == n {
                                    assert(assets[j] == last);
                                }
                            }
                        }
                    },
                    None => {
                        assert forall|j: int|
                            0 <= j < assets.len() implies (#[trigger] names_code(assets[j].0, code) ==> !lex_lt(pt, name_timestamp(assets[j].0))) by {
                            if j == n {
                                assert(assets[j] == last);
                            }
                        }
                    },
                }
            },
            None => {
                match asset_name_parts(last.0) {
                    Some((ts, c)) => {
                        if c == code {
                            assert(assets[n] == last);
                            assert forall|j: int|
                                0 <= j < assets.len() implies (#[trigger] names_code(assets[j].0, code) ==> !lex_lt(ts, name_timestamp(assets[j].0))) by {
                                if j == n {
                                    lemma_lex_irreflexive(ts);
                                }
                            }
                        } else {
                            assert forall|j: int|
                                0 <= j < assets.len() implies !#[trigger] names_code(assets[j].0, code) by {
                                if j == n {
                                    assert(assets[j] == last);
                                }
                            }
                        }
                    },
                    None => {
                        assert forall|j: int|
                            0 <= j < assets.len() implies !#[trigger] names_code(assets[j].0, code) by {
                            if j == n {
                                assert(assets[j] == last);
                            }
                        }
                    },
                }
            },
        }
    }
}

/// The reported issue time is the newest one: no timestamp is later, and
/// when there are timestamps it is one of them.
pub proof fn law_issue_time_is_newest(texts: Seq<Seq<char>>)
    ensures
        forall|i: int| 0 <= i < texts.len() ==> !lex_lt(greatest_text(texts), #[trigger] texts[i]),
        texts.len() > 0 ==> texts.contains(greatest_text(texts)),
    decreases texts.len(),
{
    if texts.len() > 0 {
        let init = texts.drop_last();
        law_issue_time_is_newest(init);
        let m = greatest_text(init);
        let last = texts.last();
        assert forall|i: int| 0 <= i < texts.len() implies !lex_lt(greatest_text(texts), #[trigger] texts[i]) by {
            if i < texts.len() - 1 {
                assert(texts[i] == init[i]);
                if lex_lt(m, last) {
                    if lex_lt(last, texts[i]) {
                        lemma_lex_transitive(m, last, texts[i]);
                    }
                }
            } else {
                if lex_lt(m, last) {
                    lemma_lex_irreflexive(last);
                }
            }
        }
        if lex_lt(m, last) {
            assert(texts[texts.len() - 1] == last);
        } else if init.len() > 0 {
            let w = choose|w: int| 0 <= w < init.len() && init[w] == m;
            assert(texts[w] == m);
        } else {
            // no earlier timestamp: the greatest is the empty text, which is
            // not before the last one, so the last one is empty too
            if m != last {
                lemma_lex_total(m, last);
            }
            assert(texts[0] == last);
        }
    }
}

/// The number of hourly forecast rows asked for always lies in `1..=96`.
pub proof fn law_hour_limit_bounds(hours: Option<u64>)
    ensures
        1 <= hour_limit(hours) <= 96,
{
}

// ── Unsupported metrics ─────────────────────────────────────────────────────

/// `unsupported` lists exactly the unavailable metrics: it is empty if and
/// only if the UV index, the current air quality and the air quality index
/// are all available, and each entry names a metric that is unavailable.
pub proof fn law_unsupported_lists_only_unavailable(
    uv_index: MetricStatus,
    air_quality_current: MetricStatus,
    air_quality_aqi: MetricStatus,
)
    ensures
        ({
            let u = unsupported_entries(uv_index, air_quality_current, air_quality_aqi);
            &&& (u.len() == 0 <==> uv_index.available && air_quality_current.available
                && air_quality_aqi.available)
            &&& forall|k: int|
                0 <= k < u.len() ==> (#[trigger] u[k].0 == "uv_index"@ && !uv_index.available) || (u[k].0
                    == "air_quality_current"@ && !air_quality_current.available) || (u[k].0
                    == "air_quality_aqi"@ && !air_quality_aqi.available)
        }),
{
}

// ── Text formats ────────────────────────────────────────────────────────────

/// A MeteoSwiss daily timestamp `YYYYMMDDhhmm` names the same day as its date
/// part `YYYYMMDD`: one is accepted exactly when the other is, and both give
/// the same CAMS day time.
pub proof fn law_daily_timestamp_names_its_day(bytes: Seq<u8>)
    requires
        bytes.len() == 12,
    ensures
        is_compact_date(bytes) <==> is_compact_date(bytes.take(8)),
        cams_day_time(bytes) == cams_day_time(bytes.take(8)),
{
    let day = bytes.take(8);
    assert forall|i: int| 0 <= i < 8 implies #[trigger] day[i] == bytes[i] by {}
    assert(cams_day_time(bytes) =~= cams_day_time(day));
}

/// Normalised line endings hold no carriage return.
pub proof fn law_no_carriage_return_left(s: Seq<char>)
    ensures
        !unix_newlines(s).contains('\r'),
    decreases s.len(),
{
    if s.len() > 0 {
        law_no_carriage_return_left(s.drop_first());
        let rest = unix_newlines(s.drop_first());
        if !(s[0] == '\r' && s.len() > 1 && s[1] == '\n') {
            let c = if s[0] == '\r' { '\n' } else { s[0] };
            assert(unix_newlines(s) == seq![c] + rest);
            if unix_newlines(s).contains('\r') {
                let w = choose|w: int| 0 <= w < unix_newlines(s).len() && unix_newlines(s)[w] == '\r';
                if w > 0 {
                    assert(rest[w - 1] == '\r');
                }
            }
        }
    }
}

proof fn lemma_split_plain(s: Seq<char>, d: char)
    requires
        !s.contains(d),
    ensures
        split_on(s, d) == seq![s],
    decreases s.len(),
{
    if s.len() == 0 {
        assert(s =~= Seq::<char>::empty());
        assert(split_on(s, d) =~= seq![s]);
    } else {
        assert(!s.drop_last().contains(d)) by {
            if s.drop_last().contains(d) {
                let w = choose|w: int| 0 <= w < s.drop_last().len() && s.drop_last()[w] == d;
                assert(s[w] == d);
            }
        }
        lemma_split_plain(s.drop_last(), d);
        assert(s[s.len() - 1] != d);
        assert(s.drop_last().push(s.last()) =~= s);
        let init = split_on(s.drop_last(), d);
        assert(init == seq![s.drop_last()]);
        assert(split_on(s, d) == init.update(init.len() - 1, init.last().push(s.last())));
        assert(split_on(s, d) =~= seq![s]);
    }
}

proof fn lemma_split_join(a: Seq<char>, b: Seq<char>, d: char)
    ensures
        split_on(a + seq![d] + b, d) == split_on(a, d) + split_on(b, d),
    decreases b.len(),
{
    if b.len() == 0 {
        assert(a + seq![d] + b =~= a.push(d));
        assert((a.push(d)).drop_last() =~= a);
        assert(split_on(a, d) + split_on(b, d) =~= split_on(a, d).push(Seq::<char>::empty()));
    } else {
        let s = a + seq![d] + b;
        assert(s.drop_last() =~= a + seq![d] + b.drop_last());
        assert(s.last() == b.last());
        lemma_split_join(a, b.drop_last(), d);
        lemma_split_nonempty(b.drop_last(), d);
        lemma_split_nonempty(a, d);
        let left = split_on(a, d);
        let right = split_on(b.drop_last(), d);
        if b.last() == d {
            assert(split_on(s, d) =~= left + right.push(Seq::<char>::empty()));
        } else {
            assert((left + right).update(
                (left + right).len() - 1,
                (left + right).last().push(b.last()),
            ) =~= left + right.update(right.len() - 1, right.last().push(b.last())));
        }
    }
}

/// A forecast asset name `prefix.source.timestamp.code.csv` whose pieces hold
/// no dot names that issue timestamp and parameter code.
pub proof fn law_asset_name_roundtrip(
    prefix: Seq<char>,
    source: Seq<char>,
    timestamp: Seq<char>,
    code: Seq<char>,
)
    requires
        !prefix.contains('.'),
        !source.contains('.'),
        !timestamp.contains('.'),
        !code.contains('.'),
    ensures
        asset_name_parts(
            prefix + seq!['.'] + source + seq!['.'] + timestamp + seq!['.'] + code + seq!['.'] + "csv"@,
        ) == Some((timestamp, code)),
{
    reveal_strlit("csv");
    let csv = "csv"@;
    assert(!csv.contains('.')) by {
        if csv.contains('.') {
            let w = choose|w: int| 0 <= w < csv.len() && csv[w] == '.';
        }
    }
    let n1 = prefix + seq!['.'] + source;
    let n2 = n1 + seq!['.'] + timestamp;
    let n3 = n2 + seq!['.'] + code;
    lemma_split_plain(prefix, '.');
    lemma_split_plain(source, '.');
    lemma_split_plain(timestamp, '.');
    lemma_split_plain(code, '.');
    lemma_split_plain(csv, '.');
    lemma_split_join(prefix, source, '.');
    lemma_split_join(n1, timestamp, '.');
    lemma_split_join(n2, code, '.');
    lemma_split_join(n3, csv, '.');
    let parts = split_on(n3 + seq!['.'] + csv, '.');
    assert(parts =~= seq![prefix, source, timestamp, code, csv]);
}

} // verus!
