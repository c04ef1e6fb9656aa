//! Laws on the fixed tables of the server: which MeteoSwiss dataset each
//! pollen species and each interval reads, which code fills each forecast
//! field, which arguments a tool call carries, and which stations a filter
//! selects.
use vstd::prelude::*;

use crate::forecast::{daily_bundle, hour_limit, hourly_bundle};
use crate::mcp_engine::{routes_request, tool_catalog_spec, RequestAction, ToolCall, ToolCallParams};
use crate::stations::{
    interval_key, pollen_path, precipitation_path, radiation_path, station_selected, sunshine_path,
};
use crate::text::{
    ascii_lower, ascii_upper, has_infix, is_white_space, lemma_case_folding, lemma_trimmed_is_span,
    lemma_trimmed_padded, trimmed,
};

verus! {

// ── Pollen ──────────────────────────────────────────────────────────────────

/// Each pollen species reads its own hourly dataset, the one named after the
/// species in German (alder: Erle, ash: Esche, beech: Buche, birch: Birke,
/// grass: Gräser, hazel: Hasel, oak: Eiche), whatever the ASCII case and the
/// surrounding whitespace of the request; any other species reads none.
pub proof fn law_pollen_species_datasets(species: Seq<char>)
    ensures
        ({
            let k = ascii_lower(trimmed(species));
        &&& k == "alder"@ ==> pollen_path(species) == Some("ch.meteoschweiz.messwerte-pollen-erle-1h"@)
        &&& k == "ash"@ ==> pollen_path(species) == Some("ch.meteoschweiz.messwerte-pollen-esche-1h"@)
        &&& k == "beech"@ ==> pollen_path(species) == Some("ch.meteoschweiz.messwerte-pollen-buche-1h"@)
        &&& k == "birch"@ ==> pollen_path(species) == Some("ch.meteoschweiz.messwerte-pollen-birke-1h"@)
        &&& k == "grass"@ ==> pollen_path(species) == Some("ch.meteoschweiz.messwerte-pollen-graeser-1h"@)
        &&& k == "hazel"@ ==> pollen_path(species) == Some("ch.meteoschweiz.messwerte-pollen-hasel-1h"@)
        &&& k == "oak"@ ==> pollen_path(species) == Some("ch.meteoschweiz.messwerte-pollen-eiche-1h"@)
            &&& pollen_path(species) is Some <==> (k == "alder"@ || k == "ash"@ || k == "beech"@ || k == "birch"@ || k == "grass"@ || k == "hazel"@ || k == "oak"@)
        }),
{
    assert("ash"@ != "alder"@) by {
        reveal_strlit("ash");
        reveal_strlit("alder");
        assert("ash"@.len() != "alder"@.len());
    }
    assert("beech"@ != "alder"@) by {
        reveal_strlit("beech");
        reveal_strlit("alder");
        assert("beech"@[0] != "alder"@[0]);
    }
    assert("beech"@ != "ash"@) by {
        reveal_strlit("beech");
        reveal_strlit("ash");
        assert("beech"@.len() != "ash"@.len());
    }
    assert("birch"@ != "alder"@) by {
        reveal_strlit("birch");
        reveal_strlit("alder");
        assert("birch"@[0] != "alder"@[0]);
    }
    assert("birch"@ != "ash"@) by {
        reveal_strlit("birch");
        reveal_strlit("ash");
        assert("birch"@.len() != "ash"@.len());
    }
    assert("birch"@ != "beech"@) by {
        reveal_strlit("birch");
        reveal_strlit("beech");
        assert("birch"@[1] != "beech"@[1]);
    }
    assert("grass"@ != "alder"@) by {
        reveal_strlit("grass");
        reveal_strlit("alder");
        assert("grass"@[0] != "alder"@[0]);
    }
    assert("grass"@ != "ash"@) by {
        reveal_strlit("grass");
        reveal_strlit("ash");
        assert("grass"@.len() != "ash"@.len());
    }
    assert("grass"@ != "beech"@) by {
        reveal_strlit("grass");
        reveal_strlit("beech");
        assert("grass"@[0] != "beech"@[0]);
    }
    assert("grass"@ != "birch"@) by {
        reveal_strlit("grass");
        reveal_strlit("birch");
        assert("grass"@[0] != "birch"@[0]);
    }
    assert("hazel"@ != "alder"@) by {
        reveal_strlit("hazel");
        reveal_strlit("alder");
        assert("hazel"@[0] != "alder"@[0]);
    }
    assert("hazel"@ != "ash"@) by {
        reveal_strlit("hazel");
        reveal_strlit("ash");
        assert("hazel"@.len() != "ash"@.len());
    }
    assert("hazel"@ != "beech"@) by {
        reveal_strlit("hazel");
        reveal_strlit("beech");
        assert("hazel"@[0] != "beech"@[0]);
    }
    assert("hazel"@ != "birch"@) by {
        reveal_strlit("hazel");
        reveal_strlit("birch");
        assert("hazel"@[0] != "birch"@[0]);
    }
    assert("hazel"@ != "grass"@) by {
        reveal_strlit("hazel");
        reveal_strlit("grass");
        assert("hazel"@[0] != "grass"@[0]);
    }
    assert("oak"@ != "alder"@) by {
        reveal_strlit("oak");
        reveal_strlit("alder");
        assert("oak"@.len() != "alder"@.len());
    }
    assert("oak"@ != "ash"@) by {
        reveal_strlit("oak");
        reveal_strlit("ash");
        assert("oak"@[0] != "ash"@[0]);
    }
    assert("oak"@ != "beech"@) by {
        reveal_strlit("oak");
        reveal_strlit("beech");
        assert("oak"@.len() != "beech"@.len());
    }
    assert("oak"@ != "birch"@) by {
        reveal_strlit("oak");
        reveal_strlit("birch");
        assert("oak"@.len() != "birch"@.len());
    }
    assert("oak"@ != "grass"@) by {
        reveal_strlit("oak");
        reveal_strlit("grass");
        assert("oak"@.len() != "grass"@.len());
    }
    assert("oak"@ != "hazel"@) by {
        reveal_strlit("oak");
        reveal_strlit("hazel");
        assert("oak"@.len() != "hazel"@.len());
    }
}

// ── Intervals ───────────────────────────────────────────────────────────────

proof fn lemma_default_interval()
    ensures
        ascii_lower(trimmed("10min"@)) == "10min"@,
{
    reveal_strlit("10min");
    let s = "10min"@;
    lemma_trimmed_is_span(s, 0, 5);
    assert(s.subrange(0, 5) =~= s);
    assert forall|i: int| 0 <= i < 5 implies #[trigger] ascii_lower(s)[i] == s[i] by {
        if i == 0 {} else if i == 1 {} else if i == 2 {} else if i == 3 {} else {}
    }
    assert(ascii_lower(s) =~= s);
}

/// Each measurement interval reads its own dataset, and a request without an
/// interval reads the 10-minute one: precipitation over 10 minutes, 1 hour,
/// 24 hours or 48 hours; sunshine over 10 minutes or as the relative daily
/// value; global radiation over 10 minutes or a day. Other intervals read
/// none.
pub proof fn law_interval_datasets(interval: Option<&str>)
    ensures
        ({
            let k = interval_key(interval);
            &&& interval is None ==> k == "10min"@
            &&& k == "10min"@ ==> precipitation_path(k) == Some("ch.meteoschweiz.messwerte-niederschlag-10min"@)
            &&& k == "1h"@ ==> precipitation_path(k) == Some("ch.meteoschweiz.messwerte-niederschlag-1h"@)
            &&& k == "24h"@ ==> precipitation_path(k) == Some("ch.meteoschweiz.messwerte-niederschlag-24h"@)
            &&& k == "48h"@ ==> precipitation_path(k) == Some("ch.meteoschweiz.messwerte-niederschlag-48h"@)
            &&& precipitation_path(k) is Some <==> (k == "10min"@ || k == "1h"@ || k == "24h"@ || k == "48h"@)
            &&& k == "10min"@ ==> sunshine_path(k) == Some("ch.meteoschweiz.messwerte-sonnenscheindauer-10min"@)
            &&& k == "1d"@ ==> sunshine_path(k) == Some("ch.meteoschweiz.messwerte-sonnenscheindauer-relativ-1d"@)
            &&& sunshine_path(k) is Some <==> (k == "10min"@ || k == "1d"@)
            &&& k == "10min"@ ==> radiation_path(k) == Some("ch.meteoschweiz.messwerte-globalstrahlung-10min"@)
            &&& k == "1d"@ ==> radiation_path(k) == Some("ch.meteoschweiz.messwerte-globalstrahlung-1d"@)
            &&& radiation_path(k) is Some <==> (k == "10min"@ || k == "1d"@)
        }),
{
    lemma_default_interval();
    assert("1h"@ != "10min"@) by {
        reveal_strlit("1h");
        reveal_strlit("10min");
        assert("1h"@.len() != "10min"@.len());
    }
    assert("24h"@ != "10min"@) by {
        reveal_strlit("24h");
        reveal_strlit("10min");
        assert("24h"@.len() != "10min"@.len());
    }
    assert("24h"@ != "1h"@) by {
        reveal_strlit("24h");
        reveal_strlit("1h");
        assert("24h"@.len() != "1h"@.len());
    }
    assert("48h"@ != "10min"@) by {
        reveal_strlit("48h");
        reveal_strlit("10min");
        assert("48h"@.len() != "10min"@.len());
    }
    assert("48h"@ != "1h"@) by {
        reveal_strlit("48h");
        reveal_strlit("1h");
        assert("48h"@.len() != "1h"@.len());
    }
    assert("48h"@ != "24h"@) by {
        reveal_strlit("48h");
        reveal_strlit("24h");
        assert("48h"@[0] != "24h"@[0]);
    }
    assert("1d"@ != "10min"@) by {
        reveal_strlit("1d");
        reveal_strlit("10min");
        assert("1d"@.len() != "10min"@.len());
    }
}

// ── Forecast parameters ─────────────────────────────────────────────────────

/// (code, field) of each parameter of a bundle.
pub open spec fn code_field_pairs(bundle: Seq<(Seq<char>, Seq<char>, Seq<char>, Seq<char>)>) -> Seq<(Seq<char>, Seq<char>)> {
    bundle.map_values(|p: (Seq<char>, Seq<char>, Seq<char>, Seq<char>)| (p.0, p.1))
}

/// Each forecast field is filled by the MeteoSwiss parameter that measures
/// it: for instance the daily minimum temperature by `tre200dn` and the daily
/// maximum by `tre200dx`, the hourly wind speed by `fu3010h0` and the gusts by
/// `fu3010h1`. Every hourly and every daily parameter is one of the listed
/// (code, field) pairings, and every listed pairing is a parameter.
pub proof fn law_forecast_fields_read_their_parameters()
    ensures
        ({
            let documented = seq![
                ("tre200h0"@, "temperature_2m_c"@),
                ("rre150h0"@, "precipitation_hourly_mm"@),
                ("rp0003i0"@, "precipitation_probability_3h_percent"@),
                ("dkl010h0"@, "wind_direction_degrees"@),
                ("fu3010h0"@, "wind_speed_kmh"@),
                ("fu3010h1"@, "wind_gust_kmh"@),
                ("jww003i0"@, "weather_icon_code"@),
                ("nprolohs"@, "low_cloud_cover"@),
                ("npromths"@, "medium_cloud_cover"@),
                ("nprohihs"@, "high_cloud_cover"@),
                ("sre000h0"@, "sunshine_duration_minutes"@),
                ("gre000h0"@, "global_radiation_w_m2"@),
                ("ods000h0"@, "diffuse_radiation_w_m2"@),
            ];
            let actual = code_field_pairs(hourly_bundle());
            &&& actual.len() == documented.len()
            &&& forall|k: int| 0 <= k < actual.len() ==> documented.contains(#[trigger] actual[k])
            &&& forall|j: int| 0 <= j < documented.len() ==> actual.contains(#[trigger] documented[j])
        }),
        ({
            let documented = seq![
                ("tre200dn"@, "temperature_min_c"@),
                ("tre200dx"@, "temperature_max_c"@),
                ("rka150p0"@, "precipitation_total_mm"@),
                ("rreq10p0"@, "precipitation_total_10_percentile_mm"@),
                ("rreq90p0"@, "precipitation_total_90_percentile_mm"@),
                ("jp2000d0"@, "weather_icon_code"@),
            ];
            let actual = code_field_pairs(daily_bundle());
            &&& actual.len() == documented.len()
            &&& forall|k: int| 0 <= k < actual.len() ==> documented.contains(#[trigger] actual[k])
            &&& forall|j: int| 0 <= j < documented.len() ==> actual.contains(#[trigger] documented[j])
        }),
{
    {
        let documented = seq![
            ("tre200h0"@, "temperature_2m_c"@),
            ("rre150h0"@, "precipitation_hourly_mm"@),
            ("rp0003i0"@, "precipitation_probability_3h_percent"@),
            ("dkl010h0"@, "wind_direction_degrees"@),
            ("fu3010h0"@, "wind_speed_kmh"@),
            ("fu3010h1"@, "wind_gust_kmh"@),
            ("jww003i0"@, "weather_icon_code"@),
            ("nprolohs"@, "low_cloud_cover"@),
            ("npromths"@, "medium_cloud_cover"@),
            ("nprohihs"@, "high_cloud_cover"@),
            ("sre000h0"@, "sunshine_duration_minutes"@),
            ("gre000h0"@, "global_radiation_w_m2"@),
            ("ods000h0"@, "diffuse_radiation_w_m2"@),
        ];
        let actual = code_field_pairs(hourly_bundle());
        assert(actual =~= documented);
        assert forall|k: int| 0 <= k < actual.len() implies documented.contains(#[trigger] actual[k]) by {
            assert(documented[k] == actual[k]);
        }
        assert forall|j: int| 0 <= j < documented.len() implies actual.contains(#[trigger] documented[j]) by {
            assert(documented[j] == actual[j]);
        }
    }
    {
        let documented = seq![
            ("tre200dn"@, "temperature_min_c"@),
            ("tre200dx"@, "temperature_max_c"@),
            ("rka150p0"@, "precipitation_total_mm"@),
            ("rreq10p0"@, "precipitation_total_10_percentile_mm"@),
            ("rreq90p0"@, "precipitation_total_90_percentile_mm"@),
            ("jp2000d0"@, "weather_icon_code"@),
        ];
        let actual = code_field_pairs(daily_bundle());
        assert(actual =~= documented);
        assert forall|k: int| 0 <= k < actual.len() implies documented.contains(#[trigger] actual[k]) by {
            assert(documented[k] == actual[k]);
        }
        assert forall|j: int| 0 <= j < documented.len() implies actual.contains(#[trigger] documented[j]) by {
            assert(documented[j] == actual[j]);
        }
    }
}

// ── Tool calls ──────────────────────────────────────────────────────────────

/// A `tools/call` request runs the tool it names, with exactly the arguments
/// that the request gave for that tool: the interval and the station filter
/// of the measurement tools, the species of the pollen tool, the point query
/// and the number of hours of the forecast tool.
pub proof fn law_tool_call_carries_its_arguments(params: ToolCallParams, action: RequestAction)
    requires
        routes_request("tools/call"@, params, action),
        params.name is Some,
    ensures
        ({
            let n = params.name->Some_0@;
            let a = params.arguments;
            &&& n == "list_weather_stations"@ ==> action == RequestAction::CallTool(ToolCall::ListWeatherStations)
            &&& n == "get_precipitation"@ ==> action == RequestAction::CallTool(
                ToolCall::GetPrecipitation { interval: a.interval, station_id: a.station_id },
            )
            &&& n == "get_wind_speed_10min"@ ==> action == RequestAction::CallTool(
                ToolCall::GetWindSpeed10min { station_id: a.station_id },
            )
            &&& n == "get_wind_gusts_10min"@ ==> action == RequestAction::CallTool(
                ToolCall::GetWindGusts10min { station_id: a.station_id },
            )
            &&& n == "get_sunshine"@ ==> action == RequestAction::CallTool(
                ToolCall::GetSunshine { interval: a.interval, station_id: a.station_id },
            )
            &&& n == "get_global_radiation"@ ==> action == RequestAction::CallTool(
                ToolCall::GetGlobalRadiation { interval: a.interval, station_id: a.station_id },
            )
            &&& n == "list_pollen_stations"@ ==> action == RequestAction::CallTool(ToolCall::ListPollenStations)
            &&& n == "get_pollen_measurement"@ && a.species is Some ==> action == RequestAction::CallTool(
                ToolCall::GetPollenMeasurement { species: a.species->Some_0, station_id: a.station_id },
            )
            &&& n == "get_local_forecast"@ && a.point_query is Some ==> action == RequestAction::CallTool(
                ToolCall::GetLocalForecast { point_query: a.point_query->Some_0, hours: a.hours },
            )
        }),
{
    assert("tools/call"@ != "initialize"@) by {
        reveal_strlit("tools/call");
        reveal_strlit("initialize");
        assert("tools/call"@[0] != "initialize"@[0]);
    }
    assert("tools/call"@ != "notifications/initialized"@) by {
        reveal_strlit("tools/call");
        reveal_strlit("notifications/initialized");
        assert("tools/call"@.len() != "notifications/initialized"@.len());
    }
    assert("tools/call"@ != "tools/list"@) by {
        reveal_strlit("tools/call");
        reveal_strlit("tools/list");
        assert("tools/call"@[6] != "tools/list"@[6]);
    }
    assert("get_precipitation"@ != "list_weather_stations"@) by {
        reveal_strlit("get_precipitation");
        reveal_strlit("list_weather_stations");
        assert("get_precipitation"@.len() != "list_weather_stations"@.len());
    }
    assert("get_wind_speed_10min"@ != "list_weather_stations"@) by {
        reveal_strlit("get_wind_speed_10min");
        reveal_strlit("list_weather_stations");
        assert("get_wind_speed_10min"@.len() != "list_weather_stations"@.len());
    }
    assert("get_wind_speed_10min"@ != "get_precipitation"@) by {
        reveal_strlit("get_wind_speed_10min");
        reveal_strlit("get_precipitation");
        assert("get_wind_speed_10min"@.len() != "get_precipitation"@.len());
    }
    assert("get_wind_gusts_10min"@ != "list_weather_stations"@) by {
        reveal_strlit("get_wind_gusts_10min");
        reveal_strlit("list_weather_stations");
        assert("get_wind_gusts_10min"@.len() != "list_weather_stations"@.len());
    }
    assert("get_wind_gusts_10min"@ != "get_precipitation"@) by {
        reveal_strlit("get_wind_gusts_10min");
        reveal_strlit("get_precipitation");
        assert("get_wind_gusts_10min"@.len() != "get_precipitation"@.len());
    }
    assert("get_wind_gusts_10min"@ != "get_wind_speed_10min"@) by {
        reveal_strlit("get_wind_gusts_10min");
        reveal_strlit("get_wind_speed_10min");
        assert("get_wind_gusts_10min"@[9] != "get_wind_speed_10min"@[9]);
    }
    assert("get_sunshine"@ != "list_weather_stations"@) by {
        reveal_strlit("get_sunshine");
        reveal_strlit("list_weather_stations");
        assert("get_sunshine"@.len() != "list_weather_stations"@.len());
    }
    assert("get_sunshine"@ != "get_precipitation"@) by {
        reveal_strlit("get_sunshine");
        reveal_strlit("get_precipitation");
        assert("get_sunshine"@.len() != "get_precipitation"@.len());
    }
    assert("get_sunshine"@ != "get_wind_speed_10min"@) by {
        reveal_strlit("get_sunshine");
        reveal_strlit("get_wind_speed_10min");
        assert("get_sunshine"@.len() != "get_wind_speed_10min"@.len());
    }
    assert("get_sunshine"@ != "get_wind_gusts_10min"@) by {
        reveal_strlit("get_sunshine");
        reveal_strlit("get_wind_gusts_10min");
        assert("get_sunshine"@.len() != "get_wind_gusts_10min"@.len());
    }
    assert("get_global_radiation"@ != "list_weather_stations"@) by {
        reveal_strlit("get_global_radiation");
        reveal_strlit("list_weather_stations");
        assert("get_global_radiation"@.len() != "list_weather_stations"@.len());
    }
    assert("get_global_radiation"@ != "get_precipitation"@) by {
        reveal_strlit("get_global_radiation");
        reveal_strlit("get_precipitation");
        assert("get_global_radiation"@.len() != "get_precipitation"@.len());
    }
    assert("get_global_radiation"@ != "get_wind_speed_10min"@) by {
        reveal_strlit("get_global_radiation");
        reveal_strlit("get_wind_speed_10min");
        assert("get_global_radiation"@[4] != "get_wind_speed_10min"@[4]);
    }
    assert("get_global_radiation"@ != "get_wind_gusts_10min"@) by {
        reveal_strlit("get_global_radiation");
        reveal_strlit("get_wind_gusts_10min");
        assert("get_global_radiation"@[4] != "get_wind_gusts_10min"@[4]);
    }
    assert("get_global_radiation"@ != "get_sunshine"@) by {
        reveal_strlit("get_global_radiation");
        reveal_strlit("get_sunshine");
        assert("get_global_radiation"@.len() != "get_sunshine"@.len());
    }
    assert("list_pollen_stations"@ != "list_weather_stations"@) by {
        reveal_strlit("list_pollen_stations");
        reveal_strlit("list_weather_stations");
        assert("list_pollen_stations"@.len() != "list_weather_stations"@.len());
    }
    assert("list_pollen_stations"@ != "get_precipitation"@) by {
        reveal_strlit("list_pollen_stations");
        reveal_strlit("get_precipitation");
        assert("list_pollen_stations"@.len() != "get_precipitation"@.len());
    }
    assert("list_pollen_stations"@ != "get_wind_speed_10min"@) by {
        reveal_strlit("list_pollen_stations");
        reveal_strlit("get_wind_speed_10min");
        assert("list_pollen_stations"@[0] != "get_wind_speed_10min"@[0]);
    }
    assert("list_pollen_stations"@ != "get_wind_gusts_10min"@) by {
        reveal_strlit("list_pollen_stations");
        reveal_strlit("get_wind_gusts_10min");
        assert("list_pollen_stations"@[0] != "get_wind_gusts_10min"@[0]);
    }
    assert("list_pollen_stations"@ != "get_sunshine"@) by {
        reveal_strlit("list_pollen_stations");
        reveal_strlit("get_sunshine");
        assert("list_pollen_stations"@.len() != "get_sunshine"@.len());
    }
    assert("list_pollen_stations"@ != "get_global_radiation"@) by {
        reveal_strlit("list_pollen_stations");
        reveal_strlit("get_global_radiation");
        assert("list_pollen_stations"@[0] != "get_global_radiation"@[0]);
    }
    assert("get_pollen_measurement"@ != "list_weather_stations"@) by {
        reveal_strlit("get_pollen_measurement");
        reveal_strlit("list_weather_stations");
        assert("get_pollen_measurement"@.len() != "list_weather_stations"@.len());
    }
    assert("get_pollen_measurement"@ != "get_precipitation"@) by {
        reveal_strlit("get_pollen_measurement");
        reveal_strlit("get_precipitation");
        assert("get_pollen_measurement"@.len() != "get_precipitation"@.len());
    }
    assert("get_pollen_measurement"@ != "get_wind_speed_10min"@) by {
        reveal_strlit("get_pollen_measurement");
        reveal_strlit("get_wind_speed_10min");
        assert("get_pollen_measurement"@.len() != "get_wind_speed_10min"@.len());
    }
    assert("get_pollen_measurement"@ != "get_wind_gusts_10min"@) by {
        reveal_strlit("get_pollen_measurement");
        reveal_strlit("get_wind_gusts_10min");
        assert("get_pollen_measurement"@.len() != "get_wind_gusts_10min"@.len());
    }
    assert("get_pollen_measurement"@ != "get_sunshine"@) by {
        reveal_strlit("get_pollen_measurement");
        reveal_strlit("get_sunshine");
        assert("get_pollen_measurement"@.len() != "get_sunshine"@.len());
    }
    assert("get_pollen_measurement"@ != "get_global_radiation"@) by {
        reveal_strlit("get_pollen_measurement");
        reveal_strlit("get_global_radiation");
        assert("get_pollen_measurement"@.len() != "get_global_radiation"@.len());
    }
    assert("get_pollen_measurement"@ != "list_pollen_stations"@) by {
        reveal_strlit("get_pollen_measurement");
        reveal_strlit("list_pollen_stations");
        assert("get_pollen_measurement"@.len() != "list_pollen_stations"@.len());
    }
    assert("get_local_forecast"@ != "list_weather_stations"@) by {
        reveal_strlit("get_local_forecast");
        reveal_strlit("list_weather_stations");
        assert("get_local_forecast"@.len() != "list_weather_stations"@.len());
    }
    assert("get_local_forecast"@ != "get_precipitation"@) by {
        reveal_strlit("get_local_forecast");
        reveal_strlit("get_precipitation");
        assert("get_local_forecast"@.len() != "get_precipitation"@.len());
    }
    assert("get_local_forecast"@ != "get_wind_speed_10min"@) by {
        reveal_strlit("get_local_forecast");
        reveal_strlit("get_wind_speed_10min");
        assert("get_local_forecast"@.len() != "get_wind_speed_10min"@.len());
    }
    assert("get_local_forecast"@ != "get_wind_gusts_10min"@) by {
        reveal_strlit("get_local_forecast");
        reveal_strlit("get_wind_gusts_10min");
        assert("get_local_forecast"@.len() != "get_wind_gusts_10min"@.len());
    }
    assert("get_local_forecast"@ != "get_sunshine"@) by {
        reveal_strlit("get_local_forecast");
        reveal_strlit("get_sunshine");
        assert("get_local_forecast"@.len() != "get_sunshine"@.len());
    }
    assert("get_local_forecast"@ != "get_global_radiation"@) by {
        reveal_strlit("get_local_forecast");
        reveal_strlit("get_global_radiation");
        assert("get_local_forecast"@.len() != "get_global_radiation"@.len());
    }
    assert("get_local_forecast"@ != "list_pollen_stations"@) by {
        reveal_strlit("get_local_forecast");
        reveal_strlit("list_pollen_stations");
        assert("get_local_forecast"@.len() != "list_pollen_stations"@.len());
    }
    assert("get_local_forecast"@ != "get_pollen_measurement"@) by {
        reveal_strlit("get_local_forecast");
        reveal_strlit("get_pollen_measurement");
        assert("get_local_forecast"@.len() != "get_pollen_measurement"@.len());
    }
}

// ── Tool catalog and tools ──────────────────────────────────────────────────

/// The tool list offers exactly what the tools accept: the intervals that the
/// precipitation, sunshine and global radiation tools list are those that
/// read a dataset, the species that the pollen tool lists are those that have
/// a dataset (after trimming and ASCII lowercasing), and the bounds that the
/// forecast tool gives for `hours` are those within which the number of rows
/// follows the request.
pub proof fn law_catalog_matches_tools()
    ensures
        ({
            &&& tool_catalog_spec()[1].0 == "get_precipitation"@
            &&& forall|k: Seq<char>| #[trigger] precipitation_path(k) is Some <==> tool_catalog_spec()[1].2[0].2.contains(k)
            &&& tool_catalog_spec()[4].0 == "get_sunshine"@
            &&& forall|k: Seq<char>| #[trigger] sunshine_path(k) is Some <==> tool_catalog_spec()[4].2[0].2.contains(k)
            &&& tool_catalog_spec()[5].0 == "get_global_radiation"@
            &&& forall|k: Seq<char>| #[trigger] radiation_path(k) is Some <==> tool_catalog_spec()[5].2[0].2.contains(k)
            &&& tool_catalog_spec()[7].0 == "get_pollen_measurement"@
            &&& forall|k: Seq<char>| #[trigger] pollen_path(k) is Some <==> tool_catalog_spec()[7].2[0].2.contains(ascii_lower(trimmed(k)))
            &&& tool_catalog_spec()[8].0 == "get_local_forecast"@
            &&& tool_catalog_spec()[8].2[1].0 == "hours"@
            &&& tool_catalog_spec()[8].2[1].3 == Some(1u64)
            &&& tool_catalog_spec()[8].2[1].4 == Some(96u64)
            &&& forall|h: u64| 1 <= h <= 96 ==> #[trigger] hour_limit(Some(h)) == h
            &&& forall|h: u64| #[trigger] hour_limit(Some(h)) != h ==> h < 1 || h > 96
        }),
{
    assert("1h"@ != "10min"@) by {
        reveal_strlit("1h");
        reveal_strlit("10min");
        assert("1h"@.len() != "10min"@.len());
    }
    assert("24h"@ != "10min"@) by {
        reveal_strlit("24h");
        reveal_strlit("10min");
        assert("24h"@.len() != "10min"@.len());
    }
    assert("24h"@ != "1h"@) by {
        reveal_strlit("24h");
        reveal_strlit("1h");
        assert("24h"@.len() != "1h"@.len());
    }
    assert("48h"@ != "10min"@) by {
        reveal_strlit("48h");
        reveal_strlit("10min");
        assert("48h"@.len() != "10min"@.len());
    }
    assert("48h"@ != "1h"@) by {
        reveal_strlit("48h");
        reveal_strlit("1h");
        assert("48h"@.len() != "1h"@.len());
    }
    assert("48h"@ != "24h"@) by {
        reveal_strlit("48h");
        reveal_strlit("24h");
        assert("48h"@[0] != "24h"@[0]);
    }
    assert("1d"@ != "10min"@) by {
        reveal_strlit("1d");
        reveal_strlit("10min");
        assert("1d"@.len() != "10min"@.len());
    }
    assert("ash"@ != "alder"@) by {
        reveal_strlit("ash");
        reveal_strlit("alder");
        assert("ash"@.len() != "alder"@.len());
    }
    assert("beech"@ != "alder"@) by {
        reveal_strlit("beech");
        reveal_strlit("alder");
        assert("beech"@[0] != "alder"@[0]);
    }
    assert("beech"@ != "ash"@) by {
        reveal_strlit("beech");
        reveal_strlit("ash");
        assert("beech"@.len() != "ash"@.len());
    }
    assert("birch"@ != "alder"@) by {
        reveal_strlit("birch");
        reveal_strlit("alder");
        assert("birch"@[0] != "alder"@[0]);
    }
    assert("birch"@ != "ash"@) by {
        reveal_strlit("birch");
        reveal_strlit("ash");
        assert("birch"@.len() != "ash"@.len());
    }
    assert("birch"@ != "beech"@) by {
        reveal_strlit("birch");
        reveal_strlit("beech");
        assert("birch"@[1] != "beech"@[1]);
    }
    assert("grass"@ != "alder"@) by {
        reveal_strlit("grass");
        reveal_strlit("alder");
        assert("grass"@[0] != "alder"@[0]);
    }
    assert("grass"@ != "ash"@) by {
        reveal_strlit("grass");
        reveal_strlit("ash");
        assert("grass"@.len() != "ash"@.len());
    }
    assert("grass"@ != "beech"@) by {
        reveal_strlit("grass");
        reveal_strlit("beech");
        assert("grass"@[0] != "beech"@[0]);
    }
    assert("grass"@ != "birch"@) by {
        reveal_strlit("grass");
        reveal_strlit("birch");
        assert("grass"@[0] != "birch"@[0]);
    }
    assert("hazel"@ != "alder"@) by {
        reveal_strlit("hazel");
        reveal_strlit("alder");
        assert("hazel"@[0] != "alder"@[0]);
    }
    assert("hazel"@ != "ash"@) by {
        reveal_strlit("hazel");
        reveal_strlit("ash");
        assert("hazel"@.len() != "ash"@.len());
    }
    assert("hazel"@ != "beech"@) by {
        reveal_strlit("hazel");
        reveal_strlit("beech");
        assert("hazel"@[0] != "beech"@[0]);
    }
    assert("hazel"@ != "birch"@) by {
        reveal_strlit("hazel");
        reveal_strlit("birch");
        assert("hazel"@[0] != "birch"@[0]);
    }
    assert("hazel"@ != "grass"@) by {
        reveal_strlit("hazel");
        reveal_strlit("grass");
        assert("hazel"@[0] != "grass"@[0]);
    }
    assert("oak"@ != "alder"@) by {
        reveal_strlit("oak");
        reveal_strlit("alder");
        assert("oak"@.len() != "alder"@.len());
    }
    assert("oak"@ != "ash"@) by {
        reveal_strlit("oak");
        reveal_strlit("ash");
        assert("oak"@[0] != "ash"@[0]);
    }
    assert("oak"@ != "beech"@) by {
        reveal_strlit("oak");
        reveal_strlit("beech");
        assert("oak"@.len() != "beech"@.len());
    }
    assert("oak"@ != "birch"@) by {
        reveal_strlit("oak");
        reveal_strlit("birch");
        assert("oak"@.len() != "birch"@.len());
    }
    assert("oak"@ != "grass"@) by {
        reveal_strlit("oak");
        reveal_strlit("grass");
        assert("oak"@.len() != "grass"@.len());
    }
    assert("oak"@ != "hazel"@) by {
        reveal_strlit("oak");
        reveal_strlit("hazel");
        assert("oak"@.len() != "hazel"@.len());
    }
    assert forall|k: Seq<char>| #[trigger] precipitation_path(k) is Some <==> tool_catalog_spec()[1].2[0].2.contains(k) by {
        let av = tool_catalog_spec()[1].2[0].2;
        let x = k;
        if x == "10min"@ { assert(av[0] == x); }
        if x == "1h"@ { assert(av[1] == x); }
        if x == "24h"@ { assert(av[2] == x); }
        if x == "48h"@ { assert(av[3] == x); }
        if av.contains(x) {
            let j = choose|j: int| 0 <= j < av.len() && av[j] == x;
            if j == 0 {} else if j == 1 {} else if j == 2 {} else {}
        }
    }
    assert forall|k: Seq<char>| #[trigger] sunshine_path(k) is Some <==> tool_catalog_spec()[4].2[0].2.contains(k) by {
        let av = tool_catalog_spec()[4].2[0].2;
        let x = k;
        if x == "10min"@ { assert(av[0] == x); }
        if x == "1d"@ { assert(av[1] == x); }
        if av.contains(x) {
            let j = choose|j: int| 0 <= j < av.len() && av[j] == x;
            if j == 0 {} else {}
        }
    }
    assert forall|k: Seq<char>| #[trigger] radiation_path(k) is Some <==> tool_catalog_spec()[5].2[0].2.contains(k) by {
        let av = tool_catalog_spec()[5].2[0].2;
        let x = k;
        if x == "10min"@ { assert(av[0] == x); }
        if x == "1d"@ { assert(av[1] == x); }
        if av.contains(x) {
            let j = choose|j: int| 0 <= j < av.len() && av[j] == x;
            if j == 0 {} else {}
        }
    }
    assert forall|k: Seq<char>| #[trigger] pollen_path(k) is Some <==> tool_catalog_spec()[7].2[0].2.contains(ascii_lower(trimmed(k))) by {
        let av = tool_catalog_spec()[7].2[0].2;
        let x = ascii_lower(trimmed(k));
        if x == "alder"@ { assert(av[0] == x); }
        if x == "ash"@ { assert(av[1] == x); }
        if x == "beech"@ { assert(av[2] == x); }
        if x == "birch"@ { assert(av[3] == x); }
        if x == "grass"@ { assert(av[4] == x); }
        if x == "hazel"@ { assert(av[5] == x); }
        if x == "oak"@ { assert(av[6] == x); }
        if av.contains(x) {
            let j = choose|j: int| 0 <= j < av.len() && av[j] == x;
            if j == 0 {} else if j == 1 {} else if j == 2 {} else if j == 3 {} else if j == 4 {} else if j == 5 {} else {}
        }
    }
}

// ── Station filter ──────────────────────────────────────────────────────────

/// Without a filter every station is listed. With one, a station is listed
/// when the filter, trimmed and ignoring ASCII case, is its id, its name or a
/// part of its name, and only then: so a station whose id is asked for is
/// listed whatever its name.
pub proof fn law_station_filter(id: Seq<char>, name: Seq<char>, query: Seq<char>)
    ensures
        station_selected(id, name, None),
        ascii_lower(trimmed(query)) == ascii_lower(id) ==> station_selected(id, name, Some(query)),
        ascii_lower(trimmed(query)) == ascii_lower(name) ==> station_selected(id, name, Some(query)),
        has_infix(ascii_lower(name), ascii_lower(trimmed(query))) ==> station_selected(id, name, Some(query)),
        station_selected(id, name, Some(query)) ==> ascii_lower(trimmed(query)) == ascii_lower(id)
            || has_infix(ascii_lower(name), ascii_lower(trimmed(query))),
{
    let q = ascii_lower(trimmed(query));
    let n = ascii_lower(name);
    if q == n {
        assert(n.subrange(0int, 0int + q.len()) =~= q);
        assert(has_infix(n, q));
    }
}

/// A station is found by its id in any ASCII case and with any surrounding
/// whitespace, whatever its name (for an id without surrounding whitespace).
pub proof fn law_station_found_by_id(id: Seq<char>, name: Seq<char>, left: Seq<char>, right: Seq<char>)
    requires
        trimmed(id) == id,
        forall|k: int| 0 <= k < left.len() ==> is_white_space(#[trigger] left[k]),
        forall|k: int| 0 <= k < right.len() ==> is_white_space(#[trigger] right[k]),
    ensures
        station_selected(id, name, Some(left + id + right)),
        station_selected(id, name, Some(left + ascii_upper(id) + right)),
{
    lemma_trimmed_padded(left, id, right);
    lemma_trimmed_padded(left, ascii_upper(id), right);
    lemma_case_folding(id);
}

} // verus!
