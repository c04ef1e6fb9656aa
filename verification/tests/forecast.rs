use swiss_weather_mcp::cams::{collect_cams_fields, scan_cams_feature_info, CamsField};
use swiss_weather_mcp::csv_table::{
    normalize_newlines, optional_non_empty, parse_csv_response, records_from_table,
    required_csv_field, CsvRecord,
};
use swiss_weather_mcp::forecast::{
    build_unsupported, cams_lookup_days, compact_date_to_cams_day_time, forecast_bundle_codes,
    forecast_hour_limit, forecast_series_cells, format_point_candidates, hourly_forecast_bundle,
    daily_forecast_bundle, latest_issue_timestamp, merge_forecast_timeline,
    parse_local_forecast_asset_name, parse_local_forecast_points, resolve_forecast_point,
    select_latest_forecast_assets, unavailable_metric, uv_index_unavailable, uv_lookup_error,
    forecast_point_of_record, points_from_records, require_forecast_rows, series_from_records,
    ForecastPoint, MetricStatus, SelectedForecastAsset, AIR_QUALITY_AQI_UNAVAILABLE,
    AIR_QUALITY_CURRENT_UNAVAILABLE,
    UV_INDEX_UNAVAILABLE,
};

fn point(id: &str, abbr: Option<&str>, postal: Option<&str>, name: &str, kind: &str, height: Option<&str>) -> ForecastPoint {
    ForecastPoint {
        point_id: id.to_string(),
        station_abbr: abbr.map(str::to_string),
        postal_code: postal.map(str::to_string),
        point_name: name.to_string(),
        point_type_en: kind.to_string(),
        point_height_masl: height.map(str::to_string),
        point_coordinates_lv95_east: None,
        point_coordinates_lv95_north: None,
        point_coordinates_wgs84_lat: None,
        point_coordinates_wgs84_lon: None,
    }
}

#[test]
fn test_parse_csv_response() {
    let csv = "a;b;c\n1;2;3\n4;5;6\n";
    let records = parse_csv_response(csv).unwrap();
    assert_eq!(records.len(), 2);
    assert_eq!(records[0].get("a").unwrap(), "1");
    assert_eq!(records[1].get("c").unwrap(), "6");
}

#[test]
fn csv_line_endings_are_normalised() {
    let records = parse_csv_response("a;b\r\n1;2\r3;4\r\n").unwrap();
    assert_eq!(records.len(), 2);
    assert_eq!(records[1].get("a").unwrap(), "3");
    assert_eq!(records[1].get("b").unwrap(), "4");
}

#[test]
fn normalised_text_has_no_carriage_return() {
    let text = normalize_newlines("a\r\nb\rc\r\r\nd\n");
    assert_eq!(text, "a\nb\nc\n\nd\n");
    assert!(!text.contains('\r'));
}

#[test]
fn csv_with_unequal_rows_is_an_error() {
    assert!(parse_csv_response("a;b\n1;2;3\n").is_err());
    assert!(parse_csv_response("a;b\n1\n").is_err());
    let records = parse_csv_response("a;b\n1;2\n3;4\n").unwrap();
    assert!(records.iter().all(|record| record.fields.len() == 2));
}

#[test]
fn csv_fields_required_and_optional() {
    let records = parse_csv_response("point_id;station_abbr;postal_code\n7; ;  ARO \n").unwrap();
    assert_eq!(required_csv_field(&records[0], "point_id").unwrap(), "7");
    assert_eq!(required_csv_field(&records[0], "point_name").unwrap_err(), "Missing CSV field 'point_name'");
    assert_eq!(optional_non_empty(&records[0], "station_abbr"), None);
    assert_eq!(optional_non_empty(&records[0], "postal_code"), Some("ARO".to_string()));
    assert_eq!(optional_non_empty(&records[0], "missing"), None);
}

#[test]
fn test_parse_local_forecast_asset_name() {
    let parsed = parse_local_forecast_asset_name("vnut12.lssw.202604170000.fu3010h0.csv");
    assert_eq!(parsed, Some(("202604170000", "fu3010h0")));
}

#[test]
fn asset_names_without_csv_extension_are_ignored() {
    assert_eq!(parse_local_forecast_asset_name("vnut12.lssw.202604170000.fu3010h0.json"), None);
    assert_eq!(parse_local_forecast_asset_name("vnut12.lssw.202604170000"), None);
    assert_eq!(parse_local_forecast_asset_name("a.b.c.d.csv.extra"), Some(("c", "d")));
}

#[test]
fn test_compact_date_to_cams_day_time_formats_iso_date() {
    let formatted = compact_date_to_cams_day_time("20260420").unwrap();
    assert_eq!(formatted, "2026-04-20T00:00:00Z");
}

#[test]
fn test_compact_date_to_cams_day_time_accepts_meteoswiss_daily_timestamp() {
    let formatted = compact_date_to_cams_day_time("202604200000").unwrap();
    assert_eq!(formatted, "2026-04-20T00:00:00Z");
}

#[test]
fn daily_timestamp_and_its_date_name_the_same_day() {
    assert_eq!(
        compact_date_to_cams_day_time("202612310600").unwrap(),
        compact_date_to_cams_day_time("20261231").unwrap()
    );
    assert!(compact_date_to_cams_day_time("2026123x0600").is_err());
    assert!(compact_date_to_cams_day_time("2026123x").is_err());
}

#[test]
fn compact_dates_of_other_lengths_or_letters_are_refused() {
    assert_eq!(compact_date_to_cams_day_time("2026042").unwrap_err(), "Invalid compact date '2026042'");
    assert_eq!(compact_date_to_cams_day_time("2026-4-20").unwrap_err(), "Invalid compact date '2026-4-20'");
    assert!(compact_date_to_cams_day_time("2026o420").is_err());
}

#[test]
fn cams_lookups_use_the_first_three_dates() {
    let dates = vec!["20260420".to_string(), "202604210000".to_string(), "20260422".to_string(), "bad".to_string()];
    let lookups = cams_lookup_days(&dates).unwrap();
    assert_eq!(lookups.len(), 3);
    assert_eq!(lookups[1], ("202604210000".to_string(), "2026-04-21T00:00:00Z".to_string()));
    let bad = vec!["20260420".to_string(), "nope".to_string()];
    assert_eq!(cams_lookup_days(&bad).unwrap_err(), "Invalid compact date 'nope'");
}

#[test]
fn test_resolve_forecast_point_by_station_abbr() {
    let points = vec![
        point("1", Some("ARO"), None, "Arosa", "Station", Some("1878")),
        point("2", Some("RAG"), None, "Bad Ragaz", "Station", Some("497")),
    ];

    let point = resolve_forecast_point(&points, "rag").unwrap();
    assert_eq!(point.point_name, "Bad Ragaz");
}

#[test]
fn test_resolve_forecast_point_reports_ambiguous_partial_match() {
    let points = vec![
        point("1", Some("ARO"), None, "Arosa", "Station", None),
        point("2", None, Some("7050"), "Arosa Dorf", "Postal code", None),
    ];

    let error = resolve_forecast_point(&points, "aros").unwrap_err();
    assert!(error.contains("ambiguous"));
}

#[test]
fn resolution_prefers_exact_identifiers_in_order() {
    let points = vec![
        point("aro", None, None, "Somewhere", "Station", None),
        point("2", Some("ARO"), None, "Arosa", "Station", None),
    ];
    assert_eq!(resolve_forecast_point(&points, "  ARO ").unwrap().point_id, "aro");
    assert_eq!(resolve_forecast_point(&points, "arosa").unwrap().point_id, "2");
    assert_eq!(resolve_forecast_point(&points, "   ").unwrap_err(), "Point query cannot be empty");
    assert_eq!(resolve_forecast_point(&points, "Zurich").unwrap_err(), "No local forecast point matched 'Zurich'");
    let twins = vec![point("1", Some("X"), None, "One", "Station", None), point("2", Some("x"), None, "Two", "Station", None)];
    assert_eq!(resolve_forecast_point(&twins, "x").unwrap_err(), "Point query is ambiguous. Matches: One (X), Two (x)");
    let partial = vec![point("1", Some("ARO"), None, "Arosa", "Station", None), point("2", None, Some("7050"), "Arosa Dorf", "Postal code", None)];
    assert_eq!(
        resolve_forecast_point(&partial, "aros").unwrap_err(),
        "Point query 'aros' is ambiguous. Matches: Arosa (ARO), Arosa Dorf"
    );
}

#[test]
fn candidates_are_capped_at_ten() {
    let points: Vec<ForecastPoint> = (0..12).map(|i| point(&i.to_string(), None, None, &format!("P{}", i), "Station", None)).collect();
    let labels = format_point_candidates(&points);
    assert_eq!(labels.len(), 10);
    assert_eq!(labels[9], "P9");
}

#[test]
fn forecast_points_are_read_from_metadata() {
    let csv = "point_id;station_abbr;postal_code;point_name;point_type_en;point_height_masl;point_coordinates_wgs84_lat\n1;ARO;;Arosa;Station; 1878 ;46.8\n";
    let points = parse_local_forecast_points(csv).unwrap();
    assert_eq!(points.len(), 1);
    assert_eq!(points[0].station_abbr, Some("ARO".to_string()));
    assert_eq!(points[0].postal_code, None);
    assert_eq!(points[0].point_height_masl, Some("1878".to_string()));
    assert_eq!(points[0].point_coordinates_wgs84_lat, Some("46.8".to_string()));
    assert_eq!(points[0].point_coordinates_lv95_east, None);
    let missing = "point_id;point_name\n1;Arosa\n";
    assert_eq!(parse_local_forecast_points(missing).unwrap_err(), "Missing CSV field 'point_type_en'");
}

#[test]
fn test_extract_forecast_series_filters_issue_timestamp_and_parses_values() {
    let csv = "point_id;point_type_id;Date;fu3010h0\n1;1;202604162200;5.4\n1;1;202604170000;2.3\n1;1;202604170100;3.3\n";
    let series = forecast_series_cells(csv, "1", "fu3010h0", "202604170000").unwrap();
    assert_eq!(series.len(), 2);
    assert_eq!(series[0].0, "202604170000");
    assert_eq!(series[0].1.parse::<f64>().unwrap(), 2.3);
}

#[test]
fn forecast_series_filters_issue_timestamp_and_keeps_cells() {
    let csv = "point_id;point_type_id;Date;fu3010h0\n1;1;202604162200;5.4\n1;1;202604170100;3.3\n1;1;202604170000;2.3\n2;1;202604170000;9.9\n1;1;202604170200; - \n";
    let series = forecast_series_cells(csv, "1", "fu3010h0", "202604170000").unwrap();
    assert_eq!(series.len(), 2);
    assert_eq!(series[0], ("202604170000".to_string(), "2.3".to_string()));
    assert_eq!(series[1], ("202604170100".to_string(), "3.3".to_string()));
}

#[test]
fn timeline_merges_parameters_by_time() {
    let series = vec![
        ("a".to_string(), vec![("t2".to_string(), "1".to_string()), ("t3".to_string(), "2".to_string())]),
        ("b".to_string(), vec![("t1".to_string(), "3".to_string()), ("t2".to_string(), "4".to_string())]),
    ];
    let rows = merge_forecast_timeline(&series, 24);
    assert_eq!(rows.len(), 3);
    assert_eq!(rows[0].time, "t1");
    assert_eq!(rows[0].fields, vec![("b".to_string(), "3".to_string())]);
    assert_eq!(rows[1].time, "t2");
    assert_eq!(rows[1].fields, vec![("a".to_string(), "1".to_string()), ("b".to_string(), "4".to_string())]);
    let capped = merge_forecast_timeline(&series, 0);
    assert_eq!(capped.len(), 1);
    assert_eq!(capped[0].time, "t1");
}

#[test]
fn latest_assets_pick_the_newest_issue() {
    let codes = forecast_bundle_codes();
    let mut assets = Vec::new();
    for code in &codes {
        assets.push((format!("vnut12.lssw.202604170000.{}.csv", code), format!("old-{}", code)));
        assets.push((format!("vnut12.lssw.202604180000.{}.csv", code), format!("new-{}", code)));
        assets.push((format!("vnut12.lssw.202604180000.{}.csv", code), format!("late-{}", code)));
    }
    assets.push(("readme.txt".to_string(), "x".to_string()));
    let selected = select_latest_forecast_assets(&assets).unwrap();
    assert_eq!(selected.len(), 19);
    assert_eq!(selected[0].issue_timestamp, "202604180000");
    assert_eq!(selected[0].href, "new-tre200h0");
    assert_eq!(latest_issue_timestamp(&selected), "202604180000");
    let missing = select_latest_forecast_assets(&assets[..3].to_vec()).unwrap_err();
    assert_eq!(missing, "No local forecast asset found for rre150h0");
}

#[test]
fn issue_timestamp_of_nothing_is_empty() {
    let none: Vec<SelectedForecastAsset> = Vec::new();
    assert_eq!(latest_issue_timestamp(&none), "");
}

#[test]
fn bundles_hold_the_documented_parameters() {
    let hourly = hourly_forecast_bundle();
    let daily = daily_forecast_bundle();
    assert_eq!(hourly.len(), 13);
    assert_eq!(daily.len(), 6);
    assert_eq!(hourly[4].code, "fu3010h0");
    assert_eq!(hourly[4].field_name, "wind_speed_kmh");
    assert_eq!(daily[5].field_name, "weather_icon_code");
}

#[test]
fn hour_limit_defaults_and_clamps() {
    assert_eq!(forecast_hour_limit(None), 24);
    assert_eq!(forecast_hour_limit(Some(0)), 1);
    assert_eq!(forecast_hour_limit(Some(12)), 12);
    assert_eq!(forecast_hour_limit(Some(500)), 96);
}

#[test]
fn unsupported_lists_unavailable_metrics() {
    let uv = MetricStatus { available: true, reason: None };
    let current = unavailable_metric(AIR_QUALITY_CURRENT_UNAVAILABLE);
    let aq = unavailable_metric(AIR_QUALITY_AQI_UNAVAILABLE);
    let entries = build_unsupported(&uv, &current, &aq);
    assert_eq!(
        entries,
        vec![
            ("air_quality_current".to_string(), AIR_QUALITY_CURRENT_UNAVAILABLE.to_string()),
            ("air_quality_aqi".to_string(), AIR_QUALITY_AQI_UNAVAILABLE.to_string()),
        ]
    );
    let uv_down = uv_index_unavailable("timeout");
    assert_eq!(uv_down.reason, Some(format!("{} timeout", UV_INDEX_UNAVAILABLE)));
    let none = MetricStatus { available: false, reason: None };
    let all = build_unsupported(&uv_down, &none, &none);
    assert_eq!(all.len(), 3);
    assert_eq!(all[0].0, "uv_index");
    assert_eq!(all[1].1, AIR_QUALITY_CURRENT_UNAVAILABLE);
    assert_eq!(all[2].1, AIR_QUALITY_AQI_UNAVAILABLE);
    let up = MetricStatus { available: true, reason: None };
    assert!(build_unsupported(&uv, &up, &up).is_empty());
    assert_eq!(uv_lookup_error(None), "No CAMS UV daily-max values were returned");
    assert_eq!(uv_lookup_error(Some("boom".to_string())), "boom");
}

#[test]
fn air_quality_reasons_are_the_documented_ones() {
    assert_eq!(
        AIR_QUALITY_AQI_UNAVAILABLE,
        "No verified official AQI feed has been integrated. Current official NABEL pollutant measurements are available separately in summary.air_quality_current."
    );
    assert!(AIR_QUALITY_CURRENT_UNAVAILABLE.starts_with("Official FOEN NABEL current pollutant measurements are unavailable"));
}

#[test]
fn test_parse_cams_feature_info_parses_numeric_fields() {
    let lines = scan_cams_feature_info(
        r#"
Name: composition_uvindex_daily_max
Title: Total sky UV index (provided by CAMS)
Value: 4.10311 default
Input latitude:  47.254950495049506
Input longitude: 8.225049504950496
Grid point: nearest
Distance: 14.553 km
Grid point latitude: 47.2
Grid point longitude:  8.4
"#,
    )
    .unwrap();
    let feature_info = collect_cams_fields(&lines).unwrap();

    assert_eq!(feature_info.layer_name, "composition_uvindex_daily_max");
    assert_eq!(feature_info.title, "Total sky UV index (provided by CAMS)");
    assert_eq!(feature_info.value.parse::<f64>().unwrap(), 4.10311);
    assert_eq!(feature_info.distance_km.parse::<f64>().unwrap(), 14.553);
    assert_eq!(feature_info.grid_point_latitude.parse::<f64>().unwrap(), 47.2);
    assert_eq!(feature_info.grid_point_longitude.parse::<f64>().unwrap(), 8.4);
}

#[test]
fn cams_service_exception_and_missing_fields() {
    let error = scan_cams_feature_info("  <ServiceException>bad</ServiceException>\n").unwrap_err();
    assert_eq!(error, "CAMS WMS returned a service exception: <ServiceException>bad</ServiceException>");
    let lines = scan_cams_feature_info("Name: x\r\nValue: 1\n").unwrap();
    assert_eq!(lines.len(), 2);
    assert_eq!(lines[1].field, CamsField::Value);
    assert_eq!(collect_cams_fields(&lines).unwrap_err(), "Missing CAMS title");
}

fn record(fields: &[(&str, &str)]) -> CsvRecord {
    CsvRecord { fields: fields.iter().map(|(k, v)| (k.to_string(), v.to_string())).collect() }
}

#[test]
fn records_pair_each_row_with_the_header() {
    let headers = vec!["a".to_string(), "b".to_string(), "a".to_string()];
    let rows = vec![
        vec!["1".to_string(), "2".to_string(), "3".to_string()],
        vec!["4".to_string(), "5".to_string(), "6".to_string()],
    ];
    let records = records_from_table(&headers, &rows);
    assert_eq!(records.len(), 2);
    assert_eq!(records[0].fields.len(), 3);
    assert_eq!(records[1].get("b").unwrap(), "5");
    // a repeated header: the last column counts
    assert_eq!(records[0].get("a").unwrap(), "3");
    assert!(records[0].get("c").is_none());
}

#[test]
fn points_are_built_from_records() {
    let arosa = record(&[("point_id", "1"), ("station_abbr", " ARO "), ("point_name", "Arosa"), ("point_type_en", "Station"), ("point_coordinates_wgs84_lon", "")]);
    let point = forecast_point_of_record(&arosa).unwrap();
    assert_eq!(point.point_id, "1");
    assert_eq!(point.station_abbr, Some("ARO".to_string()));
    assert_eq!(point.point_coordinates_wgs84_lon, None);
    let nameless = record(&[("point_id", "2"), ("point_type_en", "Station")]);
    assert_eq!(forecast_point_of_record(&nameless).unwrap_err(), "Missing CSV field 'point_name'");
    let points = points_from_records(&vec![arosa.clone(), arosa.clone()]).unwrap();
    assert_eq!(points.len(), 2);
    assert_eq!(points_from_records(&vec![arosa, nameless]).unwrap_err(), "Missing CSV field 'point_name'");
}

#[test]
fn series_from_records_sorts_and_filters() {
    let records = vec![
        record(&[("point_id", "1"), ("Date", "202604170100"), ("tre200h0", "3")]),
        record(&[("point_id", "1"), ("Date", "202604162300"), ("tre200h0", "9")]),
        record(&[("point_id", "1"), ("Date", "202604170000"), ("tre200h0", " 2 ")]),
        record(&[("point_id", "2"), ("Date", "202604170000"), ("tre200h0", "7")]),
        record(&[("point_id", "1"), ("Date", "202604170200"), ("tre200h0", "-")]),
    ];
    let series = series_from_records(&records, "1", "tre200h0", "202604170000");
    assert_eq!(
        series,
        vec![
            ("202604170000".to_string(), "2".to_string()),
            ("202604170100".to_string(), "3".to_string()),
        ]
    );
}

#[test]
fn a_forecast_needs_hourly_rows() {
    assert_eq!(require_forecast_rows(0, "Bettwil").unwrap_err(), "No forecast rows matched point 'Bettwil'");
    assert!(require_forecast_rows(3, "Bettwil").is_ok());
}

#[test]
fn point_query_ignores_case_and_padding() {
    let points = vec![
        point("1", Some("ARO"), None, "Arosa", "Station", None),
        point("2", Some("RAG"), None, "Bad Ragaz", "Station", None),
    ];
    let plain = resolve_forecast_point(&points, "rag").unwrap();
    let padded = resolve_forecast_point(&points, &format!("  {}\t", "rag".to_ascii_uppercase())).unwrap();
    assert_eq!(plain.point_id, padded.point_id);
    assert!(resolve_forecast_point(&points, "  ZZZ\t").is_err());
}
