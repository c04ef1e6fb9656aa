use swiss_weather_mcp::stations::{
    current_layer_file_url, global_radiation_layer_spec, normalize_reference_timestamp,
    pollen_dataset_path, pollen_layer_spec, pollen_station_info, pollen_stations_url,
    precipitation_layer_spec, select_layer_stations, sort_station_infos, station_matches,
    sunshine_layer_spec, wind_gust_layer_spec, wind_speed_layer_spec,
};
use swiss_weather_mcp::text::{contains, to_ascii_lowercase, trim};

fn strings(items: &[&str]) -> Vec<String> {
    items.iter().map(|s| s.to_string()).collect()
}

#[test]
fn layer_file_url_is_built_from_the_dataset() {
    assert_eq!(
        current_layer_file_url("ch.meteoschweiz.messwerte-niederschlag-10min"),
        "https://data.geo.admin.ch/ch.meteoschweiz.messwerte-niederschlag-10min/ch.meteoschweiz.messwerte-niederschlag-10min_en.json"
    );
    assert_eq!(pollen_stations_url(), "https://data.geo.admin.ch/api/stac/v0.9/collections/ch.meteoschweiz.ogd-pollen/items");
}

#[test]
fn precipitation_intervals() {
    assert_eq!(precipitation_layer_spec(None).unwrap().dataset_path, "ch.meteoschweiz.messwerte-niederschlag-10min");
    assert_eq!(precipitation_layer_spec(Some(" 24H ")).unwrap().dataset_path, "ch.meteoschweiz.messwerte-niederschlag-24h");
    assert_eq!(precipitation_layer_spec(Some("2d")).unwrap_err(), "Unsupported precipitation interval: 2d");
}

#[test]
fn sunshine_and_radiation_intervals() {
    assert_eq!(sunshine_layer_spec(Some("1d")).unwrap().dataset_path, "ch.meteoschweiz.messwerte-sonnenscheindauer-relativ-1d");
    assert_eq!(sunshine_layer_spec(Some("1h")).unwrap_err(), "Unsupported sunshine interval: 1h");
    assert_eq!(global_radiation_layer_spec(None).unwrap().dataset_path, "ch.meteoschweiz.messwerte-globalstrahlung-10min");
    assert_eq!(global_radiation_layer_spec(Some("x")).unwrap_err(), "Unsupported global radiation interval: x");
    assert_eq!(wind_speed_layer_spec().dataset_path, "ch.meteoschweiz.messwerte-windgeschwindigkeit-kmh-10min");
    assert_eq!(wind_gust_layer_spec().dataset_path, "ch.meteoschweiz.messwerte-wind-boeenspitze-kmh-10min");
}

#[test]
fn pollen_species() {
    assert_eq!(pollen_dataset_path(" Birch").unwrap(), "ch.meteoschweiz.messwerte-pollen-birke-1h");
    assert_eq!(pollen_dataset_path("rose").unwrap_err(), "Unsupported pollen species: rose");
    let spec = pollen_layer_spec("grass").unwrap();
    assert_eq!(spec.dataset_path, "ch.meteoschweiz.messwerte-pollen-graeser-1h");
    assert_eq!(spec.missing_value, Some(99999));
}

#[test]
fn reference_timestamps() {
    assert_eq!(normalize_reference_timestamp(" 2026-04-20T10:00Z "), Some("2026-04-20T10:00Z"));
    assert_eq!(normalize_reference_timestamp(" - "), None);
    assert_eq!(normalize_reference_timestamp("   "), None);
}

#[test]
fn station_filter_matches_id_name_or_part_of_name() {
    assert!(station_matches("ARO", "Arosa", None));
    assert!(station_matches("ARO", "Arosa", Some(" aro ")));
    assert!(station_matches("ARO", "Arosa", Some("arosa")));
    assert!(station_matches("RAG", "Bad Ragaz", Some("ragaz")));
    assert!(!station_matches("RAG", "Bad Ragaz", Some("zurich")));
}

#[test]
fn layer_stations_are_filtered_and_ordered() {
    let ids = strings(&["ZER", "ARO", "BER", "ABC"]);
    let names = strings(&["zermatt", "Arosa", "Bern", "arosa"]);
    assert_eq!(select_layer_stations(&ids, &names, None).unwrap(), vec![3, 1, 2, 0]);
    assert_eq!(select_layer_stations(&ids, &names, Some("aros")).unwrap(), vec![3, 1]);
    assert_eq!(select_layer_stations(&ids, &names, Some("xyz")).unwrap_err(), "No station matched 'xyz'");
}

#[test]
fn pollen_stations_are_listed_by_name() {
    let stations = vec![
        pollen_station_info("pbe", Some("Bern")),
        pollen_station_info("plo", None),
        pollen_station_info("pba", Some("basel")),
    ];
    assert_eq!(stations[1].id, "PLO");
    assert_eq!(stations[1].station_name, "plo");
    let sorted = sort_station_infos(stations);
    let names: Vec<&str> = sorted.iter().map(|s| s.station_name.as_str()).collect();
    assert_eq!(names, vec!["basel", "Bern", "plo"]);
}

#[test]
fn text_helpers() {
    assert_eq!(trim("\u{3000} a b \t"), "a b");
    assert_eq!(to_ascii_lowercase("ÄBC"), "Äbc");
    assert!(contains("Bad Ragaz", "d R"));
    assert!(contains("x", ""));
    assert!(!contains("ab", "abc"));
}
