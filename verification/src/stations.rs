//! Current measurement layers and stations: which dataset a tool reads, where
//! it lives, which stations a filter selects and in which order stations are
//! listed.
use vstd::prelude::*;

use crate::order::{
    char_texts, keyed_order, lemma_precedes_irreflexive, listed_in_order, positions, precedes,
    same_items,
};
use crate::text::{
    ascii_lower, ascii_upper, chars_contain, chars_eq, chars_of, concat2, concat3, has_infix,
    owned, str_eq, to_ascii_lowercase, to_ascii_uppercase, trim, trimmed,
};

verus! {

// ── Sources ─────────────────────────────────────────────────────────────────

/// Root of the federal geodata downloads.
pub const DATA_ROOT: &'static str = "https://data.geo.admin.ch";

/// Root of the federal STAC catalogue.
pub const STAC_ROOT: &'static str = "https://data.geo.admin.ch/api/stac/v0.9";

/// The STAC collection of the pollen network.
pub const POLLEN_COLLECTION_ID: &'static str = "ch.meteoschweiz.ogd-pollen";

/// The value that the pollen layers use for a missing measurement.
pub const POLLEN_MISSING_VALUE: u64 = 99999;

/// A current measurement layer: its dataset, and the value (if any) that
/// stands for a missing measurement in it.
#[derive(Debug, Clone, Copy)]
pub struct CurrentLayerSpec {
    pub dataset_path: &'static str,
    pub missing_value: Option<u64>,
}

/// The URL of a layer's English JSON file.
pub open spec fn layer_file_url(dataset_path: Seq<char>) -> Seq<char> {
    DATA_ROOT@ + "/"@ + dataset_path + "/"@ + dataset_path + "_en.json"@
}

/// The URL of a current layer's English JSON file.
pub fn current_layer_file_url(dataset_path: &str) -> (r: String)
    ensures
        r@ == layer_file_url(dataset_path@),
{
    let mut r = concat3(DATA_ROOT, "/", dataset_path);
    r.append("/");
    r.append(dataset_path);
    r.append("_en.json");
    r
}

/// The URL that lists the pollen stations.
pub fn pollen_stations_url() -> (r: String)
    ensures
        r@ == STAC_ROOT@ + "/collections/"@ + POLLEN_COLLECTION_ID@ + "/items"@,
{
    let mut r = concat3(STAC_ROOT, "/collections/", POLLEN_COLLECTION_ID);
    r.append("/items");
    r
}

// ── Layer selection ─────────────────────────────────────────────────────────

/// The normalised interval of a request: trimmed and ASCII-lowercased,
/// `10min` when none is given.
pub open spec fn interval_key(interval: Option<&str>) -> Seq<char> {
    match interval {
        Some(s) => ascii_lower(trimmed(s@)),
        None => ascii_lower(trimmed("10min"@)),
    }
}

/// `r` is the layer `path` with no missing-value marker.
pub open spec fn is_layer(r: Result<CurrentLayerSpec, String>, path: Seq<char>) -> bool {
    r matches Ok(spec) && spec.dataset_path@ == path && spec.missing_value is None
}

/// `r` is an error with this message.
pub open spec fn fails_with<T>(r: Result<T, String>, message: Seq<char>) -> bool {
    r matches Err(e) && e@ == message
}

fn normalized_interval(interval: Option<&str>) -> (r: String)
    ensures
        r@ == interval_key(interval),
{
    match interval {
        Some(s) => to_ascii_lowercase(trim(s)),
        None => to_ascii_lowercase(trim("10min")),
    }
}

fn layer(dataset_path: &'static str) -> (r: Result<CurrentLayerSpec, String>)
    ensures
        is_layer(r, dataset_path@),
{
    Ok(CurrentLayerSpec { dataset_path, missing_value: None })
}

/// The precipitation dataset of a normalised interval.
pub open spec fn precipitation_path(k: Seq<char>) -> Option<Seq<char>> {
    if k == "10min"@ {
        Some("ch.meteoschweiz.messwerte-niederschlag-10min"@)
    } else if k == "1h"@ {
        Some("ch.meteoschweiz.messwerte-niederschlag-1h"@)
    } else if k == "24h"@ {
        Some("ch.meteoschweiz.messwerte-niederschlag-24h"@)
    } else if k == "48h"@ {
        Some("ch.meteoschweiz.messwerte-niederschlag-48h"@)
    } else {
        None
    }
}

/// The sunshine dataset of a normalised interval.
pub open spec fn sunshine_path(k: Seq<char>) -> Option<Seq<char>> {
    if k == "10min"@ {
        Some("ch.meteoschweiz.messwerte-sonnenscheindauer-10min"@)
    } else if k == "1d"@ {
        Some("ch.meteoschweiz.messwerte-sonnenscheindauer-relativ-1d"@)
    } else {
        None
    }
}

/// The global radiation dataset of a normalised interval.
pub open spec fn radiation_path(k: Seq<char>) -> Option<Seq<char>> {
    if k == "10min"@ {
        Some("ch.meteoschweiz.messwerte-globalstrahlung-10min"@)
    } else if k == "1d"@ {
        Some("ch.meteoschweiz.messwerte-globalstrahlung-1d"@)
    } else {
        None
    }
}

/// The precipitation layer for an interval: `10min` (the default), `1h`,
/// `24h` or `48h`.
pub fn precipitation_layer_spec(interval: Option<&str>) -> (r: Result<CurrentLayerSpec, String>)
    ensures
        match precipitation_path(interval_key(interval)) {
            Some(path) => is_layer(r, path),
            None => fails_with(r, "Unsupported precipitation interval: "@ + interval_key(interval)),
        },
{
    let k = normalized_interval(interval);
    let n = k.as_str();
    if str_eq(n, "10min") {
        layer("ch.meteoschweiz.messwerte-niederschlag-10min")
    } else if str_eq(n, "1h") {
        layer("ch.meteoschweiz.messwerte-niederschlag-1h")
    } else if str_eq(n, "24h") {
        layer("ch.meteoschweiz.messwerte-niederschlag-24h")
    } else if str_eq(n, "48h") {
        layer("ch.meteoschweiz.messwerte-niederschlag-48h")
    } else {
        Err(concat2("Unsupported precipitation interval: ", n))
    }
}

/// The sunshine layer for an interval: `10min` (the default) or `1d`.
pub fn sunshine_layer_spec(interval: Option<&str>) -> (r: Result<CurrentLayerSpec, String>)
    ensures
        match sunshine_path(interval_key(interval)) {
            Some(path) => is_layer(r, path),
            None => fails_with(r, "Unsupported sunshine interval: "@ + interval_key(interval)),
        },
{
    let k = normalized_interval(interval);
    let n = k.as_str();
    if str_eq(n, "10min") {
        layer("ch.meteoschweiz.messwerte-sonnenscheindauer-10min")
    } else if str_eq(n, "1d") {
        layer("ch.meteoschweiz.messwerte-sonnenscheindauer-relativ-1d")
    } else {
        Err(concat2("Unsupported sunshine interval: ", n))
    }
}

/// The global radiation layer for an interval: `10min` (the default) or `1d`.
pub fn global_radiation_layer_spec(interval: Option<&str>) -> (r: Result<CurrentLayerSpec, String>)
    ensures
        match radiation_path(interval_key(interval)) {
            Some(path) => is_layer(r, path),
            None => fails_with(r, "Unsupported global radiation interval: "@ + interval_key(interval)),
        },
{
    let k = normalized_interval(interval);
    let n = k.as_str();
    if str_eq(n, "10min") {
        layer("ch.meteoschweiz.messwerte-globalstrahlung-10min")
    } else if str_eq(n, "1d") {
        layer("ch.meteoschweiz.messwerte-globalstrahlung-1d")
    } else {
        Err(concat2("Unsupported global radiation interval: ", n))
    }
}

/// The 10-minute mean wind speed layer.
pub fn wind_speed_layer_spec() -> (r: CurrentLayerSpec)
    ensures
        r.dataset_path@ == "ch.meteoschweiz.messwerte-windgeschwindigkeit-kmh-10min"@,
        r.missing_value is None,
{
    CurrentLayerSpec {
        dataset_path: "ch.meteoschweiz.messwerte-windgeschwindigkeit-kmh-10min",
        missing_value: None,
    }
}

/// The 10-minute maximum one-second gust layer.
pub fn wind_gust_layer_spec() -> (r: CurrentLayerSpec)
    ensures
        r.dataset_path@ == "ch.meteoschweiz.messwerte-wind-boeenspitze-kmh-10min"@,
        r.missing_value is None,
{
    CurrentLayerSpec {
        dataset_path: "ch.meteoschweiz.messwerte-wind-boeenspitze-kmh-10min",
        missing_value: None,
    }
}

/// The hourly pollen dataset of a species (`alder`, `ash`, `beech`, `birch`,
/// `grass`, `hazel` or `oak`, ignoring ASCII case and surrounding whitespace).
pub open spec fn pollen_path(species: Seq<char>) -> Option<Seq<char>> {
    let k = ascii_lower(trimmed(species));
    if k == "alder"@ {
        Some("ch.meteoschweiz.messwerte-pollen-erle-1h"@)
    } else if k == "ash"@ {
        Some("ch.meteoschweiz.messwerte-pollen-esche-1h"@)
    } else if k == "beech"@ {
        Some("ch.meteoschweiz.messwerte-pollen-buche-1h"@)
    } else if k == "birch"@ {
        Some("ch.meteoschweiz.messwerte-pollen-birke-1h"@)
    } else if k == "grass"@ {
        Some("ch.meteoschweiz.messwerte-pollen-graeser-1h"@)
    } else if k == "hazel"@ {
        Some("ch.meteoschweiz.messwerte-pollen-hasel-1h"@)
    } else if k == "oak"@ {
        Some("ch.meteoschweiz.messwerte-pollen-eiche-1h"@)
    } else {
        None
    }
}

/// The hourly pollen dataset of a species.
pub fn pollen_dataset_path(species: &str) -> (r: Result<&'static str, String>)
    ensures
        match pollen_path(species@) {
            Some(path) => r matches Ok(p) && p@ == path,
            None => fails_with(r, "Unsupported pollen species: "@ + ascii_lower(trimmed(species@))),
        },
{
    let k = to_ascii_lowercase(trim(species));
    let n = k.as_str();
    if str_eq(n, "alder") {
        Ok("ch.meteoschweiz.messwerte-pollen-erle-1h")
    } else if str_eq(n, "ash") {
        Ok("ch.meteoschweiz.messwerte-pollen-esche-1h")
    } else if str_eq(n, "beech") {
        Ok("ch.meteoschweiz.messwerte-pollen-buche-1h")
    } else if str_eq(n, "birch") {
        Ok("ch.meteoschweiz.messwerte-pollen-birke-1h")
    } else if str_eq(n, "grass") {
        Ok("ch.meteoschweiz.messwerte-pollen-graeser-1h")
    } else if str_eq(n, "hazel") {
        Ok("ch.meteoschweiz.messwerte-pollen-hasel-1h")
    } else if str_eq(n, "oak") {
        Ok("ch.meteoschweiz.messwerte-pollen-eiche-1h")
    } else {
        Err(concat2("Unsupported pollen species: ", n))
    }
}

/// The pollen layer of a species, whose missing measurements are marked 99999.
pub fn pollen_layer_spec(species: &str) -> (r: Result<CurrentLayerSpec, String>)
    ensures
        match pollen_path(species@) {
            Some(path) => r matches Ok(s) && s.dataset_path@ == path && s.missing_value == Some(
                POLLEN_MISSING_VALUE,
            ),
            None => fails_with(r, "Unsupported pollen species: "@ + ascii_lower(trimmed(species@))),
        },
{
    match pollen_dataset_path(species) {
        Ok(dataset_path) => Ok(CurrentLayerSpec { dataset_path, missing_value: Some(POLLEN_MISSING_VALUE) }),
        Err(e) => Err(e),
    }
}

// ── Measurement fields ──────────────────────────────────────────────────────

/// A reference timestamp as published: trimmed; nothing when blank or `-`.
pub open spec fn reference_timestamp(value: Seq<char>) -> Option<Seq<char>> {
    let t = trimmed(value);
    if t.len() == 0 || t == "-"@ {
        None
    } else {
        Some(t)
    }
}

/// The trimmed reference timestamp, or nothing when it is blank or `-`.
pub fn normalize_reference_timestamp(value: &str) -> (r: Option<&str>)
    ensures
        match reference_timestamp(value@) {
            Some(t) => r matches Some(s) && s@ == t,
            None => r is None,
        },
{
    let trimmed_value = trim(value);
    if trimmed_value.is_empty() || str_eq(trimmed_value, "-") {
        None
    } else {
        Some(trimmed_value)
    }
}

// ── Station filter ──────────────────────────────────────────────────────────

/// A station is selected by a filter when its id equals the filter, or its
/// name equals or contains it, ignoring ASCII case and the filter's
/// surrounding whitespace; without a filter every station is selected.
pub open spec fn station_selected(id: Seq<char>, name: Seq<char>, station_id: Option<Seq<char>>) -> bool {
    match station_id {
        None => true,
        Some(query) => {
            let q = ascii_lower(trimmed(query));
            ascii_lower(id) == q || ascii_lower(name) == q || has_infix(ascii_lower(name), q)
        },
    }
}

/// The text of an optional string slice.
pub open spec fn opt_str(o: Option<&str>) -> Option<Seq<char>> {
    match o {
        Some(s) => Some(s@),
        None => None,
    }
}

/// Whether a station passes the station filter.
pub fn station_matches(id: &str, station_name: &str, station_id: Option<&str>) -> (r: bool)
    ensures
        r == station_selected(id@, station_name@, opt_str(station_id)),
{
    match station_id {
        None => true,
        Some(query) => {
            let q = chars_of(to_ascii_lowercase(trim(query)).as_str());
            let name = chars_of(to_ascii_lowercase(station_name).as_str());
            let lower_id = chars_of(to_ascii_lowercase(id).as_str());
            chars_eq(&lower_id, &q) || chars_eq(&name, &q) || chars_contain(&name, &q)
        },
    }
}

// ── Station order ───────────────────────────────────────────────────────────

/// The texts of a vector of strings.
pub open spec fn string_texts(v: Seq<String>) -> Seq<Seq<char>> {
    v.map_values(|s: String| s@)
}

/// Station names lowercased.
pub open spec fn lowered(names: Seq<Seq<char>>) -> Seq<Seq<char>> {
    names.map_values(|n: Seq<char>| ascii_lower(n))
}

/// `order` lists stations in listing order.
pub open spec fn stations_in_order(names: Seq<Seq<char>>, ids: Seq<Seq<char>>, order: Seq<usize>) -> bool {
    listed_in_order(lowered(names), ids, order)
}

/// Orders the stations `chosen` (positions into `names` and `ids`, given in
/// increasing order) by lowercased name, then id; stations that tie keep
/// the order in which they were given.
pub fn station_order(names: &Vec<String>, ids: &Vec<String>, chosen: &Vec<usize>) -> (order: Vec<usize>)
    requires
        names.len() == ids.len(),
        forall|k: int| 0 <= k < chosen.len() ==> #[trigger] chosen[k] < names.len(),
        forall|x: int, y: int| 0 <= x < y < chosen.len() ==> #[trigger] chosen[x] < #[trigger] chosen[y],
    ensures
        same_items(order@, chosen@),
        stations_in_order(string_texts(names@), string_texts(ids@), order@),
{
    let mut keys: Vec<Vec<char>> = Vec::new();
    let mut idv: Vec<Vec<char>> = Vec::new();
    let mut j: usize = 0;
    while j < names.len()
        invariant
            j <= names.len() == ids.len(),
            keys.len() == j,
            idv.len() == j,
            forall|k: int| 0 <= k < j ==> #[trigger] keys@[k]@ == ascii_lower(names@[k]@),
            forall|k: int| 0 <= k < j ==> #[trigger] idv@[k]@ == ids@[k]@,
        decreases names.len() - j,
    {
        keys.push(chars_of(to_ascii_lowercase(names[j].as_str()).as_str()));
        idv.push(chars_of(ids[j].as_str()));
        j += 1;
    }
    assert(char_texts(keys@) =~= lowered(string_texts(names@)));
    assert(char_texts(idv@) =~= string_texts(ids@));
    keyed_order(&keys, &idv, chosen)
}

/// The message when a station filter selects nothing.
pub open spec fn no_station_matched(query: Seq<char>) -> Seq<char> {
    "No station matched '"@ + query + "'"@
}

/// The stations of a layer to report, in listing order: those that pass the
/// station filter (all of them without one), ordered by lowercased name, then
/// id. A filter that selects nothing is an error.
pub fn select_layer_stations(ids: &Vec<String>, names: &Vec<String>, station_id: Option<&str>) -> (r: Result<Vec<usize>, String>)
    requires
        ids.len() == names.len(),
    ensures
        match r {
            Ok(order) => {
                &&& forall|k: int| 0 <= k < order.len() ==> #[trigger] order[k] < ids.len()
                &&& forall|k: int| 0 <= k < order.len() ==> station_selected(
                    ids@[order[k] as int]@,
                    names@[order[k] as int]@,
                    opt_str(station_id),
                )
                &&& forall|s: int|
                    0 <= s < ids.len() && station_selected(ids@[s]@, names@[s]@, opt_str(station_id)) ==> order@.contains(
                        s as usize,
                    )
                &&& forall|x: int, y: int| 0 <= x < y < order.len() ==> order[x] != order[y]
                &&& stations_in_order(string_texts(names@), string_texts(ids@), order@)
                &&& (station_id is Some ==> order.len() > 0)
            },
            Err(e) => station_id matches Some(q) && e@ == no_station_matched(q@) && forall|s: int|
                0 <= s < ids.len() ==> !station_selected(ids@[s]@, names@[s]@, opt_str(station_id)),
        },
{
    let mut chosen: Vec<usize> = Vec::new();
    let mut s: usize = 0;
    while s < ids.len()
        invariant
            s <= ids.len() == names.len(),
            forall|k: int| 0 <= k < chosen.len() ==> #[trigger] chosen[k] < s,
            forall|x: int, y: int| 0 <= x < y < chosen.len() ==> #[trigger] chosen[x] < #[trigger] chosen[y],
            forall|k: int| 0 <= k < chosen.len() ==> station_selected(
                ids@[chosen[k] as int]@,
                names@[chosen[k] as int]@,
                opt_str(station_id),
            ),
            forall|t: int|
                0 <= t < s && station_selected(ids@[t]@, names@[t]@, opt_str(station_id)) ==> chosen@.contains(
                    t as usize,
                ),
        decreases ids.len() - s,
    {
        let ghost old_chosen = chosen@;
        let selected = station_matches(ids[s].as_str(), names[s].as_str(), station_id);
        if selected {
            chosen.push(s);
        }
        assert forall|t: int|
            0 <= t < s + 1 && station_selected(ids@[t]@, names@[t]@, opt_str(station_id)) implies chosen@.contains(
            t as usize,
        ) by {
            if t < s {
                let w = choose|w: int| 0 <= w < old_chosen.len() && old_chosen[w] == t as usize;
                assert(chosen@[w] == t as usize);
            } else {
                assert(chosen@[chosen.len() - 1] == s);
            }
        }
        s += 1;
    }
    match station_id {
        Some(query) => {
            if chosen.len() == 0 {
                assert forall|t: int| 0 <= t < ids.len() implies !station_selected(
                    ids@[t]@,
                    names@[t]@,
                    opt_str(station_id),
                ) by {
                    if station_selected(ids@[t]@, names@[t]@, opt_str(station_id)) {
                        assert(chosen@.contains(t as usize));
                    }
                }
                return Err(concat3("No station matched '", query, "'"));
            }
        },
        None => {},
    }
    let order = station_order(names, ids, &chosen);
    proof {
        let nt = string_texts(names@);
        let it = string_texts(ids@);
        assert forall|k: int| 0 <= k < order.len() implies #[trigger] order[k] < ids.len() && station_selected(
            ids@[order[k] as int]@,
            names@[order[k] as int]@,
            opt_str(station_id),
        ) by {
            let w = choose|w: int| 0 <= w < chosen.len() && chosen@[w] == order@[k];
        }
        assert forall|t: int|
            0 <= t < ids.len() && station_selected(ids@[t]@, names@[t]@, opt_str(station_id)) implies order@.contains(
            t as usize,
        ) by {
            let w = choose|w: int| 0 <= w < chosen.len() && chosen@[w] == t as usize;
        }
        assert forall|x: int, y: int| 0 <= x < y < order.len() implies order[x] != order[y] by {
            lemma_precedes_irreflexive(lowered(nt), it, order[x] as int);
        }
    }
    Ok(order)
}

// ── Pollen stations ─────────────────────────────────────────────────────────

/// A pollen station as listed.
#[derive(Debug, Clone)]
pub struct StationInfo {
    pub id: String,
    pub station_name: String,
}

/// A pollen station from its catalogue item: the id in ASCII uppercase, the
/// name from the item's title, or the item id when it has none.
pub fn pollen_station_info(item_id: &str, title: Option<&str>) -> (r: StationInfo)
    ensures
        r.id@ == ascii_upper(item_id@),
        r.station_name@ == (match title {
            Some(t) => t@,
            None => item_id@,
        }),
{
    let id = to_ascii_uppercase(item_id);
    let station_name = match title {
        Some(t) => owned(t),
        None => owned(item_id),
    };
    StationInfo { id, station_name }
}

/// Lists pollen stations by lowercased name, then id; ties keep their order.
pub fn sort_station_infos(stations: Vec<StationInfo>) -> (r: Vec<StationInfo>)
    ensures
        r.len() == stations.len(),
        exists|order: Seq<usize>| {
            &&& #[trigger] same_items(order, positions(stations.len() as nat))
            &&& stations_in_order(
                stations@.map_values(|s: StationInfo| s.station_name@),
                stations@.map_values(|s: StationInfo| s.id@),
                order,
            )
            &&& forall|k: int| 0 <= k < order.len() ==> #[trigger] r[k] == stations[order[k] as int]
        },
{
    let mut names: Vec<String> = Vec::new();
    let mut ids: Vec<String> = Vec::new();
    let mut all: Vec<usize> = Vec::new();
    let mut i: usize = 0;
    while i < stations.len()
        invariant
            i <= stations.len(),
            names.len() == i,
            ids.len() == i,
            all@ == Seq::new(i as nat, |k: int| k as usize),
            forall|k: int| 0 <= k < i ==> #[trigger] names@[k]@ == stations@[k].station_name@,
            forall|k: int| 0 <= k < i ==> #[trigger] ids@[k]@ == stations@[k].id@,
        decreases stations.len() - i,
    {
        names.push(stations[i].station_name.clone());
        ids.push(stations[i].id.clone());
        all.push(i);
        assert(all@ =~= Seq::new((i + 1) as nat, |k: int| k as usize));
        i += 1;
    }
    let order = station_order(&names, &ids, &all);
    assert(string_texts(names@) =~= stations@.map_values(|s: StationInfo| s.station_name@));
    assert(string_texts(ids@) =~= stations@.map_values(|s: StationInfo| s.id@));
    let mut r: Vec<StationInfo> = Vec::new();
    let mut k: usize = 0;
    while k < order.len()
        invariant
            k <= order.len() == stations.len(),
            same_items(order@, all@),
            all@ == positions(stations.len() as nat),
            r.len() == k,
            forall|j: int| 0 <= j < k ==> #[trigger] r[j] == stations[order[j] as int],
        decreases order.len() - k,
    {
        let w = order[k];
        proof {
            assert(all@.contains(order@[k as int]));
        }
        let s = &stations[w];
        r.push(StationInfo { id: s.id.clone(), station_name: s.station_name.clone() });
        k += 1;
    }
    assert(same_items(order@, positions(stations.len() as nat)));
    r
}

} // verus!
