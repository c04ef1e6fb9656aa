//! Local forecast logic: forecast asset names and their selection, compact
//! dates, forecast points and their resolution, series and timelines.
use vstd::prelude::*;
use vstd::string::StringSliceAdditionalSpecFns;

use crate::csv_table::{
    lookup, missing_field, opt_text, optional_non_empty, optional_value, parse_csv_response, record_views,
    required_csv_field, semicolon_csv, unix_newlines, zip_row, CsvRecord,
};
use crate::order::{char_texts, keyed_order, listed_in_order, positions, same_items};
use crate::text::{
    ascii_lower, chars_contain, chars_of, concat2, concat3, has_infix, join_strings, joined,
    lemma_split_nonempty, lex_lt, split_on, str_eq, to_ascii_lowercase, trim, trimmed,
};

verus! {

// ── Splitting ───────────────────────────────────────────────────────────────

/// The character ranges of the pieces of `v` between occurrences of `d`.
pub fn split_ranges(v: &Vec<char>, d: char) -> (ranges: Vec<(usize, usize)>)
    ensures
        ranges.len() == split_on(v@, d).len(),
        forall|k: int| 0 <= k < ranges.len() ==> ranges[k].0 <= #[trigger] ranges[k].1 <= v.len(),
        forall|k: int|
            0 <= k < ranges.len() ==> v@.subrange(ranges[k].0 as int, ranges[k].1 as int)
                == #[trigger] split_on(v@, d)[k],
{
    let mut ranges: Vec<(usize, usize)> = Vec::new();
    let mut start: usize = 0;
    let mut i: usize = 0;
    assert(v@.take(0) =~= Seq::<char>::empty());
    while i < v.len()
        invariant
            start <= i <= v.len(),
            split_on(v@.take(i as int), d).len() == ranges.len() + 1,
            v@.subrange(start as int, i as int) == split_on(v@.take(i as int), d).last(),
            forall|k: int| 0 <= k < ranges.len() ==> ranges[k].0 <= #[trigger] ranges[k].1 <= i,
            forall|k: int|
                0 <= k < ranges.len() ==> {
                    &&& v@.subrange(ranges[k].0 as int, ranges[k].1 as int) == #[trigger] split_on(
                        v@.take(i as int),
                        d,
                    )[k]
                },
        decreases v.len() - i,
    {
        let ghost before = split_on(v@.take(i as int), d);
        assert(v@.take(i + 1).drop_last() =~= v@.take(i as int));
        assert(v@.take(i + 1).last() == v@[i as int]);
        let ghost old_ranges = ranges@;
        if v[i] == d {
            ranges.push((start, i));
            start = i + 1;
            assert(v@.subrange(start as int, i + 1) =~= Seq::<char>::empty());
            let ghost after = split_on(v@.take(i + 1), d);
            assert(after == before.push(Seq::<char>::empty()));
            assert forall|k: int| 0 <= k < ranges.len() implies {
                &&& ranges[k].0 <= ranges[k].1 <= i + 1
                &&& v@.subrange(ranges[k].0 as int, ranges[k].1 as int) == #[trigger] split_on(
                    v@.take(i + 1),
                    d,
                )[k]
            } by {
                if k < old_ranges.len() {
                    assert(ranges[k] == old_ranges[k]);
                    assert(after[k] == before[k]);
                } else {
                    assert(after[k] == before[before.len() - 1]);
                }
            }
        } else {
            assert(v@.subrange(start as int, i + 1) =~= v@.subrange(start as int, i as int).push(
                v@[i as int],
            ));
            let ghost after = split_on(v@.take(i + 1), d);
            assert(after == before.update(before.len() - 1, before.last().push(v@[i as int])));
            assert forall|k: int| 0 <= k < ranges.len() implies {
                &&& ranges[k].0 <= ranges[k].1 <= i + 1
                &&& v@.subrange(ranges[k].0 as int, ranges[k].1 as int) == #[trigger] split_on(
                    v@.take(i + 1),
                    d,
                )[k]
            } by {
                assert(after[k] == before[k]);
            }
        }
        i += 1;
    }
    assert(v@.take(v.len() as int) =~= v@);
    let ghost pieces = split_on(v@, d);
    let ghost old_ranges = ranges@;
    ranges.push((start, i));
    assert forall|k: int| 0 <= k < ranges.len() implies ranges[k].0 <= #[trigger] ranges[k].1 <= v.len()
        && v@.subrange(ranges[k].0 as int, ranges[k].1 as int) == split_on(v@, d)[k] by {
        if k < old_ranges.len() {
            assert(ranges[k] == old_ranges[k]);
        } else {
            assert(ranges[k] == (start, i));
            assert(start <= i);
        }
    }
    ranges
}

// ── Forecast asset names ────────────────────────────────────────────────────

/// The issue timestamp and parameter code named by a forecast asset file
/// name `prefix.source.timestamp.code.csv` (pieces after the fifth are
/// ignored), or nothing when the name has fewer than five pieces or the fifth
/// is not `csv`.
pub open spec fn asset_name_parts(name: Seq<char>) -> Option<(Seq<char>, Seq<char>)> {
    let parts = split_on(name, '.');
    if parts.len() >= 5 && parts[4] == "csv"@ {
        Some((parts[2], parts[3]))
    } else {
        None
    }
}

/// Splits a forecast asset file name into its issue timestamp and parameter code.
pub fn parse_local_forecast_asset_name(asset_name: &str) -> (r: Option<(&str, &str)>)
    ensures
        match asset_name_parts(asset_name@) {
            Some((timestamp, code)) => r matches Some((t, c)) && t@ == timestamp && c@ == code,
            None => r is None,
        },
{
    let v = chars_of(asset_name);
    let ranges = split_ranges(&v, '.');
    proof {
        lemma_split_nonempty(v@, '.');
    }
    if ranges.len() < 5 {
        return None;
    }
    let extension = asset_name.substring_char(ranges[4].0, ranges[4].1);
    if !crate::text::str_eq(extension, "csv") {
        return None;
    }
    let timestamp = asset_name.substring_char(ranges[2].0, ranges[2].1);
    let code = asset_name.substring_char(ranges[3].0, ranges[3].1);
    Some((timestamp, code))
}

// ── Compact dates ───────────────────────────────────────────────────────────

/// An ASCII digit byte.
pub open spec fn is_digit_byte(b: u8) -> bool {
    0x30 <= b && b <= 0x39
}

/// A compact date that is accepted: 8 bytes (`YYYYMMDD`) or 12 bytes
/// (`YYYYMMDDhhmm`), whose first 8 bytes are ASCII digits.
pub open spec fn is_compact_date(bytes: Seq<u8>) -> bool {
    &&& (bytes.len() == 8 || bytes.len() == 12)
    &&& forall|i: int| 0 <= i < 8 ==> is_digit_byte(#[trigger] bytes[i])
}

/// The CAMS day time `YYYY-MM-DDT00:00:00Z` of an accepted compact date.
pub open spec fn cams_day_time(bytes: Seq<u8>) -> Seq<char> {
    seq![
        bytes[0] as char,
        bytes[1] as char,
        bytes[2] as char,
        bytes[3] as char,
        '-',
        bytes[4] as char,
        bytes[5] as char,
        '-',
        bytes[6] as char,
        bytes[7] as char,
    ] + "T00:00:00Z"@
}

/// The message for a compact date that is refused.
pub open spec fn invalid_compact_date(date: Seq<char>) -> Seq<char> {
    "Invalid compact date '"@ + date + "'"@
}

/// A date that can be cut after its eighth byte when it has twelve: the
/// eighth byte then ends a character.
pub open spec fn cuttable_date(date: Seq<char>) -> bool {
    vstd::utf8::encode_utf8(date).len() == 12 ==> vstd::utf8::is_char_boundary(
        vstd::utf8::encode_utf8(date),
        8,
    )
}

/// Turns a MeteoSwiss compact date (`YYYYMMDD`, or a `YYYYMMDDhhmm` daily
/// timestamp) into the CAMS day time `YYYY-MM-DDT00:00:00Z`. A 12-byte date
/// is cut after its eighth byte, which must therefore end a character.
pub fn compact_date_to_cams_day_time(compact_date: &str) -> (r: Result<String, String>)
    requires
        cuttable_date(compact_date@),
    ensures
        match r {
            Ok(t) => is_compact_date(compact_date.spec_bytes()) && t@ == cams_day_time(
                compact_date.spec_bytes(),
            ),
            Err(e) => !is_compact_date(compact_date.spec_bytes()) && e@ == invalid_compact_date(
                compact_date@,
            ),
        },
{
    let bytes = compact_date.as_bytes();
    let n = bytes.len();
    if n != 8 && n != 12 {
        return Err(concat3("Invalid compact date '", compact_date, "'"));
    }
    let mut i: usize = 0;
    while i < 8
        invariant
            i <= 8 <= bytes@.len(),
            bytes@ == compact_date.spec_bytes(),
            forall|k: int| 0 <= k < i ==> is_digit_byte(#[trigger] bytes@[k]),
        decreases 8 - i,
    {
        if bytes[i] < 0x30 || bytes[i] > 0x39 {
            return Err(concat3("Invalid compact date '", compact_date, "'"));
        }
        i += 1;
    }
    let mut t = String::new();
    crate::text::push_char(&mut t, bytes[0] as char);
    crate::text::push_char(&mut t, bytes[1] as char);
    crate::text::push_char(&mut t, bytes[2] as char);
    crate::text::push_char(&mut t, bytes[3] as char);
    crate::text::push_char(&mut t, '-');
    crate::text::push_char(&mut t, bytes[4] as char);
    crate::text::push_char(&mut t, bytes[5] as char);
    crate::text::push_char(&mut t, '-');
    crate::text::push_char(&mut t, bytes[6] as char);
    crate::text::push_char(&mut t, bytes[7] as char);
    t.append("T00:00:00Z");
    assert(t@ =~= cams_day_time(compact_date.spec_bytes()));
    Ok(t)
}

// ── Forecast points ─────────────────────────────────────────────────────────

/// A point of the local forecast: its identifiers, and the text of its
/// numeric columns (height and coordinates), each trimmed and present only
/// when the column is there and not blank.
#[derive(Debug, Clone)]
pub struct ForecastPoint {
    pub point_id: String,
    pub station_abbr: Option<String>,
    pub postal_code: Option<String>,
    pub point_name: String,
    pub point_type_en: String,
    pub point_height_masl: Option<String>,
    pub point_coordinates_lv95_east: Option<String>,
    pub point_coordinates_lv95_north: Option<String>,
    pub point_coordinates_wgs84_lat: Option<String>,
    pub point_coordinates_wgs84_lon: Option<String>,
}

fn copy_opt(o: &Option<String>) -> (r: Option<String>)
    ensures
        r == *o,
{
    match o {
        Some(s) => Some(s.clone()),
        None => None,
    }
}

impl ForecastPoint {
    /// A copy of the point.
    pub fn copy(&self) -> (r: Self)
        ensures
            r == *self,
    {
        ForecastPoint {
            point_id: self.point_id.clone(),
            station_abbr: copy_opt(&self.station_abbr),
            postal_code: copy_opt(&self.postal_code),
            point_name: self.point_name.clone(),
            point_type_en: self.point_type_en.clone(),
            point_height_masl: copy_opt(&self.point_height_masl),
            point_coordinates_lv95_east: copy_opt(&self.point_coordinates_lv95_east),
            point_coordinates_lv95_north: copy_opt(&self.point_coordinates_lv95_north),
            point_coordinates_wgs84_lat: copy_opt(&self.point_coordinates_wgs84_lat),
            point_coordinates_wgs84_lon: copy_opt(&self.point_coordinates_wgs84_lon),
        }
    }
}

/// The first required column that a metadata row lacks, as its message.
pub open spec fn point_row_error(row: Seq<(Seq<char>, Seq<char>)>) -> Option<Seq<char>> {
    if lookup(row, "point_id"@) is None {
        Some(missing_field("point_id"@))
    } else if lookup(row, "point_name"@) is None {
        Some(missing_field("point_name"@))
    } else if lookup(row, "point_type_en"@) is None {
        Some(missing_field("point_type_en"@))
    } else {
        None
    }
}

/// `p` is the point that a metadata row describes.
pub open spec fn point_of_row(row: Seq<(Seq<char>, Seq<char>)>, p: ForecastPoint) -> bool {
    &&& lookup(row, "point_id"@) == Some(p.point_id@)
    &&& opt_text(p.station_abbr) == optional_value(row, "station_abbr"@)
    &&& opt_text(p.postal_code) == optional_value(row, "postal_code"@)
    &&& lookup(row, "point_name"@) == Some(p.point_name@)
    &&& lookup(row, "point_type_en"@) == Some(p.point_type_en@)
    &&& opt_text(p.point_height_masl) == optional_value(row, "point_height_masl"@)
    &&& opt_text(p.point_coordinates_lv95_east) == optional_value(
        row,
        "point_coordinates_lv95_east"@,
    )
    &&& opt_text(p.point_coordinates_lv95_north) == optional_value(
        row,
        "point_coordinates_lv95_north"@,
    )
    &&& opt_text(p.point_coordinates_wgs84_lat) == optional_value(
        row,
        "point_coordinates_wgs84_lat"@,
    )
    &&& opt_text(p.point_coordinates_wgs84_lon) == optional_value(
        row,
        "point_coordinates_wgs84_lon"@,
    )
}

/// The error of the first row that lacks a required column.
pub open spec fn first_row_error(rows: Seq<Seq<(Seq<char>, Seq<char>)>>) -> Option<Seq<char>>
    decreases rows.len(),
{
    if rows.len() == 0 {
        None
    } else if point_row_error(rows[0]) is Some {
        point_row_error(rows[0])
    } else {
        first_row_error(rows.drop_first())
    }
}

/// The records of a table: each data row keyed by the header.
pub open spec fn table_records(headers: Seq<Seq<char>>, rows: Seq<Seq<Seq<char>>>) -> Seq<
    Seq<(Seq<char>, Seq<char>)>,
> {
    rows.map_values(|row: Seq<Seq<char>>| zip_row(headers, row))
}

/// The forecast point that a metadata record describes; fails with the first
/// of `point_id`, `point_name`, `point_type_en` that the record lacks.
pub fn forecast_point_of_record(row: &CsvRecord) -> (r: Result<ForecastPoint, String>)
    ensures
        match point_row_error(row@) {
            Some(e) => r matches Err(m) && m@ == e,
            None => r matches Ok(p) && point_of_row(row@, p),
        },
{
    let point_id = match required_csv_field(row, "point_id") {
        Ok(v) => v,
        Err(e) => return Err(e),
    };
    let station_abbr = optional_non_empty(row, "station_abbr");
    let postal_code = optional_non_empty(row, "postal_code");
    let point_name = match required_csv_field(row, "point_name") {
        Ok(v) => v,
        Err(e) => return Err(e),
    };
    let point_type_en = match required_csv_field(row, "point_type_en") {
        Ok(v) => v,
        Err(e) => return Err(e),
    };
    Ok(ForecastPoint {
        point_id,
        station_abbr,
        postal_code,
        point_name,
        point_type_en,
        point_height_masl: optional_non_empty(row, "point_height_masl"),
        point_coordinates_lv95_east: optional_non_empty(row, "point_coordinates_lv95_east"),
        point_coordinates_lv95_north: optional_non_empty(row, "point_coordinates_lv95_north"),
        point_coordinates_wgs84_lat: optional_non_empty(row, "point_coordinates_wgs84_lat"),
        point_coordinates_wgs84_lon: optional_non_empty(row, "point_coordinates_wgs84_lon"),
    })
}

/// The forecast points of metadata records: one per record, in order; fails
/// with the first record that lacks `point_id`, `point_name` or
/// `point_type_en`.
pub fn points_from_records(records: &Vec<CsvRecord>) -> (r: Result<Vec<ForecastPoint>, String>)
    ensures
        match first_row_error(record_views(records@)) {
            Some(e) => r matches Err(m) && m@ == e,
            None => r matches Ok(points) && points.len() == records.len() && forall|i: int|
                0 <= i < records.len() ==> point_of_row(#[trigger] records[i]@, points[i]),
        },
{
    let ghost table = record_views(records@);
    let mut points: Vec<ForecastPoint> = Vec::new();
    let mut i: usize = 0;
    assert(table.skip(0) =~= table);
    while i < records.len()
        invariant
            i <= records.len() == table.len(),
            table == record_views(records@),
            first_row_error(table) == first_row_error(table.skip(i as int)),
            points.len() == i,
            forall|k: int| 0 <= k < i ==> point_of_row(#[trigger] records[k]@, points[k]),
        decreases records.len() - i,
    {
        assert(table[i as int] == records[i as int]@);
        assert(table.skip(i as int)[0] == table[i as int]);
        assert(table.skip(i as int).drop_first() =~= table.skip(i + 1));
        match forecast_point_of_record(&records[i]) {
            Ok(p) => points.push(p),
            Err(e) => {
                assert(first_row_error(table.skip(i as int)) == point_row_error(table[i as int]));
                return Err(e);
            },
        }
        i += 1;
    }
    assert(table.skip(records.len() as int) =~= Seq::<Seq<(Seq<char>, Seq<char>)>>::empty());
    Ok(points)
}

/// Reads the forecast point metadata table: one point per data row, in order;
/// fails with the table's own error or with the first row that lacks
/// `point_id`, `point_name` or `point_type_en`.
pub fn parse_local_forecast_points(csv_text: &str) -> (r: Result<Vec<ForecastPoint>, String>)
    ensures
        match semicolon_csv(unix_newlines(csv_text@)) {
            Err(message) => r matches Err(m) && m@ == message,
            Ok((headers, rows)) => match first_row_error(table_records(headers, rows)) {
                Some(e) => r matches Err(m) && m@ == e,
                None => r matches Ok(points) && points.len() == rows.len() && forall|i: int|
                    0 <= i < rows.len() ==> point_of_row(
                        #[trigger] table_records(headers, rows)[i],
                        points[i],
                    ),
            },
        },
{
    let records = match parse_csv_response(csv_text) {
        Ok(records) => records,
        Err(e) => return Err(e),
    };
    let ghost table = match semicolon_csv(unix_newlines(csv_text@)) {
        Ok((headers, rows)) => table_records(headers, rows),
        Err(_) => Seq::empty(),
    };
    assert(record_views(records@) =~= table);
    points_from_records(&records)
}

// ── Point resolution ────────────────────────────────────────────────────────

/// The normalised form of a point query: trimmed and ASCII-lowercased.
pub open spec fn point_query_key(query: Seq<char>) -> Seq<char> {
    ascii_lower(trimmed(query))
}

/// The column of a forecast point that a query may equal.
#[derive(Debug, Clone, Copy, PartialEq, Eq, Structural)]
pub enum PointField {
    PointId,
    StationAbbr,
    PostalCode,
    PointName,
}

/// An optional text equals `q` ignoring ASCII case.
pub open spec fn opt_lower_eq(o: Option<String>, q: Seq<char>) -> bool {
    match o {
        Some(s) => ascii_lower(s@) == q,
        None => false,
    }
}

/// An optional text contains `q` ignoring ASCII case.
pub open spec fn opt_lower_has(o: Option<String>, q: Seq<char>) -> bool {
    match o {
        Some(s) => has_infix(ascii_lower(s@), q),
        None => false,
    }
}

/// The point's `field` equals the normalised query `q`, ignoring ASCII case.
pub open spec fn field_equals(p: ForecastPoint, field: PointField, q: Seq<char>) -> bool {
    match field {
        PointField::PointId => ascii_lower(p.point_id@) == q,
        PointField::StationAbbr => opt_lower_eq(p.station_abbr, q),
        PointField::PostalCode => opt_lower_eq(p.postal_code, q),
        PointField::PointName => ascii_lower(p.point_name@) == q,
    }
}

/// The point's name, station abbreviation or postal code contains `q`,
/// ignoring ASCII case.
pub open spec fn point_mentions(p: ForecastPoint, q: Seq<char>) -> bool {
    has_infix(ascii_lower(p.point_name@), q) || opt_lower_has(p.station_abbr, q) || opt_lower_has(
        p.postal_code,
        q,
    )
}

/// The points whose `field` equals `q`, in order.
pub open spec fn field_matches(points: Seq<ForecastPoint>, field: PointField, q: Seq<char>) -> Seq<
    ForecastPoint,
> {
    points.filter(|p: ForecastPoint| field_equals(p, field, q))
}

/// The points that mention `q`, in order.
pub open spec fn partial_matches(points: Seq<ForecastPoint>, q: Seq<char>) -> Seq<ForecastPoint> {
    points.filter(|p: ForecastPoint| point_mentions(p, q))
}

/// How a candidate point is shown: its name, with its station abbreviation
/// in brackets when it has one.
pub open spec fn candidate_label(p: ForecastPoint) -> Seq<char> {
    match p.station_abbr {
        Some(abbr) => p.point_name@ + " ("@ + abbr@ + ")"@,
        None => p.point_name@,
    }
}

/// The labels of the first ten candidates.
pub open spec fn candidate_labels(points: Seq<ForecastPoint>) -> Seq<Seq<char>> {
    let shown = if points.len() <= 10 { points } else { points.take(10) };
    shown.map_values(|p: ForecastPoint| candidate_label(p))
}

/// The message for an ambiguous exact match.
pub open spec fn ambiguous_exact(matches: Seq<ForecastPoint>) -> Seq<char> {
    "Point query is ambiguous. Matches: "@ + joined(candidate_labels(matches), ", "@)
}

/// What one exact-match stage finds: nothing, one point, or an ambiguity.
pub open spec fn stage_outcome(matches: Seq<ForecastPoint>) -> Result<Option<ForecastPoint>, Seq<char>> {
    if matches.len() == 0 {
        Ok(None)
    } else if matches.len() == 1 {
        Ok(Some(matches[0]))
    } else {
        Err(ambiguous_exact(matches))
    }
}

/// The answer to a point query: the first exact stage (point id, station
/// abbreviation, postal code, point name) that finds anything decides;
/// otherwise a single partial match is the answer; none, or several, fail.
pub open spec fn resolution(points: Seq<ForecastPoint>, query: Seq<char>) -> Result<
    ForecastPoint,
    Seq<char>,
> {
    let q = point_query_key(query);
    if q.len() == 0 {
        Err("Point query cannot be empty"@)
    } else {
        match stage_outcome(field_matches(points, PointField::PointId, q)) {
            Err(e) => Err(e),
            Ok(Some(p)) => Ok(p),
            Ok(None) => match stage_outcome(field_matches(points, PointField::StationAbbr, q)) {
                Err(e) => Err(e),
                Ok(Some(p)) => Ok(p),
                Ok(None) => match stage_outcome(field_matches(points, PointField::PostalCode, q)) {
                    Err(e) => Err(e),
                    Ok(Some(p)) => Ok(p),
                    Ok(None) => match stage_outcome(
                        field_matches(points, PointField::PointName, q),
                    ) {
                        Err(e) => Err(e),
                        Ok(Some(p)) => Ok(p),
                        Ok(None) => {
                            let partial = partial_matches(points, q);
                            if partial.len() == 0 {
                                Err("No local forecast point matched '"@ + query + "'"@)
                            } else if partial.len() == 1 {
                                Ok(partial[0])
                            } else {
                                Err(
                                    "Point query '"@ + query + "' is ambiguous. Matches: "@
                                        + joined(candidate_labels(partial), ", "@),
                                )
                            }
                        },
                    },
                },
            },
        }
    }
}

fn opt_lower_equals(o: &Option<String>, q: &Vec<char>) -> (r: bool)
    ensures
        r == opt_lower_eq(*o, q@),
{
    match o {
        Some(s) => {
            let l = to_ascii_lowercase(s.as_str());
            crate::text::chars_eq(&chars_of(l.as_str()), q)
        },
        None => false,
    }
}

fn opt_lower_contains(o: &Option<String>, q: &Vec<char>) -> (r: bool)
    ensures
        r == opt_lower_has(*o, q@),
{
    match o {
        Some(s) => {
            let l = to_ascii_lowercase(s.as_str());
            chars_contain(&chars_of(l.as_str()), q)
        },
        None => false,
    }
}

fn point_field_equals(p: &ForecastPoint, field: PointField, q: &Vec<char>) -> (r: bool)
    ensures
        r == field_equals(*p, field, q@),
{
    match field {
        PointField::PointId => {
            let l = to_ascii_lowercase(p.point_id.as_str());
            crate::text::chars_eq(&chars_of(l.as_str()), q)
        },
        PointField::StationAbbr => opt_lower_equals(&p.station_abbr, q),
        PointField::PostalCode => opt_lower_equals(&p.postal_code, q),
        PointField::PointName => {
            let l = to_ascii_lowercase(p.point_name.as_str());
            crate::text::chars_eq(&chars_of(l.as_str()), q)
        },
    }
}

/// Whether the point's name, station abbreviation or postal code contains the
/// normalised query, ignoring ASCII case.
pub fn forecast_point_contains(point: &ForecastPoint, query: &Vec<char>) -> (r: bool)
    ensures
        r == point_mentions(*point, query@),
{
    let name = to_ascii_lowercase(point.point_name.as_str());
    chars_contain(&chars_of(name.as_str()), query) || opt_lower_contains(&point.station_abbr, query)
        || opt_lower_contains(&point.postal_code, query)
}

/// The labels of the first ten points: the name, with the station
/// abbreviation in brackets when there is one.
pub fn format_point_candidates(points: &Vec<ForecastPoint>) -> (r: Vec<String>)
    ensures
        r@.map_values(|s: String| s@) == candidate_labels(points@),
{
    let n = if points.len() <= 10 { points.len() } else { 10 };
    let mut labels: Vec<String> = Vec::new();
    let mut i: usize = 0;
    while i < n
        invariant
            i <= n,
            n == (if points.len() <= 10 { points.len() } else { 10 }),
            labels.len() == i,
            forall|k: int| 0 <= k < i ==> #[trigger] labels@[k]@ == candidate_label(points@[k]),
        decreases n - i,
    {
        let p = &points[i];
        let label = match &p.station_abbr {
            Some(abbr) => {
                let mut l = concat2(p.point_name.as_str(), " (");
                l.append(abbr.as_str());
                l.append(")");
                l
            },
            None => p.point_name.clone(),
        };
        labels.push(label);
        i += 1;
    }
    assert(labels@.map_values(|s: String| s@) =~= candidate_labels(points@));
    labels
}

proof fn lemma_filter_step(s: Seq<ForecastPoint>, i: int, pred: spec_fn(ForecastPoint) -> bool)
    requires
        0 <= i < s.len(),
    ensures
        s.take(i + 1).filter(pred) == (if pred(s[i]) {
            s.take(i).filter(pred).push(s[i])
        } else {
            s.take(i).filter(pred)
        }),
{
    reveal(Seq::filter);
    assert(s.take(i + 1).drop_last() =~= s.take(i));
    assert(s.take(i + 1).last() == s[i]);
}

/// The points whose `field` equals the normalised query, in order.
fn points_with_field(points: &Vec<ForecastPoint>, field: PointField, q: &Vec<char>) -> (r: Vec<ForecastPoint>)
    ensures
        r@ == field_matches(points@, field, q@),
{
    let mut matches: Vec<ForecastPoint> = Vec::new();
    let mut i: usize = 0;
    assert(field_matches(points@.take(0), field, q@) =~= Seq::<ForecastPoint>::empty()) by {
        reveal(Seq::filter);
    }
    while i < points.len()
        invariant
            i <= points.len(),
            matches@ == field_matches(points@.take(i as int), field, q@),
        decreases points.len() - i,
    {
        proof {
            lemma_filter_step(points@, i as int, |p: ForecastPoint| field_equals(p, field, q@));
        }
        if point_field_equals(&points[i], field, q) {
            matches.push(points[i].copy());
        }
        i += 1;
    }
    assert(points@.take(points.len() as int) =~= points@);
    matches
}

/// The points that mention the normalised query, in order.
fn points_mentioning(points: &Vec<ForecastPoint>, q: &Vec<char>) -> (r: Vec<ForecastPoint>)
    ensures
        r@ == partial_matches(points@, q@),
{
    let mut matches: Vec<ForecastPoint> = Vec::new();
    let mut i: usize = 0;
    assert(partial_matches(points@.take(0), q@) =~= Seq::<ForecastPoint>::empty()) by {
        reveal(Seq::filter);
    }
    while i < points.len()
        invariant
            i <= points.len(),
            matches@ == partial_matches(points@.take(i as int), q@),
        decreases points.len() - i,
    {
        proof {
            lemma_filter_step(points@, i as int, |p: ForecastPoint| point_mentions(p, q@));
        }
        if forecast_point_contains(&points[i], q) {
            matches.push(points[i].copy());
        }
        i += 1;
    }
    assert(points@.take(points.len() as int) =~= points@);
    matches
}

/// The single point whose `field` equals the normalised query: nothing when
/// none does, an error listing candidates when several do.
pub fn select_single_point(points: &Vec<ForecastPoint>, field: PointField, query: &Vec<char>) -> (r:
    Result<Option<ForecastPoint>, String>)
    ensures
        match stage_outcome(field_matches(points@, field, query@)) {
            Ok(found) => r == Ok::<Option<ForecastPoint>, String>(found),
            Err(e) => r matches Err(m) && m@ == e,
        },
{
    let matches = points_with_field(points, field, query);
    if matches.len() == 0 {
        Ok(None)
    } else if matches.len() == 1 {
        Ok(Some(matches[0].copy()))
    } else {
        let labels = format_point_candidates(&matches);
        let list = join_strings(&labels, ", ");
        Err(concat2("Point query is ambiguous. Matches: ", list.as_str()))
    }
}

/// Finds the forecast point that a query names: by exact point id, station
/// abbreviation, postal code or point name (in that order, ignoring ASCII
/// case and surrounding whitespace), else by a single partial match.
pub fn resolve_forecast_point(points: &Vec<ForecastPoint>, query: &str) -> (r: Result<ForecastPoint, String>)
    ensures
        match resolution(points@, query@) {
            Ok(p) => r == Ok::<ForecastPoint, String>(p),
            Err(e) => r matches Err(m) && m@ == e,
        },
{
    let normalized = to_ascii_lowercase(trim(query));
    let q = chars_of(normalized.as_str());
    if q.len() == 0 {
        return Err(crate::text::owned("Point query cannot be empty"));
    }
    match select_single_point(points, PointField::PointId, &q) {
        Err(e) => return Err(e),
        Ok(Some(p)) => return Ok(p),
        Ok(None) => {},
    }
    match select_single_point(points, PointField::StationAbbr, &q) {
        Err(e) => return Err(e),
        Ok(Some(p)) => return Ok(p),
        Ok(None) => {},
    }
    match select_single_point(points, PointField::PostalCode, &q) {
        Err(e) => return Err(e),
        Ok(Some(p)) => return Ok(p),
        Ok(None) => {},
    }
    match select_single_point(points, PointField::PointName, &q) {
        Err(e) => return Err(e),
        Ok(Some(p)) => return Ok(p),
        Ok(None) => {},
    }
    let partial = points_mentioning(points, &q);
    if partial.len() == 0 {
        Err(concat3("No local forecast point matched '", query, "'"))
    } else if partial.len() == 1 {
        Ok(partial[0].copy())
    } else {
        let labels = format_point_candidates(&partial);
        let list = join_strings(&labels, ", ");
        let mut message = concat3("Point query '", query, "' is ambiguous. Matches: ");
        message.append(list.as_str());
        Err(message)
    }
}

// ── Forecast bundles ────────────────────────────────────────────────────────

/// The STAC collection of the local forecast.
pub const LOCAL_FORECAST_COLLECTION_ID: &'static str = "ch.meteoschweiz.ogd-local-forecasting";

/// The metadata table of all local forecast points.
pub const LOCAL_FORECAST_POINT_METADATA_URL: &'static str = "https://data.geo.admin.ch/ch.meteoschweiz.ogd-local-forecasting/ogd-local-forecasting_meta_point.csv";

/// The URL that lists the latest local forecast items.
pub fn local_forecast_items_url() -> (r: String)
    ensures
        r@ == crate::stations::STAC_ROOT@ + "/collections/"@ + LOCAL_FORECAST_COLLECTION_ID@
            + "/items?limit=8"@,
{
    let mut r = concat3(crate::stations::STAC_ROOT, "/collections/", LOCAL_FORECAST_COLLECTION_ID);
    r.append("/items?limit=8");
    r
}

/// A forecast parameter: its MeteoSwiss code, the field it fills in a
/// forecast row, its label and its unit.
#[derive(Debug, Clone, Copy)]
pub struct ForecastBundleParameter {
    pub code: &'static str,
    pub field_name: &'static str,
    pub label: &'static str,
    pub unit: &'static str,
}

/// The texts of a parameter.
pub open spec fn parameter_texts(p: ForecastBundleParameter) -> (Seq<char>, Seq<char>, Seq<char>, Seq<char>) {
    (p.code@, p.field_name@, p.label@, p.unit@)
}

/// The hourly forecast parameters, in order.
pub open spec fn hourly_bundle() -> Seq<(Seq<char>, Seq<char>, Seq<char>, Seq<char>)> {
    seq![
        ("tre200h0"@, "temperature_2m_c"@, "Air temperature 2 m above ground; hourly mean"@, "C"@),
        ("rre150h0"@, "precipitation_hourly_mm"@, "Precipitation; hourly total"@, "mm"@),
        ("rp0003i0"@, "precipitation_probability_3h_percent"@, "Probability of precipitation during 3 hours"@, "%"@),
        ("dkl010h0"@, "wind_direction_degrees"@, "Wind direction; hourly mean"@, "degrees"@),
        ("fu3010h0"@, "wind_speed_kmh"@, "Wind speed scalar; hourly mean"@, "km/h"@),
        ("fu3010h1"@, "wind_gust_kmh"@, "Gust peak (one second); hourly maximum"@, "km/h"@),
        ("jww003i0"@, "weather_icon_code"@, "MeteoSwiss weather icon code"@, "code"@),
        ("nprolohs"@, "low_cloud_cover"@, "Low cloud cover"@, "fraction"@),
        ("npromths"@, "medium_cloud_cover"@, "Medium cloud cover"@, "fraction"@),
        ("nprohihs"@, "high_cloud_cover"@, "High cloud cover"@, "fraction"@),
        ("sre000h0"@, "sunshine_duration_minutes"@, "Sunshine duration; hourly total"@, "min"@),
        ("gre000h0"@, "global_radiation_w_m2"@, "Global radiation; hourly mean"@, "W/m2"@),
        ("ods000h0"@, "diffuse_radiation_w_m2"@, "Diffuse radiation; hourly mean"@, "W/m2"@),
    ]
}

/// The daily forecast parameters, in order.
pub open spec fn daily_bundle() -> Seq<(Seq<char>, Seq<char>, Seq<char>, Seq<char>)> {
    seq![
        ("tre200dn"@, "temperature_min_c"@, "Air temperature 2 m above ground; daily minimum"@, "C"@),
        ("tre200dx"@, "temperature_max_c"@, "Air temperature 2 m above ground; daily maximum"@, "C"@),
        ("rka150p0"@, "precipitation_total_mm"@, "Precipitation; daily total 00:00 - 24:00 local time"@, "mm"@),
        ("rreq10p0"@, "precipitation_total_10_percentile_mm"@, "Precipitation; daily total 10% quantile"@, "mm"@),
        ("rreq90p0"@, "precipitation_total_90_percentile_mm"@, "Precipitation; daily total 90% quantile"@, "mm"@),
        ("jp2000d0"@, "weather_icon_code"@, "MeteoSwiss pictogram number; daily value"@, "code"@),
    ]
}

fn parameter(code: &'static str, field_name: &'static str, label: &'static str, unit: &'static str) -> (r: ForecastBundleParameter)
    ensures
        parameter_texts(r) == (code@, field_name@, label@, unit@),
{
    ForecastBundleParameter { code, field_name, label, unit }
}

/// The hourly forecast parameters.
pub fn hourly_forecast_bundle() -> (r: Vec<ForecastBundleParameter>)
    ensures
        r@.map_values(|p: ForecastBundleParameter| parameter_texts(p)) == hourly_bundle(),
{
    let mut r = Vec::new();
    r.push(parameter("tre200h0", "temperature_2m_c", "Air temperature 2 m above ground; hourly mean", "C"));
    r.push(parameter("rre150h0", "precipitation_hourly_mm", "Precipitation; hourly total", "mm"));
    r.push(parameter("rp0003i0", "precipitation_probability_3h_percent", "Probability of precipitation during 3 hours", "%"));
    r.push(parameter("dkl010h0", "wind_direction_degrees", "Wind direction; hourly mean", "degrees"));
    r.push(parameter("fu3010h0", "wind_speed_kmh", "Wind speed scalar; hourly mean", "km/h"));
    r.push(parameter("fu3010h1", "wind_gust_kmh", "Gust peak (one second); hourly maximum", "km/h"));
    r.push(parameter("jww003i0", "weather_icon_code", "MeteoSwiss weather icon code", "code"));
    r.push(parameter("nprolohs", "low_cloud_cover", "Low cloud cover", "fraction"));
    r.push(parameter("npromths", "medium_cloud_cover", "Medium cloud cover", "fraction"));
    r.push(parameter("nprohihs", "high_cloud_cover", "High cloud cover", "fraction"));
    r.push(parameter("sre000h0", "sunshine_duration_minutes", "Sunshine duration; hourly total", "min"));
    r.push(parameter("gre000h0", "global_radiation_w_m2", "Global radiation; hourly mean", "W/m2"));
    r.push(parameter("ods000h0", "diffuse_radiation_w_m2", "Diffuse radiation; hourly mean", "W/m2"));
    assert(r@.map_values(|p: ForecastBundleParameter| parameter_texts(p)) =~= hourly_bundle());
    r
}

/// The daily forecast parameters.
pub fn daily_forecast_bundle() -> (r: Vec<ForecastBundleParameter>)
    ensures
        r@.map_values(|p: ForecastBundleParameter| parameter_texts(p)) == daily_bundle(),
{
    let mut r = Vec::new();
    r.push(parameter("tre200dn", "temperature_min_c", "Air temperature 2 m above ground; daily minimum", "C"));
    r.push(parameter("tre200dx", "temperature_max_c", "Air temperature 2 m above ground; daily maximum", "C"));
    r.push(parameter("rka150p0", "precipitation_total_mm", "Precipitation; daily total 00:00 - 24:00 local time", "mm"));
    r.push(parameter("rreq10p0", "precipitation_total_10_percentile_mm", "Precipitation; daily total 10% quantile", "mm"));
    r.push(parameter("rreq90p0", "precipitation_total_90_percentile_mm", "Precipitation; daily total 90% quantile", "mm"));
    r.push(parameter("jp2000d0", "weather_icon_code", "MeteoSwiss pictogram number; daily value", "code"));
    assert(r@.map_values(|p: ForecastBundleParameter| parameter_texts(p)) =~= daily_bundle());
    r
}

/// The codes of all forecast parameters: hourly ones first, then daily ones.
pub open spec fn bundle_codes() -> Seq<Seq<char>> {
    (hourly_bundle() + daily_bundle()).map_values(
        |p: (Seq<char>, Seq<char>, Seq<char>, Seq<char>)| p.0,
    )
}

/// The codes of all forecast parameters: hourly ones first, then daily ones.
pub fn forecast_bundle_codes() -> (r: Vec<&'static str>)
    ensures
        r@.map_values(|c: &'static str| c@) == bundle_codes(),
{
    let hourly = hourly_forecast_bundle();
    let daily = daily_forecast_bundle();
    let mut r: Vec<&'static str> = Vec::new();
    let mut i: usize = 0;
    while i < hourly.len()
        invariant
            i <= hourly.len(),
            r.len() == i,
            hourly@.map_values(|p: ForecastBundleParameter| parameter_texts(p)) == hourly_bundle(),
            forall|k: int| 0 <= k < i ==> #[trigger] r@[k]@ == hourly_bundle()[k].0,
        decreases hourly.len() - i,
    {
        assert(hourly_bundle()[i as int] == parameter_texts(hourly@[i as int]));
        r.push(hourly[i].code);
        i += 1;
    }
    assert(hourly@.map_values(|p: ForecastBundleParameter| parameter_texts(p)).len() == hourly.len());
    assert(hourly_bundle().len() == 13);
    let mut j: usize = 0;
    while j < daily.len()
        invariant
            j <= daily.len(),
            r.len() == hourly.len() + j,
            hourly.len() == 13,
            daily@.map_values(|p: ForecastBundleParameter| parameter_texts(p)) == daily_bundle(),
            forall|k: int| 0 <= k < 13 ==> #[trigger] r@[k]@ == hourly_bundle()[k].0,
            forall|k: int| 0 <= k < j ==> #[trigger] r@[13 + k]@ == daily_bundle()[k].0,
        decreases daily.len() - j,
    {
        assert(daily_bundle()[j as int] == parameter_texts(daily@[j as int]));
        r.push(daily[j].code);
        j += 1;
    }
    assert(daily@.map_values(|p: ForecastBundleParameter| parameter_texts(p)).len() == daily.len());
    assert(daily_bundle().len() == 6);
    let ghost all = hourly_bundle() + daily_bundle();
    assert forall|k: int| 0 <= k < 19 implies #[trigger] r@[k]@ == bundle_codes()[k] by {
        if k < 13 {
            assert(all[k] == hourly_bundle()[k]);
        } else {
            assert(all[k] == daily_bundle()[k - 13]);
            assert(r@[13 + (k - 13)]@ == daily_bundle()[k - 13].0);
        }
    }
    assert(r@.map_values(|c: &'static str| c@) =~= bundle_codes());
    r
}

// ── Latest forecast assets ──────────────────────────────────────────────────

/// The newest asset of a parameter: its issue timestamp and link.
#[derive(Debug, Clone)]
pub struct SelectedForecastAsset {
    pub issue_timestamp: String,
    pub href: String,
}

/// The texts of a list of (asset name, link) pairs.
pub open spec fn asset_texts(assets: Seq<(String, String)>) -> Seq<(Seq<char>, Seq<char>)> {
    assets.map_values(|a: (String, String)| (a.0@, a.1@))
}

/// The newest asset for `code` among `assets` (asset name, link), in order:
/// the one with the greatest issue timestamp, the earliest of several with
/// that timestamp; nothing when no asset is for `code`.
pub open spec fn latest_for(assets: Seq<(Seq<char>, Seq<char>)>, code: Seq<char>) -> Option<(Seq<char>, Seq<char>)>
    decreases assets.len(),
{
    if assets.len() == 0 {
        None
    } else {
        let prev = latest_for(assets.drop_last(), code);
        match asset_name_parts(assets.last().0) {
            Some((timestamp, c)) => if c == code && (match prev {
                Some(p) => lex_lt(p.0, timestamp),
                None => true,
            }) {
                Some((timestamp, assets.last().1))
            } else {
                prev
            },
            None => prev,
        }
    }
}

/// The first parameter code that has no asset.
pub open spec fn first_missing(assets: Seq<(Seq<char>, Seq<char>)>, codes: Seq<Seq<char>>) -> Option<Seq<char>>
    decreases codes.len(),
{
    if codes.len() == 0 {
        None
    } else if latest_for(assets, codes[0]) is None {
        Some(codes[0])
    } else {
        first_missing(assets, codes.drop_first())
    }
}

fn latest_asset_for(assets: &Vec<(String, String)>, code: &str) -> (r: Option<SelectedForecastAsset>)
    ensures
        match latest_for(asset_texts(assets@), code@) {
            Some((t, h)) => r matches Some(a) && a.issue_timestamp@ == t && a.href@ == h,
            None => r is None,
        },
{
    let ghost texts = asset_texts(assets@);
    let mut best: Option<SelectedForecastAsset> = None;
    let mut i: usize = 0;
    while i < assets.len()
        invariant
            i <= assets.len(),
            texts == asset_texts(assets@),
            match latest_for(texts.take(i as int), code@) {
                Some((t, h)) => best matches Some(a) && a.issue_timestamp@ == t && a.href@ == h,
                None => best is None,
            },
        decreases assets.len() - i,
    {
        assert(texts.take(i + 1).drop_last() =~= texts.take(i as int));
        assert(texts.take(i + 1).last() == (assets@[i as int].0@, assets@[i as int].1@));
        match parse_local_forecast_asset_name(assets[i].0.as_str()) {
            Some((timestamp, c)) => {
                if str_eq(c, code) {
                    let newer = match &best {
                        None => true,
                        Some(current) => crate::text::str_less(current.issue_timestamp.as_str(), timestamp),
                    };
                    if newer {
                        best = Some(SelectedForecastAsset {
                            issue_timestamp: crate::text::owned(timestamp),
                            href: assets[i].1.clone(),
                        });
                    }
                }
            },
            None => {},
        }
        i += 1;
    }
    assert(texts.take(assets.len() as int) =~= texts);
    best
}

/// For every forecast parameter (hourly ones, then daily ones) the newest of
/// the listed assets (asset name, link), in that order; an error names the
/// first parameter that has none.
#[verifier::spinoff_prover]
pub fn select_latest_forecast_assets(assets: &Vec<(String, String)>) -> (r: Result<Vec<SelectedForecastAsset>, String>)
    ensures
        match first_missing(asset_texts(assets@), bundle_codes()) {
            Some(code) => r matches Err(e) && e@ == "No local forecast asset found for "@ + code,
            None => r matches Ok(selected) && selected.len() == bundle_codes().len() && forall|k: int|
                0 <= k < selected.len() ==> latest_for(asset_texts(assets@), bundle_codes()[k]) == Some(
                    (#[trigger] selected[k].issue_timestamp@, selected[k].href@),
                ),
        },
{
    let codes = forecast_bundle_codes();
    let ghost cs = codes@.map_values(|c: &'static str| c@);
    let ghost texts = asset_texts(assets@);
    let mut selected: Vec<SelectedForecastAsset> = Vec::new();
    let mut k: usize = 0;
    assert(cs.skip(0) =~= cs);
    while k < codes.len()
        invariant
            k <= codes.len(),
            cs == codes@.map_values(|c: &'static str| c@),
            cs == bundle_codes(),
            texts == asset_texts(assets@),
            first_missing(texts, cs) == first_missing(texts, cs.skip(k as int)),
            selected.len() == k,
            forall|j: int| 0 <= j < k ==> latest_for(texts, cs[j]) == Some(
                (#[trigger] selected[j].issue_timestamp@, selected[j].href@),
            ),
        decreases codes.len() - k,
    {
        assert(cs.skip(k as int)[0] == cs[k as int]);
        assert(cs.skip(k as int).drop_first() =~= cs.skip(k + 1));
        match latest_asset_for(assets, codes[k]) {
            Some(a) => selected.push(a),
            None => {
                return Err(concat2("No local forecast asset found for ", codes[k]));
            },
        }
        k += 1;
    }
    assert(cs.skip(codes.len() as int) =~= Seq::<Seq<char>>::empty());
    Ok(selected)
}

/// The greatest of some texts in `str` order; empty when there are none.
pub open spec fn greatest_text(texts: Seq<Seq<char>>) -> Seq<char>
    decreases texts.len(),
{
    if texts.len() == 0 {
        Seq::<char>::empty()
    } else {
        let m = greatest_text(texts.drop_last());
        if lex_lt(m, texts.last()) {
            texts.last()
        } else {
            m
        }
    }
}

/// When the forecast was issued: the newest issue timestamp among the
/// selected assets (empty when there are none).
pub fn latest_issue_timestamp(selected: &Vec<SelectedForecastAsset>) -> (r: String)
    ensures
        r@ == greatest_text(selected@.map_values(|a: SelectedForecastAsset| a.issue_timestamp@)),
{
    let ghost ts = selected@.map_values(|a: SelectedForecastAsset| a.issue_timestamp@);
    let mut best = String::new();
    let mut i: usize = 0;
    while i < selected.len()
        invariant
            i <= selected.len(),
            ts == selected@.map_values(|a: SelectedForecastAsset| a.issue_timestamp@),
            best@ == greatest_text(ts.take(i as int)),
        decreases selected.len() - i,
    {
        assert(ts.take(i + 1).drop_last() =~= ts.take(i as int));
        if crate::text::str_less(best.as_str(), selected[i].issue_timestamp.as_str()) {
            best = selected[i].issue_timestamp.clone();
        }
        i += 1;
    }
    assert(ts.take(selected.len() as int) =~= ts);
    best
}

/// How many hourly rows a forecast answers with: the requested number
/// (24 when none is given) brought into `1..=96`.
pub open spec fn hour_limit(hours: Option<u64>) -> int {
    let h = match hours {
        Some(h) => h as int,
        None => 24,
    };
    if h < 1 {
        1
    } else if h > 96 {
        96
    } else {
        h
    }
}

/// How many hourly rows a forecast answers with.
pub fn forecast_hour_limit(hours: Option<u64>) -> (r: usize)
    ensures
        r == hour_limit(hours),
{
    let h = match hours {
        Some(h) => h,
        None => 24,
    };
    if h < 1 {
        1
    } else if h > 96 {
        96
    } else {
        h as usize
    }
}

// ── Forecast series ─────────────────────────────────────────────────────────

/// The text of a forecast cell: trimmed; nothing when blank or `-`.
pub open spec fn forecast_cell(raw: Seq<char>) -> Option<Seq<char>> {
    let t = trimmed(raw);
    if t.len() == 0 || t == "-"@ {
        None
    } else {
        Some(t)
    }
}

/// The (forecast time, cell text) that a forecast table row contributes for
/// a point and a parameter: only rows of that point whose time is not before
/// the issue timestamp and whose cell for the parameter holds a value.
pub open spec fn series_entry(
    row: Seq<(Seq<char>, Seq<char>)>,
    point_id: Seq<char>,
    code: Seq<char>,
    issue_timestamp: Seq<char>,
) -> Option<(Seq<char>, Seq<char>)> {
    if lookup(row, "point_id"@) == Some(point_id) {
        match lookup(row, "Date"@) {
            Some(time) => if lex_lt(time, issue_timestamp) {
                None
            } else {
                match lookup(row, code) {
                    Some(raw) => match forecast_cell(raw) {
                        Some(cell) => Some((time, cell)),
                        None => None,
                    },
                    None => None,
                }
            },
            None => None,
        }
    } else {
        None
    }
}

/// The entries that the rows of a forecast table contribute, in row order.
pub open spec fn series_entries(
    rows: Seq<Seq<(Seq<char>, Seq<char>)>>,
    point_id: Seq<char>,
    code: Seq<char>,
    issue_timestamp: Seq<char>,
) -> Seq<(Seq<char>, Seq<char>)>
    decreases rows.len(),
{
    if rows.len() == 0 {
        Seq::empty()
    } else {
        let prev = series_entries(rows.drop_last(), point_id, code, issue_timestamp);
        match series_entry(rows.last(), point_id, code, issue_timestamp) {
            Some(e) => prev.push(e),
            None => prev,
        }
    }
}

/// The texts of a list of text pairs.
pub open spec fn pair_texts(pairs: Seq<(String, String)>) -> Seq<(Seq<char>, Seq<char>)> {
    pairs.map_values(|a: (String, String)| (a.0@, a.1@))
}

/// Empty texts, one per item.
pub open spec fn no_texts(n: nat) -> Seq<Seq<char>> {
    Seq::new(n, |k: int| Seq::<char>::empty())
}

/// `sorted` is `entries` sorted by time, entries with equal times keeping
/// their order (what a stable sort by time gives).
pub open spec fn sorted_by_time(sorted: Seq<(Seq<char>, Seq<char>)>, entries: Seq<(Seq<char>, Seq<char>)>) -> bool {
    exists|order: Seq<usize>|
        {
            &&& #[trigger] same_items(order, positions(entries.len()))
            &&& listed_in_order(
                entries.map_values(|e: (Seq<char>, Seq<char>)| e.0),
                no_texts(entries.len()),
                order,
            )
            &&& sorted.len() == order.len()
            &&& forall|k: int| 0 <= k < order.len() ==> #[trigger] sorted[k] == entries[order[k] as int]
        }
}

fn series_entry_of(row: &CsvRecord, point_id: &str, code: &str, issue_timestamp: &str) -> (r: Option<(String, String)>)
    ensures
        match series_entry(row@, point_id@, code@, issue_timestamp@) {
            Some((t, c)) => r matches Some(e) && e.0@ == t && e.1@ == c,
            None => r is None,
        },
{
    match row.get("point_id") {
        Some(id) => if !str_eq(id.as_str(), point_id) {
            return None;
        },
        None => return None,
    }
    let time = match row.get("Date") {
        Some(time) => time,
        None => return None,
    };
    if crate::text::str_less(time.as_str(), issue_timestamp) {
        return None;
    }
    let raw = match row.get(code) {
        Some(raw) => raw,
        None => return None,
    };
    let cell = trim(raw.as_str());
    if cell.is_empty() || str_eq(cell, "-") {
        return None;
    }
    Some((time.clone(), crate::text::owned(cell)))
}

/// The series of one parameter at one point from the records of a forecast
/// table: the (forecast time, cell text) pairs of the point's records that
/// are not before the issue timestamp and hold a value, sorted by time
/// (records with the same time keep their order).
pub fn series_from_records(
    records: &Vec<CsvRecord>,
    point_id: &str,
    parameter_code: &str,
    issue_timestamp: &str,
) -> (series: Vec<(String, String)>)
    ensures
        sorted_by_time(
            pair_texts(series@),
            series_entries(record_views(records@), point_id@, parameter_code@, issue_timestamp@),
        ),
{
    let ghost table = record_views(records@);
    let mut entries: Vec<(String, String)> = Vec::new();
    let mut i: usize = 0;
    while i < records.len()
        invariant
            i <= records.len() == table.len(),
            forall|k: int| 0 <= k < records.len() ==> #[trigger] records[k]@ == table[k],
            pair_texts(entries@) == series_entries(
                table.take(i as int),
                point_id@,
                parameter_code@,
                issue_timestamp@,
            ),
        decreases records.len() - i,
    {
        assert(table.take(i + 1).drop_last() =~= table.take(i as int));
        assert(table.take(i + 1).last() == table[i as int]);
        match series_entry_of(&records[i], point_id, parameter_code, issue_timestamp) {
            Some(e) => {
                entries.push(e);
                assert(pair_texts(entries@) =~= series_entries(
                    table.take(i as int),
                    point_id@,
                    parameter_code@,
                    issue_timestamp@,
                ).push((entries@.last().0@, entries@.last().1@)));
            },
            None => {},
        }
        i += 1;
    }
    assert(table.take(records.len() as int) =~= table);
    let ghost kept = pair_texts(entries@);
    let mut keys: Vec<Vec<char>> = Vec::new();
    let mut blanks: Vec<Vec<char>> = Vec::new();
    let mut all: Vec<usize> = Vec::new();
    let mut j: usize = 0;
    while j < entries.len()
        invariant
            j <= entries.len(),
            kept == pair_texts(entries@),
            keys.len() == j,
            blanks.len() == j,
            all@ == positions(j as nat),
            forall|k: int| 0 <= k < j ==> #[trigger] keys@[k]@ == kept[k].0,
            forall|k: int| 0 <= k < j ==> #[trigger] blanks@[k]@ == Seq::<char>::empty(),
        decreases entries.len() - j,
    {
        keys.push(chars_of(entries[j].0.as_str()));
        blanks.push(Vec::new());
        all.push(j);
        assert(all@ =~= positions((j + 1) as nat));
        j += 1;
    }
    let order = keyed_order(&keys, &blanks, &all);
    assert(char_texts(keys@) =~= kept.map_values(|e: (Seq<char>, Seq<char>)| e.0));
    assert(char_texts(blanks@) =~= no_texts(kept.len()));
    let mut series: Vec<(String, String)> = Vec::new();
    let mut k: usize = 0;
    while k < order.len()
        invariant
            k <= order.len() == entries.len(),
            same_items(order@, all@),
            all@ == positions(entries.len() as nat),
            kept == pair_texts(entries@),
            series.len() == k,
            forall|x: int| 0 <= x < k ==> #[trigger] pair_texts(series@)[x] == kept[order[x] as int],
        decreases order.len() - k,
    {
        proof {
            assert(all@.contains(order@[k as int]));
        }
        let w = order[k];
        let ghost before = pair_texts(series@);
        series.push((entries[w].0.clone(), entries[w].1.clone()));
        assert(pair_texts(series@) =~= before.push(kept[w as int]));
        k += 1;
    }
    assert(same_items(order@, positions(kept.len())));
    series
}

/// The series of one parameter at one point from a forecast table: the
/// (forecast time, cell text) pairs of the point's rows that are not before
/// the issue timestamp and hold a value, sorted by time (rows with the same
/// time keep their order); fails with the table's own error.
pub fn forecast_series_cells(
    csv_text: &str,
    point_id: &str,
    parameter_code: &str,
    issue_timestamp: &str,
) -> (r: Result<Vec<(String, String)>, String>)
    ensures
        match semicolon_csv(unix_newlines(csv_text@)) {
            Err(message) => r matches Err(m) && m@ == message,
            Ok((headers, rows)) => r matches Ok(series) && sorted_by_time(
                pair_texts(series@),
                series_entries(table_records(headers, rows), point_id@, parameter_code@, issue_timestamp@),
            ),
        },
{
    let records = match parse_csv_response(csv_text) {
        Ok(records) => records,
        Err(e) => return Err(e),
    };
    let ghost table = match semicolon_csv(unix_newlines(csv_text@)) {
        Ok((headers, rows)) => table_records(headers, rows),
        Err(_) => Seq::empty(),
    };
    assert(record_views(records@) =~= table);
    Ok(series_from_records(&records, point_id, parameter_code, issue_timestamp))
}

// ── Forecast timeline ───────────────────────────────────────────────────────

/// One row of a forecast section: a forecast time and the (field, cell text)
/// pairs for it, in arrival order (a later pair for a field replaces an
/// earlier one).
#[derive(Debug, Clone)]
pub struct TimelineRow {
    pub time: String,
    pub fields: Vec<(String, String)>,
}

/// The texts of the per-parameter series: (field name, its (time, cell) pairs).
pub open spec fn series_texts(series: Seq<(String, Vec<(String, String)>)>) -> Seq<(Seq<char>, Seq<(Seq<char>, Seq<char>)>)> {
    series.map_values(|p: (String, Vec<(String, String)>)| (p.0@, pair_texts(p.1@)))
}

/// All (field, time, cell) triples of the series, parameter after parameter.
pub open spec fn flat_entries(series: Seq<(Seq<char>, Seq<(Seq<char>, Seq<char>)>)>) -> Seq<(Seq<char>, Seq<char>, Seq<char>)>
    decreases series.len(),
{
    if series.len() == 0 {
        Seq::empty()
    } else {
        let last = series.last();
        flat_entries(series.drop_last()) + last.1.map_values(
            |e: (Seq<char>, Seq<char>)| (last.0, e.0, e.1),
        )
    }
}

/// The (field, cell) pairs of the triples at time `t`, in order.
pub open spec fn at_time(entries: Seq<(Seq<char>, Seq<char>, Seq<char>)>, t: Seq<char>) -> Seq<(Seq<char>, Seq<char>)>
    decreases entries.len(),
{
    if entries.len() == 0 {
        Seq::empty()
    } else {
        let prev = at_time(entries.drop_last(), t);
        if entries.last().1 == t {
            prev.push((entries.last().0, entries.last().2))
        } else {
            prev
        }
    }
}

/// The times of the rows.
pub open spec fn row_times(rows: Seq<TimelineRow>) -> Seq<Seq<char>> {
    rows.map_values(|r: TimelineRow| r.time@)
}

proof fn lemma_at_time_absent(entries: Seq<(Seq<char>, Seq<char>, Seq<char>)>, t: Seq<char>)
    requires
        forall|i: int| 0 <= i < entries.len() ==> #[trigger] entries[i].1 != t,
    ensures
        at_time(entries, t).len() == 0,
    decreases entries.len(),
{
    if entries.len() > 0 {
        assert forall|i: int| 0 <= i < entries.drop_last().len() implies #[trigger] entries.drop_last()[i].1 != t by {
            assert(entries.drop_last()[i] == entries[i]);
        }
        lemma_at_time_absent(entries.drop_last(), t);
    }
}

fn flatten_series(series: &Vec<(String, Vec<(String, String)>)>) -> (flat: Vec<(String, String, String)>)
    ensures
        flat@.map_values(|e: (String, String, String)| (e.0@, e.1@, e.2@)) == flat_entries(series_texts(series@)),
{
    let ghost st = series_texts(series@);
    let mut flat: Vec<(String, String, String)> = Vec::new();
    let mut p: usize = 0;
    while p < series.len()
        invariant
            p <= series.len(),
            st == series_texts(series@),
            flat@.map_values(|e: (String, String, String)| (e.0@, e.1@, e.2@)) == flat_entries(st.take(p as int)),
        decreases series.len() - p,
    {
        let ghost before = flat@.map_values(|e: (String, String, String)| (e.0@, e.1@, e.2@));
        let ghost last = st[p as int];
        assert(st.take(p + 1).drop_last() =~= st.take(p as int));
        assert(st.take(p + 1).last() == last);
        let mut q: usize = 0;
        while q < series[p].1.len()
            invariant
                p < series.len(),
                q <= series[p as int].1.len(),
                last == st[p as int],
                st == series_texts(series@),
                flat@.map_values(|e: (String, String, String)| (e.0@, e.1@, e.2@)) == before + last.1.take(q as int).map_values(
                    |e: (Seq<char>, Seq<char>)| (last.0, e.0, e.1),
                ),
            decreases series[p as int].1.len() - q,
        {
            let e = &series[p].1[q];
            assert(last.1[q as int] == (e.0@, e.1@));
            assert(last.0 == series@[p as int].0@);
            let ghost flat_before = flat@;
            flat.push((series[p].0.clone(), e.0.clone(), e.1.clone()));
            assert(flat@.map_values(|e: (String, String, String)| (e.0@, e.1@, e.2@)) =~= flat_before.map_values(
                |e: (String, String, String)| (e.0@, e.1@, e.2@),
            ).push((last.0, last.1[q as int].0, last.1[q as int].1)));
            assert(last.1.take(q + 1) =~= last.1.take(q as int).push(last.1[q as int]));
            assert(flat@.map_values(|e: (String, String, String)| (e.0@, e.1@, e.2@)) =~= before + last.1.take(q + 1).map_values(
                |e: (Seq<char>, Seq<char>)| (last.0, e.0, e.1),
            ));
            q += 1;
        }
        assert(last.1.take(last.1.len() as int) =~= last.1);
        p += 1;
    }
    assert(st.take(series.len() as int) =~= st);
    flat
}

/// The rows of a forecast section: one per distinct forecast time of the
/// series, in increasing time order, each holding what every parameter
/// forecasts for that time; only the first `limit` rows (at least one) are
/// kept.
pub fn merge_forecast_timeline(series: &Vec<(String, Vec<(String, String)>)>, limit: usize) -> (rows: Vec<TimelineRow>)
    ensures
        ({
            let e = flat_entries(series_texts(series@));
            let cap = if limit < 1 { 1 } else { limit as int };
            &&& rows.len() <= cap
            &&& forall|x: int, y: int| 0 <= x < y < rows.len() ==> lex_lt(#[trigger] rows[x].time@, #[trigger] rows[y].time@)
            &&& forall|k: int| 0 <= k < rows.len() ==> pair_texts(#[trigger] rows[k].fields@) == at_time(e, rows[k].time@)
            &&& forall|k: int| 0 <= k < rows.len() ==> at_time(e, #[trigger] rows[k].time@).len() > 0
            &&& forall|j: int| 0 <= j < e.len() ==> row_times(rows@).contains(#[trigger] e[j].1) || (
                rows.len() == cap && lex_lt(rows[cap - 1].time@, e[j].1))
        }),
{
    let flat = flatten_series(series);
    let ghost e = flat_entries(series_texts(series@));
    let mut rows: Vec<TimelineRow> = Vec::new();
    let mut times: Vec<Vec<char>> = Vec::new();
    let mut j: usize = 0;
    while j < flat.len()
        invariant
            j <= flat.len(),
            flat@.map_values(|x: (String, String, String)| (x.0@, x.1@, x.2@)) == e,
            rows.len() == times.len(),
            forall|k: int| 0 <= k < rows.len() ==> #[trigger] times@[k]@ == rows[k].time@,
            forall|x: int, y: int| 0 <= x < y < rows.len() ==> lex_lt(#[trigger] rows[x].time@, #[trigger] rows[y].time@),
            forall|k: int| 0 <= k < rows.len() ==> pair_texts(#[trigger] rows[k].fields@) == at_time(e.take(j as int), rows[k].time@),
            forall|k: int| 0 <= k < rows.len() ==> at_time(e.take(j as int), #[trigger] rows[k].time@).len() > 0,
            forall|i: int| 0 <= i < j ==> row_times(rows@).contains(#[trigger] e[i].1),
        decreases flat.len() - j,
    {
        let ghost prefix = e.take(j as int);
        let ghost next = e.take(j + 1);
        let ghost entry = e[j as int];
        assert(next.drop_last() =~= prefix);
        assert(next.last() == entry);
        assert(entry == (flat@[j as int].0@, flat@[j as int].1@, flat@[j as int].2@));
        let t = chars_of(flat[j].1.as_str());
        let mut p: usize = 0;
        while p < rows.len() && crate::text::chars_less(&times[p], &t)
            invariant
                p <= rows.len() == times.len(),
                forall|k: int| 0 <= k < rows.len() ==> #[trigger] times@[k]@ == rows[k].time@,
                forall|k: int| 0 <= k < p ==> lex_lt(#[trigger] rows[k].time@, t@),
            decreases rows.len() - p,
        {
            p += 1;
        }
        let ghost old_rows = rows@;
        if p < rows.len() && crate::text::chars_eq(&times[p], &t) {
            let mut row = rows.remove(p);
            row.fields.push((flat[j].0.clone(), flat[j].2.clone()));
            rows.insert(p, row);
            proof {
                assert(rows@ == old_rows.update(p as int, rows@[p as int]));
                assert forall|k: int| 0 <= k < rows.len() implies pair_texts(#[trigger] rows[k].fields@) == at_time(next, rows[k].time@) by {
                    if k == p {
                        assert(pair_texts(rows[k].fields@) =~= pair_texts(old_rows[k].fields@).push((entry.0, entry.2)));
                    } else {
                        assert(rows[k] == old_rows[k]);
                        if old_rows[k].time@ == t@ {
                            if k < p {
                                crate::text::lemma_lex_irreflexive(t@);
                            } else {
                                crate::text::lemma_lex_irreflexive(t@);
                                assert(lex_lt(old_rows[p as int].time@, old_rows[k].time@));
                            }
                        }
                    }
                }
                assert forall|i: int| 0 <= i < j + 1 implies row_times(rows@).contains(#[trigger] e[i].1) by {
                    if i < j {
                        let w = choose|w: int| 0 <= w < old_rows.len() && row_times(old_rows)[w] == e[i].1;
                        assert(row_times(rows@)[w] == e[i].1);
                    } else {
                        assert(row_times(rows@)[p as int] == e[i].1);
                    }
                }
            }
        } else {
            let mut fields: Vec<(String, String)> = Vec::new();
            fields.push((flat[j].0.clone(), flat[j].2.clone()));
            let row = TimelineRow { time: flat[j].1.clone(), fields };
            proof {
                // the time is new: no earlier triple has it
                assert forall|i: int| 0 <= i < prefix.len() implies #[trigger] prefix[i].1 != t@ by {
                    assert(prefix[i] == e[i]);
                    let w = choose|w: int| 0 <= w < old_rows.len() && row_times(old_rows)[w] == e[i].1;
                    if e[i].1 == t@ {
                        if w < p {
                            crate::text::lemma_lex_irreflexive(t@);
                        } else if w > p {
                            crate::text::lemma_lex_total(old_rows[p as int].time@, t@);
                            crate::text::lemma_lex_asymmetric(old_rows[p as int].time@, old_rows[w].time@);
                        }
                    }
                }
                lemma_at_time_absent(prefix, t@);
            }
            rows.insert(p, row);
            times.insert(p, t);
            proof {
                assert(rows@ == old_rows.insert(p as int, rows@[p as int]));
                assert forall|x: int, y: int| 0 <= x < y < rows.len() implies lex_lt(#[trigger] rows[x].time@, #[trigger] rows[y].time@) by {
                    if p < old_rows.len() {
                        if old_rows[p as int].time@ != t@ {
                            crate::text::lemma_lex_total(old_rows[p as int].time@, t@);
                        }
                    }
                    if y < p {
                        assert(rows[x] == old_rows[x] && rows[y] == old_rows[y]);
                    } else if y == p {
                        assert(rows[x] == old_rows[x]);
                    } else if x < p {
                        assert(rows[x] == old_rows[x] && rows[y] == old_rows[y - 1]);
                        if y - 1 > p {
                            crate::text::lemma_lex_transitive(t@, old_rows[p as int].time@, old_rows[y - 1].time@);
                        }
                        crate::text::lemma_lex_transitive(old_rows[x].time@, t@, old_rows[y - 1].time@);
                    } else if x == p {
                        assert(rows[y] == old_rows[y - 1]);
                        if y - 1 > p {
                            crate::text::lemma_lex_transitive(t@, old_rows[p as int].time@, old_rows[y - 1].time@);
                        }
                    } else {
                        assert(rows[x] == old_rows[x - 1] && rows[y] == old_rows[y - 1]);
                    }
                }
                assert forall|k: int| 0 <= k < rows.len() implies #[trigger] times@[k]@ == rows[k].time@ by {
                    if k < p {
                        assert(rows[k] == old_rows[k]);
                    } else if k > p {
                        assert(rows[k] == old_rows[k - 1]);
                    }
                }
                assert forall|k: int| 0 <= k < rows.len() implies pair_texts(#[trigger] rows[k].fields@) == at_time(next, rows[k].time@) && at_time(next, rows[k].time@).len() > 0 by {
                    if k == p {
                        assert(pair_texts(rows[k].fields@) =~= Seq::<(Seq<char>, Seq<char>)>::empty().push((entry.0, entry.2)));
                        assert(at_time(prefix, t@) =~= Seq::<(Seq<char>, Seq<char>)>::empty());
                    } else {
                        let o = if k < p { k } else { k - 1 };
                        assert(rows[k] == old_rows[o]);
                        if old_rows[o].time@ == t@ {
                            if o < p {
                                crate::text::lemma_lex_irreflexive(t@);
                            } else {
                                crate::text::lemma_lex_total(old_rows[p as int].time@, t@);
                                crate::text::lemma_lex_asymmetric(old_rows[p as int].time@, t@);
                                if o > p {
                                    crate::text::lemma_lex_asymmetric(old_rows[p as int].time@, old_rows[o].time@);
                                }
                            }
                        }
                    }
                }
                assert forall|i: int| 0 <= i < j + 1 implies row_times(rows@).contains(#[trigger] e[i].1) by {
                    if i < j {
                        let w = choose|w: int| 0 <= w < old_rows.len() && row_times(old_rows)[w] == e[i].1;
                        let nw = if w < p { w } else { w + 1 };
                        assert(row_times(rows@)[nw] == e[i].1);
                    } else {
                        assert(row_times(rows@)[p as int] == e[i].1);
                    }
                }
            }
        }
        j += 1;
    }
    assert(e.take(flat.len() as int) =~= e);
    let cap = if limit < 1 { 1 } else { limit };
    let ghost full = rows@;
    if rows.len() > cap {
        rows.truncate(cap);
    }
    proof {
        assert forall|j2: int| 0 <= j2 < e.len() implies row_times(rows@).contains(#[trigger] e[j2].1) || (
            rows.len() == cap && lex_lt(rows[cap - 1].time@, e[j2].1)) by {
            let w = choose|w: int| 0 <= w < full.len() && row_times(full)[w] == e[j2].1;
            if w < rows.len() {
                assert(row_times(rows@)[w] == e[j2].1);
            } else {
                assert(rows[cap - 1] == full[cap - 1]);
            }
        }
        assert forall|k: int| 0 <= k < rows.len() implies #[trigger] rows[k] == full[k] by {}
    }
    rows
}

/// The message when no hourly forecast row exists for a point.
pub open spec fn no_forecast_rows(point_query: Seq<char>) -> Seq<char> {
    "No forecast rows matched point '"@ + point_query + "'"@
}

/// A forecast answers only with at least one hourly row: none is an error
/// that quotes the point query.
pub fn require_forecast_rows(hourly_rows: usize, point_query: &str) -> (r: Result<(), String>)
    ensures
        hourly_rows == 0 ==> (r matches Err(e) && e@ == no_forecast_rows(point_query@)),
        hourly_rows > 0 ==> r is Ok,
{
    if hourly_rows == 0 {
        Err(concat3("No forecast rows matched point '", point_query, "'"))
    } else {
        Ok(())
    }
}

// ── Derived metrics ─────────────────────────────────────────────────────────

/// Why the UV index may be missing.
pub const UV_INDEX_UNAVAILABLE: &'static str = "Copernicus CAMS UV lookup is unavailable for this point or time window.";

/// Why the air quality index is missing: no AQI feed is integrated; the current
/// pollutant measurements have their own entry, `air_quality_current`.
pub const AIR_QUALITY_AQI_UNAVAILABLE: &'static str = "No verified official AQI feed has been integrated. Current official NABEL pollutant measurements are available separately in summary.air_quality_current.";

/// Why the current pollutant measurements (FOEN NABEL) are missing. The NABEL
/// lookup needs the network's station metadata, which is not part of this
/// server, so the server reports these measurements as unavailable with this
/// reason.
pub const AIR_QUALITY_CURRENT_UNAVAILABLE: &'static str = "Official FOEN NABEL current pollutant measurements are unavailable for this point or time window.";

/// Whether a derived metric is available, and if not, why.
#[derive(Debug, Clone)]
pub struct MetricStatus {
    pub available: bool,
    pub reason: Option<String>,
}

/// A metric that is unavailable for `reason`.
pub fn unavailable_metric(reason: &str) -> (r: MetricStatus)
    ensures
        !r.available,
        r.reason matches Some(t) && t@ == reason@,
{
    MetricStatus { available: false, reason: Some(crate::text::owned(reason)) }
}

/// The UV index when its lookup failed with `error`.
pub fn uv_index_unavailable(error: &str) -> (r: MetricStatus)
    ensures
        !r.available,
        r.reason matches Some(t) && t@ == UV_INDEX_UNAVAILABLE@ + " "@ + error@,
{
    let reason = concat3(UV_INDEX_UNAVAILABLE, " ", error);
    MetricStatus { available: false, reason: Some(reason) }
}

/// The error of a UV lookup that found no value: the last lookup error, if
/// there was one.
pub fn uv_lookup_error(last_error: Option<String>) -> (r: String)
    ensures
        match last_error {
            Some(e) => r == e,
            None => r@ == "No CAMS UV daily-max values were returned"@,
        },
{
    match last_error {
        Some(e) => e,
        None => crate::text::owned("No CAMS UV daily-max values were returned"),
    }
}

/// The entry of `unsupported` for a metric: none when it is available, else
/// its key and its reason (or `default` when it gives none).
pub open spec fn unsupported_entry(key: Seq<char>, m: MetricStatus, default: Seq<char>) -> Seq<(Seq<char>, Seq<char>)> {
    if m.available {
        Seq::empty()
    } else {
        seq![(key, match m.reason {
            Some(r) => r@,
            None => default,
        })]
    }
}

fn unsupported_push(out: &mut Vec<(String, String)>, key: &str, m: &MetricStatus, default: &str)
    ensures
        pair_texts(final(out)@) == pair_texts(old(out)@) + unsupported_entry(key@, *m, default@),
{
    if !m.available {
        let reason = match &m.reason {
            Some(r) => r.clone(),
            None => crate::text::owned(default),
        };
        let ghost before = pair_texts(out@);
        out.push((crate::text::owned(key), reason));
        assert(pair_texts(out@) =~= before + unsupported_entry(key@, *m, default@));
    } else {
        assert(pair_texts(out@) =~= pair_texts(out@) + unsupported_entry(key@, *m, default@));
    }
}

/// The entries of `unsupported`: the UV index, the current air quality, then
/// the air quality index, each present only when unavailable.
pub open spec fn unsupported_entries(uv_index: MetricStatus, air_quality_current: MetricStatus, air_quality_aqi: MetricStatus) -> Seq<(Seq<char>, Seq<char>)> {
    unsupported_entry("uv_index"@, uv_index, UV_INDEX_UNAVAILABLE@) + unsupported_entry(
        "air_quality_current"@,
        air_quality_current,
        AIR_QUALITY_CURRENT_UNAVAILABLE@,
    ) + unsupported_entry("air_quality_aqi"@, air_quality_aqi, AIR_QUALITY_AQI_UNAVAILABLE@)
}

/// The derived metrics that are unavailable, each with its reason: the UV
/// index, then the current air quality, then the air quality index.
pub fn build_unsupported(
    uv_index: &MetricStatus,
    air_quality_current: &MetricStatus,
    air_quality_aqi: &MetricStatus,
) -> (r: Vec<(String, String)>)
    ensures
        pair_texts(r@) == unsupported_entries(*uv_index, *air_quality_current, *air_quality_aqi),
{
    let mut out: Vec<(String, String)> = Vec::new();
    assert(pair_texts(out@) =~= Seq::<(Seq<char>, Seq<char>)>::empty());
    unsupported_push(&mut out, "uv_index", uv_index, UV_INDEX_UNAVAILABLE);
    assert(Seq::<(Seq<char>, Seq<char>)>::empty() + unsupported_entry(
        "uv_index"@,
        *uv_index,
        UV_INDEX_UNAVAILABLE@,
    ) =~= unsupported_entry("uv_index"@, *uv_index, UV_INDEX_UNAVAILABLE@));
    unsupported_push(&mut out, "air_quality_current", air_quality_current, AIR_QUALITY_CURRENT_UNAVAILABLE);
    unsupported_push(&mut out, "air_quality_aqi", air_quality_aqi, AIR_QUALITY_AQI_UNAVAILABLE);
    out
}

// ── CAMS UV lookups ─────────────────────────────────────────────────────────

/// The days whose UV index is looked up: at most the first three forecast
/// dates.
pub open spec fn uv_days(dates: Seq<Seq<char>>) -> Seq<Seq<char>> {
    if dates.len() <= 3 { dates } else { dates.take(3) }
}

/// The first of `dates` that is not an accepted compact date.
pub open spec fn first_bad_date(dates: Seq<Seq<char>>) -> Option<Seq<char>>
    decreases dates.len(),
{
    if dates.len() == 0 {
        None
    } else if !is_compact_date(vstd::utf8::encode_utf8(dates[0])) {
        Some(dates[0])
    } else {
        first_bad_date(dates.drop_first())
    }
}

/// The UV lookups to make: for each of the first three forecast dates, the
/// date and its CAMS day time; an invalid date among them is an error.
#[verifier::spinoff_prover]
pub fn cams_lookup_days(forecast_dates: &Vec<String>) -> (r: Result<Vec<(String, String)>, String>)
    requires
        forall|k: int| 0 <= k < uv_days(crate::stations::string_texts(forecast_dates@)).len() ==> cuttable_date(
            #[trigger] uv_days(crate::stations::string_texts(forecast_dates@))[k],
        ),
    ensures
        ({
            let days = uv_days(crate::stations::string_texts(forecast_dates@));
            match first_bad_date(days) {
                Some(d) => r matches Err(e) && e@ == invalid_compact_date(d),
                None => r matches Ok(lookups) && lookups.len() == days.len() && forall|k: int|
                    0 <= k < days.len() ==> #[trigger] lookups[k].0@ == days[k] && lookups[k].1@
                        == cams_day_time(vstd::utf8::encode_utf8(days[k])),
            }
        }),
{
    let ghost days = uv_days(crate::stations::string_texts(forecast_dates@));
    let n = if forecast_dates.len() <= 3 { forecast_dates.len() } else { 3 };
    let mut lookups: Vec<(String, String)> = Vec::new();
    let mut i: usize = 0;
    assert(days.skip(0) =~= days);
    while i < n
        invariant
            i <= n == days.len(),
            n <= forecast_dates.len(),
            days == uv_days(crate::stations::string_texts(forecast_dates@)),
            forall|k: int| 0 <= k < days.len() ==> cuttable_date(#[trigger] days[k]),
            first_bad_date(days) == first_bad_date(days.skip(i as int)),
            lookups.len() == i,
            forall|k: int| 0 <= k < i ==> #[trigger] lookups[k].0@ == days[k] && lookups[k].1@
                == cams_day_time(vstd::utf8::encode_utf8(days[k])),
        decreases n - i,
    {
        assert(days[i as int] == forecast_dates@[i as int]@);
        assert(days.skip(i as int)[0] == days[i as int]);
        assert(days.skip(i as int).drop_first() =~= days.skip(i + 1));
        match compact_date_to_cams_day_time(forecast_dates[i].as_str()) {
            Ok(time) => lookups.push((forecast_dates[i].clone(), time)),
            Err(e) => return Err(e),
        }
        i += 1;
    }
    assert(days.skip(n as int) =~= Seq::<Seq<char>>::empty());
    Ok(lookups)
}

} // verus!
