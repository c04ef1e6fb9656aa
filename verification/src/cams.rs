//! The plain-text answer of the CAMS WMS `GetFeatureInfo` request: one
//! `Label: value` line per field.
use vstd::prelude::*;

use crate::forecast::split_ranges;
use crate::text::{
    chars_of, concat2, contains, has_infix, is_white_space, is_whitespace, leading_ws, owned,
    split_on, trim, trimmed,
};

verus! {

// ── Text pieces ─────────────────────────────────────────────────────────────

/// `s` starts with `p`.
pub open spec fn starts_with(s: Seq<char>, p: Seq<char>) -> bool {
    p.len() <= s.len() && s.take(p.len() as int) == p
}

/// The number of characters before the first whitespace character.
pub open spec fn word_len(s: Seq<char>) -> nat
    decreases s.len(),
{
    if s.len() == 0 || is_white_space(s[0]) {
        0
    } else {
        1 + word_len(s.drop_first())
    }
}

/// The first whitespace-separated word of `s` (empty when there is none).
pub open spec fn first_word(s: Seq<char>) -> Seq<char> {
    let t = s.skip(leading_ws(s) as int);
    t.take(word_len(t) as int)
}

/// The rest of `s` after the prefix `p`, if `s` starts with it.
pub fn strip_prefix<'a>(s: &'a str, p: &str) -> (r: Option<&'a str>)
    ensures
        match r {
            Some(rest) => starts_with(s@, p@) && rest@ == s@.skip(p@.len() as int),
            None => !starts_with(s@, p@),
        },
{
    let vs = chars_of(s);
    let vp = chars_of(p);
    if vp.len() > vs.len() {
        return None;
    }
    let mut i: usize = 0;
    while i < vp.len()
        invariant
            i <= vp.len() <= vs.len(),
            vs@ == s@,
            vp@ == p@,
            forall|k: int| 0 <= k < i ==> vs@[k] == vp@[k],
        decreases vp.len() - i,
    {
        if vs[i] != vp[i] {
            assert(s@.take(p@.len() as int)[i as int] != p@[i as int]);
            return None;
        }
        i += 1;
    }
    assert(s@.take(p@.len() as int) =~= p@);
    let rest = s.substring_char(vp.len(), vs.len());
    assert(s@.subrange(p@.len() as int, s@.len() as int) =~= s@.skip(p@.len() as int));
    Some(rest)
}

proof fn lemma_word_len(s: Seq<char>, i: int)
    requires
        0 <= i <= s.len(),
        forall|k: int| 0 <= k < i ==> !is_white_space(#[trigger] s[k]),
        i == s.len() || is_white_space(s[i]),
    ensures
        word_len(s) == i,
    decreases i,
{
    if i > 0 {
        lemma_word_len(s.drop_first(), i - 1);
    }
}

proof fn lemma_leading(s: Seq<char>, i: int)
    requires
        0 <= i <= s.len(),
        forall|k: int| 0 <= k < i ==> is_white_space(#[trigger] s[k]),
        i == s.len() || !is_white_space(s[i]),
    ensures
        leading_ws(s) == i,
    decreases i,
{
    if i > 0 {
        lemma_leading(s.drop_first(), i - 1);
    }
}

/// The first whitespace-separated word (what `split_whitespace().next()`
/// gives, or the empty text when there is none).
pub fn first_token<'a>(s: &'a str) -> (r: &'a str)
    ensures
        r@ == first_word(s@),
{
    let v = chars_of(s);
    let mut i: usize = 0;
    while i < v.len() && is_whitespace(v[i])
        invariant
            i <= v.len(),
            v@ == s@,
            forall|k: int| 0 <= k < i ==> is_white_space(#[trigger] v@[k]),
        decreases v.len() - i,
    {
        i += 1;
    }
    proof {
        lemma_leading(v@, i as int);
    }
    let mut j: usize = i;
    while j < v.len() && !is_whitespace(v[j])
        invariant
            i <= j <= v.len(),
            v@ == s@,
            forall|k: int| i <= k < j ==> !is_white_space(#[trigger] v@[k]),
        decreases v.len() - j,
    {
        j += 1;
    }
    proof {
        let t = v@.skip(i as int);
        assert forall|k: int| 0 <= k < j - i implies !is_white_space(#[trigger] t[k]) by {
            assert(t[k] == v@[k + i]);
        }
        if j < v.len() {
            assert(t[j - i] == v@[j as int]);
        }
        lemma_word_len(t, j - i);
        assert(t.take(j - i) =~= v@.subrange(i as int, j as int));
    }
    s.substring_char(i, j)
}

// ── Feature info ────────────────────────────────────────────────────────────

/// A field of a CAMS feature info answer.
#[derive(Debug, Clone, Copy, PartialEq, Eq, Structural)]
pub enum CamsField {
    LayerName,
    Title,
    Value,
    InputLatitude,
    InputLongitude,
    Distance,
    GridPointLatitude,
    GridPointLongitude,
}

/// A line of the answer that reports a field, with the field's text: the
/// trimmed rest of the line, or for the value and the distance its first
/// word (the number without its unit).
#[derive(Debug, Clone)]
pub struct CamsLine {
    pub field: CamsField,
    pub text: String,
}

/// Whether a field holds a number.
pub open spec fn is_numeric(field: CamsField) -> bool {
    !(field is LayerName || field is Title)
}

/// Whether a field holds a number.
pub fn numeric_field(field: CamsField) -> (r: bool)
    ensures
        r == is_numeric(field),
{
    match field {
        CamsField::LayerName | CamsField::Title => false,
        _ => true,
    }
}

/// What one answer line reports: after trimming, a line that starts with a
/// known label reports that field; other lines report nothing.
pub open spec fn line_report(raw: Seq<char>) -> Option<(CamsField, Seq<char>)> {
    let line = trimmed(raw);
    if starts_with(line, "Name:"@) {
        Some((CamsField::LayerName, trimmed(line.skip(5))))
    } else if starts_with(line, "Title:"@) {
        Some((CamsField::Title, trimmed(line.skip(6))))
    } else if starts_with(line, "Value:"@) {
        Some((CamsField::Value, first_word(line.skip(6))))
    } else if starts_with(line, "Input latitude:"@) {
        Some((CamsField::InputLatitude, trimmed(line.skip(15))))
    } else if starts_with(line, "Input longitude:"@) {
        Some((CamsField::InputLongitude, trimmed(line.skip(16))))
    } else if starts_with(line, "Distance:"@) {
        Some((CamsField::Distance, first_word(line.skip(9))))
    } else if starts_with(line, "Grid point latitude:"@) {
        Some((CamsField::GridPointLatitude, trimmed(line.skip(20))))
    } else if starts_with(line, "Grid point longitude:"@) {
        Some((CamsField::GridPointLongitude, trimmed(line.skip(21))))
    } else {
        None
    }
}

/// The reports of the lines, in order.
pub open spec fn reports(lines: Seq<Seq<char>>) -> Seq<(CamsField, Seq<char>)>
    decreases lines.len(),
{
    if lines.len() == 0 {
        Seq::empty()
    } else {
        let prev = reports(lines.drop_last());
        match line_report(lines.last()) {
            Some(r) => prev.push(r),
            None => prev,
        }
    }
}

/// The plain values of reported lines.
pub open spec fn line_views(lines: Seq<CamsLine>) -> Seq<(CamsField, Seq<char>)> {
    lines.map_values(|l: CamsLine| (l.field, l.text@))
}

/// What an answer reports, line by line (the lines being the pieces between
/// line feeds, each trimmed before it is read, so that carriage returns and a
/// final empty piece change nothing), or a service exception.
pub open spec fn feature_info_reports(text: Seq<char>) -> Result<Seq<(CamsField, Seq<char>)>, Seq<char>> {
    if has_infix(text, "ServiceException"@) {
        Err("CAMS WMS returned a service exception: "@ + trimmed(text))
    } else {
        Ok(reports(split_on(text, '\n')))
    }
}

fn report_line(raw: &str) -> (r: Option<CamsLine>)
    ensures
        match line_report(raw@) {
            Some((f, t)) => r matches Some(l) && l.field == f && l.text@ == t,
            None => r is None,
        },
{
    proof {
        reveal_strlit("Name:");
        reveal_strlit("Title:");
        reveal_strlit("Value:");
        reveal_strlit("Input latitude:");
        reveal_strlit("Input longitude:");
        reveal_strlit("Distance:");
        reveal_strlit("Grid point latitude:");
        reveal_strlit("Grid point longitude:");
    }
    let line = trim(raw);
    if let Some(rest) = strip_prefix(line, "Name:") {
        Some(CamsLine { field: CamsField::LayerName, text: owned(trim(rest)) })
    } else if let Some(rest) = strip_prefix(line, "Title:") {
        Some(CamsLine { field: CamsField::Title, text: owned(trim(rest)) })
    } else if let Some(rest) = strip_prefix(line, "Value:") {
        Some(CamsLine { field: CamsField::Value, text: owned(first_token(rest)) })
    } else if let Some(rest) = strip_prefix(line, "Input latitude:") {
        Some(CamsLine { field: CamsField::InputLatitude, text: owned(trim(rest)) })
    } else if let Some(rest) = strip_prefix(line, "Input longitude:") {
        Some(CamsLine { field: CamsField::InputLongitude, text: owned(trim(rest)) })
    } else if let Some(rest) = strip_prefix(line, "Distance:") {
        Some(CamsLine { field: CamsField::Distance, text: owned(first_token(rest)) })
    } else if let Some(rest) = strip_prefix(line, "Grid point latitude:") {
        Some(CamsLine { field: CamsField::GridPointLatitude, text: owned(trim(rest)) })
    } else if let Some(rest) = strip_prefix(line, "Grid point longitude:") {
        Some(CamsLine { field: CamsField::GridPointLongitude, text: owned(trim(rest)) })
    } else {
        None
    }
}

/// Reads the lines of a CAMS feature info answer: the fields that they
/// report, in line order; a service exception is an error.
pub fn scan_cams_feature_info(text: &str) -> (r: Result<Vec<CamsLine>, String>)
    ensures
        match feature_info_reports(text@) {
            Ok(found) => r matches Ok(lines) && line_views(lines@) == found,
            Err(e) => r matches Err(m) && m@ == e,
        },
{
    if contains(text, "ServiceException") {
        return Err(concat2("CAMS WMS returned a service exception: ", trim(text)));
    }
    let v = chars_of(text);
    let ranges = split_ranges(&v, '\n');
    let ghost lines = split_on(text@, '\n');
    let mut found: Vec<CamsLine> = Vec::new();
    let mut i: usize = 0;
    while i < ranges.len()
        invariant
            i <= ranges.len() == lines.len(),
            v@ == text@,
            lines == split_on(text@, '\n'),
            forall|k: int| 0 <= k < ranges.len() ==> ranges[k].0 <= #[trigger] ranges[k].1 <= v.len(),
            forall|k: int|
                0 <= k < ranges.len() ==> v@.subrange(ranges[k].0 as int, ranges[k].1 as int)
                    == #[trigger] split_on(v@, '\n')[k],
            line_views(found@) == reports(lines.take(i as int)),
        decreases ranges.len() - i,
    {
        assert(lines.take(i + 1).drop_last() =~= lines.take(i as int));
        assert(lines.take(i + 1).last() == lines[i as int]);
        let line = text.substring_char(ranges[i].0, ranges[i].1);
        let ghost before = found@;
        match report_line(line) {
            Some(l) => {
                found.push(l);
                assert(line_views(found@) =~= line_views(before).push((found@.last().field, found@.last().text@)));
            },
            None => {},
        }
        i += 1;
    }
    assert(lines.take(lines.len() as int) =~= lines);
    Ok(found)
}

/// The text that the last report of `field` gives, if any.
pub open spec fn last_report(found: Seq<(CamsField, Seq<char>)>, field: CamsField) -> Option<Seq<char>>
    decreases found.len(),
{
    if found.len() == 0 {
        None
    } else if found.last().0 == field {
        Some(found.last().1)
    } else {
        last_report(found.drop_last(), field)
    }
}

/// The message of the first field that no line reports.
pub open spec fn first_unreported(found: Seq<(CamsField, Seq<char>)>) -> Option<Seq<char>> {
    if last_report(found, CamsField::LayerName) is None {
        Some("Missing CAMS layer name"@)
    } else if last_report(found, CamsField::Title) is None {
        Some("Missing CAMS title"@)
    } else if last_report(found, CamsField::Value) is None {
        Some("Missing CAMS value"@)
    } else if last_report(found, CamsField::InputLatitude) is None {
        Some("Missing CAMS input latitude"@)
    } else if last_report(found, CamsField::InputLongitude) is None {
        Some("Missing CAMS input longitude"@)
    } else if last_report(found, CamsField::Distance) is None {
        Some("Missing CAMS distance"@)
    } else if last_report(found, CamsField::GridPointLatitude) is None {
        Some("Missing CAMS grid latitude"@)
    } else if last_report(found, CamsField::GridPointLongitude) is None {
        Some("Missing CAMS grid longitude"@)
    } else {
        None
    }
}

/// What a CAMS feature info answer reports. The numeric fields hold the
/// text of the number as the answer writes it.
#[derive(Debug, Clone)]
pub struct CamsFeatureInfo {
    pub layer_name: String,
    pub title: String,
    pub value: String,
    pub input_latitude: String,
    pub input_longitude: String,
    pub distance_km: String,
    pub grid_point_latitude: String,
    pub grid_point_longitude: String,
}

/// The answer's fields, each from the last line that reports it.
pub open spec fn info_from(info: CamsFeatureInfo, found: Seq<(CamsField, Seq<char>)>) -> bool {
    &&& last_report(found, CamsField::LayerName) == Some(info.layer_name@)
    &&& last_report(found, CamsField::Title) == Some(info.title@)
    &&& last_report(found, CamsField::Value) == Some(info.value@)
    &&& last_report(found, CamsField::InputLatitude) == Some(info.input_latitude@)
    &&& last_report(found, CamsField::InputLongitude) == Some(info.input_longitude@)
    &&& last_report(found, CamsField::Distance) == Some(info.distance_km@)
    &&& last_report(found, CamsField::GridPointLatitude) == Some(info.grid_point_latitude@)
    &&& last_report(found, CamsField::GridPointLongitude) == Some(info.grid_point_longitude@)
}

fn last_text(found: &Vec<CamsLine>, field: CamsField, missing: &str) -> (r: Result<String, String>)
    ensures
        match last_report(line_views(found@), field) {
            Some(t) => r matches Ok(s) && s@ == t,
            None => r matches Err(m) && m@ == missing@,
        },
{
    let ghost views = line_views(found@);
    let mut i = found.len();
    assert(views.take(i as int) =~= views);
    while i > 0
        invariant
            i <= found.len(),
            views == line_views(found@),
            last_report(views, field) == last_report(views.take(i as int), field),
        decreases i,
    {
        assert(views.take(i as int).drop_last() =~= views.take(i - 1));
        assert(views.take(i as int).last() == (found@[i - 1].field, found@[i - 1].text@));
        if found[i - 1].field == field {
            return Ok(found[i - 1].text.clone());
        }
        i -= 1;
    }
    Err(owned(missing))
}

/// Gathers the fields of an answer from its reported lines: for each field
/// the last line that reports it; the first field (in the order layer name,
/// title, value, input latitude, input longitude, distance, grid latitude,
/// grid longitude) that no line reports is an error.
pub fn collect_cams_fields(found: &Vec<CamsLine>) -> (r: Result<CamsFeatureInfo, String>)
    ensures
        match first_unreported(line_views(found@)) {
            Some(e) => r matches Err(m) && m@ == e,
            None => r matches Ok(info) && info_from(info, line_views(found@)),
        },
{
    let layer_name = match last_text(found, CamsField::LayerName, "Missing CAMS layer name") {
        Ok(t) => t,
        Err(e) => return Err(e),
    };
    let title = match last_text(found, CamsField::Title, "Missing CAMS title") {
        Ok(t) => t,
        Err(e) => return Err(e),
    };
    let value = match last_text(found, CamsField::Value, "Missing CAMS value") {
        Ok(t) => t,
        Err(e) => return Err(e),
    };
    let input_latitude = match last_text(found, CamsField::InputLatitude, "Missing CAMS input latitude") {
        Ok(t) => t,
        Err(e) => return Err(e),
    };
    let input_longitude = match last_text(found, CamsField::InputLongitude, "Missing CAMS input longitude") {
        Ok(t) => t,
        Err(e) => return Err(e),
    };
    let distance_km = match last_text(found, CamsField::Distance, "Missing CAMS distance") {
        Ok(t) => t,
        Err(e) => return Err(e),
    };
    let grid_point_latitude = match last_text(found, CamsField::GridPointLatitude, "Missing CAMS grid latitude") {
        Ok(t) => t,
        Err(e) => return Err(e),
    };
    let grid_point_longitude = match last_text(found, CamsField::GridPointLongitude, "Missing CAMS grid longitude") {
        Ok(t) => t,
        Err(e) => return Err(e),
    };
    Ok(CamsFeatureInfo {
        layer_name,
        title,
        value,
        input_latitude,
        input_longitude,
        distance_km,
        grid_point_latitude,
        grid_point_longitude,
    })
}

} // verus!
