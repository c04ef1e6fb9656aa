//! Semicolon-separated tables as the MeteoSwiss open data publishes them: line
//! endings are normalised, the `csv` crate splits the text into a header row
//! and data rows, and each data row becomes a record keyed by the header.
use vstd::prelude::*;

use crate::text::{concat3, push_char, trim, trimmed};

verus! {

// ── Views ───────────────────────────────────────────────────────────────────

/// The texts of a vector of strings.
pub open spec fn texts(v: Seq<String>) -> Seq<Seq<char>> {
    v.map_values(|s: String| s@)
}

/// The texts of a vector of rows.
pub open spec fn rows_texts(v: Seq<Vec<String>>) -> Seq<Seq<Seq<char>>> {
    v.map_values(|row: Vec<String>| texts(row@))
}

/// The text of an optional string.
pub open spec fn opt_text(o: Option<String>) -> Option<Seq<char>> {
    match o {
        Some(s) => Some(s@),
        None => None,
    }
}

// ── The csv crate ───────────────────────────────────────────────────────────

/// What the `csv` crate reads from a text with `;` as delimiter and the first
/// row as header (its other settings left at their defaults): the header
/// fields and the fields of every further row, or the message of the error
/// that it reports. It depends on the text alone.
pub uninterp spec fn semicolon_csv(text: Seq<char>) -> Result<
    (Seq<Seq<char>>, Seq<Seq<Seq<char>>>),
    Seq<char>,
>;

/// Reads a `;`-separated text with `csv::ReaderBuilder` (delimiter `;`, header
/// row on, records not flexible), then `Reader::headers` and `Reader::records`,
/// converting each `StringRecord` into its fields and each `csv::Error` into
/// its message. The contract states that the outcome is `semicolon_csv` of the
/// text and, as the reader refuses a record whose length differs from the
/// first one's, that every data row has as many fields as the header.
#[verifier::external_body]
fn read_semicolon_csv(text: &str) -> (r: Result<(Vec<String>, Vec<Vec<String>>), String>)
    ensures
        match r {
            Ok((headers, rows)) => semicolon_csv(text@) == Ok::<
                (Seq<Seq<char>>, Seq<Seq<Seq<char>>>),
                Seq<char>,
            >((texts(headers@), rows_texts(rows@))) && forall|i: int|
                0 <= i < rows.len() ==> #[trigger] rows@[i].len() == headers.len(),
            Err(message) => semicolon_csv(text@) == Err::<
                (Seq<Seq<char>>, Seq<Seq<Seq<char>>>),
                Seq<char>,
            >(message@),
        },
{
    let mut reader = csv::ReaderBuilder::new().delimiter(b';').from_reader(text.as_bytes());
    let headers: Vec<String> = match reader.headers() {
        Ok(record) => record.iter().map(str::to_string).collect(),
        Err(error) => return Err(error.to_string()),
    };
    let mut rows: Vec<Vec<String>> = Vec::new();
    for record in reader.records() {
        match record {
            Ok(record) => rows.push(record.iter().map(str::to_string).collect()),
            Err(error) => return Err(error.to_string()),
        }
    }
    Ok((headers, rows))
}

// ── Line endings ────────────────────────────────────────────────────────────

/// `s` with every `\r\n` turned into `\n` and then every remaining `\r` into
/// `\n`: a carriage return is dropped before a line feed and becomes a line
/// feed elsewhere.
pub open spec fn unix_newlines(s: Seq<char>) -> Seq<char>
    decreases s.len(),
{
    if s.len() == 0 {
        Seq::<char>::empty()
    } else if s[0] == '\r' && s.len() > 1 && s[1] == '\n' {
        unix_newlines(s.drop_first())
    } else if s[0] == '\r' {
        seq!['\n'] + unix_newlines(s.drop_first())
    } else {
        seq![s[0]] + unix_newlines(s.drop_first())
    }
}

/// Turns Windows and old Mac line endings into `\n`.
pub fn normalize_newlines(text: &str) -> (r: String)
    ensures
        r@ == unix_newlines(text@),
{
    let v = crate::text::chars_of(text);
    let mut out = String::new();
    let mut i: usize = 0;
    assert(v@.skip(0) =~= v@);
    while i < v.len()
        invariant
            i <= v.len(),
            v@ == text@,
            unix_newlines(v@) == out@ + unix_newlines(v@.skip(i as int)),
        decreases v.len() - i,
    {
        let ghost rest = v@.skip(i as int);
        assert(rest.drop_first() =~= v@.skip(i + 1));
        assert(rest[0] == v@[i as int]);
        if v[i] == '\r' && i + 1 < v.len() && v[i + 1] == '\n' {
            assert(rest[1] == v@[i + 1]);
        } else {
            let c = if v[i] == '\r' { '\n' } else { v[i] };
            let ghost before = out@;
            push_char(&mut out, c);
            assert(unix_newlines(rest) == seq![c] + unix_newlines(rest.drop_first()));
            assert(before + (seq![c] + unix_newlines(v@.skip(i + 1))) =~= out@ + unix_newlines(
                v@.skip(i + 1),
            ));
        }
        i += 1;
    }
    assert(v@.skip(v.len() as int) =~= Seq::<char>::empty());
    assert(out@ + Seq::<char>::empty() =~= out@);
    out
}

// ── Records ─────────────────────────────────────────────────────────────────

/// One data row of a table: its fields under their headers, in column order.
#[derive(Debug, Clone)]
pub struct CsvRecord {
    pub fields: Vec<(String, String)>,
}

/// The header and value texts of a record's fields.
pub open spec fn fields_texts(fields: Seq<(String, String)>) -> Seq<(Seq<char>, Seq<char>)> {
    fields.map_values(|f: (String, String)| (f.0@, f.1@))
}

impl View for CsvRecord {
    type V = Seq<(Seq<char>, Seq<char>)>;

    open spec fn view(&self) -> Seq<(Seq<char>, Seq<char>)> {
        fields_texts(self.fields@)
    }
}

/// The value under `key`; when a header repeats, the last of its columns
/// counts (as in a map filled column by column).
pub open spec fn lookup(fields: Seq<(Seq<char>, Seq<char>)>, key: Seq<char>) -> Option<Seq<char>>
    decreases fields.len(),
{
    if fields.len() == 0 {
        None
    } else if fields.last().0 == key {
        Some(fields.last().1)
    } else {
        lookup(fields.drop_last(), key)
    }
}

/// A data row paired with the header, column by column.
pub open spec fn zip_row(headers: Seq<Seq<char>>, row: Seq<Seq<char>>) -> Seq<(Seq<char>, Seq<char>)> {
    let n = if headers.len() <= row.len() { headers.len() } else { row.len() };
    Seq::new(n, |j: int| (headers[j], row[j]))
}

impl CsvRecord {
    /// The value under `key`, if the record has that column.
    pub fn get(&self, key: &str) -> (r: Option<&String>)
        ensures
            match lookup(self@, key@) {
                Some(v) => r matches Some(s) && s@ == v,
                None => r is None,
            },
    {
        let mut i = self.fields.len();
        assert(self@.take(i as int) =~= self@);
        while i > 0
            invariant
                i <= self.fields.len(),
                lookup(self@, key@) == lookup(self@.take(i as int), key@),
            decreases i,
        {
            let ghost prefix = self@.take(i as int);
            assert(prefix.drop_last() =~= self@.take(i - 1));
            assert(prefix.last() == (self.fields@[i - 1].0@, self.fields@[i - 1].1@));
            if crate::text::str_eq(self.fields[i - 1].0.as_str(), key) {
                return Some(&self.fields[i - 1].1);
            }
            i -= 1;
        }
        None
    }
}

fn record_of(headers: &Vec<String>, row: &Vec<String>) -> (r: CsvRecord)
    ensures
        r@ == zip_row(texts(headers@), texts(row@)),
{
    let n = if headers.len() <= row.len() { headers.len() } else { row.len() };
    let mut fields: Vec<(String, String)> = Vec::new();
    let mut j: usize = 0;
    while j < n
        invariant
            j <= n,
            n == (if headers.len() <= row.len() { headers.len() } else { row.len() }),
            fields.len() == j,
            forall|k: int|
                0 <= k < j ==> #[trigger] fields@[k].0@ == headers@[k]@ && fields@[k].1@ == row@[k]@,
        decreases n - j,
    {
        fields.push((headers[j].clone(), row[j].clone()));
        j += 1;
    }
    let r = CsvRecord { fields };
    assert(r@ =~= zip_row(texts(headers@), texts(row@)));
    r
}

/// The views of a list of records.
pub open spec fn record_views(records: Seq<CsvRecord>) -> Seq<Seq<(Seq<char>, Seq<char>)>> {
    records.map_values(|rec: CsvRecord| rec@)
}

/// The records of a table read as a header and data rows: one per row, each
/// row's fields under the header's names, column by column.
pub fn records_from_table(headers: &Vec<String>, rows: &Vec<Vec<String>>) -> (records: Vec<CsvRecord>)
    ensures
        records.len() == rows.len(),
        forall|i: int| 0 <= i < rows.len() ==> #[trigger] records[i]@ == zip_row(texts(headers@), texts(rows@[i]@)),
{
    let mut records: Vec<CsvRecord> = Vec::new();
    let mut i: usize = 0;
    while i < rows.len()
        invariant
            i <= rows.len(),
            records.len() == i,
            forall|k: int| 0 <= k < i ==> #[trigger] records[k]@ == zip_row(texts(headers@), texts(rows@[k]@)),
        decreases rows.len() - i,
    {
        records.push(record_of(headers, &rows[i]));
        i += 1;
    }
    records
}

/// Parses a `;`-separated table with a header row into records, one per data
/// row, after normalising line endings; fails with the `csv` crate's message.
pub fn parse_csv_response(text: &str) -> (r: Result<Vec<CsvRecord>, String>)
    ensures
        match semicolon_csv(unix_newlines(text@)) {
            Ok((headers, rows)) => {
                &&& forall|i: int| 0 <= i < rows.len() ==> #[trigger] rows[i].len() == headers.len()
                &&& r matches Ok(records) && records.len() == rows.len() && forall|i: int|
                    0 <= i < rows.len() ==> #[trigger] records[i]@ == zip_row(headers, rows[i])
            },
            Err(message) => r matches Err(m) && m@ == message,
        },
{
    let cleaned = normalize_newlines(text);
    match read_semicolon_csv(cleaned.as_str()) {
        Err(message) => Err(message),
        Ok((headers, rows)) => {
            let records = records_from_table(&headers, &rows);
            assert forall|k: int| 0 <= k < rows.len() implies #[trigger] records[k]@ == zip_row(
                texts(headers@),
                rows_texts(rows@)[k],
            ) by {}
            assert forall|k: int| 0 <= k < rows.len() implies #[trigger] rows_texts(rows@)[k].len()
                == texts(headers@).len() by {
                assert(rows@[k].len() == headers.len());
            }
            Ok(records)
        },
    }
}

// ── Fields ──────────────────────────────────────────────────────────────────

/// The message for a missing column.
pub open spec fn missing_field(key: Seq<char>) -> Seq<char> {
    "Missing CSV field '"@ + key + "'"@
}

/// The value of a column that must be there.
pub fn required_csv_field(row: &CsvRecord, key: &str) -> (r: Result<String, String>)
    ensures
        match lookup(row@, key@) {
            Some(v) => r matches Ok(s) && s@ == v,
            None => r matches Err(e) && e@ == missing_field(key@),
        },
{
    match row.get(key) {
        Some(value) => Ok(value.clone()),
        None => Err(concat3("Missing CSV field '", key, "'")),
    }
}

/// The trimmed value of a column that may be absent or blank.
pub open spec fn optional_value(row: Seq<(Seq<char>, Seq<char>)>, key: Seq<char>) -> Option<Seq<char>> {
    match lookup(row, key) {
        Some(v) => if trimmed(v).len() == 0 {
            None
        } else {
            Some(trimmed(v))
        },
        None => None,
    }
}

/// The trimmed value of a column, or nothing when it is absent or blank.
pub fn optional_non_empty(row: &CsvRecord, key: &str) -> (r: Option<String>)
    ensures
        opt_text(r) == optional_value(row@, key@),
{
    match row.get(key) {
        Some(value) => {
            let t = trim(value.as_str());
            if t.is_empty() {
                None
            } else {
                Some(crate::text::owned(t))
            }
        },
        None => None,
    }
}

} // verus!
