//! Turning a leads CSV file into the leads to create.
//!
//! The file has a header row; the columns headed `name` and `company` give a
//! lead's name and company, and every other column is ignored.

use vstd::prelude::*;
use crate::text::{lemma_trim_text, replace_char, texts_view, trim, trim_text};

verus! {

/// The field at `i` of a row, or the empty text if the row is shorter.
pub open spec fn field_or_empty(fields: Seq<Seq<char>>, i: int) -> Seq<char> {
    if 0 <= i < fields.len() {
        fields[i]
    } else {
        Seq::empty()
    }
}

/// The first position at or after `from` whose header is `name`.
pub open spec fn column_from(headers: Seq<Seq<char>>, name: Seq<char>, from: int) -> Option<int>
    decreases headers.len() - from,
{
    if from < 0 || from >= headers.len() {
        None
    } else if headers[from] == name {
        Some(from)
    } else {
        column_from(headers, name, from + 1)
    }
}

/// The value of the column headed `name` in a row (the first such column),
/// or the empty text if there is no such column or the row is shorter.
pub open spec fn column_value(headers: Seq<Seq<char>>, fields: Seq<Seq<char>>, name: Seq<char>) -> Seq<char> {
    match column_from(headers, name, 0) {
        Some(i) => field_or_empty(fields, i),
        None => Seq::empty(),
    }
}

/// The header of the name column.
pub open spec fn name_header() -> Seq<char> {
    "name"@
}

/// The header of the company column.
pub open spec fn company_header() -> Seq<char> {
    "company"@
}

/// The lead (name, company) a row gives: both values trimmed of surrounding
/// white space; nothing if the name is then empty.
pub open spec fn row_lead(headers: Seq<Seq<char>>, fields: Seq<Seq<char>>) -> Option<(Seq<char>, Seq<char>)> {
    let name = trim_text(column_value(headers, fields, name_header()));
    if name.len() == 0 {
        None
    } else {
        Some((name, trim_text(column_value(headers, fields, company_header()))))
    }
}

/// The leads, in order, that the rows `records` give.
pub open spec fn table_leads(headers: Seq<Seq<char>>, records: Seq<Seq<Seq<char>>>) -> Seq<(Seq<char>, Seq<char>)>
    decreases records.len(),
{
    if records.len() == 0 {
        Seq::empty()
    } else {
        table_leads(headers, records.drop_last()) + match row_lead(headers, records.last()) {
            Some(l) => seq![l],
            None => Seq::empty(),
        }
    }
}

/// The position of the first column headed `name`, if any.
fn find_column(headers: &Vec<String>, name: &str) -> (col: Option<usize>)
    ensures
        match col {
            Some(i) => column_from(texts_view(headers@), name@, 0) == Some(i as int),
            None => column_from(texts_view(headers@), name@, 0) is None,
        },
{
    let wanted = name.to_owned();
    let n = headers.len();
    let mut i: usize = 0;
    while i < n
        invariant
            n == headers@.len(),
            i <= n,
            wanted@ == name@,
            column_from(texts_view(headers@), name@, 0) == column_from(texts_view(headers@), name@, i as int),
        decreases n - i,
    {
        assert(texts_view(headers@)[i as int] == headers@[i as int]@);
        if headers[i] == wanted {
            return Some(i);
        }
        i = i + 1;
    }
    None
}

/// The value of the column headed `name` in `fields`, or `""`.
fn column_text<'a>(headers: &Vec<String>, fields: &'a Vec<String>, name: &str) -> (text: &'a str)
    ensures
        text@ == column_value(texts_view(headers@), texts_view(fields@), name@),
{
    proof {
        reveal_strlit("");
    }
    match find_column(headers, name) {
        Some(i) => if i < fields.len() {
            fields[i].as_str()
        } else {
            ""
        },
        None => "",
    }
}

/// A lead to create from a row: its name and company.
pub struct LeadRow {
    pub name: String,
    pub company: String,
}

impl View for LeadRow {
    type V = (Seq<char>, Seq<char>);

    open spec fn view(&self) -> (Seq<char>, Seq<char>) {
        (self.name@, self.company@)
    }
}

/// Read a CSV row by its header: the values of the columns headed `name` and
/// `company` (other columns are ignored; a missing column reads as empty),
/// trimmed of surrounding white space. A row whose name is then empty is
/// skipped.
pub fn ingest_row(headers: &Vec<String>, fields: &Vec<String>) -> (row: Option<LeadRow>)
    ensures
        match row {
            Some(r) => row_lead(texts_view(headers@), texts_view(fields@)) == Some(r@),
            None => row_lead(texts_view(headers@), texts_view(fields@)) is None,
        },
{
    let name_raw = column_text(headers, fields, "name");
    let company_raw = column_text(headers, fields, "company");
    let name = trim(name_raw);
    let company = trim(company_raw);
    proof {
        lemma_trim_text(name_raw@);
        lemma_trim_text(company_raw@);
    }
    if name.unicode_len() == 0 {
        None
    } else {
        Some(LeadRow { name: name.to_owned(), company: company.to_owned() })
    }
}

/// The leads that the rows of a table give, in order, skipping rows without
/// a name.
pub fn ingest_records(headers: &Vec<String>, records: &Vec<Vec<String>>) -> (rows: Vec<LeadRow>)
    ensures
        rows@.map_values(|r: LeadRow| r@) == table_leads(
            texts_view(headers@),
            records@.map_values(|r: Vec<String>| texts_view(r@)),
        ),
{
    let ghost hv = texts_view(headers@);
    let ghost rv = records@.map_values(|r: Vec<String>| texts_view(r@));
    let n = records.len();
    let mut rows: Vec<LeadRow> = Vec::new();
    let mut i: usize = 0;
    while i < n
        invariant
            n == records@.len(),
            i <= n,
            hv == texts_view(headers@),
            rv == records@.map_values(|r: Vec<String>| texts_view(r@)),
            rows@.map_values(|r: LeadRow| r@) == table_leads(hv, rv.take(i as int)),
        decreases n - i,
    {
        proof {
            assert(rv.take(i + 1).drop_last() == rv.take(i as int));
            assert(rv.take(i + 1).last() == texts_view(records@[i as int]@));
        }
        match ingest_row(headers, &records[i]) {
            Some(r) => {
                rows.push(r);
            },
            None => {},
        }
        proof {
            assert(rows@.map_values(|r: LeadRow| r@) =~= table_leads(hv, rv.take(i + 1)));
        }
        i = i + 1;
    }
    proof {
        assert(rv.take(n as int) == rv);
    }
    rows
}

#[verifier::external_type_specification]
#[verifier::external_body]
pub struct ExCsvError(csv::Error);

/// A CSV file read with a header row: the header, the records read before the
/// first error, and that error, if reading stopped on one.
pub struct CsvTable {
    pub headers: Vec<String>,
    pub records: Vec<Vec<String>>,
    pub error: Option<csv::Error>,
}

/// What the `csv` crate reads from `text` (with a header row and its default
/// settings): the header, the records before the first error, and whether
/// reading stopped on an error.
pub uninterp spec fn csv_table(text: Seq<u8>) -> (Seq<Seq<char>>, Seq<Seq<Seq<char>>>, bool);

/// A field that CSV can carry without quotes: not empty, and free of quotes,
/// commas and line breaks.
pub open spec fn is_plain_field(f: Seq<char>) -> bool {
    f.len() > 0 && forall|i: int|
        0 <= i < f.len() ==> #[trigger] f[i] != '"' && f[i] != ',' && f[i] != '\r' && f[i] != '\n'
}

/// A field written in CSV (RFC 4180): as it is when that is possible,
/// otherwise between double quotes with every quote inside doubled.
pub open spec fn csv_field(f: Seq<char>) -> Seq<char> {
    if is_plain_field(f) {
        f
    } else {
        seq!['"'] + replace_char(f, '"', seq!['"', '"']) + seq!['"']
    }
}

/// The fields of a record written in CSV, separated by commas.
pub open spec fn csv_fields(fields: Seq<Seq<char>>) -> Seq<char>
    decreases fields.len(),
{
    if fields.len() == 0 {
        Seq::empty()
    } else if fields.len() == 1 {
        csv_field(fields[0])
    } else {
        csv_fields(fields.drop_last()) + seq![','] + csv_field(fields.last())
    }
}

/// Records written in CSV, each ended by a line feed.
pub open spec fn csv_lines(records: Seq<Seq<Seq<char>>>) -> Seq<char>
    decreases records.len(),
{
    if records.len() == 0 {
        Seq::empty()
    } else {
        csv_lines(records.drop_last()) + csv_fields(records.last()) + seq!['\n']
    }
}

/// The bytes of a header and records written in CSV, all text being ASCII.
pub open spec fn csv_text(headers: Seq<Seq<char>>, records: Seq<Seq<Seq<char>>>) -> Seq<u8> {
    csv_lines(seq![headers] + records).map_values(|c: char| c as u8)
}

/// Text that is ASCII.
pub open spec fn is_ascii_text(f: Seq<char>) -> bool {
    forall|i: int| 0 <= i < f.len() ==> (#[trigger] f[i] as u32) < 128
}

/// A header and records that make a well-formed ASCII CSV table: at least one
/// column, and every record as long as the header.
pub open spec fn is_ascii_table(headers: Seq<Seq<char>>, records: Seq<Seq<Seq<char>>>) -> bool {
    &&& headers.len() > 0
    &&& forall|k: int| 0 <= k < headers.len() ==> is_ascii_text(#[trigger] headers[k])
    &&& forall|r: int|
        0 <= r < records.len() ==> (#[trigger] records[r]).len() == headers.len() && forall|k: int|
            0 <= k < headers.len() ==> is_ascii_text(#[trigger] records[r][k])
}

/// Reads `text` with `csv::ReaderBuilder::new().has_headers(true).from_reader`:
/// its `headers()`, then its `records()` up to the first error.
///
/// Trusted: the result is the one that `csv_table` names, a function of the
/// bytes alone. An error on the header row stops reading before any record.
/// Beyond that name, one fact of the reader's RFC 4180 format is claimed
/// (quoting and doubled-quote escapes are on by default): an ASCII table
/// written as `csv_text` writes it, with quotes where a field needs them, is
/// read back field for field, without error.
#[verifier::external_body]
pub fn parse_csv(text: &[u8]) -> (table: CsvTable)
    ensures
        csv_table(text@) == (texts_view(table.headers@), table.records@.map_values(
            |r: Vec<String>| texts_view(r@),
        ), table.error is Some),
        forall|h: Seq<Seq<char>>, r: Seq<Seq<Seq<char>>>|
            #[trigger] csv_text(h, r) == text@ && is_ascii_table(h, r) ==> texts_view(table.headers@) == h
                && table.records@.map_values(|x: Vec<String>| texts_view(x@)) == r && table.error is None,
{
    let mut reader = csv::ReaderBuilder::new().has_headers(true).from_reader(text);
    let headers: Vec<String> = match reader.headers() {
        Ok(h) => h.iter().map(str::to_owned).collect(),
        Err(e) => return CsvTable { headers: Vec::new(), records: Vec::new(), error: Some(e) },
    };
    let mut records = Vec::new();
    for result in reader.records() {
        match result {
            Ok(r) => records.push(r.iter().map(str::to_owned).collect()),
            Err(e) => return CsvTable { headers, records, error: Some(e) },
        }
    }
    CsvTable { headers, records, error: None }
}

/// The leads in a CSV file, and the error that stopped reading it, if any.
pub struct CsvLeads {
    pub rows: Vec<LeadRow>,
    pub error: Option<csv::Error>,
}

/// Read the leads of a CSV file: the rows before any read error, each taken
/// by the columns headed `name` and `company`, skipping rows without a name.
pub fn ingest_csv(text: &[u8]) -> (leads: CsvLeads)
    ensures
        leads.rows@.map_values(|r: LeadRow| r@) == table_leads(csv_table(text@).0, csv_table(text@).1),
        (leads.error is Some) == csv_table(text@).2,
        forall|h: Seq<Seq<char>>, r: Seq<Seq<Seq<char>>>|
            #[trigger] csv_text(h, r) == text@ && is_ascii_table(h, r) ==> leads.rows@.map_values(
                |x: LeadRow| x@,
            ) == table_leads(h, r) && leads.error is None,
{
    let table = parse_csv(text);
    let rows = ingest_records(&table.headers, &table.records);
    CsvLeads { rows, error: table.error }
}

} // verus!
