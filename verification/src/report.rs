use vstd::prelude::*;

use crate::date::{date_days_before, ReportDate};

verus! {

/// How many days back from today the default report window starts.
pub const REPORT_LAG_DAYS: u32 = 5;

/// The field delimiter of the portal's CSV export.
pub const CSV_DELIMITER: u8 = 59;  // b';'

/// One CSV record: its fields, or why it could not be read.
pub type CsvRow = Result<Vec<String>, String>;

pub open spec fn row_view(r: CsvRow) -> Result<Seq<Seq<char>>, Seq<char>> {
    match r {
        Ok(fields) => Ok(fields.deep_view()),
        Err(e) => Err(e@),
    }
}

pub open spec fn rows_view(rows: Seq<CsvRow>) -> Seq<Result<Seq<Seq<char>>, Seq<char>>> {
    rows.map_values(|r: CsvRow| row_view(r))
}

/// The records the CSV reader yields for `data`, split at `delimiter`, skipping a header
/// row when `has_headers` holds: each the fields of a record or the text of a read error.
pub uninterp spec fn csv_records(data: Seq<u8>, delimiter: u8, has_headers: bool) -> Seq<
    Result<Seq<Seq<char>>, Seq<char>>,
>;

/// Reads all records of `data` with `csv::ReaderBuilder` (the given delimiter and header
/// setting) and `Reader::records`, each record's fields as strings and each error as its
/// message. Claimed: the result is the named function of the arguments. Not claimed:
/// anything about CSV syntax.
#[verifier::external_body]
fn read_csv_records(data: &[u8], delimiter: u8, has_headers: bool) -> (rows: Vec<CsvRow>)
    ensures
        rows_view(rows@) == csv_records(data@, delimiter, has_headers),
{
    csv::ReaderBuilder::new().delimiter(delimiter).has_headers(has_headers).from_reader(
        data,
    ).records().map(
        |r| r.map(|rec| rec.iter().map(|f| f.to_string()).collect()).map_err(|e| e.to_string()),
    ).collect()
}

/// Checks `data` with `std::str::from_utf8`. Claimed, as std documents it: success exactly
/// when `data` is well-formed UTF-8.
#[verifier::external_body]
fn is_valid_utf8(data: &[u8]) -> (b: bool)
    ensures
        b == vstd::utf8::valid_utf8(data@),
{
    std::str::from_utf8(data).is_ok()
}

/// The UTF-8 byte order mark.
pub open spec fn bom() -> Seq<u8> {
    seq![0xEFu8, 0xBBu8, 0xBFu8]
}

/// `bytes` without a leading byte order mark.
pub open spec fn without_bom(bytes: Seq<u8>) -> Seq<u8> {
    if bytes.len() >= 3 && bytes.take(3) == bom() {
        bytes.skip(3)
    } else {
        bytes
    }
}

/// Drops a leading UTF-8 byte order mark (the portal's exports begin with one).
pub fn strip_bom(bytes: &[u8]) -> (r: &[u8])
    ensures
        r@ == without_bom(bytes@),
{
    if bytes.len() >= 3 && bytes[0] == 0xEFu8 && bytes[1] == 0xBBu8 && bytes[2] == 0xBFu8 {
        assert(bytes@.take(3) =~= bom());
        let (_, rest) = bytes.split_at(3);
        rest
    } else {
        proof {
            if bytes@.len() >= 3 && bytes@.take(3) == bom() {
                assert(bytes@.take(3)[0] == bytes@[0]);
                assert(bytes@.take(3)[1] == bytes@[1]);
                assert(bytes@.take(3)[2] == bytes@[2]);
            }
        }
        bytes
    }
}

/// Why a downloaded report could not be decoded.
#[derive(Debug, PartialEq, Eq, Structural)]
pub enum ReportDecodeError {
    /// The payload, without its byte order mark, is not UTF-8.
    NotUtf8,
}

/// The outcome of decoding the report payload `bytes`.
pub open spec fn decode_outcome(bytes: Seq<u8>, r: Result<Vec<CsvRow>, ReportDecodeError>) -> bool {
    let data = without_bom(bytes);
    if vstd::utf8::valid_utf8(data) {
        r matches Ok(rows) && rows_view(rows@) == csv_records(data, CSV_DELIMITER, true)
    } else {
        r == Err::<Vec<CsvRow>, ReportDecodeError>(ReportDecodeError::NotUtf8)
    }
}

/// Decodes a downloaded report: drops the byte order mark, requires UTF-8, and reads the
/// `;`-separated records after the header row.
pub fn decode_report(bytes: &[u8]) -> (r: Result<Vec<CsvRow>, ReportDecodeError>)
    ensures
        decode_outcome(bytes@, r),
        r is Ok <==> vstd::utf8::valid_utf8(without_bom(bytes@)),
        r matches Ok(rows) ==> rows_view(rows@) == csv_records(without_bom(bytes@), 59u8, true),
        r matches Err(e) ==> e == ReportDecodeError::NotUtf8,
{
    let data = strip_bom(bytes);
    if !is_valid_utf8(data) {
        return Err(ReportDecodeError::NotUtf8);
    }
    Ok(read_csv_records(data, CSV_DELIMITER, true))
}

/// The default report window for `today`: from and till both `REPORT_LAG_DAYS` days back;
/// `None` when that day lies before the supported calendar range.
pub fn report_window(today: &ReportDate) -> (r: Option<(ReportDate, ReportDate)>)
    ensures
        match r {
            Some((from, till)) => date_days_before(today@, REPORT_LAG_DAYS as nat) == Some(
                from@,
            ) && till@ == from@,
            None => date_days_before(today@, REPORT_LAG_DAYS as nat) is None,
        },
{
    match today.days_before(REPORT_LAG_DAYS) {
        Some(from) => Some((from, from)),
        None => None,
    }
}


/// Stripping removes the three bytes EF BB BF when the payload begins with them, and
/// otherwise leaves it unchanged.
pub proof fn law_strip_bom(payload: Seq<u8>)
    ensures
        without_bom(seq![0xEFu8, 0xBBu8, 0xBFu8] + payload) == payload,
        !(payload.len() >= 3 && payload[0] == 0xEFu8 && payload[1] == 0xBBu8 && payload[2]
            == 0xBFu8) ==> without_bom(payload) == payload,
{
    let b = seq![0xEFu8, 0xBBu8, 0xBFu8];
    assert((b + payload).take(3) =~= bom());
    assert((b + payload).skip(3) =~= payload);
    if payload.len() >= 3 && payload.take(3) == bom() {
        assert(payload[0] == payload.take(3)[0]);
        assert(payload[1] == payload.take(3)[1]);
        assert(payload[2] == payload.take(3)[2]);
    }
}

/// A decoded report is exactly what the CSV reader yields, with `;` as delimiter and a
/// header row, for the whole payload after its byte order mark; decoding fails exactly when
/// that payload is not UTF-8. A payload decodes the same with or without a byte order mark
/// in front.
pub proof fn law_decode_report(
    bytes: Seq<u8>,
    payload: Seq<u8>,
    r: Result<Vec<CsvRow>, ReportDecodeError>,
)
    ensures
        decode_outcome(bytes, r) ==> (r is Ok <==> vstd::utf8::valid_utf8(without_bom(bytes))),
        decode_outcome(bytes, r) && r is Ok ==> rows_view(r->Ok_0@) == csv_records(
            without_bom(bytes),
            59u8,
            true,
        ),
        !(payload.len() >= 3 && payload[0] == 0xEFu8 && payload[1] == 0xBBu8 && payload[2]
            == 0xBFu8) ==> (decode_outcome(seq![0xEFu8, 0xBBu8, 0xBFu8] + payload, r)
            <==> decode_outcome(payload, r)),
{
    law_strip_bom(payload);
}

} // verus!
