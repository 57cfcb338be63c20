//! The CSV reader, seen as the sequence of what it has yet to give.
//!
//! Each item of that sequence is either the fields of a record or the
//! reader's report of a failure, as a flag and a message.

use vstd::prelude::*;
use crate::error::ParseFailure;
use crate::record::record_fields;
use crate::settings::{ReaderSettings, Trim};

verus! {

/// `csv::Reader`, carried through from one call to the next.
#[verifier::external_type_specification]
#[verifier::external_body]
#[verifier::reject_recursive_types(R)]
pub struct ExReader<R>(csv::Reader<R>);

/// What a `csv::Reader` with these knobs gives for `text`, call after call,
/// until it reports the end: the fields of a record, or the flag and the
/// message of an error.
pub uninterp spec fn parsed(text: Seq<u8>, settings: ReaderSettings) -> Seq<
    Result<Seq<Seq<char>>, (bool, Seq<char>)>,
>;

/// What the reader has yet to give.
pub uninterp spec fn pending(reader: csv::Reader<&[u8]>) -> Seq<Result<Seq<Seq<char>>, (bool, Seq<char>)>>;

/// Whether `found` is what the reader hands out for the item `expected`.
pub open spec fn hands_out(
    found: Result<csv::StringRecord, ParseFailure>,
    expected: Result<Seq<Seq<char>>, (bool, Seq<char>)>,
) -> bool {
    match expected {
        Ok(fields) => found matches Ok(record) && record_fields(record) == fields,
        Err(failure) => found matches Err(report) && report@ == failure,
    }
}

/// `csv::ReaderBuilder::from_reader`, after every knob has been set on the
/// builder: a reader over `text` that has all of `parsed` yet to give.
#[verifier::external_body]
pub(crate) fn open_reader<'a>(text: &'a [u8], settings: &ReaderSettings) -> (reader: csv::Reader<&'a [u8]>)
    ensures
        pending(reader) == parsed(text@, *settings),
{
    let trim = match settings.trim {
        Trim::Nothing => csv::Trim::None,
        Trim::Headers => csv::Trim::Headers,
        Trim::Fields => csv::Trim::Fields,
        Trim::All => csv::Trim::All,
    };
    let mut builder = csv::ReaderBuilder::new();
    builder.has_headers(settings.has_headers).flexible(settings.flexible).trim(trim);
    builder.delimiter(settings.delimiter).quote(settings.quote).quoting(settings.quoting);
    builder.double_quote(settings.double_quote).escape(settings.escape);
    builder.from_reader(text)
}

/// One step of `csv::Reader::records`: hands out the first item that the
/// reader has yet to give, and nothing once there is none. An error is
/// handed out as its kind (UTF-8 or not) and its text.
#[verifier::external_body]
pub(crate) fn next_record(reader: &mut csv::Reader<&[u8]>) -> (item: Option<
    Result<csv::StringRecord, ParseFailure>,
>)
    ensures
        pending(*old(reader)).len() == 0 ==> item is None && pending(*final(reader)).len() == 0,
        pending(*old(reader)).len() > 0 ==> pending(*final(reader)) == pending(*old(reader)).drop_first(),
        pending(*old(reader)).len() > 0 ==> item is Some,
        item matches Some(found) ==> hands_out(found, pending(*old(reader)).first()),
{
    match reader.records().next() {
        Some(Ok(record)) => Some(Ok(record)),
        Some(Err(err)) => Some(
            Err(
                ParseFailure {
                    invalid_utf8: matches!(err.kind(), csv::ErrorKind::Utf8 { .. }),
                    message: err.to_string(),
                },
            ),
        ),
        None => None,
    }
}

} // verus!
