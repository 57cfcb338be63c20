//! Records as the CSV reader hands them out, and the shaping of one record.

use vstd::prelude::*;
use crate::policy::{shaped, FieldCountPolicy};
use crate::whitespace::trimmed_fields;

verus! {

/// `csv::StringRecord`, carried through as the reader hands it out.
#[verifier::external_type_specification]
#[verifier::external_body]
pub struct ExStringRecord(csv::StringRecord);

/// The fields that a record holds, in order.
pub uninterp spec fn record_fields(record: csv::StringRecord) -> Seq<Seq<char>>;

/// `csv::StringRecord::len`: the number of fields in the record.
pub assume_specification[ csv::StringRecord::len ](record: &csv::StringRecord) -> (n: usize)
    ensures
        n == record_fields(*record).len(),
;

/// `csv::StringRecord::truncate`: keeps the first `n` fields, and leaves a
/// record that has no more than `n` as it is.
pub assume_specification[ csv::StringRecord::truncate ](record: &mut csv::StringRecord, n: usize)
    ensures
        n <= record_fields(*old(record)).len() ==> record_fields(*final(record)) == record_fields(
            *old(record),
        ).take(n as int),
        n > record_fields(*old(record)).len() ==> record_fields(*final(record)) == record_fields(
            *old(record),
        ),
;

/// `csv::StringRecord::trim`: replaces every field by the field without its
/// leading and trailing white space, in Unicode's sense of white space.
pub assume_specification[ csv::StringRecord::trim ](record: &mut csv::StringRecord)
    ensures
        record_fields(*final(record)) == trimmed_fields(record_fields(*old(record))),
;

/// Applies the field count policy to one record: the record cut to the
/// policy's width and trimmed, or nothing where the policy drops it.
pub fn shape(record: csv::StringRecord, policy: &FieldCountPolicy) -> (out: Option<csv::StringRecord>)
    ensures
        match shaped(record_fields(record), *policy) {
            Some(fields) => out matches Some(kept) && record_fields(kept) == fields,
            None => out is None,
        },
{
    let mut record = record;
    match policy {
        FieldCountPolicy::Exact(width) => {
            if record.len() >= *width {
                record.truncate(*width);
                record.trim();
                Some(record)
            } else {
                None
            }
        },
        FieldCountPolicy::Unconstrained => {
            record.trim();
            Some(record)
        },
    }
}

} // verus!
