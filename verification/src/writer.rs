//! The CSV writer over a buffer in memory, seen as the bytes it has written.

use vstd::prelude::*;
use crate::record::record_fields;
use crate::settings::WriterSettings;

verus! {

/// A `csv::Writer` that writes into a `Vec<u8>`.
///
/// `csv::Writer` bounds its own type parameter by `std::io::Write`, which
/// Verus cannot take in a declaration of the type, so the writer is held in
/// a field that Verus does not look into.
#[verifier::external_body]
pub struct RecordWriter {
    inner: csv::Writer<Vec<u8>>,
}

/// All bytes written so far, whether the writer still buffers them or not.
pub uninterp spec fn written(writer: RecordWriter) -> Seq<u8>;

/// Whether the writer lets records differ in their number of fields.
pub uninterp spec fn writer_flexible(writer: RecordWriter) -> bool;

/// The byte that the writer puts between fields.
pub uninterp spec fn writer_delimiter(writer: RecordWriter) -> u8;

/// The number of fields of the first record written, which a writer that is
/// not flexible records and holds every later record to.
pub uninterp spec fn first_width(writer: RecordWriter) -> Option<nat>;

/// The bytes that `csv::Writer::write_record` writes for one record with
/// these fields: the fields, quoted where they need it, with `delimiter`
/// between them, and the record terminator.
pub uninterp spec fn csv_line(fields: Seq<Seq<char>>, delimiter: u8) -> Seq<u8>;

/// Whether the writer takes a record of `width` fields.
pub open spec fn takes_width(writer: RecordWriter, width: nat) -> bool {
    writer_flexible(writer) || first_width(writer) is None || first_width(writer) == Some(width)
}

/// `csv::WriterBuilder::from_writer` on an empty `Vec<u8>`, after the two
/// knobs have been set on the builder: nothing is written yet, and no width
/// is recorded.
#[verifier::external_body]
pub(crate) fn open_writer(settings: &WriterSettings) -> (writer: RecordWriter)
    ensures
        written(writer) == Seq::<u8>::empty(),
        writer_flexible(writer) == settings.flexible,
        writer_delimiter(writer) == settings.delimiter,
        first_width(writer) is None,
{
    let mut builder = csv::WriterBuilder::new();
    builder.flexible(settings.flexible).delimiter(settings.delimiter);
    RecordWriter { inner: builder.from_writer(Vec::new()) }
}

/// `csv::Writer::write_record`, for a record whose width the writer takes.
/// Writing into memory cannot fail, and the writer's one other error, that
/// of a width other than the one it has recorded, is left out by `requires`.
/// The record's line is appended, and a writer that is not flexible records
/// the width.
#[verifier::external_body]
pub(crate) fn write_record(writer: &mut RecordWriter, record: &csv::StringRecord) -> (res: Result<(), String>)
    requires
        takes_width(*old(writer), record_fields(*record).len()),
    ensures
        res is Ok,
        written(*final(writer)) == written(*old(writer)) + csv_line(
            record_fields(*record),
            writer_delimiter(*old(writer)),
        ),
        writer_flexible(*final(writer)) == writer_flexible(*old(writer)),
        writer_delimiter(*final(writer)) == writer_delimiter(*old(writer)),
        first_width(*final(writer)) == if writer_flexible(*old(writer)) {
            first_width(*old(writer))
        } else {
            Some(record_fields(*record).len())
        },
{
    match writer.inner.write_record(record) {
        Ok(()) => Ok(()),
        Err(err) => Err(err.to_string()),
    }
}

/// `csv::Writer::into_inner`: flushes the writer's buffer into the
/// `Vec<u8>`, which cannot fail, and hands the vector out.
#[verifier::external_body]
pub(crate) fn finish(writer: RecordWriter) -> (bytes: Option<Vec<u8>>)
    ensures
        bytes is Some,
        bytes matches Some(all) ==> all@ == written(writer),
{
    writer.inner.into_inner().ok()
}

} // verus!
