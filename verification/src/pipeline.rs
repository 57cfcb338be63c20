//! The run itself: decode, read record by record, shape, write.
//!
//! Records are handled strictly in order. The first failure of the reader
//! ends the run; what was written before it stays written.

use vstd::prelude::*;
use crate::decode::{decode, decoded_under};
use crate::error::SanitizeError;
use crate::policy::{accepted, dropped_count, shaped, FieldCountPolicy};
use crate::reader::{next_record, open_reader, parsed, pending};
use crate::record::{record_fields, shape};
use crate::settings::{EncodingDirective, ParseConfig, ReaderSettings, WriterSettings};
use crate::writer::{
    csv_line,
    finish,
    first_width,
    open_writer,
    write_record,
    writer_delimiter,
    writer_flexible,
    written,
};

verus! {

/// How many records a run wrote and how many it dropped. A count that does
/// not fit stays at the largest number.
#[derive(Clone, Copy, Debug, PartialEq, Eq, Structural)]
pub struct Tally {
    /// Records written.
    pub written: usize,
    /// Records dropped by the field count policy.
    pub dropped: usize,
}

/// `n`, or the largest `usize` where `n` does not fit.
pub open spec fn capped(n: nat) -> usize {
    if n <= usize::MAX {
        n as usize
    } else {
        usize::MAX
    }
}

/// The tally of a run that has read `records`.
pub open spec fn tally_of(records: Seq<Seq<Seq<char>>>, policy: FieldCountPolicy) -> Tally {
    Tally {
        written: capped(accepted(records, policy).len()),
        dropped: capped(dropped_count(records, policy)),
    }
}

/// The position of the reader's first failure among `items`, or their
/// number where there is none.
pub open spec fn failure_index(items: Seq<Result<Seq<Seq<char>>, (bool, Seq<char>)>>) -> nat
    decreases items.len(),
{
    if items.len() == 0 || items.first() is Err {
        0
    } else {
        1 + failure_index(items.drop_first())
    }
}

/// The records that the reader gives before its first failure.
pub open spec fn leading_records(items: Seq<Result<Seq<Seq<char>>, (bool, Seq<char>)>>) -> Seq<
    Seq<Seq<char>>,
> {
    Seq::new(failure_index(items), |i: int| items[i]->Ok_0)
}

/// The reader's first failure, if it has one.
pub open spec fn first_failure(items: Seq<Result<Seq<Seq<char>>, (bool, Seq<char>)>>) -> Option<
    (bool, Seq<char>),
> {
    if failure_index(items) < items.len() {
        Some(items[failure_index(items) as int]->Err_0)
    } else {
        None
    }
}

/// The lines of `records` one after the other, each as the writer writes it.
pub open spec fn serialized(records: Seq<Seq<Seq<char>>>, delimiter: u8) -> Seq<u8>
    decreases records.len(),
{
    if records.len() == 0 {
        Seq::empty()
    } else {
        serialized(records.drop_last(), delimiter) + csv_line(records.last(), delimiter)
    }
}

/// The bytes that a run writes for `text`: the lines of the records that the
/// policy accepts among those read before the first failure.
pub open spec fn emitted(
    text: Seq<u8>,
    reader: ReaderSettings,
    policy: FieldCountPolicy,
    delimiter: u8,
) -> Seq<u8> {
    serialized(accepted(leading_records(parsed(text, reader)), policy), delimiter)
}

/// `failure_index` is the one position before which every item is a record
/// and at which, if it is an item at all, the reader failed.
pub proof fn lemma_failure_index(items: Seq<Result<Seq<Seq<char>>, (bool, Seq<char>)>>, k: nat)
    requires
        k <= items.len(),
        forall|i: int| 0 <= i < k ==> (#[trigger] items[i]) is Ok,
        k < items.len() ==> items[k as int] is Err,
    ensures
        failure_index(items) == k,
    decreases items.len(),
{
    if items.len() == 0 || items.first() is Err {
        if k > 0 {
            assert(items[0] is Ok);
        }
    } else {
        let rest = items.drop_first();
        assert forall|i: int| 0 <= i < k - 1 implies (#[trigger] rest[i]) is Ok by {
            assert(rest[i] == items[i + 1]);
        }
        lemma_failure_index(rest, (k - 1) as nat);
    }
}

/// One more record read: what is accepted and what is dropped grow by that
/// record's share.
proof fn lemma_one_more(records: Seq<Seq<Seq<char>>>, fields: Seq<Seq<char>>, policy: FieldCountPolicy)
    ensures
        accepted(records.push(fields), policy) == match shaped(fields, policy) {
            Some(kept) => accepted(records, policy).push(kept),
            None => accepted(records, policy),
        },
        dropped_count(records.push(fields), policy) == dropped_count(records, policy) + if policy.accepts(
            fields.len(),
        ) {
            0nat
        } else {
            1nat
        },
{
    assert(records.push(fields).drop_last() =~= records);
}

/// One more record written: its line comes last.
proof fn lemma_one_more_line(records: Seq<Seq<Seq<char>>>, fields: Seq<Seq<char>>, delimiter: u8)
    ensures
        serialized(records.push(fields), delimiter) == serialized(records, delimiter) + csv_line(
            fields,
            delimiter,
        ),
{
    assert(records.push(fields).drop_last() =~= records);
}

/// Reads `text` as records under `reader_settings`, applies `policy` to each
/// and appends the lines of the accepted ones to `output`, with
/// `output_delimiter` between fields. Stops at the reader's first failure
/// and returns it; the lines of the records before it are appended all the
/// same. No record fails at writing.
pub fn process(
    text: &[u8],
    reader_settings: &ReaderSettings,
    policy: &FieldCountPolicy,
    output_delimiter: u8,
    output: &mut Vec<u8>,
) -> (res: Result<Tally, SanitizeError>)
    ensures
        final(output)@ == old(output)@ + emitted(text@, *reader_settings, *policy, output_delimiter),
        match first_failure(parsed(text@, *reader_settings)) {
            Some(failure) => res matches Err(e) && e.is_parse_of(failure),
            None => res matches Ok(tally) && tally == tally_of(
                leading_records(parsed(text@, *reader_settings)),
                *policy,
            ),
        },
{
    let mut reader = open_reader(text, reader_settings);
    let mut writer = open_writer(&WriterSettings::for_policy(policy, output_delimiter));
    let mut tally = Tally { written: 0, dropped: 0 };
    let mut failure: Option<SanitizeError> = None;
    let ghost items = parsed(text@, *reader_settings);
    let ghost mut seen: Seq<Seq<Seq<char>>> = Seq::empty();
    proof {
        assert(items.skip(0) =~= items);
    }
    loop
        invariant_except_break
            failure is None,
            pending(reader) == items.skip(seen.len() as int),
        invariant
            seen.len() <= items.len(),
            forall|i: int| 0 <= i < seen.len() ==> (#[trigger] items[i]) is Ok && items[i]->Ok_0 == seen[i],
            written(writer) == serialized(accepted(seen, *policy), output_delimiter),
            writer_flexible(writer) == policy.flexible(),
            writer_delimiter(writer) == output_delimiter,
            policy matches FieldCountPolicy::Exact(width) ==> first_width(writer) is None || first_width(
                writer,
            ) == Some(width as nat),
            tally == tally_of(seen, *policy),
        ensures
            match failure {
                None => seen.len() == items.len(),
                Some(e) => seen.len() < items.len() && items[seen.len() as int] is Err && e.is_parse_of(
                    items[seen.len() as int]->Err_0,
                ),
            },
        decreases pending(reader).len(),
    {
        let item = next_record(&mut reader);
        match item {
            None => {
                break ;
            },
            Some(Err(report)) => {
                proof {
                    assert(items.skip(seen.len() as int).first() == items[seen.len() as int]);
                }
                failure = Some(SanitizeError::Parse(report));
                break ;
            },
            Some(Ok(record)) => {
                let ghost fields = record_fields(record);
                proof {
                    assert(items.skip(seen.len() as int).first() == items[seen.len() as int]);
                    assert(items.skip(seen.len() as int).drop_first() =~= items.skip(seen.len() as int + 1));
                    lemma_one_more(seen, fields, *policy);
                }
                match shape(record, policy) {
                    Some(kept) => {
                        proof {
                            lemma_one_more_line(accepted(seen, *policy), record_fields(kept), output_delimiter);
                        }
                        match write_record(&mut writer, &kept) {
                            Ok(()) => {
                                if tally.written < usize::MAX {
                                    tally.written = tally.written + 1;
                                }
                            },
                            Err(message) => {
                                // Not reached: the writer is flexible, or every
                                // record that gets here has the policy's width.
                                failure = Some(SanitizeError::Write { message });
                                break ;
                            },
                        }
                    },
                    None => {
                        if tally.dropped < usize::MAX {
                            tally.dropped = tally.dropped + 1;
                        }
                    },
                }
                proof {
                    seen = seen.push(fields);
                }
            },
        }
    }
    proof {
        lemma_failure_index(items, seen.len());
        assert(leading_records(items) =~= seen);
    }
    if let Some(mut bytes) = finish(writer) {
        output.append(&mut bytes);
    }
    match failure {
        Some(e) => Err(e),
        None => Ok(tally),
    }
}

/// What a run with these arguments appends to its output: nothing where the
/// input cannot be decoded, else what is emitted for the decoded text.
pub open spec fn run_output(
    input: Seq<u8>,
    policy: FieldCountPolicy,
    config: ParseConfig,
    directive: EncodingDirective,
) -> Seq<u8> {
    match decoded_under(input, directive) {
        Some(text) => emitted(text, config.reader(), policy, config.output_delimiter),
        None => Seq::empty(),
    }
}

/// Whether `res` is the result that a run with these arguments owes: the
/// decode error where the input cannot be decoded, the reader's first
/// failure where it has one, and success in every other case.
pub open spec fn is_run_result(
    res: Result<(), SanitizeError>,
    input: Seq<u8>,
    config: ParseConfig,
    directive: EncodingDirective,
) -> bool {
    match decoded_under(input, directive) {
        None => res matches Err(SanitizeError::Decode),
        Some(text) => match first_failure(parsed(text, config.reader())) {
            Some(failure) => res matches Err(e) && e.is_parse_of(failure),
            None => res is Ok,
        },
    }
}

/// Sanitises `input` and appends the result to `output`.
///
/// The input is decoded (under the encoding that `force_encoding_label`
/// names, or else by its byte order mark, or else as UTF-8), read as
/// records separated by `input_delimiter` with `quote` and `escape` as
/// given, and every record is trimmed and held to `number_of_fields`: with a
/// count, shorter records are dropped and longer ones cut; without one,
/// every record passes. What passes is written with `output_delimiter`, in
/// canonical quoting.
pub fn run(
    input: &[u8],
    output: &mut Vec<u8>,
    number_of_fields: Option<usize>,
    input_delimiter: u8,
    output_delimiter: u8,
    quote: u8,
    escape: u8,
    force_encoding_label: Option<&str>,
) -> (res: Result<(), SanitizeError>)
    ensures
        final(output)@ == old(output)@ + run_output(
            input@,
            FieldCountPolicy::of(number_of_fields),
            (ParseConfig { input_delimiter, output_delimiter, quote, escape }),
            EncodingDirective::of(force_encoding_label),
        ),
        is_run_result(
            res,
            input@,
            (ParseConfig { input_delimiter, output_delimiter, quote, escape }),
            EncodingDirective::of(force_encoding_label),
        ),
{
    let policy = FieldCountPolicy::from_field_count(number_of_fields);
    let config = ParseConfig { input_delimiter, output_delimiter, quote, escape };
    let directive = EncodingDirective::from_label(force_encoding_label);
    let text = match decode(input, &directive) {
        Ok(text) => text,
        Err(e) => {
            assert(final(output)@ =~= old(output)@ + Seq::<u8>::empty());
            return Err(e);
        },
    };
    let reader_settings = config.reader_settings();
    match process(text.as_slice(), &reader_settings, &policy, output_delimiter, output) {
        Ok(_) => Ok(()),
        Err(e) => Err(e),
    }
}

} // verus!
