//! What holds of shaping for every record and every sequence of records,
//! and of decoding under the labels of the Latin-1 family.

use vstd::prelude::*;
use vstd::string::*;
use crate::decode::decoded_under;
use crate::label::{folded, is_latin1_alias};
use crate::policy::{accepted, dropped_count, shaped, FieldCountPolicy};
use crate::settings::EncodingDirective;
use crate::whitespace::{
    is_trimmed,
    lemma_trimmed_fields_idempotent,
    lemma_trimmed_is_middle,
    trimmed,
    trimmed_fields,
};

verus! {

/// Under an exact count, a record with at least that many fields is written
/// with exactly that many: its first fields in their order, each trimmed, and
/// none of the fields behind them.
pub proof fn lemma_exact_keeps_leading_fields(fields: Seq<Seq<char>>, width: usize)
    requires
        fields.len() >= width,
    ensures
        shaped(fields, FieldCountPolicy::Exact(width)) matches Some(kept) && kept.len() == width && forall|
            i: int,
        |
            0 <= i < width ==> #[trigger] kept[i] == trimmed(fields[i]),
{
}

/// Under an exact count, a record with fewer fields is not written.
pub proof fn lemma_exact_drops_short(fields: Seq<Seq<char>>, width: usize)
    requires
        fields.len() < width,
    ensures
        shaped(fields, FieldCountPolicy::Exact(width)) is None,
{
}

/// Without a count, every record is written with all its fields in their
/// order, each trimmed.
pub proof fn lemma_unconstrained_keeps_all_fields(fields: Seq<Seq<char>>)
    ensures
        shaped(fields, FieldCountPolicy::Unconstrained) matches Some(kept) && kept.len() == fields.len()
            && forall|i: int| 0 <= i < fields.len() ==> #[trigger] kept[i] == trimmed(fields[i]),
{
}

/// A record is written exactly where the policy accepts its number of
/// fields.
pub proof fn lemma_written_iff_accepted(fields: Seq<Seq<char>>, policy: FieldCountPolicy)
    ensures
        shaped(fields, policy) is Some <==> policy.accepts(fields.len()),
{
}

/// Every record is either written or dropped: the two counts add up to the
/// number of records read.
pub proof fn lemma_written_plus_dropped(records: Seq<Seq<Seq<char>>>, policy: FieldCountPolicy)
    ensures
        accepted(records, policy).len() + dropped_count(records, policy) == records.len(),
    decreases records.len(),
{
    if records.len() > 0 {
        lemma_written_plus_dropped(records.drop_last(), policy);
    }
}

/// Under an exact count, every record written has exactly that many fields.
pub proof fn lemma_exact_width_of_output(records: Seq<Seq<Seq<char>>>, width: usize)
    ensures
        forall|j: int|
            0 <= j < accepted(records, FieldCountPolicy::Exact(width)).len() ==> (#[trigger] accepted(
                records,
                FieldCountPolicy::Exact(width),
            )[j]).len() == width,
    decreases records.len(),
{
    let policy = FieldCountPolicy::Exact(width);
    if records.len() > 0 {
        let earlier = accepted(records.drop_last(), policy);
        lemma_exact_width_of_output(records.drop_last(), width);
        assert forall|j: int| 0 <= j < accepted(records, policy).len() implies (#[trigger] accepted(
            records,
            policy,
        )[j]).len() == width by {
            if j < earlier.len() {
                assert(accepted(records, policy)[j] == earlier[j]);
            }
        }
    }
}

/// Under an exact count, where every record is shorter, nothing is written
/// and every record counts as dropped.
pub proof fn lemma_exact_drops_all_short(records: Seq<Seq<Seq<char>>>, width: usize)
    requires
        forall|i: int| 0 <= i < records.len() ==> (#[trigger] records[i]).len() < width,
    ensures
        accepted(records, FieldCountPolicy::Exact(width)).len() == 0,
        dropped_count(records, FieldCountPolicy::Exact(width)) == records.len(),
    decreases records.len(),
{
    if records.len() > 0 {
        let earlier = records.drop_last();
        assert forall|i: int| 0 <= i < earlier.len() implies (#[trigger] earlier[i]).len() < width by {
            assert(earlier[i] == records[i]);
        }
        lemma_exact_drops_all_short(earlier, width);
    }
}

/// Where the policy accepts every record, as many records are written as
/// were read, and the record written at each place is the record read at
/// that place, shaped.
pub proof fn lemma_all_accepted_keeps_places(records: Seq<Seq<Seq<char>>>, policy: FieldCountPolicy)
    requires
        forall|i: int| 0 <= i < records.len() ==> policy.accepts((#[trigger] records[i]).len()),
    ensures
        accepted(records, policy).len() == records.len(),
        dropped_count(records, policy) == 0,
        forall|i: int|
            0 <= i < records.len() ==> shaped(records[i], policy) == Some(
                #[trigger] accepted(records, policy)[i],
            ),
    decreases records.len(),
{
    if records.len() > 0 {
        let earlier = records.drop_last();
        assert forall|i: int| 0 <= i < earlier.len() implies policy.accepts((#[trigger] earlier[i]).len()) by {
            assert(earlier[i] == records[i]);
        }
        lemma_all_accepted_keeps_places(earlier, policy);
        assert(policy.accepts(records.last().len()));
        assert forall|i: int| 0 <= i < records.len() implies shaped(records[i], policy) == Some(
            #[trigger] accepted(records, policy)[i],
        ) by {
            if i < earlier.len() {
                assert(earlier[i] == records[i]);
                assert(accepted(records, policy)[i] == accepted(earlier, policy)[i]);
            }
        }
    }
}

/// Without a count, as many records are written as were read, and each has
/// the fields of the record read at its place, in their order, trimmed.
pub proof fn lemma_unconstrained_keeps_every_record(records: Seq<Seq<Seq<char>>>)
    ensures
        accepted(records, FieldCountPolicy::Unconstrained).len() == records.len(),
        forall|i: int|
            0 <= i < records.len() ==> #[trigger] accepted(records, FieldCountPolicy::Unconstrained)[i]
                == trimmed_fields(records[i]),
        forall|i: int|
            0 <= i < records.len() ==> (#[trigger] accepted(
                records,
                FieldCountPolicy::Unconstrained,
            )[i]).len() == records[i].len(),
{
    lemma_all_accepted_keeps_places(records, FieldCountPolicy::Unconstrained);
}

/// What is written for two stretches of records read one after the other is
/// what is written for the first followed by what is written for the second:
/// no record changes its place among the others.
pub proof fn lemma_accepted_in_order(
    first: Seq<Seq<Seq<char>>>,
    second: Seq<Seq<Seq<char>>>,
    policy: FieldCountPolicy,
)
    ensures
        accepted(first + second, policy) == accepted(first, policy) + accepted(second, policy),
    decreases second.len(),
{
    if second.len() == 0 {
        assert(first + second =~= first);
        assert(accepted(first, policy) + accepted(second, policy) =~= accepted(first, policy));
    } else {
        assert((first + second).drop_last() =~= first + second.drop_last());
        assert((first + second).last() == second.last());
        lemma_accepted_in_order(first, second.drop_last(), policy);
        match shaped(second.last(), policy) {
            Some(kept) => {
                assert((accepted(first, policy) + accepted(second.drop_last(), policy)).push(kept)
                    =~= accepted(first, policy) + accepted(second.drop_last(), policy).push(kept));
            },
            None => {},
        }
    }
}

/// Every field that is written neither starts nor ends with white space,
/// and is what stood between the white space at the two ends of the field
/// read.
pub proof fn lemma_written_fields_are_trimmed(fields: Seq<Seq<char>>, policy: FieldCountPolicy)
    ensures
        shaped(fields, policy) matches Some(kept) ==> kept.len() <= fields.len() && forall|i: int|
            0 <= i < kept.len() ==> is_trimmed(#[trigger] kept[i]) && kept[i] == trimmed(fields[i]),
{
    match shaped(fields, policy) {
        Some(kept) => {
            assert forall|i: int| 0 <= i < kept.len() implies is_trimmed(#[trigger] kept[i]) && kept[i]
                == trimmed(fields[i]) by {
                lemma_trimmed_is_middle(fields[i]);
            }
        },
        None => {},
    }
}

/// White space at the ends of fields has no part in whether a record is
/// written or dropped, nor in what is written for it.
pub proof fn lemma_white_space_decides_nothing(fields: Seq<Seq<char>>, policy: FieldCountPolicy)
    ensures
        shaped(trimmed_fields(fields), policy) == shaped(fields, policy),
{
    lemma_trimmed_fields_idempotent(fields);
    match policy {
        FieldCountPolicy::Unconstrained => {},
        FieldCountPolicy::Exact(width) => {
            if fields.len() >= width {
                let cut = fields.take(width as int);
                assert(trimmed_fields(fields).take(width as int) =~= trimmed_fields(cut));
                lemma_trimmed_fields_idempotent(cut);
            }
        },
    }
}

/// Shaping what shaping has written changes nothing: the record is written
/// again, as it is.
pub proof fn lemma_shaping_is_idempotent(fields: Seq<Seq<char>>, policy: FieldCountPolicy)
    ensures
        shaped(fields, policy) matches Some(kept) ==> shaped(kept, policy) == Some(kept),
{
    match policy {
        FieldCountPolicy::Unconstrained => {
            lemma_trimmed_fields_idempotent(fields);
        },
        FieldCountPolicy::Exact(width) => {
            if fields.len() >= width {
                let cut = fields.take(width as int);
                let kept = trimmed_fields(cut);
                assert(kept.take(width as int) =~= kept);
                lemma_trimmed_fields_idempotent(cut);
            }
        },
    }
}

/// Shaping the records that a run has written, under the same policy,
/// writes the same records again and drops none.
pub proof fn lemma_accepted_is_idempotent(records: Seq<Seq<Seq<char>>>, policy: FieldCountPolicy)
    ensures
        accepted(accepted(records, policy), policy) == accepted(records, policy),
        dropped_count(accepted(records, policy), policy) == 0,
    decreases records.len(),
{
    if records.len() > 0 {
        let earlier = accepted(records.drop_last(), policy);
        lemma_accepted_is_idempotent(records.drop_last(), policy);
        match shaped(records.last(), policy) {
            Some(kept) => {
                lemma_shaping_is_idempotent(records.last(), policy);
                assert(earlier.push(kept).drop_last() =~= earlier);
            },
            None => {},
        }
    }
}

/// Two labels of the Latin-1 family decode every input alike.
pub proof fn lemma_latin1_family_decodes_alike(input: Seq<u8>, first: &str, second: &str)
    requires
        is_latin1_alias(first),
        is_latin1_alias(second),
    ensures
        decoded_under(input, EncodingDirective::Forced(first)) == decoded_under(
            input,
            EncodingDirective::Forced(second),
        ),
{
}

/// `latin1`, `ISO-8859-1` and `WINDOWS-1252` name the Latin-1 family, and so
/// do the last two with underscores for hyphens.
pub proof fn lemma_latin1_family_names()
    ensures
        is_latin1_alias("latin1"),
        is_latin1_alias("ISO-8859-1"),
        is_latin1_alias("ISO_8859_1"),
        is_latin1_alias("WINDOWS-1252"),
        is_latin1_alias("WINDOWS_1252"),
{
    broadcast use is_ascii_spec_bytes;

    reveal_strlit("latin1");
    reveal_strlit("iso-8859-1");
    reveal_strlit("windows-1252");
    reveal_strlit("ISO-8859-1");
    reveal_strlit("ISO_8859_1");
    reveal_strlit("WINDOWS-1252");
    reveal_strlit("WINDOWS_1252");
    assert(is_ascii("latin1") && is_ascii("iso-8859-1") && is_ascii("windows-1252"));
    assert(is_ascii("ISO-8859-1") && is_ascii("ISO_8859_1"));
    assert(is_ascii("WINDOWS-1252") && is_ascii("WINDOWS_1252"));
    assert(folded("latin1".spec_bytes()) =~= "latin1".spec_bytes());
    assert(folded("ISO-8859-1".spec_bytes()) =~= "iso-8859-1".spec_bytes());
    assert(folded("ISO_8859_1".spec_bytes()) =~= "iso-8859-1".spec_bytes());
    assert(folded("WINDOWS-1252".spec_bytes()) =~= "windows-1252".spec_bytes());
    assert(folded("WINDOWS_1252".spec_bytes()) =~= "windows-1252".spec_bytes());
}

} // verus!
