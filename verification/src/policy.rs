//! The rule that reconciles the field counts of ragged records.
//!
//! A record is either accepted, and then written with every field trimmed,
//! or dropped without an error. Nothing else can happen to it.

use vstd::prelude::*;
use crate::whitespace::trimmed_fields;

verus! {

/// How many fields a record must have to be written.
#[derive(Clone, Copy, Debug, PartialEq, Eq, Structural)]
pub enum FieldCountPolicy {
    /// Every record is written with the fields it has.
    Unconstrained,
    /// A record with fewer fields is dropped; any other is cut down to
    /// exactly this many.
    Exact(usize),
}

impl FieldCountPolicy {
    /// The policy that an optional field count stands for.
    pub open spec fn of(field_count: Option<usize>) -> FieldCountPolicy {
        match field_count {
            Some(n) => FieldCountPolicy::Exact(n),
            None => FieldCountPolicy::Unconstrained,
        }
    }

    /// Whether a record of `width` fields is written.
    pub open spec fn accepts(self, width: nat) -> bool {
        match self {
            FieldCountPolicy::Unconstrained => true,
            FieldCountPolicy::Exact(n) => width >= n,
        }
    }

    /// Whether written records may differ in width.
    pub open spec fn flexible(self) -> bool {
        self is Unconstrained
    }

    /// Resolves an optional field count: absent means unconstrained.
    pub fn from_field_count(field_count: Option<usize>) -> (policy: FieldCountPolicy)
        ensures
            policy == FieldCountPolicy::of(field_count),
    {
        match field_count {
            Some(n) => FieldCountPolicy::Exact(n),
            None => FieldCountPolicy::Unconstrained,
        }
    }

    /// Whether the output is written in flexible mode, that is without a
    /// fixed width.
    pub fn is_flexible(&self) -> (yes: bool)
        ensures
            yes == self.flexible(),
    {
        match self {
            FieldCountPolicy::Unconstrained => true,
            FieldCountPolicy::Exact(_) => false,
        }
    }
}

/// What is written for a record with these fields: nothing where the policy
/// drops it, else its first fields up to the policy's width, each trimmed.
pub open spec fn shaped(fields: Seq<Seq<char>>, policy: FieldCountPolicy) -> Option<Seq<Seq<char>>> {
    match policy {
        FieldCountPolicy::Unconstrained => Some(trimmed_fields(fields)),
        FieldCountPolicy::Exact(n) => if fields.len() >= n {
            Some(trimmed_fields(fields.take(n as int)))
        } else {
            None
        },
    }
}

/// The records that are written for `records`, in their order.
pub open spec fn accepted(records: Seq<Seq<Seq<char>>>, policy: FieldCountPolicy) -> Seq<Seq<Seq<char>>>
    decreases records.len(),
{
    if records.len() == 0 {
        Seq::empty()
    } else {
        let earlier = accepted(records.drop_last(), policy);
        match shaped(records.last(), policy) {
            Some(fields) => earlier.push(fields),
            None => earlier,
        }
    }
}

/// How many of `records` the policy drops.
pub open spec fn dropped_count(records: Seq<Seq<Seq<char>>>, policy: FieldCountPolicy) -> nat
    decreases records.len(),
{
    if records.len() == 0 {
        0
    } else {
        let earlier = dropped_count(records.drop_last(), policy);
        if policy.accepts(records.last().len()) {
            earlier
        } else {
            earlier + 1
        }
    }
}

} // verus!
