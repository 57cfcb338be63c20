//! Labels of encodings, and the names of the Latin-1 family among them.
//!
//! A label of the family is one that reads as `latin1`, `iso-8859-1` or
//! `windows-1252` once upper case is taken for lower case and an underscore
//! for a hyphen. All of them stand for the one single-byte encoding
//! `windows-1252`. Any other label is left to the decoder as it was given.

use vstd::prelude::*;
use vstd::string::*;

verus! {

/// `byte` with an ASCII capital made small and an underscore made a hyphen.
pub open spec fn folded_byte(byte: u8) -> u8 {
    if 0x41 <= byte <= 0x5A {
        (byte + 0x20) as u8
    } else if byte == 0x5F {
        0x2D
    } else {
        byte
    }
}

/// `label` with every byte folded.
pub open spec fn folded(label: Seq<u8>) -> Seq<u8> {
    Seq::new(label.len(), |i: int| folded_byte(label[i]))
}

/// Whether `label` names the Latin-1 family.
pub open spec fn is_latin1_alias(label: &str) -> bool {
    let name = folded(label.spec_bytes());
    ||| name == "latin1".spec_bytes()
    ||| name == "iso-8859-1".spec_bytes()
    ||| name == "windows-1252".spec_bytes()
}

/// The label that the decoder is asked for in place of `label`.
pub open spec fn canonical<'a>(label: &'a str) -> &'a str {
    if is_latin1_alias(label) {
        "windows-1252"
    } else {
        label
    }
}

fn fold_byte(byte: u8) -> (small: u8)
    ensures
        small == folded_byte(byte),
{
    if 0x41 <= byte && byte <= 0x5A {
        byte + 0x20
    } else if byte == 0x5F {
        0x2D
    } else {
        byte
    }
}

/// Whether `label`, folded, is `name`.
fn reads_as(label: &[u8], name: &[u8]) -> (yes: bool)
    ensures
        yes == (folded(label@) == name@),
{
    if label.len() != name.len() {
        return false;
    }
    let mut i: usize = 0;
    while i < label.len()
        invariant
            i <= label.len(),
            label.len() == name.len(),
            forall|j: int| 0 <= j < i ==> folded_byte(#[trigger] label[j]) == name[j],
        decreases label.len() - i,
    {
        if fold_byte(label[i]) != name[i] {
            assert(folded(label@)[i as int] != name@[i as int]);
            return false;
        }
        i = i + 1;
    }
    assert(folded(label@) =~= name@);
    true
}

/// Says whether `label` names the Latin-1 family.
pub fn is_latin1_family(label: &str) -> (yes: bool)
    ensures
        yes == is_latin1_alias(label),
{
    let bytes = label.as_bytes();
    reads_as(bytes, "latin1".as_bytes()) || reads_as(bytes, "iso-8859-1".as_bytes()) || reads_as(
        bytes,
        "windows-1252".as_bytes(),
    )
}

/// Replaces a label of the Latin-1 family by `windows-1252`, and keeps any
/// other.
pub fn canonical_label<'a>(label: &'a str) -> (known: &'a str)
    ensures
        known == canonical(label),
{
    if is_latin1_family(label) {
        "windows-1252"
    } else {
        label
    }
}

} // verus!
