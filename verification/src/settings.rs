//! The configuration of a run, resolved once before the first record.
//!
//! The caller supplies four bytes, an optional field count and an optional
//! encoding label. From these the knobs of the decoder, of the reader and of
//! the writer are worked out here, as plain values.

use vstd::prelude::*;
use crate::label::{canonical, canonical_label};
use crate::policy::FieldCountPolicy;

verus! {

/// How the encoding of the input is found.
#[derive(Clone, Copy, Debug)]
pub enum EncodingDirective<'a> {
    /// Look for a byte order mark, and take UTF-8 where there is none.
    Autodetect,
    /// Decode under the encoding that this label names, whatever the input
    /// starts with.
    Forced(&'a str),
}

/// The knobs of the transcoding reader.
#[derive(Clone, Copy, Debug)]
pub struct DecodeSettings<'a> {
    /// Whether a byte order mark selects the encoding.
    pub bom_sniffing: bool,
    /// Whether a byte order mark is left out of the text.
    pub strip_bom: bool,
    /// The label of the encoding to decode under, if one is forced.
    pub encoding_label: Option<&'a str>,
}

/// What the CSV reader trims.
#[derive(Clone, Copy, Debug, PartialEq, Eq, Structural)]
pub enum Trim {
    /// No field at all.
    Nothing,
    /// The header row only.
    Headers,
    /// Every field but those of the header row.
    Fields,
    /// Every field.
    All,
}

/// The knobs of the CSV reader.
#[derive(Clone, Copy, Debug)]
pub struct ReaderSettings {
    /// Whether the first row is kept back as a header.
    pub has_headers: bool,
    /// Whether records may differ in their number of fields.
    pub flexible: bool,
    /// Which fields are trimmed while reading.
    pub trim: Trim,
    /// The byte that separates fields.
    pub delimiter: u8,
    /// The byte that opens and closes a quoted field.
    pub quote: u8,
    /// Whether the quote byte is treated specially at all.
    pub quoting: bool,
    /// Whether two quote bytes in a quoted field stand for one.
    pub double_quote: bool,
    /// The byte that, put before a quote byte in a quoted field, makes it
    /// literal.
    pub escape: Option<u8>,
}

/// The knobs of the CSV writer.
#[derive(Clone, Copy, Debug)]
pub struct WriterSettings {
    /// Whether records may differ in their number of fields.
    pub flexible: bool,
    /// The byte that separates fields.
    pub delimiter: u8,
}

/// The four bytes that govern reading and writing.
#[derive(Clone, Copy, Debug)]
pub struct ParseConfig {
    /// The field separator of the input.
    pub input_delimiter: u8,
    /// The field separator of the output.
    pub output_delimiter: u8,
    /// The quote byte of the input; the null byte switches quoting off.
    pub quote: u8,
    /// The escape byte of the input; equal to the quote byte it stands for
    /// doubled quotes.
    pub escape: u8,
}

impl<'a> EncodingDirective<'a> {
    /// The directive that an optional label stands for.
    pub open spec fn of(label: Option<&'a str>) -> EncodingDirective<'a> {
        match label {
            Some(name) => EncodingDirective::Forced(name),
            None => EncodingDirective::Autodetect,
        }
    }

    /// The decoder's knobs under this directive. A forced encoding switches
    /// sniffing off and strips a byte order mark, and is asked for under its
    /// canonical label; autodetection sniffs and strips only the mark that it
    /// has recognised.
    pub open spec fn settings(self) -> DecodeSettings<'a> {
        match self {
            EncodingDirective::Autodetect => DecodeSettings {
                bom_sniffing: true,
                strip_bom: false,
                encoding_label: None,
            },
            EncodingDirective::Forced(name) => DecodeSettings {
                bom_sniffing: false,
                strip_bom: true,
                encoding_label: Some(canonical(name)),
            },
        }
    }

    /// Resolves an optional label: absent means autodetect.
    pub fn from_label(label: Option<&'a str>) -> (directive: EncodingDirective<'a>)
        ensures
            directive == EncodingDirective::of(label),
    {
        match label {
            Some(name) => EncodingDirective::Forced(name),
            None => EncodingDirective::Autodetect,
        }
    }

    /// Works out the decoder's knobs.
    pub fn decode_settings(&self) -> (settings: DecodeSettings<'a>)
        ensures
            settings == self.settings(),
    {
        match self {
            EncodingDirective::Autodetect => DecodeSettings {
                bom_sniffing: true,
                strip_bom: false,
                encoding_label: None,
            },
            EncodingDirective::Forced(name) => DecodeSettings {
                bom_sniffing: false,
                strip_bom: true,
                encoding_label: Some(canonical_label(*name)),
            },
        }
    }
}

impl<'a> DecodeSettings<'a> {
    /// The forced label as characters.
    pub open spec fn label_chars(self) -> Option<Seq<char>> {
        match self.encoding_label {
            Some(name) => Some(name@),
            None => None,
        }
    }
}

impl ReaderSettings {
    /// The two ways of escaping a quote exclude each other.
    pub open spec fn well_formed(self) -> bool {
        self.double_quote <==> self.escape is None
    }
}

impl WriterSettings {
    /// The writer's knobs under `policy`: a fixed width exactly where the
    /// policy sets one.
    pub open spec fn of(policy: FieldCountPolicy, delimiter: u8) -> WriterSettings {
        WriterSettings { flexible: policy.flexible(), delimiter }
    }

    /// Works out the writer's knobs under `policy`.
    pub fn for_policy(policy: &FieldCountPolicy, delimiter: u8) -> (settings: WriterSettings)
        ensures
            settings == WriterSettings::of(*policy, delimiter),
    {
        WriterSettings { flexible: policy.is_flexible(), delimiter }
    }
}

impl ParseConfig {
    /// The reader's knobs for this configuration: no header row, ragged
    /// records let through, every field trimmed. A null quote byte switches
    /// quoting off. An escape byte equal to the quote byte means doubled
    /// quotes; any other is a prefix, and doubled quotes are off.
    pub open spec fn reader(self) -> ReaderSettings {
        ReaderSettings {
            has_headers: false,
            flexible: true,
            trim: Trim::All,
            delimiter: self.input_delimiter,
            quote: self.quote,
            quoting: self.quote != 0,
            double_quote: self.escape == self.quote,
            escape: if self.escape == self.quote {
                None
            } else {
                Some(self.escape)
            },
        }
    }

    /// Works out the reader's knobs.
    pub fn reader_settings(&self) -> (settings: ReaderSettings)
        ensures
            settings == self.reader(),
            settings.well_formed(),
    {
        let doubled = self.escape == self.quote;
        ReaderSettings {
            has_headers: false,
            flexible: true,
            trim: Trim::All,
            delimiter: self.input_delimiter,
            quote: self.quote,
            quoting: self.quote != 0,
            double_quote: doubled,
            escape: if doubled {
                None
            } else {
                Some(self.escape)
            },
        }
    }
}

} // verus!
