//! From bytes in some encoding to text in UTF-8.

use vstd::prelude::*;
use crate::error::SanitizeError;
use crate::settings::{DecodeSettings, EncodingDirective};

verus! {

/// The bytes that the transcoding reader of `encoding_rs_io` yields for
/// `input` up to its end, with the encoding that `encoding_rs` knows under
/// `label`; nothing where the reader reports an error.
pub uninterp spec fn decoded(
    input: Seq<u8>,
    bom_sniffing: bool,
    strip_bom: bool,
    label: Option<Seq<char>>,
) -> Option<Seq<u8>>;

/// Reads `input` to its end through an
/// `encoding_rs_io::DecodeReaderBytes`, built with the given knobs and with
/// the encoding that `encoding_rs::Encoding::for_label` finds for the label.
/// The result is given the name `decoded`; nothing more is claimed of it.
#[verifier::external_body]
fn transcode(input: &[u8], settings: &DecodeSettings) -> (text: Option<Vec<u8>>)
    ensures
        match decoded(input@, settings.bom_sniffing, settings.strip_bom, settings.label_chars()) {
            Some(bytes) => text matches Some(found) && found@ == bytes,
            None => text is None,
        },
{
    let encoding = match settings.encoding_label {
        Some(label) => encoding_rs::Encoding::for_label(label.as_bytes()),
        None => None,
    };
    let mut builder = encoding_rs_io::DecodeReaderBytesBuilder::new();
    builder.bom_sniffing(settings.bom_sniffing).strip_bom(settings.strip_bom).encoding(encoding);
    let mut text = Vec::new();
    match std::io::Read::read_to_end(&mut builder.build(input), &mut text) {
        Ok(_) => Some(text),
        Err(_) => None,
    }
}

/// The text that `input` stands for under `directive`, as UTF-8 where the
/// encoding maps every byte; bytes that the encoding cannot map are dealt
/// with by the transcoding reader.
pub open spec fn decoded_under(input: Seq<u8>, directive: EncodingDirective) -> Option<Seq<u8>> {
    let settings = directive.settings();
    decoded(input, settings.bom_sniffing, settings.strip_bom, settings.label_chars())
}

/// Decodes `input` under `directive`.
pub fn decode(input: &[u8], directive: &EncodingDirective) -> (res: Result<Vec<u8>, SanitizeError>)
    ensures
        match decoded_under(input@, *directive) {
            Some(bytes) => res matches Ok(text) && text@ == bytes,
            None => res matches Err(SanitizeError::Decode),
        },
{
    let settings = directive.decode_settings();
    match transcode(input, &settings) {
        Some(text) => Ok(text),
        None => Err(SanitizeError::Decode),
    }
}

} // verus!
