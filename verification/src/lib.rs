//! Sanitising of delimited text: decoding, tolerant parsing, reconciling of
//! field counts, and writing in canonical CSV.

pub mod decode;
pub mod error;
pub mod label;
pub mod laws;
pub mod pipeline;
pub mod policy;
pub mod reader;
pub mod record;
pub mod settings;
pub mod whitespace;
pub mod writer;

pub use crate::error::{ParseFailure, SanitizeError};
pub use crate::pipeline::{process, run, Tally};
pub use crate::policy::FieldCountPolicy;
pub use crate::settings::{EncodingDirective, ParseConfig};
