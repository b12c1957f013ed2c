//! The ways in which a request to the pipeline can fail.

use vstd::prelude::*;
use vstd::string::*;

verus! {

/// The structured-text format that a decoder reads.
#[derive(Clone, Copy, Debug, PartialEq, Eq, Structural)]
pub enum Format {
    Json,
    Yaml,
}

/// Where and in which format a decoding failed. Line and column count from one;
/// both are zero where the decoder gave no position.
#[derive(Clone, Copy, Debug, PartialEq, Eq, Structural)]
pub struct DecodeError {
    pub format: Format,
    pub line: usize,
    pub column: usize,
}

/// Why a request failed.
#[derive(Clone, Copy, Debug, PartialEq, Eq, Structural)]
pub enum TaekoError {
    /// The named input was never set.
    NotFound,
    /// The path does not name a markdown source.
    InvalidPath,
    /// The kind of query was not registered before its first use.
    UnregisteredQuery,
    /// The input could not be decoded.
    Decode(DecodeError),
    /// A query was asked for while its own evaluation was under way.
    CycleDetected,
}

/// What an error says in words.
pub open spec fn error_text(e: TaekoError) -> Seq<char> {
    match e {
        TaekoError::NotFound => "the input was never set"@,
        TaekoError::InvalidPath => "the path does not name a markdown source"@,
        TaekoError::UnregisteredQuery => "the kind of query is not registered"@,
        TaekoError::Decode(d) => match d.format {
            Format::Json => "the text is not the JSON that was asked for"@,
            Format::Yaml => "the text is not the YAML that was asked for"@,
        },
        TaekoError::CycleDetected => "the query depends on itself"@,
    }
}

/// What a failed query is reported as: its kind, its path and the error.
pub open spec fn report_text(kind: Seq<char>, path: Seq<char>, e: TaekoError) -> Seq<char> {
    kind + " of "@ + path + ": "@ + error_text(e)
}

impl TaekoError {
    /// The error in words.
    pub fn message(&self) -> (r: &'static str)
        ensures
            r@ == error_text(*self),
    {
        match self {
            TaekoError::NotFound => "the input was never set",
            TaekoError::InvalidPath => "the path does not name a markdown source",
            TaekoError::UnregisteredQuery => "the kind of query is not registered",
            TaekoError::Decode(d) => match d.format {
                Format::Json => "the text is not the JSON that was asked for",
                Format::Yaml => "the text is not the YAML that was asked for",
            },
            TaekoError::CycleDetected => "the query depends on itself",
        }
    }
}

/// Reports a failed query with its kind and its path.
pub fn report(kind: &str, path: &str, e: &TaekoError) -> (r: String)
    ensures
        r@ == report_text(kind@, path@, *e),
{
    let mut r = String::from_str(kind);
    r.append(" of ");
    r.append(path);
    r.append(": ");
    r.append(e.message());
    r
}

} // verus!
