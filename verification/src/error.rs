//! Error taxonomy of the crate.
//!
//! Failures of outside services are carried as plain strings so that the
//! verified core stays independent of the transport that produced them.
use vstd::prelude::*;

verus! {

/// Everything that can go wrong while loading rows, enriching them, checking
/// the knowledge base, or rendering the command batch.
#[derive(Debug)]
pub enum CrateError {
    /// The input rows could not be parsed.
    CsvError(String),
    /// Reading or writing a file failed.
    IoError(String),
    /// A required CSV header is absent; the payload is a full explanation.
    MissingHeader(String),
    /// A required cell is empty.
    MissingValue { column: String, row: usize },
    /// A value does not match the format the knowledge base demands.
    InvalidFormat { column: String, value: String, message: String },
    /// A request to an outside service failed in transport.
    ApiRequestError(String),
    /// An outside service answered with an error status.
    ApiStatusError { status: u16, smiles: String },
    /// An outside service's JSON payload could not be decoded.
    ApiJsonDecodeError(String),
    /// An outside service's payload had an unexpected shape.
    ApiResponseParseError(String),
    /// The enrichment service did not hand back a needed descriptor.
    MissingDescriptor { descriptor: String, smiles: String },
    /// The structure string could not be sanitized.
    SmilesSanitizationFailed { input_smiles: String, reason: String },
    /// A query to the knowledge base failed in transport.
    SparqlQueryError(String),
    /// The knowledge base's JSON payload could not be decoded.
    SparqlJsonDecodeError(String),
    /// The knowledge base's payload could not be interpreted.
    SparqlResponseParseError(String),
    /// The knowledge base's payload had an unexpected shape.
    SparqlResponseFormatError(String),
    /// Rendering the command batch failed.
    QuickStatementError(String),
}

pub type CrateResult<T> = Result<T, CrateError>;

} // verus!
