//! Error taxonomy shared by the decoder, the size estimator and the
//! address deriver.

use vstd::prelude::*;

verus! {

/// Errors reported by the transaction size estimator and the solend-side
/// record decoders.
#[derive(Debug, Clone, PartialEq, Eq, Structural)]
pub enum SolendError {
    TransactionTooLarge,
    ConversionWouldOverflow,
    FailedToParse,
    UnknownError,
}

/// Errors reported by the kamino-side record decoder and the obligation
/// address deriver.
#[derive(Debug, Clone, PartialEq, Eq, Structural)]
pub enum KaminoError {
    InvalidObligationType,
    FailedToFetch,
    FailedToParse,
    ConversionWouldOverflow,
    InvalidProgramData,
    UnknownError,
    Invalid,
}

/// Classified failure kinds of the unified account decoder.
#[derive(Debug, Clone, PartialEq, Eq, Structural)]
pub enum DecodeError {
    /// The raw bytes are shorter than the schema's expected size.
    InsufficientData,
    /// The bytes are long enough but no decode strategy succeeds.
    SchemaMismatch,
    /// The reported account owner differs from the expected program.
    OwnershipMismatch,
    /// An intermediate count exceeds the representable range.
    SizeOverflow,
    /// A derivation seed is malformed or oversized.
    InvalidSeed,
}

impl SolendError {
    /// A human-readable description of the error.
    pub fn message(&self) -> (r: String)
        ensures
            r@ == match self {
                SolendError::TransactionTooLarge => "Transaction is too large to process!"@,
                SolendError::ConversionWouldOverflow => "This attempted conversion would overflow!"@,
                SolendError::FailedToParse => "Could not parse the given data"@,
                SolendError::UnknownError => "Unknown Error occured."@,
            },
    {
        match self {
            SolendError::TransactionTooLarge => "Transaction is too large to process!".to_string(),
            SolendError::ConversionWouldOverflow => {
                "This attempted conversion would overflow!".to_string()
            },
            SolendError::FailedToParse => "Could not parse the given data".to_string(),
            SolendError::UnknownError => "Unknown Error occured.".to_string(),
        }
    }
}

impl KaminoError {
    /// A human-readable description of the error.
    pub fn message(&self) -> (r: String)
        ensures
            r@ == match self {
                KaminoError::InvalidObligationType => "Invalid obligation type passed"@,
                KaminoError::FailedToFetch => "Failed to fetch!"@,
                KaminoError::FailedToParse => "Failed to parse account data"@,
                KaminoError::ConversionWouldOverflow => "Could not convert number without overflow!"@,
                KaminoError::Invalid => "Tried to pass invalid data"@,
                KaminoError::InvalidProgramData => "an Unknown Error occured"@,
                KaminoError::UnknownError => "an Unknown Error occured"@,
            },
    {
        match self {
            KaminoError::InvalidObligationType => "Invalid obligation type passed".to_string(),
            KaminoError::FailedToFetch => "Failed to fetch!".to_string(),
            KaminoError::FailedToParse => "Failed to parse account data".to_string(),
            KaminoError::ConversionWouldOverflow => {
                "Could not convert number without overflow!".to_string()
            },
            KaminoError::Invalid => "Tried to pass invalid data".to_string(),
            KaminoError::InvalidProgramData => "an Unknown Error occured".to_string(),
            KaminoError::UnknownError => "an Unknown Error occured".to_string(),
        }
    }
}

} // verus!
