//! The ways in which a resolution can fail.
use vstd::prelude::*;

verus! {

/// Why a proof did not yield a payment instruction. Each kind stands for a
/// distinct trust violation or environmental defect.
#[derive(Clone, Copy, Debug, PartialEq, Eq, Structural)]
pub enum ResolveError {
    /// The proof bytes are not a well-formed record stream.
    MalformedProof,
    /// A signature in the chain failed to validate.
    InvalidSignatures,
    /// The system clock reads a time before the UNIX epoch.
    ClockError,
    /// The current time precedes the proof's validity window.
    NotYetValid,
    /// The current time follows the proof's validity window.
    Expired,
    /// More than one qualifying TXT record exists for the name.
    MultipleRecords,
    /// No qualifying TXT record exists for the name.
    NoMatchingRecord,
    /// The qualifying record's payload is not valid UTF-8.
    InvalidEncoding,
}

/// The description of each kind of failure.
pub open spec fn error_message(e: ResolveError) -> Seq<char> {
    match e {
        ResolveError::MalformedProof => "DNS Proof Builder somehow generated an invalid proof"@,
        ResolveError::InvalidSignatures => "DNSSEC signatures were invalid"@,
        ResolveError::ClockError => "DNSSEC validation relies on having a correct system clock. It is currently set before 1970."@,
        ResolveError::NotYetValid => "Some DNSSEC records are not yet valid. Check your system clock."@,
        ResolveError::Expired => "Some DNSSEC records are expired. Check your system clock."@,
        ResolveError::MultipleRecords => "Multiple TXT records existed for the HRN, which is invalid"@,
        ResolveError::NoMatchingRecord => "No validated TXT record found"@,
        ResolveError::InvalidEncoding => "TXT record contained an invalid string"@,
    }
}

impl ResolveError {
    /// A human-readable description of the failure.
    pub fn message(&self) -> (r: &'static str)
        ensures
            r@ == error_message(*self),
    {
        match self {
            ResolveError::MalformedProof => "DNS Proof Builder somehow generated an invalid proof",
            ResolveError::InvalidSignatures => "DNSSEC signatures were invalid",
            ResolveError::ClockError => "DNSSEC validation relies on having a correct system clock. It is currently set before 1970.",
            ResolveError::NotYetValid => "Some DNSSEC records are not yet valid. Check your system clock.",
            ResolveError::Expired => "Some DNSSEC records are expired. Check your system clock.",
            ResolveError::MultipleRecords => "Multiple TXT records existed for the HRN, which is invalid",
            ResolveError::NoMatchingRecord => "No validated TXT record found",
            ResolveError::InvalidEncoding => "TXT record contained an invalid string",
        }
    }
}

} // verus!
