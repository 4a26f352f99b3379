//! The parts of `dnssec_prover` that resolution relies on.
use vstd::prelude::*;
use dnssec_prover::rr::{Name, RR};
use dnssec_prover::validation::{ValidationError, VerifiedRRStream};

verus! {

#[verifier::external_type_specification]
#[verifier::external_body]
pub struct ExName(Name);

#[verifier::external_type_specification]
#[verifier::external_body]
pub struct ExRR(RR);

#[verifier::external_type_specification]
#[verifier::external_body]
pub struct ExValidationError(ValidationError);

/// Declared with its fields, which are all public: resolution reads
/// `valid_from` and `expires` directly.
#[verifier::external_type_specification]
pub struct ExVerifiedRRStream<'a>(VerifiedRRStream<'a>);

/// Whether `dnssec_prover::ser::parse_rr_stream` accepts the bytes as a
/// stream of resource records; it depends on the bytes alone.
pub uninterp spec fn proof_parses(bytes: Seq<u8>) -> bool;

/// The records that `dnssec_prover::ser::parse_rr_stream` reads from the
/// bytes, in order; they depend on the bytes alone.
pub uninterp spec fn parsed_records(bytes: Seq<u8>) -> Seq<RR>;

/// Whether `dnssec_prover::validation::verify_rr_stream` accepts the signature
/// chain of the records; it depends on the records alone, as the root trust
/// anchors are built in and no clock is read.
pub uninterp spec fn chain_verifies(rrs: Seq<RR>) -> bool;

/// Relies on `dnssec_prover::ser::parse_rr_stream`: it reads records until the
/// input is used up, and fails exactly when the bytes are not such a stream.
pub assume_specification[ dnssec_prover::ser::parse_rr_stream ](inp: &[u8]) -> (r: Result<Vec<RR>, ()>)
    ensures
        r is Ok <==> proof_parses(inp@),
        r matches Ok(v) ==> v@ == parsed_records(inp@),
;

/// Relies on `dnssec_prover::validation::verify_rr_stream` to check the
/// signature chain from the root trust anchor. It refuses a chain whose
/// latest inception is not before its earliest expiry, so on success
/// `valid_from < expires`.
pub assume_specification<'a>[ dnssec_prover::validation::verify_rr_stream ](inp: &'a [RR]) -> (r: Result<VerifiedRRStream<'a>, ValidationError>)
    ensures
        r is Ok <==> chain_verifies(inp@),
        r matches Ok(v) ==> v.valid_from < v.expires,
;

/// Relies on `VerifiedRRStream::resolve_name` for the verified records that
/// answer for a name, aliases followed.
pub assume_specification<'a, 'b>[ VerifiedRRStream::<'a>::resolve_name ](s: &VerifiedRRStream<'a>, name_param: &'b Name) -> Vec<&'a RR>
    where
        'a: 'b,
;

/// Relies on `TxtBytes::as_vec` for the payload of a TXT record, and on the
/// variants of `RR` to tell TXT records from the rest.
#[verifier::external_body]
pub(crate) fn txt_payload(rr: &RR) -> (r: Option<Vec<u8>>) {
    match rr {
        RR::Txt(txt) => Some(txt.data.as_vec()),
        _ => None,
    }
}

} // verus!
