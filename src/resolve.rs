//! Resolution of a verified record set into a payment instruction.
use vstd::prelude::*;
use vstd::utf8::{decode_utf8, valid_utf8};
use dnssec_prover::rr::Name;
use crate::clock::seconds_since_epoch;
use crate::error::ResolveError;
use crate::prover::{chain_verifies, parsed_records, proof_parses, txt_payload};
use crate::select::{Record, record_views, select_payment_record, selection};

verus! {

/// How a name was resolved, with what came out of it.
#[derive(Clone, Debug, PartialEq, Eq)]
pub enum HrnResolution {
    /// Resolved through a DNSSEC proof.
    DNSSEC {
        /// The proof bytes the resolution was read from, kept as given.
        proof: Option<Vec<u8>>,
        /// The payment instruction that the selected TXT record holds.
        result: String,
    },
}

/// The outcome of checking `now` against the window `[valid_from, expires]`,
/// both ends included.
pub open spec fn window_check(now: u64, valid_from: u64, expires: u64) -> Result<(), ResolveError> {
    if now < valid_from {
        Err(ResolveError::NotYetValid)
    } else if now > expires {
        Err(ResolveError::Expired)
    } else {
        Ok(())
    }
}

/// The text that a payload decodes to, or the failure when it is not UTF-8.
pub open spec fn decoding(payload: Seq<u8>) -> Result<Seq<char>, ResolveError> {
    if valid_utf8(payload) {
        Ok(decode_utf8(payload))
    } else {
        Err(ResolveError::InvalidEncoding)
    }
}

/// The text a verified record set resolves to at time `now` (`None` when the
/// clock reads before the epoch), or the first failure met on the way.
pub open spec fn resolution(
    now: Option<u64>,
    valid_from: u64,
    expires: u64,
    records: Seq<Option<Seq<u8>>>,
) -> Result<Seq<char>, ResolveError> {
    match now {
        None => Err(ResolveError::ClockError),
        Some(t) => match window_check(t, valid_from, expires) {
            Err(e) => Err(e),
            Ok(_) => match selection(records) {
                Err(e) => Err(e),
                Ok(p) => decoding(p),
            },
        },
    }
}

/// `r` is the resolution result that `expected` describes: on success it
/// keeps the proof bytes `proof` and holds the expected text; on failure it
/// carries the expected error.
pub open spec fn result_matches(
    r: Result<HrnResolution, ResolveError>,
    proof: Seq<u8>,
    expected: Result<Seq<char>, ResolveError>,
) -> bool {
    match r {
        Ok(HrnResolution::DNSSEC { proof: kept, result }) => {
            &&& kept matches Some(k) && k@ == proof
            &&& expected == Ok::<Seq<char>, ResolveError>(result@)
        },
        Err(e) => expected == Err::<Seq<char>, ResolveError>(e),
    }
}

/// The bytes of an optional byte vector.
pub open spec fn bytes_view(v: Option<Vec<u8>>) -> Option<Seq<u8>> {
    match v {
        Some(b) => Some(b@),
        None => None,
    }
}

/// What a result says, as plain values: the kept proof bytes and the text, or
/// the error.
pub open spec fn outcome(r: Result<HrnResolution, ResolveError>) -> Result<(Option<Seq<u8>>, Seq<char>), ResolveError> {
    match r {
        Ok(HrnResolution::DNSSEC { proof, result }) => Ok((bytes_view(proof), result@)),
        Err(e) => Err(e),
    }
}

/// The window's bounds are inclusive: the clock may read `valid_from` or
/// `expires` itself, while one second before the start or after the end is
/// refused.
pub proof fn lemma_window_bounds_inclusive(valid_from: u64, expires: u64)
    requires
        valid_from <= expires,
    ensures
        window_check(valid_from, valid_from, expires) == Ok::<(), ResolveError>(()),
        window_check(expires, valid_from, expires) == Ok::<(), ResolveError>(()),
        valid_from > 0 ==> window_check((valid_from - 1) as u64, valid_from, expires)
            == Err::<(), ResolveError>(ResolveError::NotYetValid),
        expires < u64::MAX ==> window_check((expires + 1) as u64, valid_from, expires)
            == Err::<(), ResolveError>(ResolveError::Expired),
{
}

/// Resolution is deterministic: two results that each meet the contract of
/// `resolve_verified` for the same proof bytes, clock reading, window and
/// records are the same outcome.
pub proof fn lemma_resolution_deterministic(
    proof: Seq<u8>,
    now: Option<u64>,
    valid_from: u64,
    expires: u64,
    records: Seq<Option<Seq<u8>>>,
    r1: Result<HrnResolution, ResolveError>,
    r2: Result<HrnResolution, ResolveError>,
)
    requires
        result_matches(r1, proof, resolution(now, valid_from, expires, records)),
        result_matches(r2, proof, resolution(now, valid_from, expires, records)),
    ensures
        outcome(r1) == outcome(r2),
{
}

/// Resolving twice is idempotent: when one resolution of a proof succeeds, a
/// second one with the same proof, name and clock reading succeeds too, with
/// the same decoded text.
pub proof fn lemma_resolution_idempotent(
    proof: Seq<u8>,
    now: Option<u64>,
    valid_from: u64,
    expires: u64,
    records: Seq<Option<Seq<u8>>>,
    first: Result<HrnResolution, ResolveError>,
    second: Result<HrnResolution, ResolveError>,
)
    requires
        first is Ok,
        result_matches(first, proof, resolution(now, valid_from, expires, records)),
        result_matches(second, proof, resolution(now, valid_from, expires, records)),
    ensures
        second is Ok,
        first matches Ok(HrnResolution::DNSSEC { result: a, .. }) && second matches Ok(
            HrnResolution::DNSSEC { result: b, .. },
        ) && a@ == b@,
{
}

/// Relies on `String::from_utf8`: it succeeds exactly on valid UTF-8, and the
/// string then holds the characters those bytes encode.
#[verifier::external_body]
fn utf8_string(bytes: Vec<u8>) -> (r: Option<String>)
    ensures
        r is Some <==> valid_utf8(bytes@),
        r matches Some(s) ==> s@ == decode_utf8(bytes@),
{
    String::from_utf8(bytes).ok()
}

/// Checks that `now` lies in `[valid_from, expires]`, both ends included.
pub fn check_validity_window(now: u64, valid_from: u64, expires: u64) -> (r: Result<(), ResolveError>)
    ensures
        r == window_check(now, valid_from, expires),
{
    if now < valid_from {
        return Err(ResolveError::NotYetValid);
    }
    if now > expires {
        return Err(ResolveError::Expired);
    }
    Ok(())
}

/// Decodes a payload as UTF-8 text.
pub fn decode_payload(payload: Vec<u8>) -> (r: Result<String, ResolveError>)
    ensures
        match r {
            Ok(s) => decoding(payload@) == Ok::<Seq<char>, ResolveError>(s@),
            Err(e) => decoding(payload@) == Err::<Seq<char>, ResolveError>(e),
        },
{
    match utf8_string(payload) {
        Some(s) => Ok(s),
        None => Err(ResolveError::InvalidEncoding),
    }
}

/// Resolves the records that a verified proof holds for a name, given the
/// proof's validity window and the time `now` (`None` when the clock reads
/// before the epoch). On success the proof bytes are kept in the result.
pub fn resolve_verified(
    proof: Vec<u8>,
    now: Option<u64>,
    valid_from: u64,
    expires: u64,
    records: &Vec<Record>,
) -> (r: Result<HrnResolution, ResolveError>)
    ensures
        result_matches(r, proof@, resolution(now, valid_from, expires, record_views(records@))),
{
    let t = match now {
        Some(t) => t,
        None => return Err(ResolveError::ClockError),
    };
    check_validity_window(t, valid_from, expires)?;
    let payload = select_payment_record(records)?;
    let result = decode_payload(payload)?;
    Ok(HrnResolution::DNSSEC { proof: Some(proof), result })
}

/// Resolves `dns_name` through a serialized DNSSEC proof: the proof is parsed,
/// its signature chain verified, the validity window checked against the
/// system clock, and the single `bitcoin:` TXT record for the name selected
/// and decoded. On success the proof bytes are kept in the result.
///
/// Whether the bytes parse, and whether the parsed chain verifies, are known
/// by name; the clock and the name lookup are not, so past verification the
/// outcome is the resolution of some record set, with a window that starts
/// before it ends, at some clock reading.
pub fn resolve_proof(dns_name: &Name, proof: Vec<u8>) -> (r: Result<HrnResolution, ResolveError>)
    ensures
        !proof_parses(proof@) <==> r == Err::<HrnResolution, ResolveError>(ResolveError::MalformedProof),
        proof_parses(proof@) ==> (r == Err::<HrnResolution, ResolveError>(ResolveError::InvalidSignatures)
            <==> !chain_verifies(parsed_records(proof@))),
        proof_parses(proof@) && chain_verifies(parsed_records(proof@)) ==> exists|
            now: Option<u64>,
            valid_from: u64,
            expires: u64,
            records: Seq<Option<Seq<u8>>>,
        |
            valid_from < expires && result_matches(
                r,
                proof@,
                #[trigger] resolution(now, valid_from, expires, records),
            ),
{
    let ghost bytes = proof@;
    let rrs = match dnssec_prover::ser::parse_rr_stream(proof.as_slice()) {
        Ok(rrs) => rrs,
        Err(()) => return Err(ResolveError::MalformedProof),
    };
    let verified = match dnssec_prover::validation::verify_rr_stream(rrs.as_slice()) {
        Ok(v) => v,
        Err(_) => return Err(ResolveError::InvalidSignatures),
    };
    let now = seconds_since_epoch();
    let valid_from = verified.valid_from;
    let expires = verified.expires;
    let resolved = verified.resolve_name(dns_name);
    let mut records: Vec<Record> = Vec::new();
    let mut i: usize = 0;
    while i < resolved.len()
        invariant
            i <= resolved@.len(),
        decreases resolved@.len() - i,
    {
        let record = match txt_payload(resolved[i]) {
            Some(payload) => Record::Txt(payload),
            None => Record::Other,
        };
        records.push(record);
        i = i + 1;
    }
    let r = resolve_verified(proof, now, valid_from, expires, &records);
    assert(result_matches(r, bytes, resolution(now, valid_from, expires, record_views(records@))));
    r
}

} // verus!
