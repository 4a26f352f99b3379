use dnssec_hrn::resolve::{check_validity_window, decode_payload};
use dnssec_hrn::select::select_payment_record;
use dnssec_hrn::{resolve_verified, HrnResolution, Record, ResolveError};

const PROOF: &[u8] = b"proof bytes";

fn txt(s: &[u8]) -> Record {
    Record::Txt(s.to_vec())
}

fn resolve(now: Option<u64>, valid_from: u64, expires: u64, records: &Vec<Record>) -> Result<HrnResolution, ResolveError> {
    resolve_verified(PROOF.to_vec(), now, valid_from, expires, records)
}

fn success(text: &str) -> Result<HrnResolution, ResolveError> {
    Ok(HrnResolution::DNSSEC { proof: Some(PROOF.to_vec()), result: text.to_string() })
}

#[test]
fn single_bitcoin_record_resolves() {
    let records = vec![txt(b"bitcoin:bc1qexample")];
    assert_eq!(resolve(Some(1500), 1000, 2000, &records), success("bitcoin:bc1qexample"));
}

#[test]
fn other_records_are_ignored() {
    let records = vec![Record::Other, txt(b"lightning:xyz"), txt(b"BITCOIN:bc1q"), Record::Other];
    assert_eq!(resolve(Some(1500), 1000, 2000, &records), success("BITCOIN:bc1q"));
}

#[test]
fn two_bitcoin_records_are_refused() {
    let records = vec![txt(b"bitcoin:bc1qexample"), txt(b"bitcoin:bc1qother")];
    assert_eq!(resolve(Some(1500), 1000, 2000, &records), Err(ResolveError::MultipleRecords));
}

#[test]
fn second_match_fails_even_when_invalid_utf8() {
    let records = vec![txt(b"bitcoin:ok"), Record::Other, txt(b"bitcoin:\xff")];
    assert_eq!(resolve(Some(1500), 1000, 2000, &records), Err(ResolveError::MultipleRecords));
}

#[test]
fn lightning_only_has_no_match() {
    let records = vec![txt(b"lightning:xyz")];
    assert_eq!(resolve(Some(1500), 1000, 2000, &records), Err(ResolveError::NoMatchingRecord));
}

#[test]
fn empty_records_have_no_match() {
    assert_eq!(resolve(Some(1500), 1000, 2000, &vec![]), Err(ResolveError::NoMatchingRecord));
}

#[test]
fn clock_past_expiry_is_expired() {
    let records = vec![txt(b"bitcoin:bc1qexample")];
    assert_eq!(resolve(Some(2001), 1000, 2000, &records), Err(ResolveError::Expired));
}

#[test]
fn clock_before_window_is_not_yet_valid() {
    let records = vec![txt(b"bitcoin:bc1qexample")];
    assert_eq!(resolve(Some(999), 1000, 2000, &records), Err(ResolveError::NotYetValid));
}

#[test]
fn clock_before_epoch_is_clock_error() {
    let records = vec![txt(b"bitcoin:bc1qexample")];
    assert_eq!(resolve(None, 1000, 2000, &records), Err(ResolveError::ClockError));
}

#[test]
fn window_bounds_are_inclusive() {
    let records = vec![txt(b"bitcoin:x")];
    assert_eq!(resolve(Some(1000), 1000, 2000, &records), success("bitcoin:x"));
    assert_eq!(resolve(Some(2000), 1000, 2000, &records), success("bitcoin:x"));
    assert_eq!(resolve(Some(999), 1000, 2000, &records), Err(ResolveError::NotYetValid));
    assert_eq!(resolve(Some(2001), 1000, 2000, &records), Err(ResolveError::Expired));
    assert_eq!(check_validity_window(0, 0, u64::MAX), Ok(()));
    assert_eq!(check_validity_window(u64::MAX, 0, u64::MAX), Ok(()));
    assert_eq!(check_validity_window(5, 5, 5), Ok(()));
}

#[test]
fn window_errors_come_before_selection() {
    let records = vec![txt(b"bitcoin:a"), txt(b"bitcoin:b")];
    assert_eq!(resolve(Some(1), 1000, 2000, &records), Err(ResolveError::NotYetValid));
    assert_eq!(resolve(None, 1000, 2000, &vec![]), Err(ResolveError::ClockError));
}

#[test]
fn invalid_utf8_payload_is_refused() {
    let records = vec![txt(b"bitcoin:\xc3\x28")];
    assert_eq!(resolve(Some(1500), 1000, 2000, &records), Err(ResolveError::InvalidEncoding));
}

#[test]
fn multibyte_utf8_payload_decodes() {
    let records = vec![txt("bitcoin:caf\u{e9}".as_bytes())];
    assert_eq!(resolve(Some(1500), 1000, 2000, &records), success("bitcoin:caf\u{e9}"));
}

#[test]
fn resolving_twice_gives_the_same_text() {
    let records = vec![Record::Other, txt(b"bitcoin:bc1qexample")];
    let first = resolve(Some(1500), 1000, 2000, &records);
    let second = resolve(Some(1500), 1000, 2000, &records);
    assert_eq!(first, second);
    assert_eq!(first, success("bitcoin:bc1qexample"));
}

#[test]
fn selection_returns_the_payload() {
    let records = vec![Record::Other, txt(b"Bitcoin:abc")];
    assert_eq!(select_payment_record(&records), Ok(b"Bitcoin:abc".to_vec()));
    assert_eq!(select_payment_record(&vec![Record::Other]), Err(ResolveError::NoMatchingRecord));
}

#[test]
fn decoding_turns_bytes_into_text() {
    assert_eq!(decode_payload(b"bitcoin:abc".to_vec()), Ok("bitcoin:abc".to_string()));
    assert_eq!(decode_payload(vec![0xff]), Err(ResolveError::InvalidEncoding));
    assert_eq!(decode_payload(vec![]), Ok(String::new()));
}

#[test]
fn error_messages_are_distinct() {
    let all = [
        ResolveError::MalformedProof,
        ResolveError::InvalidSignatures,
        ResolveError::ClockError,
        ResolveError::NotYetValid,
        ResolveError::Expired,
        ResolveError::MultipleRecords,
        ResolveError::NoMatchingRecord,
        ResolveError::InvalidEncoding,
    ];
    for (i, a) in all.iter().enumerate() {
        for b in all.iter().skip(i + 1) {
            assert_ne!(a.message(), b.message());
        }
    }
    assert_eq!(ResolveError::Expired.message(), "Some DNSSEC records are expired. Check your system clock.");
    assert_eq!(ResolveError::NoMatchingRecord.message(), "No validated TXT record found");
}
