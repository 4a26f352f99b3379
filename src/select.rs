//! Selection of the single TXT record that states a payment URI.
use vstd::prelude::*;
use crate::error::ResolveError;
use crate::prefix::{has_bitcoin_prefix, starts_with_bitcoin};

verus! {

/// A resource record as the selection sees it: the payload of a TXT record,
/// or a record of another kind.
#[derive(Clone, Debug, PartialEq, Eq)]
pub enum Record {
    /// A TXT record with its raw payload bytes.
    Txt(Vec<u8>),
    /// Any record that is not a TXT record.
    Other,
}

impl View for Record {
    type V = Option<Seq<u8>>;

    open spec fn view(&self) -> Option<Seq<u8>> {
        match self {
            Record::Txt(bytes) => Some(bytes@),
            Record::Other => None,
        }
    }
}

/// The views of a sequence of records, in order.
pub open spec fn record_views(records: Seq<Record>) -> Seq<Option<Seq<u8>>> {
    records.map_values(|r: Record| r@)
}

/// The TXT payloads among `records` that start with `bitcoin:`, in order.
pub open spec fn qualifying(records: Seq<Option<Seq<u8>>>) -> Seq<Seq<u8>>
    decreases records.len(),
{
    if records.len() == 0 {
        seq![]
    } else {
        let rest = qualifying(records.drop_last());
        match records.last() {
            Some(p) => if starts_with_bitcoin(p) {
                rest.push(p)
            } else {
                rest
            },
            None => rest,
        }
    }
}

/// The payload that the selection yields: the one qualifying payload, or
/// the failure when there is none or more than one.
pub open spec fn selection(records: Seq<Option<Seq<u8>>>) -> Result<Seq<u8>, ResolveError> {
    let q = qualifying(records);
    if q.len() == 0 {
        Err(ResolveError::NoMatchingRecord)
    } else if q.len() == 1 {
        Ok(q[0])
    } else {
        Err(ResolveError::MultipleRecords)
    }
}

/// A longer prefix of the records never has fewer qualifying payloads.
proof fn lemma_qualifying_grows(records: Seq<Option<Seq<u8>>>, i: int, j: int)
    requires
        0 <= i <= j <= records.len(),
    ensures
        qualifying(records.take(i)).len() <= qualifying(records.take(j)).len(),
    decreases j - i,
{
    if i < j {
        lemma_qualifying_grows(records, i, j - 1);
        assert(records.take(j).drop_last() =~= records.take(j - 1));
    }
}

/// Picks the payload of the single TXT record that starts with `bitcoin:`.
/// A second such record is an error, never resolved by order.
pub fn select_payment_record(records: &Vec<Record>) -> (r: Result<Vec<u8>, ResolveError>)
    ensures
        match r {
            Ok(p) => selection(record_views(records@)) == Ok::<Seq<u8>, ResolveError>(p@),
            Err(e) => selection(record_views(records@)) == Err::<Seq<u8>, ResolveError>(e),
        },
{
    let ghost views = record_views(records@);
    let mut found: Option<Vec<u8>> = None;
    let mut i: usize = 0;
    while i < records.len()
        invariant
            i <= records@.len(),
            views == record_views(records@),
            match found {
                None => qualifying(views.take(i as int)).len() == 0,
                Some(c) => qualifying(views.take(i as int)).len() == 1
                    && qualifying(views.take(i as int))[0] == c@,
            },
        decreases records@.len() - i,
    {
        assert(views.take(i + 1).drop_last() =~= views.take(i as int));
        assert(views.take(i + 1).last() == records@[i as int]@);
        match &records[i] {
            Record::Txt(bytes) => {
                if has_bitcoin_prefix(bytes.as_slice()) {
                    if found.is_some() {
                        proof {
                            lemma_qualifying_grows(views, i + 1, views.len() as int);
                            assert(views.take(views.len() as int) =~= views);
                        }
                        return Err(ResolveError::MultipleRecords);
                    }
                    found = Some(bytes.clone());
                }
            },
            Record::Other => {},
        }
        i = i + 1;
    }
    assert(views.take(records@.len() as int) =~= views);
    match found {
        Some(c) => Ok(c),
        None => Err(ResolveError::NoMatchingRecord),
    }
}

} // verus!
