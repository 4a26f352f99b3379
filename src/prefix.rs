//! Recognition of the `bitcoin:` URI scheme at the start of a TXT payload.
use vstd::prelude::*;

verus! {

/// Length of the scheme prefix `bitcoin:`.
pub const PREFIX_LEN: usize = 8;

/// The scheme prefix `bitcoin:` as ASCII bytes, in lower case.
pub open spec fn bitcoin_prefix() -> Seq<u8> {
    seq![98u8, 105u8, 116u8, 99u8, 111u8, 105u8, 110u8, 58u8]
}

/// ASCII lower-casing of one byte: `A`..`Z` (65..=90) move up by 32, other
/// bytes are kept.
pub open spec fn ascii_lower(b: u8) -> u8 {
    if 65 <= b && b <= 90 {
        (b + 32) as u8
    } else {
        b
    }
}

/// Two bytes are equal once ASCII letters are folded to lower case.
pub open spec fn eq_ignore_case(a: u8, b: u8) -> bool {
    ascii_lower(a) == ascii_lower(b)
}

/// `text` starts with `bitcoin:` in any mixture of ASCII case.
pub open spec fn starts_with_bitcoin(text: Seq<u8>) -> bool {
    &&& text.len() >= bitcoin_prefix().len()
    &&& forall|i: int| 0 <= i < bitcoin_prefix().len() ==> eq_ignore_case(#[trigger] text[i], bitcoin_prefix()[i])
}

/// The prefix law: a text shorter than the prefix never matches; a text
/// matches exactly when each of its first eight bytes folds to the byte of
/// `bitcoin:` at that place, so any mixture of ASCII case matches, a differing
/// prefix does not, and what follows the prefix plays no part.
pub proof fn lemma_prefix_law(text: Seq<u8>)
    ensures
        text.len() < PREFIX_LEN ==> !starts_with_bitcoin(text),
        starts_with_bitcoin(text) <==> {
            &&& text.len() >= PREFIX_LEN
            &&& forall|i: int| 0 <= i < PREFIX_LEN ==> #[trigger] ascii_lower(text[i]) == bitcoin_prefix()[i]
        },
        text.len() >= PREFIX_LEN ==> (starts_with_bitcoin(text) <==> starts_with_bitcoin(
            text.take(PREFIX_LEN as int),
        )),
{
    assert(bitcoin_prefix().len() == PREFIX_LEN);
    assert forall|i: int| 0 <= i < PREFIX_LEN implies ascii_lower(#[trigger] bitcoin_prefix()[i])
        == bitcoin_prefix()[i] by {
        assert(0 <= bitcoin_prefix()[i] < 65 || 90 < bitcoin_prefix()[i]);
    }
    if text.len() >= PREFIX_LEN {
        let head = text.take(PREFIX_LEN as int);
        assert(head.len() == PREFIX_LEN);
        if starts_with_bitcoin(text) {
            assert forall|i: int| 0 <= i < PREFIX_LEN implies eq_ignore_case(
                #[trigger] head[i],
                bitcoin_prefix()[i],
            ) by {
                assert(head[i] == text[i]);
            }
        }
        if starts_with_bitcoin(head) {
            assert forall|i: int| 0 <= i < PREFIX_LEN implies eq_ignore_case(
                #[trigger] text[i],
                bitcoin_prefix()[i],
            ) by {
                assert(head[i] == text[i]);
            }
        }
    }
}

fn lower_byte(b: u8) -> (r: u8)
    ensures
        r == ascii_lower(b),
{
    if 65 <= b && b <= 90 {
        b + 32
    } else {
        b
    }
}

fn prefix_byte(i: usize) -> (r: u8)
    requires
        i < PREFIX_LEN,
    ensures
        r == bitcoin_prefix()[i as int],
{
    let bytes: [u8; 8] = [98, 105, 116, 99, 111, 105, 110, 58];
    bytes[i]
}

/// Whether `text` begins with `bitcoin:`, comparing ASCII letters without
/// regard to case.
pub fn has_bitcoin_prefix(text: &[u8]) -> (r: bool)
    ensures
        r == starts_with_bitcoin(text@),
{
    if text.len() < PREFIX_LEN {
        return false;
    }
    let mut i: usize = 0;
    while i < PREFIX_LEN
        invariant
            text@.len() >= PREFIX_LEN,
            i <= PREFIX_LEN,
            forall|j: int| 0 <= j < i ==> eq_ignore_case(#[trigger] text@[j], bitcoin_prefix()[j]),
        decreases PREFIX_LEN - i,
    {
        if lower_byte(text[i]) != lower_byte(prefix_byte(i)) {
            return false;
        }
        i = i + 1;
    }
    true
}

} // verus!
