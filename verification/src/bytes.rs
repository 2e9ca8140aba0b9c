//! Byte strings read as big-endian numbers.

use vstd::prelude::*;

verus! {

/// The number that `bytes` spells in base 256, most significant byte first.
pub open spec fn be_value(bytes: Seq<u8>) -> nat
    decreases bytes.len(),
{
    if bytes.len() == 0 {
        0
    } else {
        be_value(bytes.drop_last()) * 256 + bytes.last() as nat
    }
}

/// Where two byte strings of one length first differ, the smaller byte makes the smaller number:
/// byte-wise lexicographic order is numeric order.
pub proof fn lemma_first_difference(a: Seq<u8>, b: Seq<u8>, i: int)
    requires
        a.len() == b.len(),
        0 <= i < a.len(),
        a.take(i) == b.take(i),
        a[i] < b[i],
    ensures
        be_value(a) < be_value(b),
    decreases a.len(),
{
    if i == a.len() - 1 {
        assert(a.drop_last() =~= a.take(i));
        assert(b.drop_last() =~= b.take(i));
    } else {
        assert(a.drop_last().take(i) =~= a.take(i));
        assert(b.drop_last().take(i) =~= b.take(i));
        lemma_first_difference(a.drop_last(), b.drop_last(), i);
    }
}

/// Byte strings of one length that spell the same number are the same.
pub proof fn lemma_be_value_injective(a: Seq<u8>, b: Seq<u8>)
    requires
        a.len() == b.len(),
        be_value(a) == be_value(b),
    ensures
        a == b,
    decreases a.len(),
{
    if a.len() > 0 {
        lemma_be_value_injective(a.drop_last(), b.drop_last());
        assert(a =~= a.drop_last().push(a.last()));
        assert(b =~= b.drop_last().push(b.last()));
    } else {
        assert(a =~= b);
    }
}

/// Appending four bytes to a prefix of `bytes` shifts its value by 32 bits and adds the word that
/// the four bytes spell.
proof fn lemma_be_value_word(bytes: Seq<u8>, at: int)
    requires
        0 <= at,
        at + 4 <= bytes.len(),
    ensures
        be_value(bytes.take(at + 4)) == be_value(bytes.take(at)) * 0x1_0000_0000 + bytes[at]
            * 0x100_0000 + bytes[at + 1] * 0x1_0000 + bytes[at + 2] * 0x100 + bytes[at + 3],
{
    reveal_with_fuel(be_value, 5);
    assert(bytes.take(at + 4).drop_last() =~= bytes.take(at + 3));
    assert(bytes.take(at + 3).drop_last() =~= bytes.take(at + 2));
    assert(bytes.take(at + 2).drop_last() =~= bytes.take(at + 1));
    assert(bytes.take(at + 1).drop_last() =~= bytes.take(at));
}

/// The four bytes of `bytes` from `at` on, as a big-endian word.
fn be_word(bytes: &[u8; 20], at: usize) -> (word: u32)
    requires
        at + 4 <= 20,
    ensures
        word == bytes[at as int] * 0x100_0000 + bytes[at + 1] * 0x1_0000 + bytes[at + 2] * 0x100
            + bytes[at + 3],
{
    bytes[at] as u32 * 0x100_0000 + bytes[at + 1] as u32 * 0x1_0000 + bytes[at + 2] as u32 * 0x100
        + bytes[at + 3] as u32
}

/// A 20-byte string as a number, split into its upper 32 and its lower 128 bits.
pub fn be_parts(bytes: &[u8; 20]) -> (parts: (u32, u128))
    ensures
        parts.0 * 0x1_0000_0000_0000_0000_0000_0000_0000_0000 + parts.1 == be_value(bytes@),
{
    let high: u32 = be_word(bytes, 0);
    let low: u128 = be_word(bytes, 4) as u128 * 0x1_0000_0000_0000_0000_0000_0000 + be_word(
        bytes,
        8,
    ) as u128 * 0x1_0000_0000_0000_0000 + be_word(bytes, 12) as u128 * 0x1_0000_0000 + be_word(
        bytes,
        16,
    ) as u128;
    proof {
        lemma_be_value_word(bytes@, 0);
        lemma_be_value_word(bytes@, 4);
        lemma_be_value_word(bytes@, 8);
        lemma_be_value_word(bytes@, 12);
        lemma_be_value_word(bytes@, 16);
        assert(bytes@.take(0).len() == 0);
        assert(bytes@.take(20) =~= bytes@);
    }
    (high, low)
}

/// Whether two byte strings are the same.
pub fn same_bytes(a: &[u8], b: &[u8]) -> (same: bool)
    ensures
        same == (a@ == b@),
{
    if a.len() != b.len() {
        return false;
    }
    for i in 0..a.len()
        invariant
            a@.len() == b@.len(),
            forall|j: int| 0 <= j < i ==> a@[j] == b@[j],
    {
        if a[i] != b[i] {
            assert(a@[i as int] != b@[i as int]);
            return false;
        }
    }
    assert(a@ =~= b@);
    true
}

/// Whether `a` spells a smaller number than `b`.
pub fn precedes(a: &[u8; 32], b: &[u8; 32]) -> (before: bool)
    ensures
        before == (be_value(a@) < be_value(b@)),
{
    for i in 0..32usize
        invariant
            forall|j: int| 0 <= j < i ==> a@[j] == b@[j],
    {
        assert(a@.take(i as int) =~= b@.take(i as int));
        if a[i] < b[i] {
            proof {
                lemma_first_difference(a@, b@, i as int);
            }
            return true;
        }
        if b[i] < a[i] {
            proof {
                lemma_first_difference(b@, a@, i as int);
            }
            return false;
        }
    }
    assert(a@ =~= b@);
    false
}

/// The number that twenty bytes spell, each byte weighed by its place.
pub open spec fn address_number(bytes: Seq<u8>) -> int {
    bytes[0] * 0x100000000000000000000000000000000000000
        + bytes[1] * 0x1000000000000000000000000000000000000
        + bytes[2] * 0x10000000000000000000000000000000000
        + bytes[3] * 0x100000000000000000000000000000000
        + bytes[4] * 0x1000000000000000000000000000000
        + bytes[5] * 0x10000000000000000000000000000
        + bytes[6] * 0x100000000000000000000000000
        + bytes[7] * 0x1000000000000000000000000
        + bytes[8] * 0x10000000000000000000000
        + bytes[9] * 0x100000000000000000000
        + bytes[10] * 0x1000000000000000000
        + bytes[11] * 0x10000000000000000
        + bytes[12] * 0x100000000000000
        + bytes[13] * 0x1000000000000
        + bytes[14] * 0x10000000000
        + bytes[15] * 0x100000000
        + bytes[16] * 0x1000000
        + bytes[17] * 0x10000
        + bytes[18] * 0x100
        + bytes[19]
}

/// Twenty bytes spell the number in which each is weighed by its place.
pub proof fn lemma_be_value_of_address(bytes: Seq<u8>)
    requires
        bytes.len() == 20,
    ensures
        be_value(bytes) == address_number(bytes),
{
    lemma_be_value_word(bytes, 0);
    lemma_be_value_word(bytes, 4);
    lemma_be_value_word(bytes, 8);
    lemma_be_value_word(bytes, 12);
    lemma_be_value_word(bytes, 16);
    assert(bytes.take(0).len() == 0);
    assert(bytes.take(20) =~= bytes);
}

/// The two parts of an address put together give back the number in which each of its bytes is
/// weighed by its place.
pub proof fn the_parts_of_an_address_make_it_up(bytes: [u8; 20], parts: (u32, u128))
    requires
        call_ensures(be_parts, (&bytes,), parts),
    ensures
        parts.0 * 0x1_0000_0000_0000_0000_0000_0000_0000_0000 + parts.1 == address_number(bytes@),
{
    lemma_be_value_of_address(bytes@);
}

} // verus!
