//! The logs bloom of a block, accumulated over its receipts.

use crate::primitives::{Address, Bloom, B256};
use alloy_consensus::TxReceipt;
use vstd::prelude::*;

verus! {

/// An event that a transaction emitted.
#[derive(Clone, Debug, PartialEq, Eq)]
pub struct Log {
    pub address: Address,
    pub topics: Vec<B256>,
    pub data: Vec<u8>,
}

/// A log with its bytes as sequences.
pub struct LogView {
    pub address: Seq<u8>,
    pub topics: Seq<Seq<u8>>,
    pub data: Seq<u8>,
}

impl View for Log {
    type V = LogView;

    open spec fn view(&self) -> LogView {
        LogView {
            address: self.address@,
            topics: self.topics@.map_values(|topic: B256| topic@),
            data: self.data@,
        }
    }
}

/// What a transaction left behind, as far as the logs bloom goes.
#[derive(Clone, Debug, PartialEq, Eq)]
pub struct Receipt {
    pub logs: Vec<Log>,
}

impl View for Receipt {
    type V = Seq<LogView>;

    open spec fn view(&self) -> Seq<LogView> {
        self.logs@.map_values(|log: Log| log@)
    }
}

/// The bloom that `alloy_consensus::TxReceipt::bloom` gives for a receipt with these logs.
pub uninterp spec fn bloom_of_logs(logs: Seq<LogView>) -> Seq<u8>;

/// The empty filter.
pub open spec fn zero_bloom() -> Seq<u8> {
    Seq::new(256, |i: int| 0u8)
}

/// The filter with every bit that is set in `a` or in `b`.
pub open spec fn bloom_union(a: Seq<u8>, b: Seq<u8>) -> Seq<u8> {
    Seq::new(256, |i: int| a[i] | b[i])
}

/// All of `blooms` accrued into one, starting from the empty filter.
pub open spec fn accrued(blooms: Seq<Seq<u8>>) -> Seq<u8>
    decreases blooms.len(),
{
    if blooms.len() == 0 {
        zero_bloom()
    } else {
        bloom_union(accrued(blooms.drop_last()), blooms.last())
    }
}

/// The blooms of `receipts`, in order.
pub open spec fn receipt_blooms(receipts: Seq<Receipt>) -> Seq<Seq<u8>> {
    receipts.map_values(|receipt: Receipt| bloom_of_logs(receipt@))
}

/// The bytes of each filter.
pub open spec fn bloom_views(blooms: Seq<Bloom>) -> Seq<Seq<u8>> {
    blooms.map_values(|bloom: Bloom| bloom@)
}

/// `alloy_consensus::TxReceipt::bloom` of an `alloy_consensus::Receipt` that holds the logs of
/// `receipt`. The result depends on the logs alone.
#[verifier::external_body]
fn receipt_bloom(receipt: &Receipt) -> (bloom: Bloom)
    ensures
        bloom@ == bloom_of_logs(receipt@),
{
    let logs: Vec<alloy_primitives::Log> = receipt.logs.iter().map(|log| {
        let topics = log.topics.iter().map(|topic| (*topic).into()).collect();
        alloy_primitives::Log::new_unchecked(log.address.into(), topics, log.data.clone().into())
    }).collect();
    alloy_consensus::Receipt { logs, ..Default::default() }.bloom().into_array()
}

/// `alloy_primitives::Bloom::accrue_bloom`: sets in `bloom` every bit that is set in `other`.
#[verifier::external_body]
fn accrue_bloom(bloom: &mut Bloom, other: &Bloom)
    ensures
        final(bloom)@ == bloom_union(old(bloom)@, other@),
{
    let mut filter = alloy_primitives::Bloom::from(*bloom);
    filter.accrue_bloom(&alloy_primitives::Bloom::from(*other));
    *bloom = filter.into_array();
}

/// Accrues `blooms` into one filter.
pub fn accumulate(blooms: &Vec<Bloom>) -> (bloom: Bloom)
    ensures
        bloom@ == accrued(bloom_views(blooms@)),
{
    let mut bloom: Bloom = [0u8; 256];
    assert(bloom@ =~= accrued(bloom_views(blooms@).take(0)));
    for i in 0..blooms.len()
        invariant
            bloom@ == accrued(bloom_views(blooms@).take(i as int)),
    {
        accrue_bloom(&mut bloom, &blooms[i]);
        assert(bloom_views(blooms@).take(i + 1).drop_last() =~= bloom_views(blooms@).take(
            i as int,
        ));
    }
    assert(bloom_views(blooms@).take(blooms.len() as int) =~= bloom_views(blooms@));
    bloom
}

/// The logs bloom of a block with these receipts.
pub fn logs_bloom(receipts: &Vec<Receipt>) -> (bloom: Bloom)
    ensures
        bloom@ == accrued(receipt_blooms(receipts@)),
{
    let mut blooms: Vec<Bloom> = Vec::new();
    for i in 0..receipts.len()
        invariant
            bloom_views(blooms@) == receipt_blooms(receipts@).take(i as int),
    {
        let bloom = receipt_bloom(&receipts[i]);
        let ghost before = blooms@;
        blooms.push(bloom);
        assert(bloom_views(blooms@) =~= bloom_views(before).push(bloom@));
        assert(receipt_blooms(receipts@).take(i + 1) =~= receipt_blooms(receipts@).take(
            i as int,
        ).push(bloom@));
    }
    assert(receipt_blooms(receipts@).take(receipts.len() as int) =~= receipt_blooms(receipts@));
    accumulate(&blooms)
}

/// Whether bit `bit` of byte `byte` is set in the filter.
pub open spec fn bit_set(bloom: Seq<u8>, byte: int, bit: u8) -> bool {
    bloom[byte] & (1u8 << bit) != 0
}

/// A bit of the accumulated filter is set exactly where it is set in one of the filters: nothing
/// is lost and nothing is made up.
pub proof fn accrued_bits(blooms: Seq<Seq<u8>>, byte: int, bit: u8)
    requires
        0 <= byte < 256,
        bit < 8,
    ensures
        bit_set(accrued(blooms), byte, bit) <==> exists|i: int|
            0 <= i < blooms.len() && #[trigger] bit_set(blooms[i], byte, bit),
    decreases blooms.len(),
{
    if blooms.len() == 0 {
        assert(0u8 & (1u8 << bit) == 0) by (bit_vector);
    } else {
        let rest = blooms.drop_last();
        let a = accrued(rest)[byte];
        let b = blooms.last()[byte];
        accrued_bits(rest, byte, bit);
        assert((a | b) & (1u8 << bit) != 0 <==> a & (1u8 << bit) != 0 || b & (1u8 << bit) != 0)
            by (bit_vector);
        if bit_set(accrued(rest), byte, bit) {
            let i = choose|i: int| 0 <= i < rest.len() && #[trigger] bit_set(rest[i], byte, bit);
            assert(bit_set(blooms[i], byte, bit));
        }
        if bit_set(blooms.last(), byte, bit) {
            assert(bit_set(blooms[blooms.len() - 1], byte, bit));
        }
        if exists|i: int| 0 <= i < blooms.len() && #[trigger] bit_set(blooms[i], byte, bit) {
            let i = choose|i: int| 0 <= i < blooms.len() && #[trigger] bit_set(blooms[i], byte, bit);
            if i < rest.len() {
                assert(bit_set(rest[i], byte, bit));
            }
        }
    }
}

/// The order in which filters are accrued does not matter.
pub proof fn accrued_in_any_order(first: Seq<Seq<u8>>, second: Seq<Seq<u8>>)
    ensures
        accrued(first + second) == accrued(second + first),
{
    lemma_accrued_concat(first, second);
    lemma_accrued_concat(second, first);
    let a = accrued(first);
    let b = accrued(second);
    assert forall|i: int| 0 <= i < 256 implies bloom_union(a, b)[i] == bloom_union(b, a)[i] by {
        let (x, y) = (a[i], b[i]);
        assert(x | y == y | x) by (bit_vector);
    }
    assert(bloom_union(a, b) =~= bloom_union(b, a));
}

proof fn lemma_accrued_concat(first: Seq<Seq<u8>>, second: Seq<Seq<u8>>)
    ensures
        accrued(first + second) == bloom_union(accrued(first), accrued(second)),
    decreases second.len(),
{
    let a = accrued(first);
    if second.len() == 0 {
        assert(first + second =~= first);
        assert forall|i: int| 0 <= i < 256 implies a[i] == bloom_union(a, zero_bloom())[i] by {
            let x = a[i];
            assert(x | 0u8 == x) by (bit_vector);
        }
        lemma_accrued_len(first);
        assert(a =~= bloom_union(a, zero_bloom()));
    } else {
        let rest = second.drop_last();
        lemma_accrued_concat(first, rest);
        assert((first + second).drop_last() =~= first + rest);
        let b = accrued(rest);
        let c = second.last();
        assert forall|i: int| 0 <= i < 256 implies bloom_union(bloom_union(a, b), c)[i]
            == bloom_union(a, bloom_union(b, c))[i] by {
            let (x, y, z) = (a[i], b[i], c[i]);
            assert((x | y) | z == x | (y | z)) by (bit_vector);
        }
        assert(bloom_union(bloom_union(a, b), c) =~= bloom_union(a, bloom_union(b, c)));
    }
}

proof fn lemma_accrued_len(blooms: Seq<Seq<u8>>)
    ensures
        accrued(blooms).len() == 256,
{
}

} // verus!
