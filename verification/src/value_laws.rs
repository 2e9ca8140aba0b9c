//! What the computations on plain values amount to, said of their arguments and results.

use crate::bloom::{
    accrued_bits, accumulate, bit_set, bloom_of_logs, bloom_views, logs_bloom, receipt_blooms,
    Receipt,
};
use crate::bytes::{
    be_parts, be_value, lemma_be_value_injective, lemma_first_difference, precedes, same_bytes,
};
use crate::cache::{decimal, input_path, try_load_input_from_cache};
use crate::error::HostError;
use crate::header::{check_header, compare_hashes, derive_header, header_hash, BlockHeader};
use crate::primitives::{Bloom, B256, U256};
use crate::storage_keys::{key_set, merged_keys, slot_set, sorted_keys};
use vstd::prelude::*;

verus! {

/// Bytes are the same exactly if there are as many and each is the same.
pub proof fn same_bytes_agree_everywhere(a: &[u8], b: &[u8], same: bool)
    requires
        call_ensures(same_bytes, (a, b), same),
    ensures
        same <==> a@.len() == b@.len() && forall|i: int|
            0 <= i < a@.len() ==> #[trigger] a@[i] == b@[i],
{
    if a@.len() == b@.len() && forall|i: int| 0 <= i < a@.len() ==> #[trigger] a@[i] == b@[i] {
        assert(a@ =~= b@);
    }
}

/// One key precedes another exactly if it has the smaller byte where they first differ.
pub proof fn keys_are_ordered_by_their_first_difference(a: B256, b: B256, before: bool)
    requires
        call_ensures(precedes, (&a, &b), before),
    ensures
        before <==> exists|k: int|
            #![trigger a@[k]]
            0 <= k < 32 && a@[k] < b@[k] && forall|j: int|
                #![trigger a@[j]]
                0 <= j < k ==> a@[j] == b@[j],
{
    if a@ == b@ {
    } else {
        let k = lemma_differ(a@, b@, 0);
        assert(a@.take(k) =~= b@.take(k));
        if a@[k] < b@[k] {
            lemma_first_difference(a@, b@, k);
        } else {
            assert(b@.take(k) =~= a@.take(k));
            lemma_first_difference(b@, a@, k);
            if exists|m: int|
                #![trigger a@[m]]
                0 <= m < 32 && a@[m] < b@[m] && forall|j: int|
                    #![trigger a@[j]]
                    0 <= j < m ==> a@[j] == b@[j] {
                let m = choose|m: int|
                    #![trigger a@[m]]
                    0 <= m < 32 && a@[m] < b@[m] && forall|j: int|
                        #![trigger a@[j]]
                        0 <= j < m ==> a@[j] == b@[j];
                assert(a@[k] != b@[k]);
                assert(m <= k);
                assert(a@[m] == b@[m] || m == k);
            }
        }
    }
}

proof fn lemma_differ(a: Seq<u8>, b: Seq<u8>, from: int) -> (k: int)
    requires
        a.len() == b.len(),
        a != b,
        0 <= from <= a.len(),
        forall|j: int| 0 <= j < from ==> #[trigger] a[j] == b[j],
    ensures
        from <= k < a.len(),
        a[k] != b[k],
        forall|j: int| 0 <= j < k ==> #[trigger] a[j] == b[j],
    decreases a.len() - from,
{
    if from == a.len() {
        assert(a =~= b);
        from
    } else if a[from] != b[from] {
        from
    } else {
        lemma_differ(a, b, from + 1)
    }
}

/// Reading bytes as a number: none spell zero, and a further byte shifts by a factor of 256.
pub proof fn a_further_byte_shifts_the_number(bytes: Seq<u8>, byte: u8)
    ensures
        be_value(Seq::empty()) == 0,
        be_value(bytes.push(byte)) == be_value(bytes) * 256 + byte,
{
    assert(bytes.push(byte).drop_last() =~= bytes);
}

/// The limbs of a number count in steps of 64 bits.
pub proof fn limbs_count_in_steps(number: U256)
    ensures
        number.value() == number.limbs[0] + 0x1_0000_0000_0000_0000 * (number.limbs[1]
            + 0x1_0000_0000_0000_0000 * (number.limbs[2] + 0x1_0000_0000_0000_0000
            * number.limbs[3])),
{
}

/// A bit of the block's filter is set exactly where it is set in the bloom of one of its receipts,
/// whichever that is.
pub proof fn every_receipt_enters_the_bloom(
    receipts: Vec<Receipt>,
    bloom: Bloom,
    byte: int,
    bit: u8,
)
    requires
        call_ensures(logs_bloom, (&receipts,), bloom),
        0 <= byte < 256,
        bit < 8,
    ensures
        bloom@[byte] & (1u8 << bit) != 0 <==> exists|i: int|
            #![trigger receipts@[i]]
            0 <= i < receipts@.len() && bloom_of_logs(receipts@[i]@)[byte] & (1u8 << bit) != 0,
{
    let blooms = receipt_blooms(receipts@);
    accrued_bits(blooms, byte, bit);
    if exists|i: int| 0 <= i < blooms.len() && #[trigger] bit_set(blooms[i], byte, bit) {
        let i = choose|i: int| 0 <= i < blooms.len() && #[trigger] bit_set(blooms[i], byte, bit);
        assert(blooms[i] == bloom_of_logs(receipts@[i]@));
    }
    if exists|i: int|
        #![trigger receipts@[i]]
        0 <= i < receipts@.len() && bloom_of_logs(receipts@[i]@)[byte] & (1u8 << bit) != 0 {
        let i = choose|i: int|
            #![trigger receipts@[i]]
            0 <= i < receipts@.len() && bloom_of_logs(receipts@[i]@)[byte] & (1u8 << bit) != 0;
        assert(blooms[i] == bloom_of_logs(receipts@[i]@));
        assert(bit_set(blooms[i], byte, bit));
    }
}

/// A bit of the accumulated filter is set exactly where it is set in one of the filters.
pub proof fn every_filter_is_accumulated(blooms: Vec<Bloom>, bloom: Bloom, byte: int, bit: u8)
    requires
        call_ensures(accumulate, (&blooms,), bloom),
        0 <= byte < 256,
        bit < 8,
    ensures
        bloom@[byte] & (1u8 << bit) != 0 <==> exists|i: int|
            #![trigger blooms@[i]]
            0 <= i < blooms@.len() && blooms@[i]@[byte] & (1u8 << bit) != 0,
{
    let views = bloom_views(blooms@);
    accrued_bits(views, byte, bit);
    if exists|i: int| 0 <= i < views.len() && #[trigger] bit_set(views[i], byte, bit) {
        let i = choose|i: int| 0 <= i < views.len() && #[trigger] bit_set(views[i], byte, bit);
        assert(views[i] == blooms@[i]@);
    }
    if exists|i: int|
        #![trigger blooms@[i]]
        0 <= i < blooms@.len() && blooms@[i]@[byte] & (1u8 << bit) != 0 {
        let i = choose|i: int|
            #![trigger blooms@[i]]
            0 <= i < blooms@.len() && blooms@[i]@[byte] & (1u8 << bit) != 0;
        assert(views[i] == blooms@[i]@);
        assert(bit_set(views[i], byte, bit));
    }
}

/// The derived header has the state root and the bloom of the execution, and is the block's header
/// in every other field.
pub proof fn a_derived_header_differs_in_two_fields(
    current: BlockHeader,
    state_root: B256,
    bloom: Bloom,
    header: BlockHeader,
)
    requires
        call_ensures(derive_header, (&current, state_root, bloom), header),
    ensures
        header.state_root@ == state_root@,
        header.logs_bloom@ == bloom@,
        header.parent_hash@ == current.parent_hash@,
        header.ommers_hash@ == current.ommers_hash@,
        header.beneficiary@ == current.beneficiary@,
        header.transactions_root@ == current.transactions_root@,
        header.receipts_root@ == current.receipts_root@,
        header.difficulty.value() == current.difficulty.value(),
        header.number == current.number,
        header.gas_limit == current.gas_limit,
        header.gas_used == current.gas_used,
        header.timestamp == current.timestamp,
        header.extra_data@ == current.extra_data@,
        header.mix_hash@ == current.mix_hash@,
        header.nonce@ == current.nonce@,
        header.base_fee_per_gas == current.base_fee_per_gas,
        header.withdrawals_root is Some == current.withdrawals_root is Some,
        header.withdrawals_root is Some ==> header.withdrawals_root->0@
            == current.withdrawals_root->0@,
        header.blob_gas_used == current.blob_gas_used,
        header.excess_blob_gas == current.excess_blob_gas,
        header.parent_beacon_block_root is Some == current.parent_beacon_block_root is Some,
        header.parent_beacon_block_root is Some ==> header.parent_beacon_block_root->0@
            == current.parent_beacon_block_root->0@,
        header.requests_hash is Some == current.requests_hash is Some,
        header.requests_hash is Some ==> header.requests_hash->0@ == current.requests_hash->0@,
{
    let (h, c) = (header@, current@);
    assert(h.withdrawals_root == c.withdrawals_root);
    assert(h.parent_beacon_block_root == c.parent_beacon_block_root);
    assert(h.requests_hash == c.requests_hash);
}

/// A cloned header is the same in every field.
pub proof fn a_cloned_header_is_the_same(current: BlockHeader, header: BlockHeader)
    requires
        call_ensures(<BlockHeader as Clone>::clone, (&current,), header),
    ensures
        header.state_root@ == current.state_root@,
        header.logs_bloom@ == current.logs_bloom@,
        header.parent_hash@ == current.parent_hash@,
        header.ommers_hash@ == current.ommers_hash@,
        header.beneficiary@ == current.beneficiary@,
        header.transactions_root@ == current.transactions_root@,
        header.receipts_root@ == current.receipts_root@,
        header.difficulty.value() == current.difficulty.value(),
        header.number == current.number,
        header.gas_limit == current.gas_limit,
        header.gas_used == current.gas_used,
        header.timestamp == current.timestamp,
        header.extra_data@ == current.extra_data@,
        header.mix_hash@ == current.mix_hash@,
        header.nonce@ == current.nonce@,
        header.base_fee_per_gas == current.base_fee_per_gas,
        header.withdrawals_root is Some == current.withdrawals_root is Some,
        header.withdrawals_root is Some ==> header.withdrawals_root->0@
            == current.withdrawals_root->0@,
        header.blob_gas_used == current.blob_gas_used,
        header.excess_blob_gas == current.excess_blob_gas,
        header.parent_beacon_block_root is Some == current.parent_beacon_block_root is Some,
        header.parent_beacon_block_root is Some ==> header.parent_beacon_block_root->0@
            == current.parent_beacon_block_root->0@,
        header.requests_hash is Some == current.requests_hash is Some,
        header.requests_hash is Some ==> header.requests_hash->0@ == current.requests_hash->0@,
{
    let (h, c) = (header@, current@);
    assert(h.withdrawals_root == c.withdrawals_root);
    assert(h.parent_beacon_block_root == c.parent_beacon_block_root);
    assert(h.requests_hash == c.requests_hash);
}

/// Hashes are accepted exactly if they agree in every byte, and the one that was constructed is what
/// comes of it; otherwise both are reported, in this order.
pub proof fn hashes_are_accepted_if_they_agree<E>(
    constructed: B256,
    target: B256,
    accepted: Result<B256, HostError<E>>,
)
    requires
        call_ensures(compare_hashes::<E>, (constructed, target), accepted),
    ensures
        accepted is Ok <==> forall|i: int| 0 <= i < 32 ==> #[trigger] constructed@[i] == target@[i],
        accepted matches Ok(hash) ==> hash == constructed,
        accepted matches Err(e) ==> e == HostError::<E>::HeaderMismatch(constructed, target),
{
    if forall|i: int| 0 <= i < 32 ==> #[trigger] constructed@[i] == target@[i] {
        assert(constructed@ =~= target@);
    }
}

/// The check of a header is the comparison of two hashes: of the header that is derived, and of the
/// block's own.
pub proof fn a_header_is_checked_by_its_hash<E>(
    current: BlockHeader,
    state_root: B256,
    bloom: Bloom,
    derived: BlockHeader,
    accepted: Result<B256, HostError<E>>,
)
    requires
        call_ensures(derive_header, (&current, state_root, bloom), derived),
        call_ensures(check_header::<E>, (&current, state_root, bloom), accepted),
    ensures
        accepted is Ok <==> header_hash(derived@) == header_hash(current@),
        accepted matches Ok(hash) ==> hash@ == header_hash(current@),
        accepted matches Err(e) ==> {
            &&& e matches HostError::HeaderMismatch(constructed, target)
            &&& constructed@ == header_hash(derived@)
            &&& target@ == header_hash(current@)
        },
{
}

/// Every slot has its key among the sorted keys. Its place comes of the proof.
pub proof fn every_slot_has_its_key(slots: Vec<U256>, keys: Vec<B256>, i: int) -> (k: int)
    requires
        call_ensures(sorted_keys, (&slots,), keys),
        0 <= i < slots@.len(),
    ensures
        0 <= k < keys@.len(),
        be_value(keys@[k]@) == slots@[i].value(),
{
    let v = slots@[i].value();
    assert(slot_set(slots@).contains(v));
    assert(key_set(keys@).contains(v));
    choose|k: int| 0 <= k < keys@.len() && be_value(#[trigger] keys@[k]@) == v
}

/// Every sorted key is that of a slot, and they ascend. The place of the slot comes of the proof.
pub proof fn every_key_has_its_slot(slots: Vec<U256>, keys: Vec<B256>, k: int) -> (i: int)
    requires
        call_ensures(sorted_keys, (&slots,), keys),
        0 <= k < keys@.len(),
    ensures
        0 <= i < slots@.len(),
        be_value(keys@[k]@) == slots@[i].value(),
        forall|m: int|
            #![trigger keys@[m]]
            k < m < keys@.len() ==> be_value(keys@[k]@) < be_value(keys@[m]@),
{
    let v = be_value(keys@[k]@);
    assert(key_set(keys@).contains(v));
    assert(slot_set(slots@).contains(v));
    choose|i: int| 0 <= i < slots@.len() && (#[trigger] slots@[i]).value() == v
}

/// Every slot has its key among the merged keys. Its place comes of the proof.
pub proof fn every_slot_is_merged(
    slots: Vec<U256>,
    others: Vec<B256>,
    keys: Vec<B256>,
    i: int,
) -> (k: int)
    requires
        call_ensures(merged_keys, (&slots, &others), keys),
        0 <= i < slots@.len(),
    ensures
        0 <= k < keys@.len(),
        be_value(keys@[k]@) == slots@[i].value(),
{
    let v = slots@[i].value();
    assert(slot_set(slots@).contains(v));
    assert(key_set(keys@).contains(v));
    choose|k: int| 0 <= k < keys@.len() && be_value(#[trigger] keys@[k]@) == v
}

/// Every further key is among the merged keys.
pub proof fn every_further_key_is_merged(
    slots: Vec<U256>,
    others: Vec<B256>,
    keys: Vec<B256>,
    i: int,
)
    requires
        call_ensures(merged_keys, (&slots, &others), keys),
        0 <= i < others@.len(),
    ensures
        keys@.contains(others@[i]),
{
    let v = be_value(others@[i]@);
    assert(key_set(others@).contains(v));
    assert(key_set(keys@).contains(v));
    let k = choose|k: int| 0 <= k < keys@.len() && be_value(#[trigger] keys@[k]@) == v;
    lemma_be_value_injective(keys@[k]@, others@[i]@);
    assert(keys@[k] =~= others@[i]);
}

/// Every merged key is a further key or that of a slot, and they ascend. The place of the slot comes
/// of the proof.
pub proof fn every_merged_key_has_its_source(
    slots: Vec<U256>,
    others: Vec<B256>,
    keys: Vec<B256>,
    k: int,
) -> (i: int)
    requires
        call_ensures(merged_keys, (&slots, &others), keys),
        0 <= k < keys@.len(),
    ensures
        others@.contains(keys@[k]) || (0 <= i < slots@.len() && be_value(keys@[k]@)
            == slots@[i].value()),
        forall|m: int|
            #![trigger keys@[m]]
            k < m < keys@.len() ==> be_value(keys@[k]@) < be_value(keys@[m]@),
{
    let v = be_value(keys@[k]@);
    assert(key_set(keys@).contains(v));
    if key_set(others@).contains(v) {
        let n = choose|n: int| 0 <= n < others@.len() && be_value(#[trigger] others@[n]@) == v;
        lemma_be_value_injective(others@[n]@, keys@[k]@);
        assert(others@[n] =~= keys@[k]);
        0
    } else {
        assert(slot_set(slots@).contains(v));
        choose|i: int| 0 <= i < slots@.len() && (#[trigger] slots@[i]).value() == v
    }
}

/// The number that a string of decimal digits spells.
pub open spec fn spelled(digits: Seq<char>) -> nat
    decreases digits.len(),
{
    if digits.len() == 0 {
        0
    } else {
        10 * spelled(digits.drop_last()) + (digits.last() as int - 48) as nat
    }
}

/// Whether `digits` is how a number is written: at least one digit, and no leading zero but for zero
/// itself.
pub open spec fn is_numeral(digits: Seq<char>) -> bool {
    &&& digits.len() > 0
    &&& forall|i: int| 0 <= i < digits.len() ==> '0' <= #[trigger] digits[i] <= '9'
    &&& digits.len() > 1 ==> digits[0] != '0'
}

proof fn lemma_decimal_spells(n: nat)
    ensures
        is_numeral(decimal(n)),
        spelled(decimal(n)) == n,
        n > 0 ==> decimal(n)[0] != '0',
    decreases n,
{
    reveal_with_fuel(spelled, 2);
    if n >= 10 {
        lemma_decimal_spells(n / 10);
        assert(decimal(n).drop_last() =~= decimal(n / 10));
        assert(decimal(n)[0] == decimal(n / 10)[0]);
    } else {
        assert(decimal(n).drop_last() =~= Seq::empty());
    }
}

/// The file of a block lies in the folder of its chain, under its own number: both are written out
/// in decimal, whatever they are.
pub proof fn a_file_is_named_by_chain_and_block(chain_id: u64, block_number: u64, path: String)
    requires
        call_ensures(input_path, (chain_id, block_number), path),
    ensures
        exists|chain: Seq<char>, block: Seq<char>|
            #![trigger is_numeral(chain), is_numeral(block)]
            is_numeral(chain) && is_numeral(block) && spelled(chain) == chain_id && spelled(block)
                == block_number && path@ == "input/"@ + chain + "/"@ + block + ".bin"@,
{
    let (chain, block) = (decimal(chain_id as nat), decimal(block_number as nat));
    lemma_decimal_spells(chain_id as nat);
    lemma_decimal_spells(block_number as nat);
    assert(is_numeral(chain) && is_numeral(block));
}

/// Without a file nothing is loaded; with one, its input or the error of reading it.
pub proof fn loading_hands_on_what_the_file_holds<I, E>(
    file: Option<Result<I, E>>,
    loaded: Result<Option<I>, E>,
)
    requires
        call_ensures(try_load_input_from_cache::<I, E>, (file,), loaded),
    ensures
        file is None ==> loaded is Ok && loaded->Ok_0 is None,
        file is Some && file->0 is Ok ==> loaded is Ok && loaded->Ok_0 == Some(file->0->Ok_0),
        file is Some && file->0 is Err ==> loaded is Err && loaded->Err_0 == file->0->Err_0,
{
}

} // verus!
