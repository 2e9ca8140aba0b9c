//! Sorted lists of storage keys without duplicates.

use crate::bytes::{be_value, lemma_be_value_injective, precedes};
use crate::primitives::{slot_key, B256, U256};
use vstd::prelude::*;

verus! {

/// Whether the keys come in strictly ascending order.
pub open spec fn ascending(keys: Seq<B256>) -> bool {
    forall|i: int, j: int|
        0 <= i < j < keys.len() ==> be_value(#[trigger] keys[i]@) < be_value(#[trigger] keys[j]@)
}

/// The slot numbers that the keys stand for.
pub open spec fn key_set(keys: Seq<B256>) -> Set<nat> {
    Set::new(|v: nat| exists|i: int| 0 <= i < keys.len() && be_value(#[trigger] keys[i]@) == v)
}

/// The numbers of the slots.
pub open spec fn slot_set(slots: Seq<U256>) -> Set<nat> {
    Set::new(|v: nat| exists|i: int| 0 <= i < slots.len() && (#[trigger] slots[i]).value() == v)
}

/// Puts `key` in its place among `keys`, unless it is there already.
fn insert_key(keys: &mut Vec<B256>, key: B256)
    requires
        ascending(old(keys)@),
    ensures
        ascending(final(keys)@),
        key_set(final(keys)@) == key_set(old(keys)@).insert(be_value(key@)),
{
    let ghost before = keys@;
    let ghost value = be_value(key@);
    let mut at: usize = 0;
    while at < keys.len() && precedes(&keys[at], &key)
        invariant
            keys@ == before,
            ascending(before),
            value == be_value(key@),
            at <= keys.len(),
            forall|i: int| 0 <= i < at ==> be_value(#[trigger] before[i]@) < value,
        decreases keys.len() - at,
    {
        at += 1;
    }
    if at < keys.len() && !precedes(&key, &keys[at]) {
        assert(be_value(before[at as int]@) == value);
        assert(key_set(before) =~= key_set(before).insert(value));
        return ;
    }
    keys.insert(at, key);
    proof {
        let after = keys@;
        assert(after == before.insert(at as int, key));
        assert forall|i: int, j: int| 0 <= i < j < after.len() implies be_value(
            #[trigger] after[i]@,
        ) < be_value(#[trigger] after[j]@) by {
            let a = if i < at { i } else { i - 1 };
            let b = if j < at { j } else { j - 1 };
            if i != at {
                assert(after[i] == before[a]);
            }
            if j != at {
                assert(after[j] == before[b]);
            }
            if i == at {
                assert(value < be_value(before[at as int]@));
            }
        }
        assert forall|v: nat| key_set(after).contains(v) <==> key_set(before).insert(
            value,
        ).contains(v) by {
            if key_set(before).contains(v) {
                let i = choose|i: int| 0 <= i < before.len() && be_value(#[trigger] before[i]@) == v;
                let k = if i < at { i } else { i + 1 };
                assert(after[k] == before[i]);
            }
            if v == value {
                assert(after[at as int] == key);
            }
            if key_set(after).contains(v) {
                let k = choose|k: int| 0 <= k < after.len() && be_value(#[trigger] after[k]@) == v;
                if k < at {
                    assert(after[k] == before[k]);
                } else if k > at {
                    assert(after[k] == before[k - 1]);
                }
            }
        }
        assert(key_set(after) =~= key_set(before).insert(value));
    }
}

/// The keys of `slots`, sorted, each once.
pub fn sorted_keys(slots: &Vec<U256>) -> (keys: Vec<B256>)
    ensures
        ascending(keys@),
        key_set(keys@) == slot_set(slots@),
{
    let mut keys: Vec<B256> = Vec::new();
    assert(key_set(keys@) =~= slot_set(slots@.take(0)));
    for i in 0..slots.len()
        invariant
            ascending(keys@),
            key_set(keys@) == slot_set(slots@.take(i as int)),
    {
        let key = slot_key(&slots[i]);
        insert_key(&mut keys, key);
        proof {
            lemma_slot_set_push(slots@, i as int);
        }
    }
    assert(slots@.take(slots.len() as int) =~= slots@);
    keys
}

/// The keys of `slots` and `others` together, sorted, each once.
pub fn merged_keys(slots: &Vec<U256>, others: &Vec<B256>) -> (keys: Vec<B256>)
    ensures
        ascending(keys@),
        key_set(keys@) == slot_set(slots@).union(key_set(others@)),
{
    let mut keys = sorted_keys(slots);
    assert(key_set(keys@) =~= slot_set(slots@).union(key_set(others@.take(0))));
    for i in 0..others.len()
        invariant
            ascending(keys@),
            key_set(keys@) == slot_set(slots@).union(key_set(others@.take(i as int))),
    {
        insert_key(&mut keys, others[i]);
        proof {
            lemma_key_set_push(others@, i as int);
            assert(key_set(keys@) =~= slot_set(slots@).union(key_set(others@.take(i + 1))));
        }
    }
    assert(others@.take(others.len() as int) =~= others@);
    keys
}

proof fn lemma_slot_set_push(slots: Seq<U256>, i: int)
    requires
        0 <= i < slots.len(),
    ensures
        slot_set(slots.take(i + 1)) == slot_set(slots.take(i)).insert(slots[i].value()),
{
    let (a, b) = (slots.take(i), slots.take(i + 1));
    assert forall|v: nat| slot_set(b).contains(v) <==> slot_set(a).insert(slots[i].value()).contains(
        v,
    ) by {
        if slot_set(a).contains(v) {
            let k = choose|k: int| 0 <= k < a.len() && (#[trigger] a[k]).value() == v;
            assert(b[k] == a[k]);
        }
        assert(b[i] == slots[i]);
        if slot_set(b).contains(v) {
            let k = choose|k: int| 0 <= k < b.len() && (#[trigger] b[k]).value() == v;
            if k < i {
                assert(a[k] == b[k]);
            }
        }
    }
    assert(slot_set(b) =~= slot_set(a).insert(slots[i].value()));
}

proof fn lemma_key_set_push(keys: Seq<B256>, i: int)
    requires
        0 <= i < keys.len(),
    ensures
        key_set(keys.take(i + 1)) == key_set(keys.take(i)).insert(be_value(keys[i]@)),
{
    let (a, b) = (keys.take(i), keys.take(i + 1));
    assert forall|v: nat| key_set(b).contains(v) <==> key_set(a).insert(be_value(keys[i]@)).contains(
        v,
    ) by {
        if key_set(a).contains(v) {
            let k = choose|k: int| 0 <= k < a.len() && be_value(#[trigger] a[k]@) == v;
            assert(b[k] == a[k]);
        }
        assert(b[i] == keys[i]);
        if key_set(b).contains(v) {
            let k = choose|k: int| 0 <= k < b.len() && be_value(#[trigger] b[k]@) == v;
            if k < i {
                assert(a[k] == b[k]);
            }
        }
    }
    assert(key_set(b) =~= key_set(a).insert(be_value(keys[i]@)));
}

/// A sorted list without duplicates is determined by what it lists.
pub proof fn key_list_is_determined(a: Seq<B256>, b: Seq<B256>)
    requires
        ascending(a),
        ascending(b),
        key_set(a) == key_set(b),
    ensures
        a == b,
    decreases a.len(),
{
    if a.len() == 0 || b.len() == 0 {
        if a.len() > 0 {
            assert(key_set(a).contains(be_value(a[0]@)));
        }
        if b.len() > 0 {
            assert(key_set(b).contains(be_value(b[0]@)));
        }
        assert(a =~= b);
    } else {
        let (m, n) = (a.len() - 1, b.len() - 1);
        let (x, y) = (be_value(a[m]@), be_value(b[n]@));
        assert(key_set(a).contains(x));
        assert(key_set(b).contains(y));
        let i = choose|i: int| 0 <= i < b.len() && be_value(#[trigger] b[i]@) == x;
        let j = choose|j: int| 0 <= j < a.len() && be_value(#[trigger] a[j]@) == y;
        assert(x == y);
        lemma_be_value_injective(a[m]@, b[n]@);
        assert(a[m] =~= b[n]);
        let (c, d) = (a.drop_last(), b.drop_last());
        assert forall|v: nat| key_set(c).contains(v) <==> key_set(d).contains(v) by {
            lemma_without_last(a, v);
            lemma_without_last(b, v);
        }
        assert(key_set(c) =~= key_set(d));
        key_list_is_determined(c, d);
        assert(a =~= c.push(a[m]));
        assert(b =~= d.push(b[n]));
    }
}

proof fn lemma_without_last(keys: Seq<B256>, v: nat)
    requires
        ascending(keys),
        keys.len() > 0,
    ensures
        key_set(keys.drop_last()).contains(v) <==> key_set(keys).contains(v) && v != be_value(
            keys.last()@,
        ),
{
    let short = keys.drop_last();
    if key_set(short).contains(v) {
        let i = choose|i: int| 0 <= i < short.len() && be_value(#[trigger] short[i]@) == v;
        assert(keys[i] == short[i]);
    }
    if key_set(keys).contains(v) && v != be_value(keys.last()@) {
        let i = choose|i: int| 0 <= i < keys.len() && be_value(#[trigger] keys[i]@) == v;
        assert(short[i] == keys[i]);
    }
}

} // verus!
