//! What reading and replaying transactions amounts to, said of the transactions, their environments
//! and the accounts themselves.

use crate::bundle::{covered_accounts, BundleAccount, BundleState, RootScope};
use crate::bundle_laws::{lemma_copy_of, lemma_overridden, lemma_source_of};
use crate::header::BlockHeader;
use crate::primitives::{Address, B256};
use crate::replay::{Replay, ReplayStep, RootVerdict};
use crate::transaction::{
    access_list_view, all_senders, block_env, decoded_access_list, decoded_fields,
    effective_gas_price, hash_views, optional_access_list, recovered_signer, replays_in, tx_env,
    AccessListItem, AccessListItemView, BlockEnv, Fees, Transaction, TxEnv, TxFields, TxFieldsView,
};
use vstd::prelude::*;

verus! {

/// The signer of a transaction is the one recovered from its bytes.
pub proof fn a_signer_is_recovered_from_the_bytes(tx: Transaction, signer: Option<Address>)
    requires
        call_ensures(Transaction::recover_signer, (&tx,), signer),
    ensures
        signer is Some <==> recovered_signer(tx.encoded@) is Some,
        signer is Some ==> recovered_signer(tx.encoded@)->0 == signer->0@,
{
}

/// Whether these are the same hashes, byte for byte.
pub open spec fn same_hashes(hashes: Seq<B256>, bytes: Seq<Seq<u8>>) -> bool {
    &&& hashes.len() == bytes.len()
    &&& forall|i: int|
        #![trigger hashes[i]]
        #![trigger bytes[i]]
        0 <= i < hashes.len() ==> hashes[i]@ == bytes[i]
}

/// Whether these are the same entries of an access list, byte for byte.
pub open spec fn same_access_list(
    list: Seq<AccessListItem>,
    bytes: Seq<AccessListItemView>,
) -> bool {
    &&& list.len() == bytes.len()
    &&& forall|i: int|
        #![trigger list[i]]
        #![trigger bytes[i]]
        0 <= i < list.len() ==> list[i].address@ == bytes[i].address && same_hashes(
            list[i].storage_keys@,
            bytes[i].storage_keys,
        )
}

/// What is read of a transaction is what its bytes say, field for field; and a transaction with a
/// signer can be read.
pub proof fn a_transaction_is_read_field_for_field(tx: Transaction, fields: Option<TxFields>)
    requires
        call_ensures(Transaction::read, (&tx,), fields),
    ensures
        fields is Some <==> decoded_fields(tx.encoded@) is Some,
        recovered_signer(tx.encoded@) is Some ==> fields is Some,
        fields is Some ==> {
            let (read, said) = (fields->0, decoded_fields(tx.encoded@)->0);
            &&& read.tx_type == said.tx_type
            &&& read.nonce == said.nonce
            &&& read.gas_limit == said.gas_limit
            &&& read.gas_price == said.gas_price
            &&& read.max_fee_per_gas == said.max_fee_per_gas
            &&& read.max_priority_fee_per_gas == said.max_priority_fee_per_gas
            &&& read.to is Some <==> said.to is Some
            &&& read.to is Some ==> read.to->0@ == said.to->0
            &&& read.value.value() == said.value
            &&& read.input@ == said.input
            &&& read.blob_hashes is Some <==> said.blob_hashes is Some
            &&& read.blob_hashes is Some ==> read.blob_hashes->0@.len() == said.blob_hashes->0.len()
            &&& read.blob_hashes is Some ==> forall|i: int|
                #![trigger read.blob_hashes->0@[i]]
                0 <= i < read.blob_hashes->0@.len() ==> read.blob_hashes->0@[i]@
                    == said.blob_hashes->0[i]
            &&& read.max_fee_per_blob_gas == said.max_fee_per_blob_gas
        },
{
    if fields is Some {
        let (read, said) = (fields->0, decoded_fields(tx.encoded@)->0);
        assert(read@ == said);
    }
}

/// The access list of a transaction is what its bytes say, entry for entry.
pub proof fn an_access_list_is_read_entry_for_entry(
    tx: Transaction,
    list: Option<Vec<AccessListItem>>,
)
    requires
        call_ensures(Transaction::read_access_list, (&tx,), list),
    ensures
        list is Some <==> decoded_access_list(tx.encoded@) is Some,
        list is Some ==> {
            let (read, said) = (list->0@, decoded_access_list(tx.encoded@)->0);
            &&& read.len() == said.len()
            &&& forall|i: int|
                #![trigger read[i]]
                0 <= i < read.len() ==> {
                    &&& read[i].address@ == said[i].address
                    &&& read[i].storage_keys@.len() == said[i].storage_keys.len()
                    &&& forall|k: int|
                        #![trigger read[i].storage_keys@[k]]
                        0 <= k < read[i].storage_keys@.len() ==> read[i].storage_keys@[k]@
                            == said[i].storage_keys[k]
                }
        },
{
    if list is Some {
        lemma_access_list(list->0@);
    }
}

proof fn lemma_access_list(list: Seq<AccessListItem>)
    ensures
        same_access_list(list, access_list_view(list)),
{
    let bytes = access_list_view(list);
    assert forall|i: int| #![trigger list[i]] 0 <= i < list.len() implies list[i].address@
        == bytes[i].address && same_hashes(list[i].storage_keys@, bytes[i].storage_keys) by {
        assert(bytes[i] == list[i]@);
    }
}

/// The senders are all there exactly if each is, and they come in their order.
pub proof fn senders_are_complete_and_in_order(
    recovered: Vec<Option<Address>>,
    senders: Option<Vec<Address>>,
)
    requires
        call_ensures(all_senders, (recovered,), senders),
    ensures
        senders is Some <==> !exists|i: int|
            0 <= i < recovered@.len() && (#[trigger] recovered@[i]) is None,
        senders is Some ==> senders->0@.len() == recovered@.len() && forall|i: int|
            #![trigger recovered@[i]]
            0 <= i < recovered@.len() ==> recovered@[i] == Some(senders->0@[i]),
{
    if senders is Some {
        let list = senders->0;
        assert forall|i: int| #![trigger recovered@[i]] 0 <= i < recovered@.len() implies
            recovered@[i] == Some(list@[i]) by {
            let sender = list[i];
            assert(recovered[i] == Some(list[i]));
        }
        assert forall|i: int| 0 <= i < recovered@.len() implies !((
        #[trigger] recovered@[i]) is None) by {
            assert(recovered[i] is Some);
        }
    } else {
        assert(exists|i: int| 0 <= i < recovered.len() && (#[trigger] recovered[i]) is None);
        let i = choose|i: int| 0 <= i < recovered.len() && (#[trigger] recovered[i]) is None;
        assert(recovered@[i] is None);
    }
}

/// A fixed price is paid as it is. Dynamic fees pay the maximum where there is no base fee, and
/// otherwise the lesser of the maximum and of base fee and tip together.
pub proof fn gas_is_paid_as_offered(fees: Fees, base_fee: Option<u64>, price: u128)
    requires
        call_ensures(effective_gas_price, (fees, base_fee), price),
    ensures
        fees matches Fees::Fixed { gas_price } ==> price == gas_price,
        fees matches Fees::Dynamic { max_fee_per_gas, max_priority_fee_per_gas } ==> {
            &&& price <= max_fee_per_gas
            &&& base_fee is None ==> price == max_fee_per_gas
            &&& base_fee is Some ==> price <= max_priority_fee_per_gas + base_fee->0 || price
                == max_fee_per_gas
            &&& base_fee is Some && max_fee_per_gas <= max_priority_fee_per_gas + base_fee->0
                ==> price == max_fee_per_gas
            &&& base_fee is Some && max_priority_fee_per_gas + base_fee->0 <= max_fee_per_gas
                ==> price == max_priority_fee_per_gas + base_fee->0
        },
{
}

/// Whether the price is what these getters of a transaction call for.
pub open spec fn pays(
    gas_price: Option<u128>,
    max_fee: u128,
    tip: Option<u128>,
    base_fee: Option<u64>,
    price: u128,
) -> bool {
    let offered_tip: int = if tip is Some {
        tip->0 as int
    } else {
        0
    };
    &&& gas_price is Some ==> price == gas_price->0
    &&& gas_price is None && base_fee is None ==> price == max_fee
    &&& gas_price is None && base_fee is Some && max_fee <= offered_tip + base_fee->0 ==> price
        == max_fee
    &&& gas_price is None && base_fee is Some && offered_tip + base_fee->0 <= max_fee ==> price
        == offered_tip + base_fee->0
}

/// Whether the environment says what the transaction says, whole and unchanged.
pub open spec fn env_says(
    tx: TxFields,
    access_list: Option<Vec<AccessListItem>>,
    caller: Address,
    base_fee: Option<u64>,
    env: TxEnv,
) -> bool {
    &&& env.caller@ == caller@
    &&& env.nonce == tx.nonce
    &&& env.gas_limit == tx.gas_limit
    &&& env.value.value() == tx.value.value()
    &&& env.data@.len() == tx.input@.len()
    &&& forall|i: int| 0 <= i < tx.input@.len() ==> #[trigger] env.data@[i] == tx.input@[i]
    &&& env.gas_priority_fee == tx.max_priority_fee_per_gas
    &&& pays(
        tx.gas_price,
        tx.max_fee_per_gas,
        tx.max_priority_fee_per_gas,
        base_fee,
        env.gas_price,
    )
    &&& tx.max_fee_per_blob_gas is Some ==> env.max_fee_per_blob_gas == tx.max_fee_per_blob_gas->0
    &&& tx.max_fee_per_blob_gas is None ==> env.max_fee_per_blob_gas == u128::MAX
    &&& env.chain_id == Some(1u64)
    &&& tx.to is None <==> env.kind is Create
    &&& tx.to is Some ==> env.kind is Call && env.kind->Call_0@ == tx.to->0@
    &&& tx.tx_type == 3 ==> env.tx_type == 3
    &&& tx.tx_type != 3 ==> env.tx_type == 0
    &&& tx.blob_hashes is None ==> env.blob_hashes@.len() == 0
    &&& tx.blob_hashes is Some ==> env.blob_hashes@.len() == tx.blob_hashes->0@.len() && forall|
        i: int,
    |
        #![trigger env.blob_hashes@[i]]
        0 <= i < env.blob_hashes@.len() ==> env.blob_hashes@[i]@ == tx.blob_hashes->0@[i]@
    &&& access_list is None ==> env.access_list@.len() == 0
    &&& access_list is Some ==> env.access_list@.len() == access_list->0@.len() && forall|i: int|
        #![trigger env.access_list@[i]]
        0 <= i < env.access_list@.len() ==> same_item(
            env.access_list@[i],
            access_list->0@[i],
        )
}

proof fn lemma_env_says(
    tx: TxFields,
    access_list: Option<Vec<AccessListItem>>,
    caller: Address,
    base_fee: Option<u64>,
    env: TxEnv,
)
    requires
        replays_in(
            tx@,
            optional_access_list(access_list),
            caller@,
            base_fee,
            env,
        ),
    ensures
        env_says(tx, access_list, caller, base_fee, env),
{
    if access_list is Some {
        let (given, set) = (access_list->0@, env.access_list@);
        let views = access_list_view(given);
        assert(access_list_view(set) == views);
        assert(set.len() == access_list_view(set).len());
        assert(given.len() == views.len());
        assert forall|i: int| #![trigger set[i]] 0 <= i < set.len() implies same_item(
            set[i],
            given[i],
        ) by {
            assert(access_list_view(set)[i] == views[i]);
            assert(set[i]@ == given[i]@);
            lemma_same_item(set[i], given[i]);
        }
    } else {
        assert(env.access_list@.len() == access_list_view(
            env.access_list@,
        ).len());
    }
    let set = hash_views(env.blob_hashes@);
    assert(set.len() == env.blob_hashes@.len());
    if tx.blob_hashes is Some {
        let given = hash_views(tx.blob_hashes->0@);
        assert(set == given);
        assert(given.len() == tx.blob_hashes->0@.len());
        assert forall|i: int|
            #![trigger env.blob_hashes@[i]]
            0 <= i < env.blob_hashes@.len() implies env.blob_hashes@[i]@
            == tx.blob_hashes->0@[i]@ by {
            assert(set[i] == given[i]);
        }
    }
}

/// The environment of a transaction says what the transaction says, whole and unchanged.
pub proof fn an_environment_says_what_the_transaction_says(
    tx: TxFields,
    access_list: Option<Vec<AccessListItem>>,
    caller: Address,
    base_fee: Option<u64>,
    env: TxEnv,
)
    requires
        call_ensures(tx_env, (tx, access_list, caller, base_fee), env),
    ensures
        env.caller@ == caller@,
        env.nonce == tx.nonce,
        env.gas_limit == tx.gas_limit,
        env.value.value() == tx.value.value(),
        env.data@.len() == tx.input@.len(),
        forall|i: int| 0 <= i < tx.input@.len() ==> #[trigger] env.data@[i] == tx.input@[i],
        env.gas_priority_fee == tx.max_priority_fee_per_gas,
        tx.gas_price is Some ==> env.gas_price == tx.gas_price->0,
        tx.gas_price is None && base_fee is None ==> env.gas_price == tx.max_fee_per_gas,
        tx.gas_price is None && base_fee is Some && tx.max_priority_fee_per_gas is Some
            && tx.max_fee_per_gas <= tx.max_priority_fee_per_gas->0 + base_fee->0
            ==> env.gas_price == tx.max_fee_per_gas,
        tx.gas_price is None && base_fee is Some && tx.max_priority_fee_per_gas is Some
            && tx.max_priority_fee_per_gas->0 + base_fee->0 <= tx.max_fee_per_gas
            ==> env.gas_price == tx.max_priority_fee_per_gas->0 + base_fee->0,
        tx.gas_price is None && base_fee is Some && tx.max_priority_fee_per_gas is None ==> {
            &&& base_fee->0 <= tx.max_fee_per_gas ==> env.gas_price == base_fee->0
            &&& tx.max_fee_per_gas <= base_fee->0 ==> env.gas_price == tx.max_fee_per_gas
        },
        tx.max_fee_per_blob_gas is Some ==> env.max_fee_per_blob_gas == tx.max_fee_per_blob_gas->0,
        tx.max_fee_per_blob_gas is None ==> env.max_fee_per_blob_gas == u128::MAX,
        env.chain_id == Some(1u64),
        tx.to is None <==> env.kind is Create,
        tx.to is Some ==> env.kind is Call && env.kind->Call_0@ == tx.to->0@,
        tx.tx_type == 3 ==> env.tx_type == 3,
        tx.tx_type != 3 ==> env.tx_type == 0,
        tx.blob_hashes is None ==> env.blob_hashes@.len() == 0,
        tx.blob_hashes is Some ==> env.blob_hashes@.len() == tx.blob_hashes->0@.len(),
        tx.blob_hashes is Some ==> forall|i: int|
                #![trigger env.blob_hashes@[i]]
                0 <= i < env.blob_hashes@.len() ==> env.blob_hashes@[i]@ == tx.blob_hashes->0@[i]@,
        access_list is None ==> env.access_list@.len() == 0,
        access_list is Some ==> env.access_list@.len() == access_list->0@.len(),
        access_list is Some ==> forall|i: int|
                #![trigger env.access_list@[i]]
                0 <= i < env.access_list@.len() ==> {
                    &&& env.access_list@[i].address@ == access_list->0@[i].address@
                    &&& env.access_list@[i].storage_keys@.len() == access_list->0@[i].storage_keys@.len()
                    &&& forall|k: int|
                        #![trigger env.access_list@[i].storage_keys@[k]]
                        0 <= k < env.access_list@[i].storage_keys@.len() ==>
                            env.access_list@[i].storage_keys@[k]@ == access_list->0@[i].storage_keys@[k]@
                },
{
    lemma_env_says(tx, access_list, caller, base_fee, env);
}

/// Whether the entries name the same account and the same keys.
pub open spec fn same_item(a: AccessListItem, b: AccessListItem) -> bool {
    &&& a.address@ == b.address@
    &&& a.storage_keys@.len() == b.storage_keys@.len()
    &&& forall|k: int|
        #![trigger a.storage_keys@[k]]
        0 <= k < a.storage_keys@.len() ==> a.storage_keys@[k]@ == b.storage_keys@[k]@
}

proof fn lemma_same_item(a: AccessListItem, b: AccessListItem)
    requires
        a@ == b@,
    ensures
        same_item(a, b),
{
    let (x, y) = (a@.storage_keys, b@.storage_keys);
    assert(x.len() == a.storage_keys@.len() && y.len() == b.storage_keys@.len());
    assert forall|k: int|
        #![trigger a.storage_keys@[k]]
        0 <= k < a.storage_keys@.len() implies a.storage_keys@[k]@ == b.storage_keys@[k]@ by {
        assert(x[k] == y[k]);
    }
}

/// Whether the environment of a block says what its header says.
pub open spec fn block_as_in_header(header: BlockHeader, env: BlockEnv) -> bool {
    &&& env.number == header.number
    &&& env.beneficiary == header.beneficiary
    &&& env.timestamp == header.timestamp
    &&& env.difficulty == header.difficulty
    &&& env.gas_limit == header.gas_limit
    &&& header.base_fee_per_gas is Some ==> env.basefee == header.base_fee_per_gas->0
    &&& header.base_fee_per_gas is None ==> env.basefee == 0
    &&& env.excess_blob_gas == header.excess_blob_gas
    &&& env.prague <==> header.requests_hash is Some
}

/// The environment of a block is that of its header, and every transaction of a replay runs in it.
pub proof fn a_block_environment_is_that_of_the_header(
    header: BlockHeader,
    of_header: BlockEnv,
    replay: Replay,
    of_replay: BlockEnv,
)
    requires
        call_ensures(block_env, (&header,), of_header),
        call_ensures(Replay::env, (&replay,), of_replay),
    ensures
        block_as_in_header(header, of_header),
        block_as_in_header(replay.header, of_replay),
{
}

/// A replay starts with all transactions of the block ahead, in their order.
pub proof fn a_replay_starts_with_the_whole_block(
    header: BlockHeader,
    transactions: Vec<Transaction>,
    replay: Replay,
)
    requires
        call_ensures(Replay::new, (header, transactions), replay),
    ensures
        replay.header == header,
        replay.remaining@ == transactions@,
        replay.done == 0,
        !replay.stopped,
{
}

/// Whether the environment says what these fields of a transaction say, whole and unchanged.
pub open spec fn says_the_same(
    env: TxEnv,
    tx: TxFieldsView,
    access_list: Option<Seq<AccessListItemView>>,
    caller: Seq<u8>,
    base_fee: Option<u64>,
) -> bool {
    &&& env.caller@ == caller
    &&& env.nonce == tx.nonce
    &&& env.gas_limit == tx.gas_limit
    &&& env.value.value() == tx.value
    &&& env.data@.len() == tx.input.len()
    &&& forall|i: int| 0 <= i < tx.input.len() ==> #[trigger] env.data@[i] == tx.input[i]
    &&& env.gas_priority_fee == tx.max_priority_fee_per_gas
    &&& pays(
        tx.gas_price,
        tx.max_fee_per_gas,
        tx.max_priority_fee_per_gas,
        base_fee,
        env.gas_price,
    )
    &&& tx.max_fee_per_blob_gas is Some ==> env.max_fee_per_blob_gas
        == tx.max_fee_per_blob_gas->0
    &&& tx.max_fee_per_blob_gas is None ==> env.max_fee_per_blob_gas == u128::MAX
    &&& env.chain_id == Some(1u64)
    &&& tx.to is None <==> env.kind is Create
    &&& tx.to is Some ==> env.kind is Call && env.kind->Call_0@ == tx.to->0
    &&& tx.tx_type == 3 ==> env.tx_type == 3
    &&& tx.tx_type != 3 ==> env.tx_type == 0
    &&& tx.blob_hashes is None ==> env.blob_hashes@.len() == 0
    &&& tx.blob_hashes is Some ==> same_hashes(env.blob_hashes@, tx.blob_hashes->0)
    &&& access_list is None ==> env.access_list@.len() == 0
    &&& access_list is Some ==> same_access_list(env.access_list@, access_list->0)
}

proof fn lemma_says_the_same(
    tx: TxFieldsView,
    access_list: Option<Seq<AccessListItemView>>,
    caller: Seq<u8>,
    base_fee: Option<u64>,
    env: TxEnv,
)
    requires
        replays_in(tx, access_list, caller, base_fee, env),
    ensures
        says_the_same(env, tx, access_list, caller, base_fee),
{
    let (items, hashes) = (env.access_list@, env.blob_hashes@);
    assert(items.len() == access_list_view(items).len());
    assert(hashes.len() == hash_views(hashes).len());
    lemma_access_list(items);
    if tx.blob_hashes is Some {
        let views = hash_views(hashes);
        assert forall|i: int| #![trigger hashes[i]] 0 <= i < hashes.len() implies hashes[i]@
            == views[i] by {}
    }
}

/// What a replay does with the transaction that is next, given what is known of it: it is executed
/// exactly if its signer and its fields are known, under its own number and in the environment that
/// says what it says; otherwise the replay stops. The transactions behind it stay, in their order.
pub proof fn a_step_replays_the_next_transaction(
    replay: &mut Replay,
    signer: Option<Address>,
    fields: Option<TxFields>,
    access_list: Option<Vec<AccessListItem>>,
    step: ReplayStep,
)
    requires
        old(replay).remaining@.len() > 0,
        call_ensures(Replay::step, (replay, signer, fields, access_list), step),
    ensures
        signer is Some && fields is Some ==> {
            let (env, tx) = (step->env, fields->0);
            let base_fee = old(replay).header.base_fee_per_gas;
            &&& step is Execute
            &&& step->Execute_index == old(replay).done
            &&& !final(replay).stopped
            &&& env.caller@ == signer->0@
            &&& env.nonce == tx.nonce
            &&& env.gas_limit == tx.gas_limit
            &&& env.value.value() == tx.value.value()
            &&& env.data@.len() == tx.input@.len()
            &&& forall|i: int| 0 <= i < tx.input@.len() ==> #[trigger] env.data@[i] == tx.input@[i]
            &&& env.gas_priority_fee == tx.max_priority_fee_per_gas
            &&& tx.gas_price is Some ==> env.gas_price == tx.gas_price->0
            &&& tx.gas_price is None && base_fee is None ==> env.gas_price == tx.max_fee_per_gas
            &&& tx.gas_price is None && base_fee is Some && tx.max_priority_fee_per_gas is Some
                && tx.max_fee_per_gas <= tx.max_priority_fee_per_gas->0 + base_fee->0
                ==> env.gas_price == tx.max_fee_per_gas
            &&& tx.gas_price is None && base_fee is Some && tx.max_priority_fee_per_gas is Some
                && tx.max_priority_fee_per_gas->0 + base_fee->0 <= tx.max_fee_per_gas
                ==> env.gas_price == tx.max_priority_fee_per_gas->0 + base_fee->0
            &&& tx.gas_price is None && base_fee is Some && tx.max_priority_fee_per_gas is None
                ==> {
                &&& base_fee->0 <= tx.max_fee_per_gas ==> env.gas_price == base_fee->0
                &&& tx.max_fee_per_gas <= base_fee->0 ==> env.gas_price == tx.max_fee_per_gas
            }
            &&& tx.max_fee_per_blob_gas is Some
                ==> env.max_fee_per_blob_gas == tx.max_fee_per_blob_gas->0
            &&& tx.max_fee_per_blob_gas is None ==> env.max_fee_per_blob_gas == u128::MAX
            &&& env.chain_id == Some(1u64)
            &&& tx.to is None <==> env.kind is Create
            &&& tx.to is Some ==> env.kind is Call && env.kind->Call_0@ == tx.to->0@
            &&& tx.tx_type == 3 ==> env.tx_type == 3
            &&& tx.tx_type != 3 ==> env.tx_type == 0
            &&& tx.blob_hashes is None ==> env.blob_hashes@.len() == 0
            &&& tx.blob_hashes is Some ==> env.blob_hashes@.len() == tx.blob_hashes->0@.len()
            &&& tx.blob_hashes is Some ==> forall|i: int|
                    #![trigger env.blob_hashes@[i]]
                    0 <= i < env.blob_hashes@.len()
                        ==> env.blob_hashes@[i]@ == tx.blob_hashes->0@[i]@
            &&& access_list is None ==> env.access_list@.len() == 0
            &&& access_list is Some ==> env.access_list@.len() == access_list->0@.len()
            &&& access_list is Some ==> forall|i: int|
                    #![trigger env.access_list@[i]]
                    0 <= i < env.access_list@.len() ==> {
                        &&& env.access_list@[i].address@ == access_list->0@[i].address@
                        &&& env.access_list@[i].storage_keys@.len() == access_list->0@[i].storage_keys@.len()
                        &&& forall|k: int|
                            #![trigger env.access_list@[i].storage_keys@[k]]
                            0 <= k < env.access_list@[i].storage_keys@.len() ==>
                                env.access_list@[i].storage_keys@[k]@ == access_list->0@[i].storage_keys@[k]@
                    }
        },
        signer is None || fields is None ==> {
            &&& step is NoSigner
            &&& step->NoSigner_index == old(replay).done
            &&& final(replay).stopped
        },
        final(replay).header == old(replay).header,
        final(replay).done == old(replay).done + 1,
        final(replay).remaining@.len() == old(replay).remaining@.len() - 1,
        forall|i: int|
            0 <= i < final(replay).remaining@.len() ==> #[trigger] final(replay).remaining@[i]
                == old(replay).remaining@[i + 1],
{
    if signer is Some && fields is Some {
        lemma_env_says(
            fields->0,
            access_list,
            signer->0,
            replay.header.base_fee_per_gas,
            step->env,
        );
    }
}

/// What a replay does next: the first transaction ahead is executed exactly if its bytes have a
/// signer, under its own number, by that signer, and in an environment that says what its bytes
/// say; without a signer the replay stops; with no transaction ahead it is finished and stays as it
/// is. The transactions behind stay, in their order.
pub proof fn a_replay_executes_what_the_bytes_say(replay: &mut Replay, step: ReplayStep)
    requires
        call_ensures(Replay::next, (replay,), step),
    ensures
        old(replay).remaining@.len() == 0 ==> step is Finished && *final(replay) == *old(replay),
        old(replay).remaining@.len() > 0 ==> {
            let bytes = old(replay).remaining@[0].encoded@;
            &&& recovered_signer(bytes) is Some ==> {
                let (env, tx) = (step->env, decoded_fields(bytes)->0);
                let access_list = decoded_access_list(bytes);
                let base_fee = old(replay).header.base_fee_per_gas;
                &&& step is Execute
                &&& step->Execute_index == old(replay).done
                &&& decoded_fields(bytes) is Some
                &&& !final(replay).stopped
                &&& env.caller@ == recovered_signer(bytes)->0
                &&& env.nonce == tx.nonce
                &&& env.gas_limit == tx.gas_limit
                &&& env.value.value() == tx.value
                &&& env.data@.len() == tx.input.len()
                &&& forall|i: int| 0 <= i < tx.input.len()
                    ==> #[trigger] env.data@[i] == tx.input[i]
                &&& env.gas_priority_fee == tx.max_priority_fee_per_gas
                &&& tx.gas_price is Some ==> env.gas_price == tx.gas_price->0
                &&& tx.gas_price is None && base_fee is None ==> env.gas_price == tx.max_fee_per_gas
                &&& tx.gas_price is None && base_fee is Some && tx.max_priority_fee_per_gas is Some
                    && tx.max_fee_per_gas <= tx.max_priority_fee_per_gas->0 + base_fee->0
                    ==> env.gas_price == tx.max_fee_per_gas
                &&& tx.gas_price is None && base_fee is Some && tx.max_priority_fee_per_gas is Some
                    && tx.max_priority_fee_per_gas->0 + base_fee->0 <= tx.max_fee_per_gas
                    ==> env.gas_price == tx.max_priority_fee_per_gas->0 + base_fee->0
                &&& tx.gas_price is None && base_fee is Some && tx.max_priority_fee_per_gas is None
                    ==> {
                    &&& base_fee->0 <= tx.max_fee_per_gas ==> env.gas_price == base_fee->0
                    &&& tx.max_fee_per_gas <= base_fee->0 ==> env.gas_price == tx.max_fee_per_gas
                }
                &&& tx.max_fee_per_blob_gas is Some
                    ==> env.max_fee_per_blob_gas == tx.max_fee_per_blob_gas->0
                &&& tx.max_fee_per_blob_gas is None ==> env.max_fee_per_blob_gas == u128::MAX
                &&& env.chain_id == Some(1u64)
                &&& tx.to is None <==> env.kind is Create
                &&& tx.to is Some ==> env.kind is Call && env.kind->Call_0@ == tx.to->0
                &&& tx.tx_type == 3 ==> env.tx_type == 3
                &&& tx.tx_type != 3 ==> env.tx_type == 0
                &&& tx.blob_hashes is None ==> env.blob_hashes@.len() == 0
                &&& tx.blob_hashes is Some ==> env.blob_hashes@.len() == tx.blob_hashes->0.len()
                &&& tx.blob_hashes is Some ==> forall|i: int|
                        #![trigger env.blob_hashes@[i]]
                        0 <= i < env.blob_hashes@.len()
                            ==> env.blob_hashes@[i]@ == tx.blob_hashes->0[i]
                &&& access_list is None ==> env.access_list@.len() == 0
                &&& access_list is Some ==> env.access_list@.len() == access_list->0.len()
                &&& access_list is Some ==> forall|i: int|
                        #![trigger env.access_list@[i]]
                        0 <= i < env.access_list@.len() ==> {
                            &&& env.access_list@[i].address@ == access_list->0[i].address
                            &&& env.access_list@[i].storage_keys@.len() == access_list->0[i].storage_keys.len()
                            &&& forall|k: int|
                                #![trigger env.access_list@[i].storage_keys@[k]]
                                0 <= k < env.access_list@[i].storage_keys@.len() ==>
                                    env.access_list@[i].storage_keys@[k]@ == access_list->0[i].storage_keys[k]
                        }
            }
            &&& recovered_signer(bytes) is None ==> {
                &&& step is NoSigner
                &&& step->NoSigner_index == old(replay).done
                &&& final(replay).stopped
            }
            &&& final(replay).header == old(replay).header
            &&& final(replay).done == old(replay).done + 1
            &&& final(replay).remaining@.len() == old(replay).remaining@.len() - 1
            &&& forall|i: int|
                0 <= i < final(replay).remaining@.len() ==> #[trigger] final(replay).remaining@[i]
                    == old(replay).remaining@[i + 1]
        },
{
    if replay.remaining@.len() > 0 {
        let tx = replay.remaining[0];
        let bytes = tx.encoded@;
        if recovered_signer(bytes) is Some {
            lemma_says_the_same(
                decoded_fields(bytes)->0,
                decoded_access_list(bytes),
                recovered_signer(bytes)->0,
                replay.header.base_fee_per_gas,
                step->env,
            );
        }
    }
}

/// Every changed account that the replay's root covers enters it, with its address, every slot and
/// value that was written to it, and its fate; and with what the state holds of it, but for the
/// balance of the one account that is set. The place at which it stands comes of the proof.
pub proof fn a_covered_account_enters_the_root_whole(
    replay: Replay,
    bundle: BundleState,
    kept: BundleState,
    i: int,
) -> (k: int)
    requires
        call_ensures(Replay::root_state, (&replay, bundle), kept),
        0 <= i < bundle.accounts@.len(),
        call_ensures(
            RootScope::includes,
            (RootScope::Replay, &bundle.accounts@[i].address),
            true,
        ),
    ensures
        0 <= k < kept.accounts@.len(),
        kept.accounts@[k].address@ == bundle.accounts@[i].address@,
        kept.accounts@[k].destroyed == bundle.accounts@[i].destroyed,
        kept.accounts@[k].storage@.len() == bundle.accounts@[i].storage@.len(),
        forall|n: int|
            #![trigger kept.accounts@[k].storage@[n]]
            0 <= n < kept.accounts@[k].storage@.len() ==> kept.accounts@[k].storage@[n].slot
                == bundle.accounts@[i].storage@[n].slot && kept.accounts@[k].storage@[n].present
                == bundle.accounts@[i].storage@[n].present,
        kept.accounts@[k].info is Some <==> bundle.accounts@[i].info is Some,
        bundle.accounts@[i].info is Some ==> {
            let (before, after) = (bundle.accounts@[i].info->0, kept.accounts@[k].info->0);
            &&& after.nonce == before.nonce
            &&& after.code_hash == before.code_hash
            &&& bundle.accounts@[i].address@ == seq![
                    0x00u8, 0x00, 0x00, 0x62, 0x9f, 0xbc, 0xf2, 0x7a, 0x34, 0x7d,
                    0x1a, 0xeb, 0xa6, 0x58, 0x43, 0x52, 0x30, 0xd7, 0x4a, 0x5f,
                ] ==> after.balance.value()
                == 63298440508785708615
            &&& bundle.accounts@[i].address@ != seq![
                    0x00u8, 0x00, 0x00, 0x62, 0x9f, 0xbc, 0xf2, 0x7a, 0x34, 0x7d,
                    0x1a, 0xeb, 0xa6, 0x58, 0x43, 0x52, 0x30, 0xd7, 0x4a, 0x5f,
                ] ==> after.balance == before.balance
        },
{
    let keep = |account: BundleAccount| RootScope::Replay.covers(account.address@);
    let (all, listed) = (bundle.accounts@, covered_accounts(bundle.accounts@, RootScope::Replay));
    assert(listed == all.filter(keep));
    all.lemma_filter_contains(keep, i);
    let k = choose|k: int| 0 <= k < listed.len() && listed[k] == all[i];
    lemma_overridden(all[i].address@);
    let after = kept.accounts[k];
    k
}

/// What enters the replay's root is a changed account that it covers, and none enters twice. The
/// place from which it comes comes of the proof.
pub proof fn only_covered_accounts_enter_the_root(
    replay: Replay,
    bundle: BundleState,
    kept: BundleState,
    k: int,
    included: bool,
) -> (i: int)
    requires
        call_ensures(Replay::root_state, (&replay, bundle), kept),
        0 <= k < kept.accounts@.len(),
        call_ensures(
            RootScope::includes,
            (RootScope::Replay, &kept.accounts@[k].address),
            included,
        ),
    ensures
        included,
        0 <= i < bundle.accounts@.len(),
        bundle.accounts@[i].address@ == kept.accounts@[k].address@,
        forall|m: int, n: int|
            #![trigger kept.accounts@[m], kept.accounts@[n]]
            0 <= m < n < kept.accounts@.len() ==> kept.accounts@[m].address@
                != kept.accounts@[n].address@,
{
    let keep = |account: BundleAccount| RootScope::Replay.covers(account.address@);
    let (all, listed) = (bundle.accounts@, covered_accounts(bundle.accounts@, RootScope::Replay));
    assert(listed == all.filter(keep));
    let after = kept.accounts[k];
    all.lemma_filter_pred(keep, k);
    all.lemma_filter_contains_rev(keep, listed[k]);
    assert forall|m: int, n: int|
        #![trigger kept.accounts@[m], kept.accounts@[n]]
        0 <= m < n < kept.accounts@.len() implies kept.accounts@[m].address@
        != kept.accounts@[n].address@ by {
        assert(kept.accounts[m].address@ != kept.accounts[n].address@);
    }
    choose|i: int| 0 <= i < all.len() && all[i] == listed[k]
}

/// Every changed account on the host's list enters the report of a replay whole. The place at which
/// it stands comes of the proof.
pub proof fn a_listed_account_is_reported_whole(
    replay: Replay,
    bundle: BundleState,
    reported: BundleState,
    i: int,
) -> (k: int)
    requires
        call_ensures(Replay::reported_state, (&replay, &bundle), reported),
        0 <= i < bundle.accounts@.len(),
        call_ensures(RootScope::includes, (RootScope::Host, &bundle.accounts@[i].address), true),
    ensures
        0 <= k < reported.accounts@.len(),
        reported.accounts@[k].address@ == bundle.accounts@[i].address@,
        reported.accounts@[k].info == bundle.accounts@[i].info,
        reported.accounts@[k].storage@ == bundle.accounts@[i].storage@,
        reported.accounts@[k].destroyed == bundle.accounts@[i].destroyed,
{
    lemma_copy_of(bundle.accounts@, RootScope::Host, reported.accounts@, i)
}

/// What a replay reports is a changed account on the host's list, whole. The place from which it
/// comes comes of the proof.
pub proof fn only_listed_accounts_are_reported(
    replay: Replay,
    bundle: BundleState,
    reported: BundleState,
    k: int,
    included: bool,
) -> (i: int)
    requires
        call_ensures(Replay::reported_state, (&replay, &bundle), reported),
        0 <= k < reported.accounts@.len(),
        call_ensures(
            RootScope::includes,
            (RootScope::Host, &reported.accounts@[k].address),
            included,
        ),
    ensures
        included,
        0 <= i < bundle.accounts@.len(),
        reported.accounts@[k].address@ == bundle.accounts@[i].address@,
        reported.accounts@[k].info == bundle.accounts@[i].info,
        reported.accounts@[k].storage@ == bundle.accounts@[i].storage@,
        reported.accounts@[k].destroyed == bundle.accounts@[i].destroyed,
{
    lemma_source_of(bundle.accounts@, RootScope::Host, reported.accounts@, k)
}

/// The verdict on a root: it matches exactly if it agrees with the header's in every byte, and both
/// are shown as they are.
pub proof fn a_root_matches_if_it_is_the_headers(
    replay: Replay,
    calculated: B256,
    verdict: RootVerdict,
)
    requires
        call_ensures(Replay::verdict, (&replay, calculated), verdict),
    ensures
        verdict.calculated == calculated,
        verdict.actual == replay.header.state_root,
        verdict.matches <==> forall|i: int|
            0 <= i < 32 ==> #[trigger] calculated@[i] == replay.header.state_root@[i],
{
    if forall|i: int|
        0 <= i < 32 ==> #[trigger] calculated@[i] == replay.header.state_root@[i] {
        assert(calculated@ =~= replay.header.state_root@);
    }
}

} // verus!
