//! What each phase of host execution makes of its answer, said of the blocks, receipts, accounts,
//! proofs and headers themselves.

use crate::bloom::logs_bloom;
use crate::bundle::{written_slots, RootScope};
use crate::bundle_laws::{lemma_account_of, lemma_copy_of, lemma_source_of};
use crate::bytes::be_value;
use crate::components::ExecutorComponents;
use crate::error::HostError;
use crate::header::{derive_header, header_hash, BlockHeader};
use crate::host_executor::{
    recover_senders, AccountRequests, AncestorRange, Ancestors, Block, BlockExecution,
    BlockTransaction, ClientExecutorInput, CurrentBlock, EthEvmConfig, EthHostExecutor,
    ExecutionOutput, HostExecutor, OpEvmConfig, OpHostExecutor, ParentState, PostExecution,
    PreviousBlock, ProofCollection, ProofRequest, SenderRecovery, StateAccess, StateRoot,
};
use crate::primitives::{Address, Bloom, B256};
use crate::storage_keys::{key_set, slot_set};
use crate::transaction::recovered_signer;
use std::sync::Arc;
use vstd::prelude::*;

verus! {

/// An executor keeps the rules that it was created with.
pub proof fn a_host_executor_keeps_its_rules<EvmConfig, ChainSpec>(
    evm_config: EvmConfig,
    executor: HostExecutor<EvmConfig>,
    chain_spec: Arc<ChainSpec>,
    beneficiary: Option<Address>,
    eth: HostExecutor<EthEvmConfig<ChainSpec>>,
    optimism: HostExecutor<OpEvmConfig<ChainSpec>>,
)
    requires
        call_ensures(HostExecutor::<EvmConfig>::new, (evm_config,), executor),
        call_ensures(EthHostExecutor::<ChainSpec>::eth, (chain_spec, beneficiary), eth),
        call_ensures(OpHostExecutor::<ChainSpec>::optimism, (chain_spec,), optimism),
    ensures
        executor.evm_config == evm_config,
        eth.evm_config.chain_spec == chain_spec,
        eth.evm_config.custom_beneficiary == beneficiary,
        optimism.evm_config.chain_spec == chain_spec,
{
}

/// A run starts with the job as it was given, and asks for the block of that number.
pub proof fn a_run_starts_with_its_job<EvmConfig, C: ExecutorComponents>(
    executor: HostExecutor<EvmConfig>,
    block_number: u64,
    genesis: C::Genesis,
    beneficiary: Option<Address>,
    tracking: bool,
    phase: CurrentBlock<C>,
    number: u64,
)
    requires
        call_ensures(
            HostExecutor::<EvmConfig>::execute::<C>,
            (&executor, block_number, genesis, beneficiary, tracking),
            phase,
        ),
        call_ensures(CurrentBlock::<C>::number, (&phase,), number),
    ensures
        phase.job.block_number == block_number,
        phase.job.genesis == genesis,
        phase.job.custom_beneficiary == beneficiary,
        phase.job.opcode_tracking == tracking,
        number == block_number,
{
}

/// The block that was fetched is taken as it is, and then the block before it is asked for. A
/// missing block is reported under its number, and an error as it came.
pub proof fn the_fetched_block_is_taken<C: ExecutorComponents>(
    prior: CurrentBlock<C>,
    fetched: Result<Option<Block<C>>, C::Error>,
    next: Result<PreviousBlock<C>, HostError<C::Error>>,
    number: u64,
)
    requires
        call_ensures(CurrentBlock::<C>::on_block, (prior, fetched), next),
        next is Ok ==> call_ensures(PreviousBlock::<C>::number, (&next->Ok_0,), number),
    ensures
        next is Ok <==> fetched is Ok && fetched->Ok_0 is Some,
        next is Ok ==> {
            &&& next->Ok_0.job == prior.job
            &&& next->Ok_0.current == fetched->Ok_0->0
            &&& number + 1 == prior.job.block_number
        },
        fetched is Ok && fetched->Ok_0 is None ==> next->Err_0 == HostError::<
            C::Error,
        >::ExpectedBlock(prior.job.block_number),
        fetched is Err ==> next->Err_0 == HostError::<C::Error>::Outside(fetched->Err_0),
{
}

/// The state root of the block before is the parent's root. A block before that is missing is
/// reported under the number of the block itself, and an error as it came.
pub proof fn the_parent_root_is_that_of_the_block_before<C: ExecutorComponents>(
    prior: PreviousBlock<C>,
    fetched: Result<Option<BlockHeader>, C::Error>,
    next: Result<SenderRecovery<C>, HostError<C::Error>>,
)
    requires
        call_ensures(PreviousBlock::<C>::on_block, (prior, fetched), next),
    ensures
        next is Ok <==> fetched is Ok && fetched->Ok_0 is Some,
        next is Ok ==> {
            &&& next->Ok_0.job == prior.job
            &&& next->Ok_0.current == prior.current
            &&& next->Ok_0.parent_root == fetched->Ok_0->0.state_root
        },
        fetched is Ok && fetched->Ok_0 is None ==> next->Err_0 == HostError::<
            C::Error,
        >::ExpectedBlock(prior.job.block_number),
        fetched is Err ==> next->Err_0 == HostError::<C::Error>::Outside(fetched->Err_0),
{
}

/// The sender of a signed transaction is the signer of its bytes; that of a deposit is the one that
/// it names.
pub proof fn a_sender_signs_or_is_named(tx: BlockTransaction, sender: Option<Address>)
    requires
        call_ensures(BlockTransaction::recover_sender, (&tx,), sender),
    ensures
        tx is Signed ==> (sender is Some <==> recovered_signer(tx->Signed_0.encoded@) is Some),
        tx is Signed && sender is Some ==> recovered_signer(tx->Signed_0.encoded@)->0
            == sender->0@,
        tx is Deposit ==> sender is Some && sender->0@ == tx->from@,
{
}

/// Senders are recovered exactly if every signed transaction has a signer: one for each
/// transaction, in their order.
pub proof fn every_transaction_has_its_sender(
    transactions: Vec<BlockTransaction>,
    senders: Option<Vec<Address>>,
    i: int,
)
    requires
        call_ensures(recover_senders, (&transactions,), senders),
        0 <= i < transactions@.len(),
    ensures
        senders is Some ==> {
            &&& senders->0@.len() == transactions@.len()
            &&& transactions@[i] is Signed ==> recovered_signer(
                transactions@[i]->Signed_0.encoded@,
            ) == Some(senders->0@[i]@)
            &&& transactions@[i] is Deposit ==> senders->0@[i]@ == transactions@[i]->from@
        },
        transactions@[i] is Signed && recovered_signer(transactions@[i]->Signed_0.encoded@) is None
            ==> senders is None,
        (forall|j: int|
            0 <= j < transactions@.len() ==> (#[trigger] transactions@[j]) is Deposit
                || recovered_signer(transactions@[j]->Signed_0.encoded@) is Some)
            ==> senders is Some,
{
    if senders is Some {
        let sender = senders->0@[i];
    }
    assert(transactions[i] == transactions@[i]);
    if forall|j: int|
        0 <= j < transactions@.len() ==> (#[trigger] transactions@[j]) is Deposit
            || recovered_signer(transactions@[j]->Signed_0.encoded@) is Some {
        assert forall|j: int| 0 <= j < transactions.len() implies (
        #[trigger] transactions[j]).sender() is Some by {
            assert(transactions@[j] == transactions[j]);
        }
    }
}

/// The block goes on to execution with a sender for each of its transactions, in their order; it
/// fails exactly where a signed transaction has no signer.
pub proof fn a_block_is_executed_with_its_senders<C: ExecutorComponents>(
    prior: SenderRecovery<C>,
    next: Result<BlockExecution<C>, HostError<C::Error>>,
    senders: Option<Vec<Address>>,
)
    requires
        call_ensures(SenderRecovery::<C>::recover, (prior,), next),
        call_ensures(recover_senders, (&prior.current.transactions,), senders),
    ensures
        next is Ok <==> senders is Some,
        next is Ok ==> {
            &&& next->Ok_0.job == prior.job
            &&& next->Ok_0.current == prior.current
            &&& next->Ok_0.parent_root == prior.parent_root
            &&& next->Ok_0.senders@.len() == senders->0@.len()
            &&& forall|i: int|
                0 <= i < senders->0@.len() ==> (#[trigger] next->Ok_0.senders@[i])@
                    == senders->0@[i]@
        },
        next is Err ==> next->Err_0 is FailedToRecoverSenders,
{
    if next is Ok {
        let (a, b) = (next->Ok_0.senders@, senders->0@);
        assert forall|i: int| 0 <= i < b.len() implies (#[trigger] a[i])@ == b[i]@ by {
            let sender = b[i];
        }
    }
}

/// What execution gave is taken as it is, and an error as it came.
pub proof fn the_output_is_taken_whole<C: ExecutorComponents>(
    prior: BlockExecution<C>,
    output: Result<ExecutionOutput, C::Error>,
    next: Result<PostExecution<C>, HostError<C::Error>>,
)
    requires
        call_ensures(BlockExecution::<C>::on_executed, (prior, output), next),
    ensures
        next is Ok <==> output is Ok,
        next is Ok ==> {
            &&& next->Ok_0.job == prior.job
            &&& next->Ok_0.current == prior.current
            &&& next->Ok_0.parent_root == prior.parent_root
            &&& next->Ok_0.output == output->Ok_0
        },
        output is Err ==> next->Err_0 == HostError::<C::Error>::Outside(output->Err_0),
{
}

/// After validation the changes are still whole, and the bloom is that of all receipts. An error of
/// validation ends the run as it came.
pub proof fn validation_leaves_the_changes_whole<C: ExecutorComponents>(
    prior: PostExecution<C>,
    verdict: Result<(), C::Error>,
    next: Result<StateAccess<C>, HostError<C::Error>>,
    bloom: Bloom,
)
    requires
        call_ensures(PostExecution::<C>::on_validated, (prior, verdict), next),
        call_ensures(logs_bloom, (&prior.output.receipts,), bloom),
    ensures
        next is Ok <==> verdict is Ok,
        next is Ok ==> {
            &&& next->Ok_0.job == prior.job
            &&& next->Ok_0.current == prior.current
            &&& next->Ok_0.parent_root == prior.parent_root
            &&& next->Ok_0.bundle == prior.output.bundle
            &&& next->Ok_0.logs_bloom@ == bloom@
        },
        verdict is Err ==> next->Err_0 == HostError::<C::Error>::Outside(verdict->Err_0),
{
}

/// The requests are taken as they come, and no proof is there yet.
pub proof fn proofs_are_collected_from_the_start<C: ExecutorComponents>(
    prior: StateAccess<C>,
    requests: Vec<AccountRequests>,
    phase: ProofCollection<C>,
)
    requires
        call_ensures(StateAccess::<C>::on_state_requests, (prior, requests), phase),
    ensures
        phase.job == prior.job,
        phase.current == prior.current,
        phase.parent_root == prior.parent_root,
        phase.logs_bloom == prior.logs_bloom,
        phase.bundle == prior.bundle,
        phase.requests == requests,
        phase.before@.len() == 0,
        phase.after@.len() == 0,
{
}

/// The next proof is that of the first account without both: first before the block, in the state
/// after the block before, then after it. None is asked for once every account has both.
pub proof fn the_next_proof_is_of_the_first_account_without<C: ExecutorComponents>(
    phase: ProofCollection<C>,
    request: Option<ProofRequest>,
)
    requires
        call_ensures(ProofCollection::<C>::next_request, (&phase,), request),
    ensures
        request is None <==> phase.after@.len() == phase.requests@.len(),
        request is Some ==> {
            &&& request->0.address == phase.requests@[phase.after@.len() as int].address
            &&& phase.before@.len() == phase.after@.len() ==> request->0.block + 1
                == phase.job.block_number
            &&& phase.before@.len() != phase.after@.len() ==> request->0.block
                == phase.job.block_number
        },
{
}

/// Every slot that execution read is asked for before the block. The place of its key comes of the
/// proof.
pub proof fn a_read_slot_is_asked_for<C: ExecutorComponents>(
    phase: ProofCollection<C>,
    request: Option<ProofRequest>,
    i: int,
) -> (k: int)
    requires
        call_ensures(ProofCollection::<C>::next_request, (&phase,), request),
        request is Some,
        phase.before@.len() == phase.after@.len(),
        0 <= i < phase.requests@[phase.after@.len() as int].slots@.len(),
    ensures
        0 <= k < request->0.keys@.len(),
        be_value(request->0.keys@[k]@)
            == phase.requests@[phase.after@.len() as int].slots@[i].value(),
{
    let account = phase.requests@[phase.after@.len() as int];
    let keys = request->0.keys@;
    let v = account.slots@[i].value();
    assert(slot_set(account.slots@).contains(v));
    assert(key_set(keys).contains(v));
    choose|k: int| 0 <= k < keys.len() && be_value(#[trigger] keys[k]@) == v
}

/// Every slot that execution wrote in an account is asked for with that account, before the block
/// and after it. The place of its key comes of the proof.
pub proof fn a_written_slot_is_asked_for<C: ExecutorComponents>(
    phase: ProofCollection<C>,
    request: Option<ProofRequest>,
    a: int,
    n: int,
) -> (k: int)
    requires
        phase.bundle.wf(),
        call_ensures(ProofCollection::<C>::next_request, (&phase,), request),
        request is Some,
        0 <= a < phase.bundle.accounts@.len(),
        phase.bundle.accounts@[a].address@
            == phase.requests@[phase.after@.len() as int].address@,
        0 <= n < phase.bundle.accounts@[a].storage@.len(),
    ensures
        0 <= k < request->0.keys@.len(),
        be_value(request->0.keys@[k]@) == phase.bundle.accounts@[a].storage@[n].slot.value(),
{
    let account = phase.bundle.accounts@[a];
    let keys = request->0.keys@;
    lemma_account_of(phase.bundle, account.address@, a);
    let slots = written_slots(account.storage@);
    let v = account.storage@[n].slot.value();
    assert(slots[n].value() == v);
    assert(slot_set(slots).contains(v));
    assert(key_set(keys).contains(v));
    choose|k: int| 0 <= k < keys.len() && be_value(#[trigger] keys[k]@) == v
}

/// No key is asked for but that of a slot that execution wrote in the account or, before the block,
/// read in it; and keys ascend. The places of the slot come of the proof: that among the slots read,
/// or those of the account and of the slot among those written.
pub proof fn only_touched_slots_are_asked_for<C: ExecutorComponents>(
    phase: ProofCollection<C>,
    request: Option<ProofRequest>,
    k: int,
) -> (places: (bool, int, int))
    requires
        call_ensures(ProofCollection::<C>::next_request, (&phase,), request),
        request is Some,
        0 <= k < request->0.keys@.len(),
    ensures
        places.0 ==> {
            let account = phase.requests@[phase.after@.len() as int];
            &&& phase.before@.len() == phase.after@.len()
            &&& 0 <= places.1 < account.slots@.len()
            &&& be_value(request->0.keys@[k]@) == account.slots@[places.1].value()
        },
        !places.0 ==> {
            &&& 0 <= places.1 < phase.bundle.accounts@.len()
            &&& phase.bundle.accounts@[places.1].address@
                == phase.requests@[phase.after@.len() as int].address@
            &&& 0 <= places.2 < phase.bundle.accounts@[places.1].storage@.len()
            &&& be_value(request->0.keys@[k]@)
                == phase.bundle.accounts@[places.1].storage@[places.2].slot.value()
        },
        forall|m: int|
            #![trigger request->0.keys@[m]]
            k < m < request->0.keys@.len() ==> be_value(request->0.keys@[k]@) < be_value(
                request->0.keys@[m]@,
            ),
{
    let account = phase.requests@[phase.after@.len() as int];
    let keys = request->0.keys@;
    let v = be_value(keys[k]@);
    assert(key_set(keys).contains(v));
    if phase.bundle.modified_slots(account.address@).contains(v) {
        assert(phase.bundle.has(account.address@));
        let a = choose|a: int| phase.bundle.is_at(account.address@, a);
        let slots = written_slots(phase.bundle.accounts@[a].storage@);
        let n = choose|n: int| 0 <= n < slots.len() && (#[trigger] slots[n]).value() == v;
        assert(phase.bundle.accounts@[a].storage@[n].slot.value() == v);
        (false, a, n)
    } else {
        assert(slot_set(account.slots@).contains(v));
        let i = choose|i: int|
            0 <= i < account.slots@.len() && (#[trigger] account.slots@[i]).value() == v;
        (true, i, 0)
    }
}

/// A proof that came is put behind those of its side, and all else stays. An error ends the run as
/// it came.
pub proof fn a_proof_is_put_to_its_side<C: ExecutorComponents>(
    prior: ProofCollection<C>,
    fetched: Result<C::Proof, C::Error>,
    next: Result<ProofCollection<C>, HostError<C::Error>>,
)
    requires
        call_ensures(ProofCollection::<C>::on_proof, (prior, fetched), next),
    ensures
        next is Ok <==> fetched is Ok,
        next is Ok ==> {
            let phase = next->Ok_0;
            let first = prior.before@.len() == prior.after@.len();
            &&& phase.job == prior.job
            &&& phase.current == prior.current
            &&& phase.parent_root == prior.parent_root
            &&& phase.logs_bloom == prior.logs_bloom
            &&& phase.bundle == prior.bundle
            &&& phase.requests == prior.requests
            &&& first ==> phase.before@ == prior.before@.push(fetched->Ok_0) && phase.after@
                == prior.after@
            &&& !first ==> phase.after@ == prior.after@.push(fetched->Ok_0) && phase.before@
                == prior.before@
        },
        fetched is Err ==> next->Err_0 == HostError::<C::Error>::Outside(fetched->Err_0),
{
}

/// All proofs go into the state trie, each on its side, on top of the root of the block before.
pub proof fn all_proofs_go_into_the_state<C: ExecutorComponents>(
    prior: ProofCollection<C>,
    phase: ParentState<C>,
)
    requires
        call_ensures(ProofCollection::<C>::finish, (prior,), phase),
    ensures
        phase.job == prior.job,
        phase.current == prior.current,
        phase.parent_root == prior.parent_root,
        phase.logs_bloom == prior.logs_bloom,
        phase.bundle == prior.bundle,
        phase.requests == prior.requests,
        phase.before@ == prior.before@,
        phase.after@ == prior.after@,
{
}

/// The root is asked for over all that execution changed. An error of the trie ends the run as it
/// came.
pub proof fn the_root_is_over_all_changes<C: ExecutorComponents>(
    prior: ParentState<C>,
    state: Result<C::State, C::Error>,
    next: Result<StateRoot<C>, HostError<C::Error>>,
)
    requires
        call_ensures(ParentState::<C>::on_state, (prior, state), next),
    ensures
        next is Ok <==> state is Ok,
        next is Ok ==> {
            &&& next->Ok_0.job == prior.job
            &&& next->Ok_0.current == prior.current
            &&& next->Ok_0.logs_bloom == prior.logs_bloom
            &&& next->Ok_0.requests == prior.requests
            &&& next->Ok_0.state == state->Ok_0
            &&& next->Ok_0.bundle == prior.bundle
        },
        state is Err ==> next->Err_0 == HostError::<C::Error>::Outside(state->Err_0),
{
}

/// Every changed account on the list is reported whole. Its place comes of the proof.
pub proof fn a_listed_account_is_in_the_report<C: ExecutorComponents>(
    prior: ParentState<C>,
    state: Result<C::State, C::Error>,
    next: Result<StateRoot<C>, HostError<C::Error>>,
    i: int,
) -> (k: int)
    requires
        call_ensures(ParentState::<C>::on_state, (prior, state), next),
        next is Ok,
        0 <= i < prior.bundle.accounts@.len(),
        call_ensures(
            RootScope::includes,
            (RootScope::Host, &prior.bundle.accounts@[i].address),
            true,
        ),
    ensures
        0 <= k < next->Ok_0.reported.accounts@.len(),
        next->Ok_0.reported.accounts@[k].address@ == prior.bundle.accounts@[i].address@,
        next->Ok_0.reported.accounts@[k].info == prior.bundle.accounts@[i].info,
        next->Ok_0.reported.accounts@[k].storage@ == prior.bundle.accounts@[i].storage@,
        next->Ok_0.reported.accounts@[k].destroyed == prior.bundle.accounts@[i].destroyed,
{
    lemma_copy_of(prior.bundle.accounts@, RootScope::Host, next->Ok_0.reported.accounts@, i)
}

/// What is reported is a changed account on the list, whole. The place from which it comes comes of
/// the proof.
pub proof fn only_listed_accounts_are_in_the_report<C: ExecutorComponents>(
    prior: ParentState<C>,
    state: Result<C::State, C::Error>,
    next: Result<StateRoot<C>, HostError<C::Error>>,
    k: int,
    included: bool,
) -> (i: int)
    requires
        call_ensures(ParentState::<C>::on_state, (prior, state), next),
        next is Ok,
        0 <= k < next->Ok_0.reported.accounts@.len(),
        call_ensures(
            RootScope::includes,
            (RootScope::Host, &next->Ok_0.reported.accounts@[k].address),
            included,
        ),
    ensures
        included,
        0 <= i < prior.bundle.accounts@.len(),
        next->Ok_0.reported.accounts@[k].address@ == prior.bundle.accounts@[i].address@,
        next->Ok_0.reported.accounts@[k].info == prior.bundle.accounts@[i].info,
        next->Ok_0.reported.accounts@[k].storage@ == prior.bundle.accounts@[i].storage@,
        next->Ok_0.reported.accounts@[k].destroyed == prior.bundle.accounts@[i].destroyed,
{
    lemma_source_of(prior.bundle.accounts@, RootScope::Host, next->Ok_0.reported.accounts@, k)
}

/// A block is accepted exactly if the root agrees with that of its header in every byte and the
/// header derived with the root and the bloom hashes to the hash of its header. Another root is
/// reported beside the header's, another hash beside the block's.
pub proof fn a_block_is_accepted_by_root_and_hash<C: ExecutorComponents>(
    prior: StateRoot<C>,
    state_root: B256,
    derived: BlockHeader,
    next: Result<AncestorRange<C>, HostError<C::Error>>,
)
    requires
        call_ensures(StateRoot::<C>::on_root, (prior, state_root), next),
        call_ensures(
            derive_header,
            (&prior.current.header, state_root, prior.logs_bloom),
            derived,
        ),
    ensures
        next is Ok <==> (forall|i: int|
            0 <= i < 32 ==> #[trigger] state_root@[i] == prior.current.header.state_root@[i])
            && header_hash(derived@) == header_hash(prior.current.header@),
        next is Ok ==> {
            &&& next->Ok_0.job == prior.job
            &&& next->Ok_0.current == prior.current
            &&& next->Ok_0.requests == prior.requests
            &&& next->Ok_0.state == prior.state
            &&& next->Ok_0.block_hash@ == header_hash(prior.current.header@)
        },
        (exists|i: int|
            0 <= i < 32 && #[trigger] state_root@[i] != prior.current.header.state_root@[i])
            ==> next->Err_0 == HostError::<C::Error>::StateRootMismatch(
            state_root,
            prior.current.header.state_root,
        ),
        next is Err && (forall|i: int|
            0 <= i < 32 ==> #[trigger] state_root@[i] == prior.current.header.state_root@[i]) ==> {
            &&& next->Err_0 is HeaderMismatch
            &&& next->Err_0->HeaderMismatch_0@ == header_hash(derived@)
            &&& next->Err_0->HeaderMismatch_1@ == header_hash(prior.current.header@)
        },
{
    let own = prior.current.header.state_root;
    if forall|i: int| 0 <= i < 32 ==> #[trigger] state_root@[i] == own@[i] {
        assert(state_root@ =~= own@);
    }
}

/// The range of the headers starts with none, and keeps the oldest as it was given.
pub proof fn headers_are_collected_from_the_start<C: ExecutorComponents>(
    prior: AncestorRange<C>,
    oldest: u64,
    phase: Ancestors<C>,
)
    requires
        call_ensures(AncestorRange::<C>::on_oldest, (prior, oldest), phase),
    ensures
        phase.job == prior.job,
        phase.current == prior.current,
        phase.requests == prior.requests,
        phase.state == prior.state,
        phase.oldest == oldest,
        phase.headers@.len() == 0,
{
}

/// Headers are asked for downwards from the block before: the next one lies as far below it as there
/// are headers already, and none is asked for below the oldest.
pub proof fn headers_are_asked_for_downwards<C: ExecutorComponents>(
    phase: Ancestors<C>,
    height: Option<u64>,
)
    requires
        call_ensures(Ancestors::<C>::next_height, (&phase,), height),
    ensures
        height is None <==> phase.oldest + phase.headers@.len() == phase.job.block_number,
        height is Some ==> {
            &&& height->0 + phase.headers@.len() + 1 == phase.job.block_number
            &&& phase.oldest <= height->0
        },
{
}

/// A header that came is put behind the others, and all else stays. A missing one is reported under
/// the number that was asked for, and an error as it came.
pub proof fn a_header_is_put_behind_the_others<C: ExecutorComponents>(
    prior: Ancestors<C>,
    height: Option<u64>,
    fetched: Result<Option<BlockHeader>, C::Error>,
    next: Result<Ancestors<C>, HostError<C::Error>>,
)
    requires
        call_ensures(Ancestors::<C>::next_height, (&prior,), height),
        call_ensures(Ancestors::<C>::on_header, (prior, fetched), next),
    ensures
        next is Ok <==> fetched is Ok && fetched->Ok_0 is Some,
        next is Ok ==> {
            &&& next->Ok_0.job == prior.job
            &&& next->Ok_0.current == prior.current
            &&& next->Ok_0.requests == prior.requests
            &&& next->Ok_0.state == prior.state
            &&& next->Ok_0.oldest == prior.oldest
            &&& next->Ok_0.headers@ == prior.headers@.push(fetched->Ok_0->0)
        },
        fetched is Ok && fetched->Ok_0 is None && height is Some ==> next->Err_0 == HostError::<
            C::Error,
        >::ExpectedBlock(height->0),
        fetched is Err ==> next->Err_0 == HostError::<C::Error>::Outside(fetched->Err_0),
{
}

/// The input holds the block, the headers in their order, the state, the requests, the codes and what
/// the job says.
pub proof fn an_input_holds_what_was_collected<C: ExecutorComponents>(
    last: Ancestors<C>,
    bytecodes: Vec<C::Bytecode>,
    input: ClientExecutorInput<C>,
)
    requires
        call_ensures(Ancestors::<C>::finish, (last, bytecodes), input),
    ensures
        input.current_block == last.current,
        input.ancestor_headers@ == last.headers@,
        input.parent_state == last.state,
        input.state_requests == last.requests,
        input.bytecodes == bytecodes,
        input.genesis == last.job.genesis,
        input.custom_beneficiary == last.job.custom_beneficiary,
        input.opcode_tracking == last.job.opcode_tracking,
{
}

} // verus!
