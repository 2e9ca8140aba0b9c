//! Executing a block on the host, step by step. Each phase asks for one thing, and its answer
//! leads to the next phase or to an error. The last phase yields the input for the client.

use crate::bloom::{accrued, logs_bloom, receipt_blooms, Receipt};
use crate::bundle::{account_views, covered_accounts, written_slots, BundleState, RootScope};
use crate::bytes::{be_value, lemma_be_value_injective, same_bytes};
use crate::components::ExecutorComponents;
use crate::error::HostError;
use crate::header::{
    check_header, derived_header, header_hash, reproduced_header_is_accepted, BlockHeader,
};
use crate::primitives::{Address, Bloom, B256, U256};
use crate::storage_keys::{ascending, key_list_is_determined, key_set, merged_keys, slot_set};
use crate::transaction::{all_senders, optional_address, Transaction};
use std::sync::Arc;
use vstd::prelude::*;

verus! {

/// An executor that fetches data from a provider to execute blocks on the host.
#[derive(Clone, Debug)]
pub struct HostExecutor<EvmConfig> {
    pub evm_config: EvmConfig,
}

/// How Ethereum blocks are executed: by the rules of the chain, with the fees going to the custom
/// beneficiary where there is one.
#[derive(Debug)]
pub struct EthEvmConfig<ChainSpec> {
    pub chain_spec: Arc<ChainSpec>,
    pub custom_beneficiary: Option<Address>,
}

/// How OP Stack blocks are executed: by the rules of the chain.
#[derive(Debug)]
pub struct OpEvmConfig<ChainSpec> {
    pub chain_spec: Arc<ChainSpec>,
}

/// A host executor for Ethereum.
pub type EthHostExecutor<ChainSpec> = HostExecutor<EthEvmConfig<ChainSpec>>;

/// A host executor for the OP Stack.
pub type OpHostExecutor<ChainSpec> = HostExecutor<OpEvmConfig<ChainSpec>>;

impl<ChainSpec> EthHostExecutor<ChainSpec> {
    /// Creates a host executor for Ethereum.
    pub fn eth(chain_spec: Arc<ChainSpec>, custom_beneficiary: Option<Address>) -> (executor: Self)
        ensures
            executor.evm_config.chain_spec == chain_spec,
            executor.evm_config.custom_beneficiary == custom_beneficiary,
    {
        HostExecutor { evm_config: EthEvmConfig { chain_spec, custom_beneficiary } }
    }
}

impl<ChainSpec> OpHostExecutor<ChainSpec> {
    /// Creates a host executor for the OP Stack.
    pub fn optimism(chain_spec: Arc<ChainSpec>) -> (executor: Self)
        ensures
            executor.evm_config.chain_spec == chain_spec,
    {
        HostExecutor { evm_config: OpEvmConfig { chain_spec } }
    }
}

/// What is to be executed, and how.
pub struct HostJob<C: ExecutorComponents> {
    pub block_number: u64,
    pub genesis: C::Genesis,
    pub custom_beneficiary: Option<Address>,
    pub opcode_tracking: bool,
}

/// A transaction of a block.
#[derive(Clone, Debug, PartialEq, Eq)]
pub enum BlockTransaction {
    /// One that is signed.
    Signed(Transaction),
    /// A deposit of the OP Stack, which names its sender and bears no signature.
    Deposit { from: Address },
}

impl BlockTransaction {
    /// The sender, if there is one.
    pub open spec fn sender(self) -> Option<Seq<u8>> {
        match self {
            BlockTransaction::Signed(tx) => tx.signer(),
            BlockTransaction::Deposit { from } => Some(from@),
        }
    }

    /// The sender, if there is one.
    pub fn recover_sender(&self) -> (sender: Option<Address>)
        ensures
            optional_address(sender) == self.sender(),
    {
        match self {
            BlockTransaction::Signed(tx) => tx.recover_signer(),
            BlockTransaction::Deposit { from } => Some(*from),
        }
    }
}

/// Recovers the sender of every transaction of a block.
pub fn recover_senders(transactions: &Vec<BlockTransaction>) -> (senders: Option<Vec<Address>>)
    ensures
        senders is Some <==> forall|i: int|
            0 <= i < transactions.len() ==> (#[trigger] transactions[i]).sender() is Some,
        senders matches Some(list) ==> are_senders(list@, transactions@),
{
    let mut recovered: Vec<Option<Address>> = Vec::new();
    for i in 0..transactions.len()
        invariant
            recovered.len() == i,
            forall|j: int|
                0 <= j < i ==> optional_address(#[trigger] recovered[j])
                    == transactions[j].sender(),
    {
        let sender = transactions[i].recover_sender();
        recovered.push(sender);
    }
    assert forall|j: int| 0 <= j < transactions.len() implies ((#[trigger] transactions[j]).sender()
        is Some <==> recovered[j] is Some) by {
        assert(optional_address(recovered[j]) == transactions[j].sender());
    }
    assert(forall|j: int|
        0 <= j < recovered.len() ==> (transactions[j].sender() is Some <==> (
        #[trigger] recovered[j]) is Some));
    let ghost found = recovered@;
    let senders = all_senders(recovered);
    assert(senders matches Some(list) ==> forall|i: int|
        0 <= i < list.len() ==> optional_address(found[i]) == Some((#[trigger] list[i])@));
    senders
}

/// A block: what the host reads of it, and the whole of it for the client.
pub struct Block<C: ExecutorComponents> {
    pub header: BlockHeader,
    pub transactions: Vec<BlockTransaction>,
    pub whole: C::Block,
}

/// What executing a block gives.
pub struct ExecutionOutput {
    pub receipts: Vec<Receipt>,
    pub bundle: BundleState,
}

/// The slots that execution read in an account.
#[derive(Clone, Debug, PartialEq, Eq)]
pub struct AccountRequests {
    pub address: Address,
    pub slots: Vec<U256>,
}

/// A request for the proof of an account and of some of its storage, in the state after a block.
#[derive(Clone, Debug, PartialEq, Eq)]
pub struct ProofRequest {
    pub address: Address,
    pub keys: Vec<B256>,
    pub block: u64,
}

/// What the client program needs to execute a block by itself.
pub struct ClientExecutorInput<C: ExecutorComponents> {
    pub current_block: Block<C>,
    /// The headers before the block, newest first.
    pub ancestor_headers: Vec<BlockHeader>,
    pub parent_state: C::State,
    pub state_requests: Vec<AccountRequests>,
    pub bytecodes: Vec<C::Bytecode>,
    pub genesis: C::Genesis,
    pub custom_beneficiary: Option<Address>,
    pub opcode_tracking: bool,
}

impl<C: ExecutorComponents> ClientExecutorInput<C> {
    /// Whether this is what `last`, with all headers there, yields with these codes.
    pub open spec fn completes(self, last: Ancestors<C>, bytecodes: Vec<C::Bytecode>) -> bool {
        &&& self.current_block == last.current
        &&& self.ancestor_headers == last.headers
        &&& self.ancestor_headers.len() == ancestor_count(last.oldest, last.job.block_number)
        &&& self.parent_state == last.state
        &&& self.state_requests == last.requests
        &&& self.bytecodes == bytecodes
        &&& self.genesis == last.job.genesis
        &&& self.custom_beneficiary == last.job.custom_beneficiary
        &&& self.opcode_tracking == last.job.opcode_tracking
    }
}

/// Waiting for the block.
pub struct CurrentBlock<C: ExecutorComponents> {
    pub job: HostJob<C>,
}

/// Waiting for the block before.
pub struct PreviousBlock<C: ExecutorComponents> {
    pub job: HostJob<C>,
    pub current: Block<C>,
}

/// Both blocks are there.
pub struct SenderRecovery<C: ExecutorComponents> {
    pub job: HostJob<C>,
    pub current: Block<C>,
    /// The state root of the block before.
    pub parent_root: B256,
}

/// Waiting for the block to be executed.
pub struct BlockExecution<C: ExecutorComponents> {
    pub job: HostJob<C>,
    pub current: Block<C>,
    pub parent_root: B256,
    pub senders: Vec<Address>,
}

/// Waiting for the execution to be validated.
pub struct PostExecution<C: ExecutorComponents> {
    pub job: HostJob<C>,
    pub current: Block<C>,
    pub parent_root: B256,
    pub output: ExecutionOutput,
}

/// Waiting for the state that execution read.
pub struct StateAccess<C: ExecutorComponents> {
    pub job: HostJob<C>,
    pub current: Block<C>,
    pub parent_root: B256,
    pub logs_bloom: Bloom,
    pub bundle: BundleState,
}

/// Collecting the storage proofs: for each account one before and one after the block.
pub struct ProofCollection<C: ExecutorComponents> {
    pub job: HostJob<C>,
    pub current: Block<C>,
    pub parent_root: B256,
    pub logs_bloom: Bloom,
    pub bundle: BundleState,
    pub requests: Vec<AccountRequests>,
    pub before: Vec<C::Proof>,
    pub after: Vec<C::Proof>,
}

/// Waiting for the state trie that the proofs make up on top of the parent's root.
pub struct ParentState<C: ExecutorComponents> {
    pub job: HostJob<C>,
    pub current: Block<C>,
    pub parent_root: B256,
    pub logs_bloom: Bloom,
    pub bundle: BundleState,
    pub requests: Vec<AccountRequests>,
    pub before: Vec<C::Proof>,
    pub after: Vec<C::Proof>,
}

/// Waiting for the root of the state trie with the whole bundle written into it.
pub struct StateRoot<C: ExecutorComponents> {
    pub job: HostJob<C>,
    pub current: Block<C>,
    pub logs_bloom: Bloom,
    pub requests: Vec<AccountRequests>,
    pub state: C::State,
    /// All that execution changed: the block is checked against its root.
    pub bundle: BundleState,
    /// The accounts whose root is reported, to be compared with that of a replay.
    pub reported: BundleState,
}

/// Waiting for the oldest block that execution asked the hash of.
pub struct AncestorRange<C: ExecutorComponents> {
    pub job: HostJob<C>,
    pub current: Block<C>,
    pub requests: Vec<AccountRequests>,
    pub state: C::State,
    pub block_hash: B256,
}

/// Collecting the headers before the block, newest first.
pub struct Ancestors<C: ExecutorComponents> {
    pub job: HostJob<C>,
    pub current: Block<C>,
    pub requests: Vec<AccountRequests>,
    pub state: C::State,
    pub oldest: u64,
    pub headers: Vec<BlockHeader>,
}

impl<EvmConfig> HostExecutor<EvmConfig> {
    /// Creates a new host executor.
    pub fn new(evm_config: EvmConfig) -> (executor: Self)
        ensures
            executor.evm_config == evm_config,
    {
        HostExecutor { evm_config }
    }

    /// Starts to execute the block with the given number.
    pub fn execute<C: ExecutorComponents>(
        &self,
        block_number: u64,
        genesis: C::Genesis,
        custom_beneficiary: Option<Address>,
        opcode_tracking: bool,
    ) -> (phase: CurrentBlock<C>)
        ensures
            phase.job.block_number == block_number,
            phase.job.genesis == genesis,
            phase.job.custom_beneficiary == custom_beneficiary,
            phase.job.opcode_tracking == opcode_tracking,
    {
        CurrentBlock { job: HostJob { block_number, genesis, custom_beneficiary, opcode_tracking } }
    }
}

impl<C: ExecutorComponents> CurrentBlock<C> {
    /// The number of the block to fetch.
    pub fn number(&self) -> (number: u64)
        ensures
            number == self.job.block_number,
    {
        self.job.block_number
    }

    /// Takes the block. The block with number zero has none before it.
    pub fn on_block(self, fetched: Result<Option<Block<C>>, C::Error>) -> (next: Result<
        PreviousBlock<C>,
        HostError<C::Error>,
    >)
        requires
            fetched matches Ok(Some(_)) ==> self.job.block_number > 0,
        ensures
            match fetched {
                Ok(Some(block)) => next matches Ok(phase) && phase.follows(self, block),
                Ok(None) => next matches Err(HostError::ExpectedBlock(number)) && number
                    == self.job.block_number,
                Err(e) => next matches Err(HostError::Outside(error)) && error == e,
            },
    {
        match fetched {
            Ok(Some(block)) => Ok(PreviousBlock { job: self.job, current: block }),
            Ok(None) => Err(HostError::ExpectedBlock(self.job.block_number)),
            Err(e) => Err(HostError::Outside(e)),
        }
    }
}

impl<C: ExecutorComponents> PreviousBlock<C> {
    /// There is a block before.
    pub open spec fn wf(self) -> bool {
        self.job.block_number > 0
    }

    /// Whether this is the phase after `prior` once it has the block.
    pub open spec fn follows(self, prior: CurrentBlock<C>, block: Block<C>) -> bool {
        &&& self.wf()
        &&& self.job == prior.job
        &&& self.current == block
    }

    /// The number of the block to fetch.
    pub fn number(&self) -> (number: u64)
        requires
            self.wf(),
        ensures
            number == self.job.block_number - 1,
    {
        self.job.block_number - 1
    }

    /// Takes the header of the block before. A block that is missing is reported under the number
    /// of the block to be executed.
    pub fn on_block(self, fetched: Result<Option<BlockHeader>, C::Error>) -> (next: Result<
        SenderRecovery<C>,
        HostError<C::Error>,
    >)
        requires
            self.wf(),
        ensures
            match fetched {
                Ok(Some(header)) => next matches Ok(phase) && phase.follows(self, header),
                Ok(None) => next matches Err(HostError::ExpectedBlock(number)) && number
                    == self.job.block_number,
                Err(e) => next matches Err(HostError::Outside(error)) && error == e,
            },
    {
        match fetched {
            Ok(Some(header)) => Ok(
                SenderRecovery {
                    job: self.job,
                    current: self.current,
                    parent_root: header.state_root,
                },
            ),
            Ok(None) => Err(HostError::ExpectedBlock(self.job.block_number)),
            Err(e) => Err(HostError::Outside(e)),
        }
    }
}

/// Whether `senders` are the senders of `transactions`, one for one.
pub open spec fn are_senders(senders: Seq<Address>, transactions: Seq<BlockTransaction>) -> bool {
    &&& senders.len() == transactions.len()
    &&& forall|i: int|
        0 <= i < senders.len() ==> transactions[i].sender() == Some((#[trigger] senders[i])@)
}

impl<C: ExecutorComponents> SenderRecovery<C> {
    /// There is a block before.
    pub open spec fn wf(self) -> bool {
        self.job.block_number > 0
    }

    /// Whether this is the phase after `prior` once it has the header of the block before.
    pub open spec fn follows(self, prior: PreviousBlock<C>, header: BlockHeader) -> bool {
        &&& self.wf()
        &&& self.job == prior.job
        &&& self.current == prior.current
        &&& self.parent_root == header.state_root
    }

    /// Recovers the senders of the block. It fails exactly where a transaction has no sender.
    pub fn recover(self) -> (next: Result<BlockExecution<C>, HostError<C::Error>>)
        requires
            self.wf(),
        ensures
            match next {
                Ok(phase) => phase.follows(self),
                Err(error) => error is FailedToRecoverSenders,
            },
            next is Ok <==> forall|i: int|
                0 <= i < self.current.transactions.len() ==> (
                #[trigger] self.current.transactions[i]).sender() is Some,
    {
        match recover_senders(&self.current.transactions) {
            Some(senders) => Ok(
                BlockExecution {
                    job: self.job,
                    current: self.current,
                    parent_root: self.parent_root,
                    senders,
                },
            ),
            None => Err(HostError::FailedToRecoverSenders),
        }
    }
}

impl<C: ExecutorComponents> BlockExecution<C> {
    /// There is a sender for each transaction.
    pub open spec fn wf(self) -> bool {
        &&& self.job.block_number > 0
        &&& self.senders.len() == self.current.transactions.len()
    }

    /// Whether this is the phase after `prior`, with the senders of the block.
    pub open spec fn follows(self, prior: SenderRecovery<C>) -> bool {
        &&& self.wf()
        &&& self.job == prior.job
        &&& self.current == prior.current
        &&& self.parent_root == prior.parent_root
        &&& are_senders(self.senders@, prior.current.transactions@)
    }

    /// Takes what executing the block gave.
    pub fn on_executed(self, output: Result<ExecutionOutput, C::Error>) -> (next: Result<
        PostExecution<C>,
        HostError<C::Error>,
    >)
        requires
            self.wf(),
            output matches Ok(output) ==> output.bundle.wf(),
        ensures
            match output {
                Ok(output) => next matches Ok(phase) && phase.follows(self, output),
                Err(e) => next matches Err(HostError::Outside(error)) && error == e,
            },
    {
        match output {
            Ok(output) => Ok(
                PostExecution {
                    job: self.job,
                    current: self.current,
                    parent_root: self.parent_root,
                    output,
                },
            ),
            Err(e) => Err(HostError::Outside(e)),
        }
    }
}

impl<C: ExecutorComponents> PostExecution<C> {
    /// The bundle names each account once.
    pub open spec fn wf(self) -> bool {
        self.job.block_number > 0 && self.output.bundle.wf()
    }

    /// Whether this is the phase after `prior` once the block is executed.
    pub open spec fn follows(self, prior: BlockExecution<C>, output: ExecutionOutput) -> bool {
        &&& self.wf()
        &&& self.job == prior.job
        &&& self.current == prior.current
        &&& self.parent_root == prior.parent_root
        &&& self.output == output
    }

    /// Takes the verdict on the execution, and accumulates the logs bloom over the receipts.
    pub fn on_validated(self, verdict: Result<(), C::Error>) -> (next: Result<
        StateAccess<C>,
        HostError<C::Error>,
    >)
        requires
            self.wf(),
        ensures
            match verdict {
                Ok(_) => next matches Ok(phase) && phase.follows(self),
                Err(e) => next matches Err(HostError::Outside(error)) && error == e,
            },
    {
        match verdict {
            Ok(_) => Ok(
                StateAccess {
                    job: self.job,
                    current: self.current,
                    parent_root: self.parent_root,
                    logs_bloom: logs_bloom(&self.output.receipts),
                    bundle: self.output.bundle,
                },
            ),
            Err(e) => Err(HostError::Outside(e)),
        }
    }
}

impl<C: ExecutorComponents> StateAccess<C> {
    /// The bundle names each account once.
    pub open spec fn wf(self) -> bool {
        self.job.block_number > 0 && self.bundle.wf()
    }

    /// Whether this is the phase after `prior`, with the blooms of the receipts accrued.
    pub open spec fn follows(self, prior: PostExecution<C>) -> bool {
        &&& self.wf()
        &&& self.job == prior.job
        &&& self.current == prior.current
        &&& self.parent_root == prior.parent_root
        &&& self.bundle == prior.output.bundle
        &&& self.logs_bloom@ == accrued(receipt_blooms(prior.output.receipts@))
    }

    /// Takes the accounts and slots that execution read, in whatever order they come.
    pub fn on_state_requests(self, requests: Vec<AccountRequests>) -> (phase: ProofCollection<C>)
        requires
            self.wf(),
        ensures
            phase.starts_after(self, requests),
    {
        ProofCollection {
            job: self.job,
            current: self.current,
            parent_root: self.parent_root,
            logs_bloom: self.logs_bloom,
            bundle: self.bundle,
            requests,
            before: Vec::new(),
            after: Vec::new(),
        }
    }
}

/// Whether `request` asks for an account before the block: in the state after the block before,
/// with every slot that execution read or wrote.
pub open spec fn asks_before(
    account: AccountRequests,
    bundle: BundleState,
    block_number: u64,
    request: ProofRequest,
) -> bool {
    &&& request.address == account.address
    &&& ascending(request.keys@)
    &&& key_set(request.keys@) == slot_set(account.slots@).union(
        bundle.modified_slots(account.address@),
    )
    &&& request.block == block_number - 1
}

/// Whether `request` asks for an account after the block, with every slot that execution wrote.
pub open spec fn asks_after(
    account: AccountRequests,
    bundle: BundleState,
    block_number: u64,
    request: ProofRequest,
) -> bool {
    &&& request.address == account.address
    &&& ascending(request.keys@)
    &&& key_set(request.keys@) == bundle.modified_slots(account.address@)
    &&& request.block == block_number
}

impl<C: ExecutorComponents> ProofCollection<C> {
    /// The proofs come in pairs, first that before the block, then that after it.
    pub open spec fn wf(self) -> bool {
        &&& self.job.block_number > 0
        &&& self.bundle.wf()
        &&& self.after.len() <= self.before.len() <= self.after.len() + 1
        &&& self.before.len() <= self.requests.len()
    }

    /// Whether this is the phase after `prior`, with these requests and no proof yet.
    pub open spec fn starts_after(
        self,
        prior: StateAccess<C>,
        requests: Vec<AccountRequests>,
    ) -> bool {
        &&& self.wf()
        &&& self.job == prior.job
        &&& self.current == prior.current
        &&& self.parent_root == prior.parent_root
        &&& self.logs_bloom == prior.logs_bloom
        &&& self.bundle == prior.bundle
        &&& self.requests == requests
        &&& self.before.len() == 0
        &&& self.after.len() == 0
    }

    /// Whether all proofs are there.
    pub open spec fn complete(self) -> bool {
        self.after.len() == self.requests.len()
    }

    /// Whether `request` is the next one: of the first account whose pair is not complete, the
    /// proof before the block, or, where that is there, the proof after it.
    pub open spec fn wants(self, request: ProofRequest) -> bool {
        let account = self.requests[self.after.len() as int];
        if self.before.len() == self.after.len() {
            asks_before(account, self.bundle, self.job.block_number, request)
        } else {
            asks_after(account, self.bundle, self.job.block_number, request)
        }
    }

    /// Whether `next` is this collection with `added` added where it belongs.
    pub open spec fn extended_by(self, added: C::Proof, next: Self) -> bool {
        &&& next.wf()
        &&& next.job == self.job
        &&& next.current == self.current
        &&& next.parent_root == self.parent_root
        &&& next.logs_bloom == self.logs_bloom
        &&& next.bundle == self.bundle
        &&& next.requests == self.requests
        &&& if self.before.len() == self.after.len() {
            next.before@ == self.before@.push(added) && next.after == self.after
        } else {
            next.before == self.before && next.after@ == self.after@.push(added)
        }
    }

    /// The next proof to fetch, if one is missing.
    pub fn next_request(&self) -> (request: Option<ProofRequest>)
        requires
            self.wf(),
        ensures
            request is None <==> self.complete(),
            request matches Some(request) ==> self.wants(request),
    {
        let index: usize = self.after.len();
        if index == self.requests.len() {
            return None;
        }
        let account = &self.requests[index];
        let modified = self.bundle.modified_keys(&account.address);
        if self.before.len() == index {
            let keys = merged_keys(&account.slots, &modified);
            Some(
                ProofRequest { address: account.address, keys, block: self.job.block_number - 1 },
            )
        } else {
            Some(
                ProofRequest {
                    address: account.address,
                    keys: modified,
                    block: self.job.block_number,
                },
            )
        }
    }

    /// Takes the proof that was asked for last.
    pub fn on_proof(self, fetched: Result<C::Proof, C::Error>) -> (next: Result<
        Self,
        HostError<C::Error>,
    >)
        requires
            self.wf(),
            !self.complete(),
        ensures
            match fetched {
                Ok(added) => next matches Ok(phase) && self.extended_by(added, phase),
                Err(e) => next matches Err(HostError::Outside(error)) && error == e,
            },
    {
        match fetched {
            Ok(added) => {
                let mut phase = self;
                if phase.before.len() == phase.after.len() {
                    phase.before.push(added);
                } else {
                    phase.after.push(added);
                }
                Ok(phase)
            },
            Err(e) => Err(HostError::Outside(e)),
        }
    }

    /// Closes the collection.
    pub fn finish(self) -> (phase: ParentState<C>)
        requires
            self.wf(),
            self.complete(),
        ensures
            phase.follows(self),
    {
        ParentState {
            job: self.job,
            current: self.current,
            parent_root: self.parent_root,
            logs_bloom: self.logs_bloom,
            bundle: self.bundle,
            requests: self.requests,
            before: self.before,
            after: self.after,
        }
    }
}

impl<C: ExecutorComponents> ParentState<C> {
    /// There are two proofs for each account.
    pub open spec fn wf(self) -> bool {
        &&& self.job.block_number > 0
        &&& self.bundle.wf()
        &&& self.before.len() == self.requests.len()
        &&& self.after.len() == self.requests.len()
    }

    /// Whether this is the phase after `prior`, with the same proofs.
    pub open spec fn follows(self, prior: ProofCollection<C>) -> bool {
        &&& self.wf()
        &&& self.job == prior.job
        &&& self.current == prior.current
        &&& self.parent_root == prior.parent_root
        &&& self.logs_bloom == prior.logs_bloom
        &&& self.bundle == prior.bundle
        &&& self.requests == prior.requests
        &&& self.before == prior.before
        &&& self.after == prior.after
    }

    /// Takes the state trie. The bundle stays whole, and the accounts whose root is reported are
    /// listed beside it.
    pub fn on_state(self, state: Result<C::State, C::Error>) -> (next: Result<
        StateRoot<C>,
        HostError<C::Error>,
    >)
        requires
            self.wf(),
        ensures
            match state {
                Ok(state) => next matches Ok(phase) && phase.follows(self, state),
                Err(e) => next matches Err(HostError::Outside(error)) && error == e,
            },
    {
        match state {
            Ok(state) => {
                let reported = self.bundle.covered(RootScope::Host);
                Ok(
                    StateRoot {
                        job: self.job,
                        current: self.current,
                        logs_bloom: self.logs_bloom,
                        requests: self.requests,
                        state,
                        bundle: self.bundle,
                        reported,
                    },
                )
            },
            Err(e) => Err(HostError::Outside(e)),
        }
    }
}

impl<C: ExecutorComponents> StateRoot<C> {
    /// The bundle names each account once.
    pub open spec fn wf(self) -> bool {
        self.job.block_number > 0 && self.bundle.wf() && self.reported.wf()
    }

    /// Whether this is the phase after `prior` once it has the state trie: with the same bundle,
    /// and the accounts whose root is reported.
    pub open spec fn follows(self, prior: ParentState<C>, state: C::State) -> bool {
        &&& self.wf()
        &&& self.job == prior.job
        &&& self.current == prior.current
        &&& self.logs_bloom == prior.logs_bloom
        &&& self.requests == prior.requests
        &&& self.state == state
        &&& self.bundle == prior.bundle
        &&& account_views(self.reported.accounts@) == account_views(
            covered_accounts(prior.bundle.accounts@, RootScope::Host),
        )
    }

    /// The hash of the header derived with this state root.
    pub open spec fn constructed_hash(self, state_root: Seq<u8>) -> Seq<u8> {
        header_hash(derived_header(self.current.header@, state_root, self.logs_bloom@))
    }

    /// Whether the header derived with this state root hashes to what the block's own header
    /// hashes to.
    pub open spec fn reproduces_header(self, state_root: Seq<u8>) -> bool {
        self.constructed_hash(state_root) == header_hash(self.current.header@)
    }

    /// Whether this state root is that of the block's header, and the header derived with it is the
    /// block's own.
    pub open spec fn confirms(self, state_root: Seq<u8>) -> bool {
        &&& state_root == self.current.header.state_root@
        &&& self.reproduces_header(state_root)
    }

    /// Takes the root of the state trie with the whole bundle written into it, and goes on exactly
    /// if it is the root of the block's header and the header derived with it hashes to what the
    /// block's own header hashes to.
    pub fn on_root(self, state_root: B256) -> (next: Result<AncestorRange<C>, HostError<C::Error>>)
        requires
            self.wf(),
        ensures
            next is Ok <==> self.confirms(state_root@),
            next matches Ok(phase) ==> phase.follows(self, state_root@),
            state_root@ != self.current.header.state_root@ ==> {
                &&& next matches Err(HostError::StateRootMismatch(calculated, actual))
                &&& calculated == state_root
                &&& actual == self.current.header.state_root
            },
            state_root@ == self.current.header.state_root@ && !self.reproduces_header(
                state_root@,
            ) ==> {
                &&& next matches Err(HostError::HeaderMismatch(constructed, target))
                &&& constructed@ == self.constructed_hash(state_root@)
                &&& target@ == header_hash(self.current.header@)
            },
    {
        if !same_bytes(&state_root, &self.current.header.state_root) {
            return Err(HostError::StateRootMismatch(state_root, self.current.header.state_root));
        }
        match check_header(&self.current.header, state_root, self.logs_bloom) {
            Ok(block_hash) => Ok(
                AncestorRange {
                    job: self.job,
                    current: self.current,
                    requests: self.requests,
                    state: self.state,
                    block_hash,
                },
            ),
            Err(e) => Err(e),
        }
    }
}

impl<C: ExecutorComponents> AncestorRange<C> {
    /// There is a block before.
    pub open spec fn wf(self) -> bool {
        self.job.block_number > 0
    }

    /// Whether this is the phase after `prior`, whose block this state root confirmed.
    pub open spec fn follows(self, prior: StateRoot<C>, state_root: Seq<u8>) -> bool {
        &&& self.wf()
        &&& prior.confirms(state_root)
        &&& self.block_hash@ == header_hash(prior.current.header@)
        &&& self.job == prior.job
        &&& self.current == prior.current
        &&& self.requests == prior.requests
        &&& self.state == prior.state
    }

    /// Takes the number of the oldest block that execution asked the hash of. It is no later than
    /// the block itself.
    pub fn on_oldest(self, oldest: u64) -> (phase: Ancestors<C>)
        requires
            self.wf(),
            oldest <= self.job.block_number,
        ensures
            phase.starts_after(self, oldest),
    {
        Ancestors {
            job: self.job,
            current: self.current,
            requests: self.requests,
            state: self.state,
            oldest,
            headers: Vec::new(),
        }
    }
}

/// How many blocks there are from `oldest` up to the one before `block_number`.
pub open spec fn ancestor_count(oldest: u64, block_number: u64) -> int {
    block_number - oldest
}

impl<C: ExecutorComponents> Ancestors<C> {
    /// No more headers than there are blocks in the range.
    pub open spec fn wf(self) -> bool {
        &&& self.job.block_number > 0
        &&& self.headers.len() <= ancestor_count(self.oldest, self.job.block_number)
    }

    /// Whether this is the phase after `prior`, with no header yet.
    pub open spec fn starts_after(self, prior: AncestorRange<C>, oldest: u64) -> bool {
        &&& self.wf()
        &&& self.job == prior.job
        &&& self.current == prior.current
        &&& self.requests == prior.requests
        &&& self.state == prior.state
        &&& self.oldest == oldest
        &&& self.headers.len() == 0
    }

    /// Whether `next` is this collection with `header` added at its end.
    pub open spec fn extended_by(self, header: BlockHeader, next: Self) -> bool {
        &&& next.wf()
        &&& next.job == self.job
        &&& next.current == self.current
        &&& next.requests == self.requests
        &&& next.state == self.state
        &&& next.oldest == self.oldest
        &&& next.headers@ == self.headers@.push(header)
    }

    /// Whether all headers are there.
    pub open spec fn complete(self) -> bool {
        self.headers.len() == ancestor_count(self.oldest, self.job.block_number)
    }

    /// The number of the block whose header stands at position `i`.
    pub open spec fn height_at(self, i: int) -> int {
        self.job.block_number - 1 - i
    }

    /// The number of the next block to fetch: they come one by one from the block before down to
    /// the oldest.
    pub fn next_height(&self) -> (height: Option<u64>)
        requires
            self.wf(),
        ensures
            height is None <==> self.complete(),
            height matches Some(height) ==> {
                &&& height == self.height_at(self.headers.len() as int)
                &&& height >= self.oldest
            },
    {
        let count: u64 = self.headers.len() as u64;
        if self.job.block_number - self.oldest == count {
            None
        } else {
            Some(self.job.block_number - 1 - count)
        }
    }

    /// Takes the header that was asked for last.
    pub fn on_header(self, fetched: Result<Option<BlockHeader>, C::Error>) -> (next: Result<
        Self,
        HostError<C::Error>,
    >)
        requires
            self.wf(),
            !self.complete(),
        ensures
            match fetched {
                Ok(Some(header)) => next matches Ok(phase) && self.extended_by(header, phase),
                Ok(None) => next matches Err(HostError::ExpectedBlock(number)) && number
                    == self.height_at(self.headers.len() as int),
                Err(e) => next matches Err(HostError::Outside(error)) && error == e,
            },
    {
        let count: u64 = self.headers.len() as u64;
        match fetched {
            Ok(Some(header)) => {
                let mut phase = self;
                phase.headers.push(header);
                Ok(phase)
            },
            Ok(None) => Err(HostError::ExpectedBlock(self.job.block_number - 1 - count)),
            Err(e) => Err(HostError::Outside(e)),
        }
    }

    /// Assembles the input for the client.
    pub fn finish(self, bytecodes: Vec<C::Bytecode>) -> (input: ClientExecutorInput<C>)
        requires
            self.wf(),
            self.complete(),
        ensures
            input.completes(self, bytecodes),
    {
        ClientExecutorInput {
            current_block: self.current,
            ancestor_headers: self.headers,
            parent_state: self.state,
            state_requests: self.requests,
            bytecodes,
            genesis: self.job.genesis,
            custom_beneficiary: self.job.custom_beneficiary,
            opcode_tracking: self.job.opcode_tracking,
        }
    }
}

/// What an account's proof after the block is asked for, its proof before the block was asked for
/// too: the two requests name the same account, in the states after consecutive blocks, and every
/// key of the second is among those of the first.
pub proof fn keys_after_are_asked_before(
    account: AccountRequests,
    bundle: BundleState,
    block_number: u64,
    before: ProofRequest,
    after: ProofRequest,
)
    requires
        asks_before(account, bundle, block_number, before),
        asks_after(account, bundle, block_number, after),
    ensures
        before.address == after.address,
        before.block + 1 == after.block,
        forall|i: int|
            0 <= i < after.keys.len() ==> before.keys@.contains(#[trigger] after.keys[i]),
{
    assert forall|i: int| 0 <= i < after.keys.len() implies before.keys@.contains(
        #[trigger] after.keys[i],
    ) by {
        let v = be_value(after.keys[i]@);
        assert(key_set(after.keys@).contains(v));
        assert(key_set(before.keys@).contains(v));
        let k = choose|k: int|
            0 <= k < before.keys@.len() && be_value(#[trigger] before.keys@[k]@) == v;
        lemma_be_value_injective(before.keys@[k]@, after.keys[i]@);
        assert(before.keys@[k] =~= after.keys[i]);
    }
}

/// Every slot that execution read or wrote in an account is asked for before the block, and every
/// slot that it wrote is asked for after the block.
pub proof fn every_touched_slot_is_asked_for(
    account: AccountRequests,
    bundle: BundleState,
    block_number: u64,
    before: ProofRequest,
    after: ProofRequest,
)
    requires
        bundle.wf(),
        asks_before(account, bundle, block_number, before),
        asks_after(account, bundle, block_number, after),
    ensures
        forall|i: int|
            0 <= i < account.slots.len() ==> key_set(before.keys@).contains(
                (#[trigger] account.slots[i]).value(),
            ),
        forall|k: int, i: int|
            #![trigger bundle.accounts[k].storage[i]]
            bundle.is_at(account.address@, k) && 0 <= i < bundle.accounts[k].storage.len() ==> {
                let written = bundle.accounts[k].storage[i].slot.value();
                key_set(before.keys@).contains(written) && key_set(after.keys@).contains(written)
            },
{
    assert forall|i: int| 0 <= i < account.slots.len() implies key_set(before.keys@).contains(
        (#[trigger] account.slots[i]).value(),
    ) by {
        assert(slot_set(account.slots@).contains(account.slots@[i].value()));
    }
    assert forall|k: int, i: int|
        #![trigger bundle.accounts[k].storage[i]]
        bundle.is_at(account.address@, k) && 0 <= i < bundle.accounts[k].storage.len() implies {
        let written = bundle.accounts[k].storage[i].slot.value();
        key_set(before.keys@).contains(written) && key_set(after.keys@).contains(written)
    } by {
        let c = choose|c: int| bundle.is_at(account.address@, c);
        if c < k {
            assert(bundle.accounts[c].address@ != bundle.accounts[k].address@);
        } else if k < c {
            assert(bundle.accounts[k].address@ != bundle.accounts[c].address@);
        }
        let slots = written_slots(bundle.accounts[k].storage@);
        assert(slots[i] == bundle.accounts[k].storage[i].slot);
        assert(slot_set(slots).contains(slots[i].value()));
    }
}

/// What is asked for next is determined: two requests that are both wanted are the same, key for
/// key.
pub proof fn next_request_is_determined<C: ExecutorComponents>(
    phase: ProofCollection<C>,
    first: ProofRequest,
    second: ProofRequest,
)
    requires
        phase.wants(first),
        phase.wants(second),
    ensures
        first.address == second.address,
        first.keys@ == second.keys@,
        first.block == second.block,
{
    key_list_is_determined(first.keys@, second.keys@);
}

/// Each proof goes to the account it was asked for, and brings the collection one step closer to
/// its end, which is reached after two proofs for each account.
pub proof fn proofs_go_to_their_accounts<C: ExecutorComponents>(
    phase: ProofCollection<C>,
    request: ProofRequest,
    added: C::Proof,
    next: ProofCollection<C>,
)
    requires
        phase.wf(),
        !phase.complete(),
        phase.wants(request),
        phase.extended_by(added, next),
    ensures
        request.block == phase.job.block_number - 1 ==> {
            &&& next.before@.last() == added
            &&& request.address == phase.requests[next.before.len() - 1].address
        },
        request.block == phase.job.block_number ==> {
            &&& next.after@.last() == added
            &&& request.address == phase.requests[next.after.len() - 1].address
        },
        next.before.len() + next.after.len() == phase.before.len() + phase.after.len() + 1,
        next.complete() <==> next.before.len() + next.after.len() == 2 * phase.requests.len(),
{
}

/// A block whose execution gives the state root, over all that it changed, and the logs bloom of its
/// own header is accepted.
pub proof fn faithful_execution_is_accepted<C: ExecutorComponents>(
    phase: StateRoot<C>,
    state_root: Seq<u8>,
)
    requires
        state_root == phase.current.header.state_root@,
        phase.logs_bloom@ == phase.current.header.logs_bloom@,
    ensures
        phase.confirms(state_root),
{
    reproduced_header_is_accepted(phase.current.header@, state_root, phase.logs_bloom@);
}

/// Whether `steps` leads a collection of proofs from its start to its end, each step adding the
/// proof that `fetched` lists for it.
pub open spec fn collects_proofs<C: ExecutorComponents>(
    steps: Seq<ProofCollection<C>>,
    fetched: Seq<C::Proof>,
) -> bool {
    &&& steps.len() == fetched.len() + 1
    &&& forall|i: int|
        #![trigger fetched[i]]
        0 <= i < fetched.len() ==> !steps[i].complete() && steps[i].extended_by(
            fetched[i],
            steps[i + 1],
        )
    &&& steps.last().complete()
}

/// Whether `steps` leads a collection of headers from its start to its end, each step adding the
/// header that `fetched` lists for it.
pub open spec fn collects_headers<C: ExecutorComponents>(
    steps: Seq<Ancestors<C>>,
    fetched: Seq<BlockHeader>,
) -> bool {
    &&& steps.len() == fetched.len() + 1
    &&& forall|i: int|
        #![trigger fetched[i]]
        0 <= i < fetched.len() ==> !steps[i].complete() && steps[i].extended_by(
            fetched[i],
            steps[i + 1],
        )
    &&& steps.last().complete()
}

/// The collection of proofs takes two proofs for each account: what comes at an even place is the
/// proof before the block, and what comes after it is the proof after the block.
pub proof fn proofs_alternate<C: ExecutorComponents>(
    steps: Seq<ProofCollection<C>>,
    fetched: Seq<C::Proof>,
)
    requires
        collects_proofs(steps, fetched),
        steps[0].before.len() == 0,
        steps[0].after.len() == 0,
    ensures
        fetched.len() == 2 * steps[0].requests.len(),
        steps.last().before.len() == steps[0].requests.len(),
        forall|k: int|
            #![trigger steps.last().before[k]]
            0 <= k < steps[0].requests.len() ==> steps.last().before[k] == fetched[2 * k],
        forall|k: int|
            #![trigger steps.last().after[k]]
            0 <= k < steps[0].requests.len() ==> steps.last().after[k] == fetched[2 * k + 1],
        steps.last().job == steps[0].job,
        steps.last().current == steps[0].current,
        steps.last().parent_root == steps[0].parent_root,
        steps.last().logs_bloom == steps[0].logs_bloom,
        steps.last().bundle == steps[0].bundle,
        steps.last().requests == steps[0].requests,
{
    lemma_proofs_so_far(steps, fetched, fetched.len() as int);
}

proof fn lemma_proofs_so_far<C: ExecutorComponents>(
    steps: Seq<ProofCollection<C>>,
    fetched: Seq<C::Proof>,
    n: int,
)
    requires
        collects_proofs(steps, fetched),
        steps[0].before.len() == 0,
        steps[0].after.len() == 0,
        0 <= n <= fetched.len(),
    ensures
        n > 0 ==> steps[n].wf(),
        steps[n].before.len() == (n + 1) / 2,
        steps[n].after.len() == n / 2,
        forall|k: int|
            #![trigger steps[n].before[k]]
            0 <= k < steps[n].before.len() ==> steps[n].before[k] == fetched[2 * k],
        forall|k: int|
            #![trigger steps[n].after[k]]
            0 <= k < steps[n].after.len() ==> steps[n].after[k] == fetched[2 * k + 1],
        steps[n].job == steps[0].job,
        steps[n].current == steps[0].current,
        steps[n].parent_root == steps[0].parent_root,
        steps[n].logs_bloom == steps[0].logs_bloom,
        steps[n].bundle == steps[0].bundle,
        steps[n].requests == steps[0].requests,
    decreases n,
{
    if n > 0 {
        lemma_proofs_so_far(steps, fetched, n - 1);
        let added = fetched[n - 1];
        assert(steps[n - 1].extended_by(added, steps[n]));
    }
}

/// The collection of headers lists what was fetched, in the order in which it was fetched.
pub proof fn headers_keep_their_order<C: ExecutorComponents>(
    steps: Seq<Ancestors<C>>,
    fetched: Seq<BlockHeader>,
)
    requires
        collects_headers(steps, fetched),
        steps[0].headers.len() == 0,
    ensures
        steps.last().headers@ == fetched,
        steps.last().job == steps[0].job,
        steps.last().current == steps[0].current,
        steps.last().requests == steps[0].requests,
        steps.last().state == steps[0].state,
        steps.last().oldest == steps[0].oldest,
{
    lemma_headers_so_far(steps, fetched, fetched.len() as int);
    assert(fetched.take(fetched.len() as int) =~= fetched);
}

proof fn lemma_headers_so_far<C: ExecutorComponents>(
    steps: Seq<Ancestors<C>>,
    fetched: Seq<BlockHeader>,
    n: int,
)
    requires
        collects_headers(steps, fetched),
        steps[0].headers.len() == 0,
        0 <= n <= fetched.len(),
    ensures
        steps[n].headers@ == fetched.take(n),
        steps[n].job == steps[0].job,
        steps[n].current == steps[0].current,
        steps[n].requests == steps[0].requests,
        steps[n].state == steps[0].state,
        steps[n].oldest == steps[0].oldest,
    decreases n,
{
    if n > 0 {
        lemma_headers_so_far(steps, fetched, n - 1);
        let added = fetched[n - 1];
        assert(steps[n - 1].extended_by(added, steps[n]));
        assert(fetched.take(n) =~= fetched.take(n - 1).push(added));
    } else {
        assert(steps[0].headers@ =~= fetched.take(0));
    }
}

/// What is asked and answered while a block is executed: the phases of a run that goes through.
pub ghost struct HostRun<C: ExecutorComponents> {
    pub current: CurrentBlock<C>,
    pub block: Block<C>,
    pub previous: PreviousBlock<C>,
    pub parent: BlockHeader,
    pub recovery: SenderRecovery<C>,
    pub execution: BlockExecution<C>,
    pub output: ExecutionOutput,
    pub validation: PostExecution<C>,
    pub access: StateAccess<C>,
    pub requests: Vec<AccountRequests>,
    pub collections: Seq<ProofCollection<C>>,
    pub proofs: Seq<C::Proof>,
    pub parent_state: ParentState<C>,
    pub state: C::State,
    pub root: StateRoot<C>,
    pub state_root: Seq<u8>,
    pub range: AncestorRange<C>,
    pub oldest: u64,
    pub ancestors: Seq<Ancestors<C>>,
    pub headers: Seq<BlockHeader>,
    pub bytecodes: Vec<C::Bytecode>,
    pub input: ClientExecutorInput<C>,
}

impl<C: ExecutorComponents> HostRun<C> {
    /// Whether each phase is the one after the phase before, given the answer to it.
    pub open spec fn holds_together(self) -> bool {
        &&& self.previous.follows(self.current, self.block)
        &&& self.recovery.follows(self.previous, self.parent)
        &&& self.execution.follows(self.recovery)
        &&& self.validation.follows(self.execution, self.output)
        &&& self.access.follows(self.validation)
        &&& collects_proofs(self.collections, self.proofs)
        &&& self.collections[0].starts_after(self.access, self.requests)
        &&& self.parent_state.follows(self.collections.last())
        &&& self.root.follows(self.parent_state, self.state)
        &&& self.range.follows(self.root, self.state_root)
        &&& collects_headers(self.ancestors, self.headers)
        &&& self.ancestors[0].starts_after(self.range, self.oldest)
        &&& self.input.completes(self.ancestors.last(), self.bytecodes)
    }
}

/// A run that goes through yields an input that holds the block that was fetched, the headers
/// before it in the order of fetching, the state, the requests, the codes, and what the job says.
/// The root that was asked for is that of all that execution changed, and it is the root of the
/// block's header; and the header that execution derives for the block, from that root and from the
/// blooms of the receipts, hashes to what the block's own header hashes to.
pub proof fn a_finished_run_accounts_for_its_block<C: ExecutorComponents>(run: HostRun<C>)
    requires
        run.holds_together(),
    ensures
        run.input.current_block == run.block,
        run.input.ancestor_headers@ == run.headers,
        run.headers.len() == run.current.job.block_number - run.oldest,
        run.input.parent_state == run.state,
        run.input.state_requests == run.requests,
        run.input.bytecodes == run.bytecodes,
        run.input.genesis == run.current.job.genesis,
        run.input.custom_beneficiary == run.current.job.custom_beneficiary,
        run.input.opcode_tracking == run.current.job.opcode_tracking,
        are_senders(run.execution.senders@, run.block.transactions@),
        run.parent_state.parent_root == run.parent.state_root,
        run.proofs.len() == 2 * run.requests.len(),
        run.root.bundle == run.output.bundle,
        run.state_root == run.block.header.state_root@,
        header_hash(
            derived_header(
                run.block.header@,
                run.state_root,
                accrued(receipt_blooms(run.output.receipts@)),
            ),
        ) == header_hash(run.block.header@),
{
    proofs_alternate(run.collections, run.proofs);
    headers_keep_their_order(run.ancestors, run.headers);
}

/// The headers that are collected are those of the blocks from the one before the block down to
/// the oldest, each once: a block is in the range exactly if it was asked for, and it was asked for
/// at one position.
pub proof fn ancestors_make_up_the_range<C: ExecutorComponents>(phase: Ancestors<C>, height: int)
    requires
        phase.wf(),
        phase.complete(),
    ensures
        phase.oldest <= height < phase.job.block_number <==> exists|i: int|
            0 <= i < phase.headers.len() && #[trigger] phase.height_at(i) == height,
        forall|i: int, j: int| #[trigger]
            phase.height_at(i) == #[trigger] phase.height_at(j) ==> i == j,
{
    let i = phase.job.block_number - 1 - height;
    assert(phase.height_at(i) == height);
}

} // verus!
