//! The executors: one that fetches what it needs from a provider, and one that lives off a cache.

use crate::cache::{cache_path, input_path};
use crate::client_run::{ClientPhase, ClientRun, ProofMode};
use crate::components::ExecutorComponents;
use crate::error::{ExecutorError, HostError};
use crate::header::BlockHeader;
use crate::host_executor::{
    a_finished_run_accounts_for_its_block, ClientExecutorInput, CurrentBlock, HostExecutor, HostRun,
};
use crate::primitives::Address;
use crate::replay::Replay;
use crate::transaction::Transaction;
use std::sync::Arc;
use vstd::prelude::*;

verus! {

/// How an executor is set up.
pub struct Config<C: ExecutorComponents> {
    pub chain_id: u64,
    pub genesis: C::Genesis,
    pub custom_beneficiary: Option<Address>,
    pub opcode_tracking: bool,
    pub cache_dir: Option<String>,
    pub prove_mode: Option<ProofMode>,
}

/// A file of the cache: its directory, and its path from there.
#[derive(Debug, PartialEq, Eq)]
pub struct CacheLookup {
    pub dir: String,
    pub path: String,
}

impl CacheLookup {
    /// Whether both are the same file.
    pub open spec fn is_same_file(self, other: Self) -> bool {
        self.dir@ == other.dir@ && self.path@ == other.path@
    }
}

/// What an executor does first with a block.
#[derive(Debug, PartialEq, Eq)]
pub struct ExecutionStart {
    pub block_number: u64,
    /// Whether to tell the hooks that execution starts. Their error ends the execution.
    pub notify: bool,
    /// The file to look for, if there is a cache.
    pub lookup: Option<CacheLookup>,
}

impl ExecutionStart {
    /// Takes the outcome of telling the hooks, and goes on to the cache.
    pub fn on_notified<E>(self, told: Result<(), E>) -> (lookup: Result<Option<CacheLookup>, E>)
        ensures
            match told {
                Ok(_) => lookup == Ok::<Option<CacheLookup>, E>(self.lookup),
                Err(e) => lookup == Err::<Option<CacheLookup>, E>(e),
            },
    {
        match told {
            Ok(_) => Ok(self.lookup),
            Err(e) => Err(e),
        }
    }
}

/// Where the input for the client comes from.
pub enum InputSource<C: ExecutorComponents> {
    /// It was cached.
    Cached(ClientExecutorInput<C>),
    /// The block is executed on the host, over the state after the block `state_block`.
    Host { state_block: u64, run: CurrentBlock<C> },
}

/// What the cache had: nothing where there is no cache, and otherwise what loading gave.
pub type CacheAnswer<C> = Option<
    Result<Option<ClientExecutorInput<C>>, <C as ExecutorComponents>::Error>,
>;

/// Whether the cache had the input.
pub open spec fn is_hit<C: ExecutorComponents>(cached: CacheAnswer<C>) -> bool {
    cached matches Some(Ok(Some(_)))
}

/// `std::sync::Arc::clone`: another handle to the same value.
#[verifier::external_body]
fn share<T>(handle: &Arc<T>) -> (shared: Arc<T>)
    ensures
        *shared == **handle,
{
    Arc::clone(handle)
}

/// An executor of blocks.
pub trait BlockExecutor<C: ExecutorComponents>: Sized {
    /// The prover.
    spec fn prover(&self) -> C::Prover;

    /// The key that proofs are made with.
    spec fn proving_key(&self) -> C::ProvingKey;

    /// The key that proofs are checked with.
    spec fn verifying_key(&self) -> C::VerifyingKey;

    /// The kind of proof that is wanted, if one is.
    spec fn wanted_proof(&self) -> Option<ProofMode>;

    /// Whether `start` is what is done first with a block.
    spec fn starts_with(&self, block_number: u64, start: ExecutionStart) -> bool;

    /// Whether the executor can go on from this answer of the cache.
    spec fn accepts(&self, block_number: u64, cached: CacheAnswer<C>) -> bool;

    /// Whether `chosen` is where the input comes from after this answer of the cache.
    spec fn chooses(
        &self,
        block_number: u64,
        cached: CacheAnswer<C>,
        chosen: Result<InputSource<C>, ExecutorError<C::Error>>,
    ) -> bool;

    /// Starts to execute the block with the given number.
    fn execute(&self, block_number: u64) -> (start: ExecutionStart)
        ensures
            self.starts_with(block_number, start),
    ;

    /// Decides where the input comes from, given what the cache had.
    fn choose_input(&self, block_number: u64, cached: CacheAnswer<C>) -> (chosen: Result<
        InputSource<C>,
        ExecutorError<C::Error>,
    >)
        requires
            self.accepts(block_number, cached),
        ensures
            self.chooses(block_number, cached, chosen),
    ;

    /// The prover.
    fn client(&self) -> (client: Arc<C::Prover>)
        ensures
            *client == self.prover(),
    ;

    /// The key that proofs are made with.
    fn pk(&self) -> (pk: Arc<C::ProvingKey>)
        ensures
            *pk == self.proving_key(),
    ;

    /// The key that proofs are checked with.
    fn vk(&self) -> (vk: Arc<C::VerifyingKey>)
        ensures
            *vk == self.verifying_key(),
    ;

    /// The kind of proof that is wanted, if one is.
    fn prove_mode(&self) -> (prove_mode: Option<ProofMode>)
        ensures
            prove_mode == self.wanted_proof(),
    ;

    /// Starts the client program on an input.
    fn process_client(
        &self,
        client_input: &ClientExecutorInput<C>,
        prove_mode: Option<ProofMode>,
    ) -> (run: ClientRun)
        ensures
            run.wf(),
            run.number == client_input.current_block.header.number,
            run.prove_mode == prove_mode,
            run.phase == ClientPhase::Execute,
    {
        ClientRun::new(client_input.current_block.header.number, prove_mode)
    }
}

/// An executor that executes blocks on the host, with data from a provider.
pub struct FullExecutor<C: ExecutorComponents> {
    pub provider: C::Provider,
    pub host_executor: HostExecutor<C::EvmConfig>,
    pub client: Arc<C::Prover>,
    pub pk: Arc<C::ProvingKey>,
    pub vk: Arc<C::VerifyingKey>,
    pub hooks: C::Hooks,
    pub config: Config<C>,
}

/// An executor that takes its inputs from a cache.
pub struct CachedExecutor<C: ExecutorComponents> {
    pub cache_dir: String,
    pub chain_id: u64,
    pub client: Arc<C::Prover>,
    pub pk: Arc<C::ProvingKey>,
    pub vk: Arc<C::VerifyingKey>,
    pub hooks: C::Hooks,
    pub prove_mode: Option<ProofMode>,
}

/// One or the other.
pub enum EitherExecutor<C: ExecutorComponents> {
    Left(FullExecutor<C>),
    Right(CachedExecutor<C>),
}

/// What to do while waiting for a block.
#[derive(Clone, Copy, Debug, PartialEq, Eq, Structural)]
pub enum Wait {
    /// The block is there.
    Over,
    /// Ask again after so many milliseconds.
    Again { millis: u64 },
}

impl<C: ExecutorComponents> FullExecutor<C> {
    /// Creates an executor, given the keys that the prover set up for the client program.
    pub fn try_new(
        provider: C::Provider,
        keys: Result<(C::ProvingKey, C::VerifyingKey), C::Error>,
        evm_config: C::EvmConfig,
        client: Arc<C::Prover>,
        hooks: C::Hooks,
        config: Config<C>,
    ) -> (created: Result<Self, C::Error>)
        ensures
            match keys {
                Ok((pk, vk)) => created matches Ok(executor) && executor.provider == provider
                    && executor.host_executor.evm_config == evm_config && executor.client == client
                    && *executor.pk == pk && *executor.vk == vk && executor.hooks == hooks
                    && executor.config == config,
                Err(e) => created == Err::<Self, C::Error>(e),
            },
    {
        match keys {
            Ok((pk, vk)) => Ok(
                FullExecutor {
                    provider,
                    host_executor: HostExecutor::new(evm_config),
                    client,
                    pk: Arc::new(pk),
                    vk: Arc::new(vk),
                    hooks,
                    config,
                },
            ),
            Err(e) => Err(e),
        }
    }

    /// Decides whether to go on waiting, given what the provider had for the block.
    pub fn wait_for_block<B>(&self, fetched: Result<Option<B>, C::Error>) -> (wait: Result<
        Wait,
        C::Error,
    >)
        ensures
            match fetched {
                Ok(Some(_)) => wait == Ok::<Wait, C::Error>(Wait::Over),
                Ok(None) => wait == Ok::<Wait, C::Error>(Wait::Again { millis: 100 }),
                Err(e) => wait == Err::<Wait, C::Error>(e),
            },
    {
        match fetched {
            Ok(Some(_)) => Ok(Wait::Over),
            Ok(None) => Ok(Wait::Again { millis: 100 }),
            Err(e) => Err(e),
        }
    }

    /// Whether `next` is what becomes of host execution that came to `made`: an error ends the
    /// execution of the block, and an input is to be saved in the cache if there is one.
    pub open spec fn hands_on(
        self,
        block_number: u64,
        made: Result<ClientExecutorInput<C>, HostError<C::Error>>,
        next: Result<(ClientExecutorInput<C>, Option<CacheLookup>), ExecutorError<C::Error>>,
    ) -> bool {
        match made {
            Ok(input) => {
                &&& next matches Ok((taken, save))
                &&& taken == input
                &&& match self.config.cache_dir {
                    Some(dir) => save matches Some(file) && file.dir@ == dir@ && file.path@
                        == cache_path(self.config.chain_id, block_number),
                    None => save is None,
                }
            },
            Err(e) => next matches Err(ExecutorError::Host(error)) && error == e,
        }
    }

    /// The file of the cache for a block, if there is a cache.
    fn cache_file(&self, block_number: u64) -> (file: Option<CacheLookup>)
        ensures
            match self.config.cache_dir {
                Some(dir) => file matches Some(file) && file.dir@ == dir@ && file.path@
                    == cache_path(self.config.chain_id, block_number),
                None => file is None,
            },
    {
        match &self.config.cache_dir {
            Some(dir) => Some(
                CacheLookup {
                    dir: dir.clone(),
                    path: input_path(self.config.chain_id, block_number),
                },
            ),
            None => None,
        }
    }

    /// Takes what host execution came to. An input is handed on, with the file of the cache in
    /// which to save it; an error ends the execution of the block.
    pub fn on_host(
        &self,
        block_number: u64,
        made: Result<ClientExecutorInput<C>, HostError<C::Error>>,
    ) -> (next: Result<(ClientExecutorInput<C>, Option<CacheLookup>), ExecutorError<C::Error>>)
        ensures
            self.hands_on(block_number, made, next),
    {
        match made {
            Ok(input) => Ok((input, self.cache_file(block_number))),
            Err(e) => Err(ExecutorError::Host(e)),
        }
    }

    /// Takes the outcome of saving an input, and goes on to the client program with it. An error
    /// of saving ends the execution of the block.
    pub fn on_saved(&self, input: ClientExecutorInput<C>, saved: Result<(), C::Error>) -> (next:
        Result<ClientExecutorInput<C>, ExecutorError<C::Error>>)
        ensures
            match saved {
                Ok(_) => next matches Ok(taken) && taken == input,
                Err(e) => next matches Err(ExecutorError::Outside(error)) && error == e,
            },
    {
        match saved {
            Ok(_) => Ok(input),
            Err(e) => Err(ExecutorError::Outside(e)),
        }
    }

    /// Starts to replay an Ethereum block transaction by transaction.
    pub fn test(&self, header: BlockHeader, transactions: Vec<Transaction>) -> (replay: Replay)
        ensures
            replay.wf(),
            replay.header == header,
            replay.remaining == transactions,
            replay.done == 0,
            !replay.stopped,
    {
        Replay::new(header, transactions)
    }
}

impl<C: ExecutorComponents> BlockExecutor<C> for FullExecutor<C> {
    open spec fn prover(&self) -> C::Prover {
        *self.client
    }

    open spec fn proving_key(&self) -> C::ProvingKey {
        *self.pk
    }

    open spec fn verifying_key(&self) -> C::VerifyingKey {
        *self.vk
    }

    open spec fn wanted_proof(&self) -> Option<ProofMode> {
        self.config.prove_mode
    }

    open spec fn starts_with(&self, block_number: u64, start: ExecutionStart) -> bool {
        &&& start.block_number == block_number
        &&& start.notify
        &&& match self.config.cache_dir {
            Some(dir) => start.lookup matches Some(lookup) && lookup.dir@ == dir@ && lookup.path@
                == cache_path(self.config.chain_id, block_number),
            None => start.lookup is None,
        }
    }

    open spec fn accepts(&self, block_number: u64, cached: CacheAnswer<C>) -> bool {
        is_hit(cached) || block_number > 0
    }

    open spec fn chooses(
        &self,
        block_number: u64,
        cached: CacheAnswer<C>,
        chosen: Result<InputSource<C>, ExecutorError<C::Error>>,
    ) -> bool {
        match cached {
            Some(Ok(Some(input))) => {
                &&& chosen matches Ok(InputSource::Cached(taken))
                &&& taken == (ClientExecutorInput {
                    opcode_tracking: self.config.opcode_tracking,
                    ..input
                })
            },
            _ => {
                &&& chosen matches Ok(InputSource::Host { state_block, run })
                &&& state_block == block_number - 1
                &&& run.job.block_number == block_number
                &&& cloned(self.config.genesis, run.job.genesis)
                &&& run.job.custom_beneficiary == self.config.custom_beneficiary
                &&& run.job.opcode_tracking == self.config.opcode_tracking
            },
        }
    }

    /// Tells the hooks, and looks into the cache if there is one.
    fn execute(&self, block_number: u64) -> (start: ExecutionStart) {
        ExecutionStart { block_number, notify: true, lookup: self.cache_file(block_number) }
    }

    /// A cached input is taken, with opcode tracking as configured. Without one, or where the
    /// cache failed, the block is executed on the host.
    fn choose_input(&self, block_number: u64, cached: CacheAnswer<C>) -> (chosen: Result<
        InputSource<C>,
        ExecutorError<C::Error>,
    >) {
        match cached {
            Some(Ok(Some(input))) => {
                let mut taken = input;
                taken.opcode_tracking = self.config.opcode_tracking;
                Ok(InputSource::Cached(taken))
            },
            _ => {
                let run = self.host_executor.execute::<C>(
                    block_number,
                    self.config.genesis.clone(),
                    self.config.custom_beneficiary,
                    self.config.opcode_tracking,
                );
                Ok(InputSource::Host { state_block: block_number - 1, run })
            },
        }
    }

    fn client(&self) -> (client: Arc<C::Prover>) {
        share(&self.client)
    }

    fn pk(&self) -> (pk: Arc<C::ProvingKey>) {
        share(&self.pk)
    }

    fn vk(&self) -> (vk: Arc<C::VerifyingKey>) {
        share(&self.vk)
    }

    fn prove_mode(&self) -> (prove_mode: Option<ProofMode>) {
        self.config.prove_mode
    }
}

impl<C: ExecutorComponents> CachedExecutor<C> {
    /// Creates an executor, given the keys that the prover set up for the client program.
    pub fn try_new(
        keys: Result<(C::ProvingKey, C::VerifyingKey), C::Error>,
        client: Arc<C::Prover>,
        hooks: C::Hooks,
        cache_dir: String,
        chain_id: u64,
        prove_mode: Option<ProofMode>,
    ) -> (created: Result<Self, C::Error>)
        ensures
            match keys {
                Ok((pk, vk)) => created matches Ok(executor) && executor.cache_dir == cache_dir
                    && executor.chain_id == chain_id && executor.client == client && *executor.pk
                    == pk && *executor.vk == vk && executor.hooks == hooks && executor.prove_mode
                    == prove_mode,
                Err(e) => created == Err::<Self, C::Error>(e),
            },
    {
        match keys {
            Ok((pk, vk)) => Ok(
                CachedExecutor {
                    cache_dir,
                    chain_id,
                    client,
                    pk: Arc::new(pk),
                    vk: Arc::new(vk),
                    hooks,
                    prove_mode,
                },
            ),
            Err(e) => Err(e),
        }
    }
}

impl<C: ExecutorComponents> BlockExecutor<C> for CachedExecutor<C> {
    open spec fn prover(&self) -> C::Prover {
        *self.client
    }

    open spec fn proving_key(&self) -> C::ProvingKey {
        *self.pk
    }

    open spec fn verifying_key(&self) -> C::VerifyingKey {
        *self.vk
    }

    open spec fn wanted_proof(&self) -> Option<ProofMode> {
        self.prove_mode
    }

    open spec fn starts_with(&self, block_number: u64, start: ExecutionStart) -> bool {
        &&& start.block_number == block_number
        &&& !start.notify
        &&& start.lookup matches Some(lookup)
        &&& lookup.dir@ == self.cache_dir@
        &&& lookup.path@ == cache_path(self.chain_id, block_number)
    }

    open spec fn accepts(&self, block_number: u64, cached: CacheAnswer<C>) -> bool {
        cached is Some
    }

    open spec fn chooses(
        &self,
        block_number: u64,
        cached: CacheAnswer<C>,
        chosen: Result<InputSource<C>, ExecutorError<C::Error>>,
    ) -> bool {
        match cached {
            Some(Ok(Some(input))) => chosen matches Ok(InputSource::Cached(taken)) && taken
                == input,
            Some(Err(e)) => chosen matches Err(ExecutorError::Outside(error)) && error == e,
            _ => chosen matches Err(ExecutorError::NoCachedInput),
        }
    }

    /// Looks into the cache, without telling the hooks.
    fn execute(&self, block_number: u64) -> (start: ExecutionStart) {
        let lookup = CacheLookup {
            dir: self.cache_dir.clone(),
            path: input_path(self.chain_id, block_number),
        };
        ExecutionStart { block_number, notify: false, lookup: Some(lookup) }
    }

    /// A cached input is taken as it is. There is no other source.
    fn choose_input(&self, block_number: u64, cached: CacheAnswer<C>) -> (chosen: Result<
        InputSource<C>,
        ExecutorError<C::Error>,
    >) {
        match cached {
            Some(Ok(Some(input))) => Ok(InputSource::Cached(input)),
            Some(Err(e)) => Err(ExecutorError::Outside(e)),
            _ => Err(ExecutorError::NoCachedInput),
        }
    }

    fn client(&self) -> (client: Arc<C::Prover>) {
        share(&self.client)
    }

    fn pk(&self) -> (pk: Arc<C::ProvingKey>) {
        share(&self.pk)
    }

    fn vk(&self) -> (vk: Arc<C::VerifyingKey>) {
        share(&self.vk)
    }

    fn prove_mode(&self) -> (prove_mode: Option<ProofMode>) {
        self.prove_mode
    }
}

impl<C: ExecutorComponents> BlockExecutor<C> for EitherExecutor<C> {
    open spec fn prover(&self) -> C::Prover {
        match self {
            EitherExecutor::Left(executor) => executor.prover(),
            EitherExecutor::Right(executor) => executor.prover(),
        }
    }

    open spec fn proving_key(&self) -> C::ProvingKey {
        match self {
            EitherExecutor::Left(executor) => executor.proving_key(),
            EitherExecutor::Right(executor) => executor.proving_key(),
        }
    }

    open spec fn verifying_key(&self) -> C::VerifyingKey {
        match self {
            EitherExecutor::Left(executor) => executor.verifying_key(),
            EitherExecutor::Right(executor) => executor.verifying_key(),
        }
    }

    open spec fn wanted_proof(&self) -> Option<ProofMode> {
        match self {
            EitherExecutor::Left(executor) => executor.wanted_proof(),
            EitherExecutor::Right(executor) => executor.wanted_proof(),
        }
    }

    open spec fn starts_with(&self, block_number: u64, start: ExecutionStart) -> bool {
        match self {
            EitherExecutor::Left(executor) => executor.starts_with(block_number, start),
            EitherExecutor::Right(executor) => executor.starts_with(block_number, start),
        }
    }

    open spec fn accepts(&self, block_number: u64, cached: CacheAnswer<C>) -> bool {
        match self {
            EitherExecutor::Left(executor) => executor.accepts(block_number, cached),
            EitherExecutor::Right(executor) => executor.accepts(block_number, cached),
        }
    }

    open spec fn chooses(
        &self,
        block_number: u64,
        cached: CacheAnswer<C>,
        chosen: Result<InputSource<C>, ExecutorError<C::Error>>,
    ) -> bool {
        match self {
            EitherExecutor::Left(executor) => executor.chooses(block_number, cached, chosen),
            EitherExecutor::Right(executor) => executor.chooses(block_number, cached, chosen),
        }
    }

    fn execute(&self, block_number: u64) -> (start: ExecutionStart) {
        match self {
            EitherExecutor::Left(executor) => executor.execute(block_number),
            EitherExecutor::Right(executor) => executor.execute(block_number),
        }
    }

    fn choose_input(&self, block_number: u64, cached: CacheAnswer<C>) -> (chosen: Result<
        InputSource<C>,
        ExecutorError<C::Error>,
    >) {
        match self {
            EitherExecutor::Left(executor) => executor.choose_input(block_number, cached),
            EitherExecutor::Right(executor) => executor.choose_input(block_number, cached),
        }
    }

    fn client(&self) -> (client: Arc<C::Prover>) {
        match self {
            EitherExecutor::Left(executor) => executor.client(),
            EitherExecutor::Right(executor) => executor.client(),
        }
    }

    fn pk(&self) -> (pk: Arc<C::ProvingKey>) {
        match self {
            EitherExecutor::Left(executor) => executor.pk(),
            EitherExecutor::Right(executor) => executor.pk(),
        }
    }

    fn vk(&self) -> (vk: Arc<C::VerifyingKey>) {
        match self {
            EitherExecutor::Left(executor) => executor.vk(),
            EitherExecutor::Right(executor) => executor.vk(),
        }
    }

    fn prove_mode(&self) -> (prove_mode: Option<ProofMode>) {
        match self {
            EitherExecutor::Left(executor) => executor.prove_mode(),
            EitherExecutor::Right(executor) => executor.prove_mode(),
        }
    }
}

/// An executor that still lacks its keys: they are to be set up for the client program `elf`.
pub struct Blueprint<C: ExecutorComponents> {
    pub elf: Vec<u8>,
    pub parts: BlueprintParts<C>,
}

/// What an executor is made of besides its keys.
pub enum BlueprintParts<C: ExecutorComponents> {
    Full {
        provider: C::Provider,
        evm_config: C::EvmConfig,
        client: Arc<C::Prover>,
        hooks: C::Hooks,
        config: Config<C>,
    },
    Cached {
        client: Arc<C::Prover>,
        hooks: C::Hooks,
        cache_dir: String,
        chain_id: u64,
        prove_mode: Option<ProofMode>,
    },
}

/// Decides which executor to build: one on the provider if there is a provider, otherwise one on
/// the cache if there is a cache. The keys are set up once that is settled.
pub fn build_executor<C: ExecutorComponents>(
    elf: Vec<u8>,
    provider: Option<C::Provider>,
    evm_config: C::EvmConfig,
    client: Arc<C::Prover>,
    hooks: C::Hooks,
    config: Config<C>,
) -> (plan: Result<Blueprint<C>, ExecutorError<C::Error>>)
    ensures
        match (provider, config.cache_dir) {
            (Some(provider), _) => plan matches Ok(blueprint) && blueprint.elf == elf
                && blueprint.parts == (BlueprintParts::<C>::Full {
                provider,
                evm_config,
                client,
                hooks,
                config,
            }),
            (None, Some(cache_dir)) => plan matches Ok(blueprint) && blueprint.elf == elf
                && blueprint.parts == (BlueprintParts::<C>::Cached {
                client,
                hooks,
                cache_dir,
                chain_id: config.chain_id,
                prove_mode: config.prove_mode,
            }),
            (None, None) => plan matches Err(ExecutorError::NoSource),
        },
{
    match provider {
        Some(provider) => {
            let parts = BlueprintParts::Full { provider, evm_config, client, hooks, config };
            Ok(Blueprint { elf, parts })
        },
        None => match config.cache_dir {
            Some(cache_dir) => {
                let parts = BlueprintParts::Cached {
                    client,
                    hooks,
                    cache_dir,
                    chain_id: config.chain_id,
                    prove_mode: config.prove_mode,
                };
                Ok(Blueprint { elf, parts })
            },
            None => Err(ExecutorError::NoSource),
        },
    }
}

impl<C: ExecutorComponents> Blueprint<C> {
    /// Whether `executor` is the executor of this blueprint with these keys.
    pub open spec fn completed_by(
        self,
        pk: C::ProvingKey,
        vk: C::VerifyingKey,
        executor: EitherExecutor<C>,
    ) -> bool {
        match self.parts {
            BlueprintParts::Full { provider, evm_config, client, hooks, config } => {
                &&& executor matches EitherExecutor::Left(full)
                &&& full.provider == provider
                &&& full.host_executor.evm_config == evm_config
                &&& full.client == client
                &&& *full.pk == pk
                &&& *full.vk == vk
                &&& full.hooks == hooks
                &&& full.config == config
            },
            BlueprintParts::Cached { client, hooks, cache_dir, chain_id, prove_mode } => {
                &&& executor matches EitherExecutor::Right(cached)
                &&& cached.cache_dir == cache_dir
                &&& cached.chain_id == chain_id
                &&& cached.client == client
                &&& *cached.pk == pk
                &&& *cached.vk == vk
                &&& cached.hooks == hooks
                &&& cached.prove_mode == prove_mode
            },
        }
    }

    /// The executor with the keys that the prover set up for `elf`.
    pub fn assemble(self, keys: Result<(C::ProvingKey, C::VerifyingKey), C::Error>) -> (built:
        Result<EitherExecutor<C>, ExecutorError<C::Error>>)
        ensures
            match keys {
                Ok((pk, vk)) => built matches Ok(executor) && self.completed_by(pk, vk, executor),
                Err(e) => built matches Err(ExecutorError::Outside(error)) && error == e,
            },
    {
        match self.parts {
            BlueprintParts::Full { provider, evm_config, client, hooks, config } => {
                match FullExecutor::try_new(provider, keys, evm_config, client, hooks, config) {
                    Ok(executor) => Ok(EitherExecutor::Left(executor)),
                    Err(e) => Err(ExecutorError::Outside(e)),
                }
            },
            BlueprintParts::Cached { client, hooks, cache_dir, chain_id, prove_mode } => {
                match CachedExecutor::try_new(
                    keys,
                    client,
                    hooks,
                    cache_dir,
                    chain_id,
                    prove_mode,
                ) {
                    Ok(executor) => Ok(EitherExecutor::Right(executor)),
                    Err(e) => Err(ExecutorError::Outside(e)),
                }
            },
        }
    }
}

/// Both executors look for a block in the same file of a cache that they share.
pub proof fn executors_share_a_cache<C: ExecutorComponents>(
    full: FullExecutor<C>,
    cached: CachedExecutor<C>,
    block_number: u64,
    start: ExecutionStart,
    other: ExecutionStart,
)
    requires
        full.config.cache_dir matches Some(dir) && dir@ == cached.cache_dir@,
        full.config.chain_id == cached.chain_id,
        full.starts_with(block_number, start),
        cached.starts_with(block_number, other),
    ensures
        start.lookup is Some,
        other.lookup is Some,
        start.lookup->0.is_same_file(other.lookup->0),
{
}

/// An executor with a provider has an input for every block, whatever became of the cache; the
/// input tracks opcodes exactly if the executor is set up to, and host execution reads the state
/// after the block before.
pub proof fn a_provider_is_always_a_source<C: ExecutorComponents>(
    executor: FullExecutor<C>,
    block_number: u64,
    cached: CacheAnswer<C>,
    chosen: Result<InputSource<C>, ExecutorError<C::Error>>,
)
    requires
        executor.chooses(block_number, cached, chosen),
    ensures
        chosen is Ok,
        match chosen->Ok_0 {
            InputSource::Cached(input) => is_hit(cached) && input.opcode_tracking
                == executor.config.opcode_tracking,
            InputSource::Host { state_block, run } => !is_hit(cached) && run.job.opcode_tracking
                == executor.config.opcode_tracking && state_block + 1 == run.job.block_number,
        },
{
}

/// What host execution built for a block is what the next execution of that block takes: the input
/// is saved in the very file that is looked for, and what is loaded from there is taken as it was
/// built, by this executor and by one that lives off the same cache.
pub proof fn a_saved_input_is_taken_the_next_time<C: ExecutorComponents>(
    executor: FullExecutor<C>,
    offline: CachedExecutor<C>,
    block_number: u64,
    missed: CacheAnswer<C>,
    state_block: u64,
    run: HostRun<C>,
    saved: (ClientExecutorInput<C>, Option<CacheLookup>),
    again: ExecutionStart,
    offline_start: ExecutionStart,
    chosen: Result<InputSource<C>, ExecutorError<C::Error>>,
    offline_chosen: Result<InputSource<C>, ExecutorError<C::Error>>,
)
    requires
        executor.config.cache_dir matches Some(dir) && dir@ == offline.cache_dir@,
        executor.config.chain_id == offline.chain_id,
        executor.chooses(
            block_number,
            missed,
            Ok(InputSource::Host { state_block, run: run.current }),
        ),
        run.holds_together(),
        executor.hands_on(block_number, Ok(run.input), Ok(saved)),
        executor.starts_with(block_number, again),
        offline.starts_with(block_number, offline_start),
        executor.chooses(block_number, Some(Ok(Some(saved.0))), chosen),
        offline.chooses(block_number, Some(Ok(Some(saved.0))), offline_chosen),
    ensures
        saved.1 is Some,
        again.lookup is Some,
        again.lookup->0.is_same_file(saved.1->0),
        offline_start.lookup is Some,
        offline_start.lookup->0.is_same_file(saved.1->0),
        chosen matches Ok(InputSource::Cached(taken)) && taken == run.input,
        offline_chosen matches Ok(InputSource::Cached(taken)) && taken == run.input,
{
    a_finished_run_accounts_for_its_block(run);
}

} // verus!
