//! What the executors make of their set-up, of the cache and of the client program, said of what is
//! handed in and what comes out.

use crate::cache::input_path;
use crate::client_run::{execute_client, ClientPhase, ClientRun, ProofMode};
use crate::components::ExecutorComponents;
use crate::error::{ExecutorError, HostError};
use crate::full_executor::{
    build_executor, BlockExecutor, Blueprint, CacheAnswer, CacheLookup, CachedExecutor, Config,
    EitherExecutor, ExecutionStart, FullExecutor, InputSource, Wait,
};
use crate::header::BlockHeader;
use crate::host_executor::ClientExecutorInput;
use crate::replay::Replay;
use crate::transaction::Transaction;
use std::sync::Arc;
use vstd::prelude::*;

verus! {

/// A full executor is made of what it is given, every setting among it; an error of the keys is its
/// own.
pub proof fn a_full_executor_is_what_it_is_given<C: ExecutorComponents>(
    provider: C::Provider,
    keys: Result<(C::ProvingKey, C::VerifyingKey), C::Error>,
    evm_config: C::EvmConfig,
    client: Arc<C::Prover>,
    hooks: C::Hooks,
    config: Config<C>,
    created: Result<FullExecutor<C>, C::Error>,
)
    requires
        call_ensures(
            FullExecutor::<C>::try_new,
            (provider, keys, evm_config, client, hooks, config),
            created,
        ),
    ensures
        created is Ok <==> keys is Ok,
        created is Ok ==> {
            let executor = created->Ok_0;
            &&& executor.provider == provider
            &&& executor.host_executor.evm_config == evm_config
            &&& *executor.client == *client
            &&& *executor.pk == keys->Ok_0.0
            &&& *executor.vk == keys->Ok_0.1
            &&& executor.hooks == hooks
            &&& executor.config.chain_id == config.chain_id
            &&& executor.config.genesis == config.genesis
            &&& executor.config.custom_beneficiary == config.custom_beneficiary
            &&& executor.config.opcode_tracking == config.opcode_tracking
            &&& executor.config.cache_dir == config.cache_dir
            &&& executor.config.prove_mode == config.prove_mode
        },
        keys is Err ==> created->Err_0 == keys->Err_0,
{
}

/// A cached executor is made of what it is given; an error of the keys is its own.
pub proof fn a_cached_executor_is_what_it_is_given<C: ExecutorComponents>(
    keys: Result<(C::ProvingKey, C::VerifyingKey), C::Error>,
    client: Arc<C::Prover>,
    hooks: C::Hooks,
    cache_dir: String,
    chain_id: u64,
    prove_mode: Option<ProofMode>,
    created: Result<CachedExecutor<C>, C::Error>,
)
    requires
        call_ensures(
            CachedExecutor::<C>::try_new,
            (keys, client, hooks, cache_dir, chain_id, prove_mode),
            created,
        ),
    ensures
        created is Ok <==> keys is Ok,
        created is Ok ==> {
            let executor = created->Ok_0;
            &&& executor.cache_dir@ == cache_dir@
            &&& executor.chain_id == chain_id
            &&& *executor.client == *client
            &&& *executor.pk == keys->Ok_0.0
            &&& *executor.vk == keys->Ok_0.1
            &&& executor.hooks == hooks
            &&& executor.prove_mode == prove_mode
        },
        keys is Err ==> created->Err_0 == keys->Err_0,
{
}

/// What is built: with a provider an executor on it, with every setting as it was passed; without
/// one, an executor on the cache directory, for the chain and the proofs that were passed; with
/// neither, nothing. The keys are those that were set up, for the program that was passed, and their
/// error ends the building.
pub proof fn an_executor_is_built_as_it_was_set_up<C: ExecutorComponents>(
    elf: Vec<u8>,
    provider: Option<C::Provider>,
    evm_config: C::EvmConfig,
    client: Arc<C::Prover>,
    hooks: C::Hooks,
    config: Config<C>,
    plan: Result<Blueprint<C>, ExecutorError<C::Error>>,
    keys: Result<(C::ProvingKey, C::VerifyingKey), C::Error>,
    built: Result<EitherExecutor<C>, ExecutorError<C::Error>>,
)
    requires
        call_ensures(
            build_executor::<C>,
            (elf, provider, evm_config, client, hooks, config),
            plan,
        ),
        plan is Ok ==> call_ensures(Blueprint::<C>::assemble, (plan->Ok_0, keys), built),
    ensures
        plan is Ok <==> provider is Some || config.cache_dir is Some,
        plan is Err ==> plan->Err_0 is NoSource,
        plan is Ok ==> plan->Ok_0.elf@ == elf@,
        plan is Ok ==> (built is Ok <==> keys is Ok),
        plan is Ok && keys is Err ==> built->Err_0 is Outside && built->Err_0->Outside_0
            == keys->Err_0,
        plan is Ok && keys is Ok && provider is Some ==> {
            let executor = built->Ok_0->Left_0;
            &&& built->Ok_0 is Left
            &&& executor.provider == provider->0
            &&& executor.host_executor.evm_config == evm_config
            &&& *executor.client == *client
            &&& *executor.pk == keys->Ok_0.0
            &&& *executor.vk == keys->Ok_0.1
            &&& executor.hooks == hooks
            &&& executor.config.chain_id == config.chain_id
            &&& executor.config.genesis == config.genesis
            &&& executor.config.custom_beneficiary == config.custom_beneficiary
            &&& executor.config.opcode_tracking == config.opcode_tracking
            &&& executor.config.cache_dir == config.cache_dir
            &&& executor.config.prove_mode == config.prove_mode
        },
        plan is Ok && keys is Ok && provider is None ==> {
            let executor = built->Ok_0->Right_0;
            &&& built->Ok_0 is Right
            &&& executor.cache_dir@ == config.cache_dir->0@
            &&& executor.chain_id == config.chain_id
            &&& *executor.client == *client
            &&& *executor.pk == keys->Ok_0.0
            &&& *executor.vk == keys->Ok_0.1
            &&& executor.hooks == hooks
            &&& executor.prove_mode == config.prove_mode
        },
{
}

/// An executor that was built looks for every block in the cache directory that the configuration
/// names, under the file of the chain and the block, and looks nowhere if the configuration names
/// none. One on a provider tells the hooks first, one on the cache does not.
pub proof fn a_built_executor_looks_into_its_cache<C: ExecutorComponents>(
    elf: Vec<u8>,
    provider: Option<C::Provider>,
    evm_config: C::EvmConfig,
    client: Arc<C::Prover>,
    hooks: C::Hooks,
    config: Config<C>,
    plan: Result<Blueprint<C>, ExecutorError<C::Error>>,
    keys: Result<(C::ProvingKey, C::VerifyingKey), C::Error>,
    built: Result<EitherExecutor<C>, ExecutorError<C::Error>>,
    block_number: u64,
    start: ExecutionStart,
    path: String,
)
    requires
        call_ensures(
            build_executor::<C>,
            (elf, provider, evm_config, client, hooks, config),
            plan,
        ),
        plan is Ok,
        call_ensures(Blueprint::<C>::assemble, (plan->Ok_0, keys), built),
        built is Ok,
        call_ensures(
            <EitherExecutor<C> as BlockExecutor<C>>::execute,
            (&built->Ok_0, block_number),
            start,
        ),
        call_ensures(input_path, (config.chain_id, block_number), path),
    ensures
        start.block_number == block_number,
        start.notify <==> provider is Some,
        start.lookup is Some <==> config.cache_dir is Some,
        start.lookup is Some ==> {
            &&& start.lookup->0.dir@ == config.cache_dir->0@
            &&& start.lookup->0.path@ == path@
        },
{
}

/// A full executor tells the hooks, and looks into the cache exactly if it has one: in its
/// directory, under the file of the chain and the block.
pub proof fn a_full_executor_looks_into_its_cache<C: ExecutorComponents>(
    executor: FullExecutor<C>,
    block_number: u64,
    start: ExecutionStart,
    path: String,
)
    requires
        call_ensures(
            <FullExecutor<C> as BlockExecutor<C>>::execute,
            (&executor, block_number),
            start,
        ),
        call_ensures(input_path, (executor.config.chain_id, block_number), path),
    ensures
        start.block_number == block_number,
        start.notify,
        start.lookup is Some <==> executor.config.cache_dir is Some,
        start.lookup is Some ==> {
            &&& start.lookup->0.dir@ == executor.config.cache_dir->0@
            &&& start.lookup->0.path@ == path@
        },
{
}

/// A cached executor looks into its cache directory, under the file of the chain and the block, and
/// tells nobody.
pub proof fn a_cached_executor_looks_into_its_cache<C: ExecutorComponents>(
    executor: CachedExecutor<C>,
    block_number: u64,
    start: ExecutionStart,
    path: String,
)
    requires
        call_ensures(
            <CachedExecutor<C> as BlockExecutor<C>>::execute,
            (&executor, block_number),
            start,
        ),
        call_ensures(input_path, (executor.chain_id, block_number), path),
    ensures
        start.block_number == block_number,
        !start.notify,
        start.lookup is Some,
        start.lookup->0.dir@ == executor.cache_dir@,
        start.lookup->0.path@ == path@,
{
}

/// An error of the hooks ends the execution; otherwise the lookup goes on as it was.
pub proof fn only_the_hooks_stop_a_start<E>(
    start: ExecutionStart,
    told: Result<(), E>,
    lookup: Result<Option<CacheLookup>, E>,
)
    requires
        call_ensures(ExecutionStart::on_notified::<E>, (start, told), lookup),
    ensures
        lookup is Ok <==> told is Ok,
        lookup is Ok ==> lookup->Ok_0 == start.lookup,
        told is Err ==> lookup->Err_0 == told->Err_0,
{
}

/// Where a full executor takes its input: from the cache exactly if an input was loaded, all of it
/// as it was but for the tracking of opcodes, which is as configured; and otherwise from host
/// execution of that very block over the state after the block before it, with the settings of the
/// executor, whether or not it has a cache.
pub proof fn a_full_executor_takes_the_cache_or_the_parent_state<C: ExecutorComponents>(
    executor: FullExecutor<C>,
    block_number: u64,
    cached: CacheAnswer<C>,
    chosen: Result<InputSource<C>, ExecutorError<C::Error>>,
)
    requires
        call_ensures(
            <FullExecutor<C> as BlockExecutor<C>>::choose_input,
            (&executor, block_number, cached),
            chosen,
        ),
    ensures
        chosen is Ok,
        chosen->Ok_0 is Cached <==> cached is Some && cached->0 is Ok && cached->0->Ok_0 is Some,
        chosen->Ok_0 is Cached ==> {
            let (taken, loaded) = (chosen->Ok_0->Cached_0, cached->0->Ok_0->0);
            &&& taken.opcode_tracking == executor.config.opcode_tracking
            &&& taken.current_block == loaded.current_block
            &&& taken.ancestor_headers == loaded.ancestor_headers
            &&& taken.parent_state == loaded.parent_state
            &&& taken.state_requests == loaded.state_requests
            &&& taken.bytecodes == loaded.bytecodes
            &&& taken.genesis == loaded.genesis
            &&& taken.custom_beneficiary == loaded.custom_beneficiary
        },
        chosen->Ok_0 is Host ==> {
            let run = chosen->Ok_0->run;
            &&& chosen->Ok_0->state_block + 1 == block_number
            &&& run.job.block_number == block_number
            &&& chosen->Ok_0->state_block + 1 == run.job.block_number
            &&& cloned(executor.config.genesis, run.job.genesis)
            &&& run.job.custom_beneficiary == executor.config.custom_beneficiary
            &&& run.job.opcode_tracking == executor.config.opcode_tracking
        },
{
}

/// Where a cached executor takes its input: from the cache, as it was loaded. Without one there is
/// no input, and an error of loading is its own.
pub proof fn a_cached_executor_takes_the_cache<C: ExecutorComponents>(
    executor: CachedExecutor<C>,
    block_number: u64,
    cached: CacheAnswer<C>,
    chosen: Result<InputSource<C>, ExecutorError<C::Error>>,
)
    requires
        call_ensures(
            <CachedExecutor<C> as BlockExecutor<C>>::choose_input,
            (&executor, block_number, cached),
            chosen,
        ),
    ensures
        chosen is Ok <==> cached is Some && cached->0 is Ok && cached->0->Ok_0 is Some,
        chosen is Ok ==> chosen->Ok_0 is Cached && chosen->Ok_0->Cached_0 == cached->0->Ok_0->0,
        cached is Some && cached->0 is Err ==> chosen->Err_0 is Outside
            && chosen->Err_0->Outside_0 == cached->0->Err_0,
        cached is Some && cached->0 is Ok && cached->0->Ok_0 is None ==> chosen->Err_0
            is NoCachedInput,
{
}

/// One executor or the other takes its input as that one does.
pub proof fn either_executor_takes_its_own_source<C: ExecutorComponents>(
    either: EitherExecutor<C>,
    block_number: u64,
    cached: CacheAnswer<C>,
    chosen: Result<InputSource<C>, ExecutorError<C::Error>>,
)
    requires
        call_ensures(
            <EitherExecutor<C> as BlockExecutor<C>>::choose_input,
            (&either, block_number, cached),
            chosen,
        ),
    ensures
        either is Left ==> chosen is Ok,
        cached is Some && cached->0 is Ok && cached->0->Ok_0 is Some ==> {
            let (taken, loaded) = (chosen->Ok_0->Cached_0, cached->0->Ok_0->0);
            &&& chosen is Ok
            &&& chosen->Ok_0 is Cached
            &&& either is Right ==> taken == loaded
            &&& either is Left ==> taken.opcode_tracking
                == either->Left_0.config.opcode_tracking
            &&& taken.current_block == loaded.current_block
            &&& taken.ancestor_headers == loaded.ancestor_headers
            &&& taken.parent_state == loaded.parent_state
            &&& taken.state_requests == loaded.state_requests
            &&& taken.bytecodes == loaded.bytecodes
            &&& taken.genesis == loaded.genesis
            &&& taken.custom_beneficiary == loaded.custom_beneficiary
        },
        either is Left && !(cached is Some && cached->0 is Ok && cached->0->Ok_0 is Some) ==> {
            let run = chosen->Ok_0->run;
            &&& chosen->Ok_0 is Host
            &&& chosen->Ok_0->state_block + 1 == block_number
            &&& run.job.block_number == block_number
            &&& cloned(either->Left_0.config.genesis, run.job.genesis)
            &&& run.job.custom_beneficiary == either->Left_0.config.custom_beneficiary
            &&& run.job.opcode_tracking == either->Left_0.config.opcode_tracking
        },
        either is Right && cached is Some && cached->0 is Err ==> chosen is Err && chosen->Err_0
            is Outside && chosen->Err_0->Outside_0 == cached->0->Err_0,
        either is Right && cached is Some && cached->0 is Ok && cached->0->Ok_0 is None ==> chosen
            is Err && chosen->Err_0 is NoCachedInput,
{
}

/// An executor hands out its own prover, keys and kind of proof.
pub proof fn a_full_executor_hands_out_its_own<C: ExecutorComponents>(
    executor: FullExecutor<C>,
    client: Arc<C::Prover>,
    pk: Arc<C::ProvingKey>,
    vk: Arc<C::VerifyingKey>,
    prove_mode: Option<ProofMode>,
)
    requires
        call_ensures(<FullExecutor<C> as BlockExecutor<C>>::client, (&executor,), client),
        call_ensures(<FullExecutor<C> as BlockExecutor<C>>::pk, (&executor,), pk),
        call_ensures(<FullExecutor<C> as BlockExecutor<C>>::vk, (&executor,), vk),
        call_ensures(<FullExecutor<C> as BlockExecutor<C>>::prove_mode, (&executor,), prove_mode),
    ensures
        *client == *executor.client,
        *pk == *executor.pk,
        *vk == *executor.vk,
        prove_mode == executor.config.prove_mode,
{
}

/// An executor hands out its own prover, keys and kind of proof.
pub proof fn a_cached_executor_hands_out_its_own<C: ExecutorComponents>(
    executor: CachedExecutor<C>,
    client: Arc<C::Prover>,
    pk: Arc<C::ProvingKey>,
    vk: Arc<C::VerifyingKey>,
    prove_mode: Option<ProofMode>,
)
    requires
        call_ensures(<CachedExecutor<C> as BlockExecutor<C>>::client, (&executor,), client),
        call_ensures(<CachedExecutor<C> as BlockExecutor<C>>::pk, (&executor,), pk),
        call_ensures(<CachedExecutor<C> as BlockExecutor<C>>::vk, (&executor,), vk),
        call_ensures(
            <CachedExecutor<C> as BlockExecutor<C>>::prove_mode,
            (&executor,),
            prove_mode,
        ),
    ensures
        *client == *executor.client,
        *pk == *executor.pk,
        *vk == *executor.vk,
        prove_mode == executor.prove_mode,
{
}

/// One executor or the other hands out what that one has.
pub proof fn either_executor_hands_out_its_own<C: ExecutorComponents>(
    either: EitherExecutor<C>,
    client: Arc<C::Prover>,
    pk: Arc<C::ProvingKey>,
    vk: Arc<C::VerifyingKey>,
    prove_mode: Option<ProofMode>,
)
    requires
        call_ensures(<EitherExecutor<C> as BlockExecutor<C>>::client, (&either,), client),
        call_ensures(<EitherExecutor<C> as BlockExecutor<C>>::pk, (&either,), pk),
        call_ensures(<EitherExecutor<C> as BlockExecutor<C>>::vk, (&either,), vk),
        call_ensures(<EitherExecutor<C> as BlockExecutor<C>>::prove_mode, (&either,), prove_mode),
    ensures
        either is Left ==> {
            &&& *client == *either->Left_0.client
            &&& *pk == *either->Left_0.pk
            &&& *vk == *either->Left_0.vk
            &&& prove_mode == either->Left_0.config.prove_mode
        },
        either is Right ==> {
            &&& *client == *either->Right_0.client
            &&& *pk == *either->Right_0.pk
            &&& *vk == *either->Right_0.vk
            &&& prove_mode == either->Right_0.prove_mode
        },
{
}

/// One executor or the other starts as that one does.
pub proof fn either_executor_starts_as_its_own<C: ExecutorComponents>(
    either: EitherExecutor<C>,
    block_number: u64,
    start: ExecutionStart,
    path: String,
)
    requires
        call_ensures(
            <EitherExecutor<C> as BlockExecutor<C>>::execute,
            (&either, block_number),
            start,
        ),
        either is Left ==> call_ensures(
            input_path,
            (either->Left_0.config.chain_id, block_number),
            path,
        ),
        either is Right ==> call_ensures(input_path, (either->Right_0.chain_id, block_number), path),
    ensures
        start.block_number == block_number,
        start.notify <==> either is Left,
        either is Left ==> (start.lookup is Some <==> either->Left_0.config.cache_dir is Some),
        either is Left && start.lookup is Some ==> start.lookup->0.dir@
            == either->Left_0.config.cache_dir->0@,
        either is Right ==> start.lookup is Some && start.lookup->0.dir@
            == either->Right_0.cache_dir@,
        start.lookup is Some ==> start.lookup->0.path@ == path@,
{
}

/// What host execution built is handed on as it is, to be saved exactly where the next execution of
/// that block looks for it; its error ends the execution as it came.
pub proof fn a_built_input_is_saved_where_it_is_looked_for<C: ExecutorComponents>(
    executor: FullExecutor<C>,
    block_number: u64,
    made: Result<ClientExecutorInput<C>, HostError<C::Error>>,
    next: Result<(ClientExecutorInput<C>, Option<CacheLookup>), ExecutorError<C::Error>>,
    again: ExecutionStart,
)
    requires
        call_ensures(FullExecutor::<C>::on_host, (&executor, block_number, made), next),
        call_ensures(
            <FullExecutor<C> as BlockExecutor<C>>::execute,
            (&executor, block_number),
            again,
        ),
    ensures
        next is Ok <==> made is Ok,
        next is Ok ==> {
            let (input, file) = (next->Ok_0.0, next->Ok_0.1);
            &&& input == made->Ok_0
            &&& file is Some <==> executor.config.cache_dir is Some
            &&& file is Some ==> file->0.dir@ == executor.config.cache_dir->0@
            &&& file is Some <==> again.lookup is Some
            &&& file is Some ==> file->0.dir@ == again.lookup->0.dir@ && file->0.path@
                == again.lookup->0.path@
        },
        made is Err ==> next->Err_0 is Host && next->Err_0->Host_0 == made->Err_0,
{
}

/// A saved input goes on as it is; an error of saving ends the execution as it came.
pub proof fn a_saved_input_goes_on<C: ExecutorComponents>(
    executor: FullExecutor<C>,
    input: ClientExecutorInput<C>,
    saved: Result<(), C::Error>,
    next: Result<ClientExecutorInput<C>, ExecutorError<C::Error>>,
)
    requires
        call_ensures(FullExecutor::<C>::on_saved, (&executor, input, saved), next),
    ensures
        next is Ok <==> saved is Ok,
        next is Ok ==> next->Ok_0 == input,
        saved is Err ==> next->Err_0 is Outside && next->Err_0->Outside_0 == saved->Err_0,
{
}

/// Waiting is over exactly if the block is there; otherwise the block is asked for again after a
/// tenth of a second. An error ends the waiting as it came.
pub proof fn waiting_ends_with_the_block<C: ExecutorComponents, B>(
    executor: FullExecutor<C>,
    fetched: Result<Option<B>, C::Error>,
    wait: Result<Wait, C::Error>,
)
    requires
        call_ensures(FullExecutor::<C>::wait_for_block::<B>, (&executor, fetched), wait),
    ensures
        wait is Ok <==> fetched is Ok,
        fetched is Ok ==> (wait->Ok_0 is Over <==> fetched->Ok_0 is Some),
        fetched is Ok && fetched->Ok_0 is None ==> wait->Ok_0->millis == 100,
        fetched is Err ==> wait->Err_0 == fetched->Err_0,
{
}

/// A replay that an executor starts is of the block that it was given, all of it.
pub proof fn an_executor_replays_the_given_block<C: ExecutorComponents>(
    executor: FullExecutor<C>,
    header: BlockHeader,
    transactions: Vec<Transaction>,
    replay: Replay,
)
    requires
        call_ensures(FullExecutor::<C>::test, (&executor, header, transactions), replay),
    ensures
        replay.header == header,
        replay.remaining@ == transactions@,
        replay.done == 0,
        !replay.stopped,
{
}

/// The client program runs on the block of its input, with the kind of proof that was asked for,
/// and executes first: for every kind of executor.
pub proof fn the_client_runs_on_its_input<C: ExecutorComponents, E: BlockExecutor<C>>(
    executor: E,
    input: ClientExecutorInput<C>,
    prove_mode: Option<ProofMode>,
    run: ClientRun,
)
    requires
        call_ensures(
            <E as BlockExecutor<C>>::process_client,
            (&executor, &input, prove_mode),
            run,
        ),
    ensures
        run.number == input.current_block.header.number,
        run.prove_mode == prove_mode,
        run.phase is Execute,
{
}

/// A run starts on its block, with the kind of proof that was asked for, and executes first.
pub proof fn a_client_run_starts_with_execution(
    number: u64,
    prove_mode: Option<ProofMode>,
    run: ClientRun,
)
    requires
        call_ensures(ClientRun::new, (number, prove_mode), run),
    ensures
        run.number == number,
        run.prove_mode == prove_mode,
        run.phase is Execute,
{
}

/// What a run does after each phase: an error ends it as it came; otherwise it goes through
/// execution and its report, and then, exactly if a proof is wanted, through the report that proving
/// starts, the proof of the wanted kind, and the report of its end. Block and kind of proof stay.
pub proof fn a_client_run_goes_through_its_phases<E>(
    run: ClientRun,
    outcome: Result<(), E>,
    next: Result<ClientRun, E>,
)
    requires
        call_ensures(ClientRun::advance::<E>, (run, outcome), next),
    ensures
        next is Ok <==> outcome is Ok,
        outcome is Err ==> next->Err_0 == outcome->Err_0,
        next is Ok ==> {
            let (phase, after) = (run.phase, next->Ok_0.phase);
            &&& next->Ok_0.number == run.number
            &&& next->Ok_0.prove_mode == run.prove_mode
            &&& phase is Execute <==> after is ReportExecution
            &&& phase is ReportExecution && run.prove_mode is None ==> after is Done
            &&& phase is ReportExecution && run.prove_mode is Some ==> after is ReportProvingStart
            &&& phase is ReportProvingStart && run.prove_mode is Some ==> after is Prove
                && after->Prove_0 == run.prove_mode->0
            &&& phase is Prove <==> after is ReportProvingEnd
            &&& phase is ReportProvingEnd ==> after is Done
            &&& after is Prove ==> phase is ReportProvingStart
        },
{
}

/// The error of the thread comes first, and otherwise what the program gave comes out as it is.
pub proof fn what_a_thread_gave_comes_out<T, E>(
    joined: Result<Result<T, E>, E>,
    outcome: Result<T, E>,
)
    requires
        call_ensures(execute_client::<T, E>, (joined,), outcome),
    ensures
        joined is Err ==> outcome is Err && outcome->Err_0 == joined->Err_0,
        joined is Ok ==> outcome == joined->Ok_0,
{
}

/// An executor speaks for itself exactly where the error is its own.
pub proof fn an_executor_says_what_it_lacks<E>(
    error: ExecutorError<E>,
    message: Option<&'static str>,
)
    requires
        call_ensures(ExecutorError::<E>::message, (&error,), message),
    ensures
        message is Some <==> error is NoSource || error is NoCachedInput,
        error is NoSource ==> message->0@ == "Either a RPC URL or a cache dir must be provided"@,
        error is NoCachedInput ==> message->0@ == "No cached input found"@,
{
}

} // verus!
