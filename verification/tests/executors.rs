use rsp_host_executor::client_run::{ClientPhase, ProofMode};
use rsp_host_executor::components::ExecutorComponents;
use rsp_host_executor::error::{ExecutorError, HostError};
use rsp_host_executor::full_executor::{
    build_executor, BlockExecutor, CacheLookup, CachedExecutor, Config, EitherExecutor,
    ExecutionStart, FullExecutor, InputSource, Wait,
};
use rsp_host_executor::header::BlockHeader;
use rsp_host_executor::host_executor::{Block, ClientExecutorInput};
use rsp_host_executor::primitives::U256;
use rsp_host_executor::replay::ReplayStep;
use std::sync::Arc;

struct Parts;

impl ExecutorComponents for Parts {
    type Provider = &'static str;
    type Prover = &'static str;
    type ProvingKey = &'static str;
    type VerifyingKey = &'static str;
    type Hooks = &'static str;
    type EvmConfig = &'static str;
    type Block = ();
    type Proof = ();
    type State = ();
    type Genesis = &'static str;
    type Bytecode = ();
    type Error = &'static str;
}

fn config(cache_dir: Option<&str>) -> Config<Parts> {
    Config {
        chain_id: 10,
        genesis: "genesis",
        custom_beneficiary: Some([2; 20]),
        opcode_tracking: true,
        cache_dir: cache_dir.map(|dir| dir.to_string()),
        prove_mode: Some(ProofMode::Plonk),
    }
}

fn full(cache_dir: Option<&str>) -> FullExecutor<Parts> {
    FullExecutor::try_new(
        "provider",
        Ok(("pk", "vk")),
        "rules",
        Arc::new("prover"),
        "hooks",
        config(cache_dir),
    )
    .ok()
    .unwrap()
}

fn cached() -> CachedExecutor<Parts> {
    CachedExecutor::try_new(
        Ok(("pk", "vk")),
        Arc::new("prover"),
        "hooks",
        "/cache".to_string(),
        10,
        Some(ProofMode::Core),
    )
    .ok()
    .unwrap()
}

fn header(number: u64) -> BlockHeader {
    BlockHeader {
        parent_hash: [0; 32],
        ommers_hash: [0; 32],
        beneficiary: [0; 20],
        state_root: [0; 32],
        transactions_root: [0; 32],
        receipts_root: [0; 32],
        logs_bloom: [0; 256],
        difficulty: U256 { limbs: [0; 4] },
        number,
        gas_limit: 0,
        gas_used: 0,
        timestamp: 0,
        extra_data: Vec::new(),
        mix_hash: [0; 32],
        nonce: [0; 8],
        base_fee_per_gas: None,
        withdrawals_root: None,
        blob_gas_used: None,
        excess_blob_gas: None,
        parent_beacon_block_root: None,
        requests_hash: None,
    }
}

fn input(number: u64) -> ClientExecutorInput<Parts> {
    ClientExecutorInput {
        current_block: Block { header: header(number), transactions: Vec::new(), whole: () },
        ancestor_headers: Vec::new(),
        parent_state: (),
        state_requests: Vec::new(),
        bytecodes: Vec::new(),
        genesis: "cached genesis",
        custom_beneficiary: None,
        opcode_tracking: false,
    }
}

#[test]
fn an_executor_with_a_provider() {
    let plan = build_executor::<Parts>(
        vec![0x7f],
        Some("provider"),
        "rules",
        Arc::new("prover"),
        "hooks",
        config(Some("/cache")),
    );
    let plan = plan.ok().unwrap();
    assert_eq!(plan.elf, vec![0x7f]);
    match plan.assemble(Ok(("pk", "vk"))).ok().unwrap() {
        EitherExecutor::Left(executor) => {
            assert_eq!(executor.provider, "provider");
            assert_eq!(executor.host_executor.evm_config, "rules");
            assert_eq!(*executor.client(), "prover");
            assert_eq!(*executor.pk(), "pk");
            assert_eq!(*executor.vk(), "vk");
            assert_eq!(executor.hooks, "hooks");
            assert_eq!(executor.config.chain_id, 10);
            assert_eq!(executor.prove_mode(), Some(ProofMode::Plonk));
        }
        EitherExecutor::Right(_) => panic!("the provider was passed over"),
    }
}

#[test]
fn an_executor_without_a_provider() {
    let plan = build_executor::<Parts>(
        vec![0x7f],
        None,
        "rules",
        Arc::new("prover"),
        "hooks",
        config(Some("/cache")),
    );
    let plan = plan.ok().unwrap();
    assert_eq!(plan.elf, vec![0x7f]);
    match plan.assemble(Ok(("pk", "vk"))).ok().unwrap() {
        EitherExecutor::Left(_) => panic!("there is no provider"),
        EitherExecutor::Right(executor) => {
            assert_eq!(executor.cache_dir, "/cache");
            assert_eq!(executor.chain_id, 10);
            assert_eq!(*executor.client(), "prover");
            assert_eq!(*executor.pk(), "pk");
            assert_eq!(*executor.vk(), "vk");
            assert_eq!(executor.prove_mode(), Some(ProofMode::Plonk));
        }
    }
}

#[test]
fn an_executor_needs_a_source() {
    let plan = build_executor::<Parts>(
        vec![0x7f],
        None,
        "rules",
        Arc::new("prover"),
        "hooks",
        config(None),
    )
    .err();
    assert_eq!(plan, Some(ExecutorError::NoSource));
    assert_eq!(
        plan.unwrap().message(),
        Some("Either a RPC URL or a cache dir must be provided")
    );
}

#[test]
fn keys_that_could_not_be_set_up() {
    for provider in [Some("provider"), None] {
        let plan = build_executor::<Parts>(
            vec![0x7f],
            provider,
            "rules",
            Arc::new("prover"),
            "hooks",
            config(Some("/cache")),
        );
        let built = plan.ok().unwrap().assemble(Err("thread"));
        assert_eq!(built.err(), Some(ExecutorError::Outside("thread")));
    }
    assert_eq!(ExecutorError::Outside("thread").message(), None);
}

#[test]
fn the_prover_is_shared() {
    let prover = Arc::new("prover");
    let executor = CachedExecutor::<Parts>::try_new(
        Ok(("pk", "vk")),
        prover.clone(),
        "hooks",
        "/cache".to_string(),
        10,
        None,
    )
    .ok()
    .unwrap();
    assert!(Arc::ptr_eq(&prover, &executor.client()));
    assert!(Arc::ptr_eq(&prover, &EitherExecutor::Right(executor).client()));
}

#[test]
fn the_full_executor_tells_the_hooks_and_looks_into_the_cache() {
    assert_eq!(
        full(Some("/cache")).execute(5),
        ExecutionStart {
            block_number: 5,
            notify: true,
            lookup: Some(CacheLookup {
                dir: "/cache".to_string(),
                path: "input/10/5.bin".to_string(),
            }),
        }
    );
    assert_eq!(
        full(None).execute(5),
        ExecutionStart { block_number: 5, notify: true, lookup: None }
    );
}

#[test]
fn the_cached_executor_goes_straight_to_the_cache() {
    let start = cached().execute(5);
    assert!(!start.notify);
    assert_eq!(start.lookup, full(Some("/cache")).execute(5).lookup);
}

#[test]
fn hooks_that_fail_end_the_execution() {
    assert_eq!(full(None).execute(5).on_notified(Err("hook")), Err("hook"));
    assert_eq!(full(None).execute(5).on_notified::<()>(Ok(())), Ok(None));
    let lookup = full(Some("/cache")).execute(5).on_notified::<()>(Ok(()));
    assert_eq!(lookup.unwrap().unwrap().path, "input/10/5.bin");
}

#[test]
fn a_cached_input_is_tracked_as_configured() {
    match full(Some("/cache")).choose_input(5, Some(Ok(Some(input(5))))) {
        Ok(InputSource::Cached(taken)) => {
            assert!(taken.opcode_tracking);
            assert_eq!(taken.genesis, "cached genesis");
            assert_eq!(taken.custom_beneficiary, None);
        }
        _ => panic!("the cached input was passed over"),
    }
    match cached().choose_input(5, Some(Ok(Some(input(5))))) {
        Ok(InputSource::Cached(taken)) => assert!(!taken.opcode_tracking),
        _ => panic!("the cached input was passed over"),
    }
    assert!(matches!(
        full(Some("/cache")).choose_input(0, Some(Ok(Some(input(0))))),
        Ok(InputSource::Cached(_))
    ));
}

#[test]
fn without_a_cached_input_the_host_executes() {
    for answer in [None, Some(Ok(None)), Some(Err("torn"))] {
        match full(None).choose_input(5, answer) {
            Ok(InputSource::Host { state_block, run }) => {
                assert_eq!(state_block, 4);
                assert_eq!(run.number(), 5);
                assert_eq!(run.job.genesis, "genesis");
                assert_eq!(run.job.custom_beneficiary, Some([2; 20]));
                assert!(run.job.opcode_tracking);
            }
            _ => panic!("the host was passed over"),
        }
    }
}

#[test]
fn what_the_host_built_is_saved_where_it_is_looked_for() {
    let executor = full(Some("/cache"));
    let (built, save) = executor.on_host(5, Ok(input(5))).ok().unwrap();
    assert_eq!(built.genesis, "cached genesis");
    assert_eq!(save, executor.execute(5).lookup);
    assert_eq!(save, cached().execute(5).lookup);
    assert_eq!(save.unwrap().path, "input/10/5.bin");
    let (_, save) = full(None).on_host(5, Ok(input(5))).ok().unwrap();
    assert_eq!(save, None);
}

#[test]
fn what_the_host_built_is_taken_the_next_time() {
    let executor = full(Some("/cache"));
    let made = ClientExecutorInput { opcode_tracking: true, ..input(5) };
    let (built, _) = executor.on_host(5, Ok(made)).ok().unwrap();
    let built = executor.on_saved(built, Ok(())).ok().unwrap();
    match executor.choose_input(5, Some(Ok(Some(built)))) {
        Ok(InputSource::Cached(taken)) => {
            assert!(taken.opcode_tracking);
            assert_eq!(taken.genesis, "cached genesis");
            assert_eq!(taken.current_block.header, header(5));
        }
        _ => panic!("the saved input was passed over"),
    }
}

#[test]
fn an_error_of_the_host_ends_the_execution() {
    for cache_dir in [None, Some("/cache")] {
        let ended = full(cache_dir).on_host(5, Err(HostError::ExpectedBlock(5))).err();
        assert_eq!(ended, Some(ExecutorError::Host(HostError::ExpectedBlock(5))));
        assert_eq!(ended.unwrap().message(), None);
    }
}

#[test]
fn an_error_of_saving_ends_the_execution() {
    let ended = full(Some("/cache")).on_saved(input(5), Err("full disk")).err();
    assert_eq!(ended, Some(ExecutorError::Outside("full disk")));
}

#[test]
fn the_cached_executor_has_no_other_source() {
    let missing = cached().choose_input(5, Some(Ok(None))).err();
    assert_eq!(missing, Some(ExecutorError::NoCachedInput));
    assert_eq!(missing.unwrap().message(), Some("No cached input found"));
    assert_eq!(
        cached().choose_input(5, Some(Err("torn"))).err(),
        Some(ExecutorError::Outside("torn"))
    );
}

#[test]
fn either_executor_acts_as_the_one_it_is() {
    let left = EitherExecutor::Left(full(Some("/cache")));
    let right = EitherExecutor::Right(cached());
    assert_eq!(left.execute(5), full(Some("/cache")).execute(5));
    assert_eq!(right.execute(5), cached().execute(5));
    assert_eq!((*left.client(), *right.client()), ("prover", "prover"));
    assert_eq!((*left.pk(), *right.pk()), ("pk", "pk"));
    assert_eq!((*left.vk(), *right.vk()), ("vk", "vk"));
    assert_eq!(left.prove_mode(), Some(ProofMode::Plonk));
    assert_eq!(right.prove_mode(), Some(ProofMode::Core));
    assert!(matches!(left.choose_input(5, Some(Ok(None))), Ok(InputSource::Host { .. })));
    assert!(matches!(
        right.choose_input(5, Some(Ok(None))),
        Err(ExecutorError::NoCachedInput)
    ));
}

#[test]
fn the_client_runs_on_the_block_of_its_input() {
    let run = full(None).process_client(&input(77), Some(ProofMode::Groth16));
    assert_eq!(run.number, 77);
    assert_eq!(run.prove_mode, Some(ProofMode::Groth16));
    assert_eq!(run.phase, ClientPhase::Execute);
    assert_eq!(cached().process_client(&input(78), None).number, 78);
}

#[test]
fn waiting_for_a_block() {
    let executor = full(None);
    assert_eq!(executor.wait_for_block(Ok(Some(()))), Ok(Wait::Over));
    assert_eq!(executor.wait_for_block::<()>(Ok(None)), Ok(Wait::Again { millis: 100 }));
    assert_eq!(executor.wait_for_block::<()>(Err("lost")), Err("lost"));
}

#[test]
fn a_replay_of_an_empty_block() {
    let mut replay = full(None).test(header(5), Vec::new());
    assert_eq!(replay.header, header(5));
    assert_eq!(replay.next(), ReplayStep::Finished);
}
