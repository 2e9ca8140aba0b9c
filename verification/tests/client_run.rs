use rsp_host_executor::client_run::{execute_client, ClientPhase, ClientRun, ProofMode};

fn phases(prove_mode: Option<ProofMode>) -> Vec<ClientPhase> {
    let mut run = ClientRun::new(17, prove_mode);
    let mut seen = vec![run.phase];
    while run.phase != ClientPhase::Done {
        run = run.advance::<()>(Ok(())).unwrap();
        assert_eq!((run.number, run.prove_mode), (17, prove_mode));
        seen.push(run.phase);
    }
    seen
}

#[test]
fn a_run_without_a_proof() {
    assert_eq!(
        phases(None),
        vec![ClientPhase::Execute, ClientPhase::ReportExecution, ClientPhase::Done]
    );
}

#[test]
fn a_run_with_a_proof() {
    for mode in [ProofMode::Core, ProofMode::Compressed, ProofMode::Plonk, ProofMode::Groth16] {
        assert_eq!(
            phases(Some(mode)),
            vec![
                ClientPhase::Execute,
                ClientPhase::ReportExecution,
                ClientPhase::ReportProvingStart,
                ClientPhase::Prove(mode),
                ClientPhase::ReportProvingEnd,
                ClientPhase::Done,
            ]
        );
    }
}

#[test]
fn an_error_ends_a_run_in_any_phase() {
    let mut run = ClientRun::new(17, Some(ProofMode::Core));
    while run.phase != ClientPhase::Done {
        assert_eq!(run.advance(Err("broken")), Err("broken"));
        run = run.advance::<()>(Ok(())).unwrap();
    }
}

#[test]
fn the_error_of_the_thread_comes_first() {
    assert_eq!(execute_client::<u8, &str>(Ok(Ok(1))), Ok(1));
    assert_eq!(execute_client::<u8, &str>(Ok(Err("program"))), Err("program"));
    assert_eq!(execute_client::<u8, &str>(Err("thread")), Err("thread"));
}
