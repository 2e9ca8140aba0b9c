//! Running the client program on an input: executing it, and proving it where a proof is wanted.

use vstd::prelude::*;

verus! {

/// The kind of proof to make.
#[derive(Clone, Copy, Debug, PartialEq, Eq, Structural)]
pub enum ProofMode {
    Core,
    Compressed,
    Plonk,
    Groth16,
}

/// What is done next with the client program.
#[derive(Clone, Copy, Debug, PartialEq, Eq, Structural)]
pub enum ClientPhase {
    /// Execute the program, without a proof.
    Execute,
    /// Tell the hooks that execution has ended.
    ReportExecution,
    /// Tell the hooks that proving starts.
    ReportProvingStart,
    /// Make a proof of this kind.
    Prove(ProofMode),
    /// Tell the hooks that proving has ended.
    ReportProvingEnd,
    /// Nothing is left to do.
    Done,
}

/// The client program on its way through a block.
#[derive(Clone, Copy, Debug, PartialEq, Eq)]
pub struct ClientRun {
    /// The number of the block.
    pub number: u64,
    pub prove_mode: Option<ProofMode>,
    pub phase: ClientPhase,
}

/// The phase after `phase`, when all went well.
pub open spec fn successor(phase: ClientPhase, prove_mode: Option<ProofMode>) -> ClientPhase {
    match (phase, prove_mode) {
        (ClientPhase::Execute, _) => ClientPhase::ReportExecution,
        (ClientPhase::ReportExecution, Some(_)) => ClientPhase::ReportProvingStart,
        (ClientPhase::ReportProvingStart, Some(mode)) => ClientPhase::Prove(mode),
        (ClientPhase::Prove(_), _) => ClientPhase::ReportProvingEnd,
        _ => ClientPhase::Done,
    }
}

/// What came of running the client program, or the prover, on a thread of its own: the error of
/// the thread, or else what the program gave.
pub fn execute_client<T, E>(joined: Result<Result<T, E>, E>) -> (outcome: Result<T, E>)
    ensures
        match joined {
            Ok(outcome_of_program) => outcome == outcome_of_program,
            Err(e) => outcome == Err::<T, E>(e),
        },
{
    match joined {
        Ok(outcome) => outcome,
        Err(e) => Err(e),
    }
}

impl ClientRun {
    /// Proving is under way only where a proof is wanted, and of the kind that is wanted.
    pub open spec fn wf(self) -> bool {
        match self.phase {
            ClientPhase::ReportProvingStart | ClientPhase::ReportProvingEnd => self.prove_mode
                is Some,
            ClientPhase::Prove(mode) => self.prove_mode == Some(mode),
            _ => true,
        }
    }

    /// Starts the client program on the block with this number.
    pub fn new(number: u64, prove_mode: Option<ProofMode>) -> (run: Self)
        ensures
            run.wf(),
            run.number == number,
            run.prove_mode == prove_mode,
            run.phase == ClientPhase::Execute,
    {
        ClientRun { number, prove_mode, phase: ClientPhase::Execute }
    }

    /// Takes the outcome of the phase: an error ends the run, and is its result.
    pub fn advance<E>(self, outcome: Result<(), E>) -> (next: Result<Self, E>)
        requires
            self.wf(),
            self.phase != ClientPhase::Done,
        ensures
            match outcome {
                Ok(_) => next matches Ok(run) && run.wf() && run.number == self.number
                    && run.prove_mode == self.prove_mode && run.phase == successor(
                    self.phase,
                    self.prove_mode,
                ),
                Err(e) => next == Err::<Self, E>(e),
            },
    {
        match outcome {
            Ok(_) => {
                let phase = match (self.phase, self.prove_mode) {
                    (ClientPhase::Execute, _) => ClientPhase::ReportExecution,
                    (ClientPhase::ReportExecution, Some(_)) => ClientPhase::ReportProvingStart,
                    (ClientPhase::ReportProvingStart, Some(mode)) => ClientPhase::Prove(mode),
                    (ClientPhase::Prove(_), _) => ClientPhase::ReportProvingEnd,
                    _ => ClientPhase::Done,
                };
                Ok(ClientRun { number: self.number, prove_mode: self.prove_mode, phase })
            },
            Err(e) => Err(e),
        }
    }
}

/// The phase of a run after `steps` phases that went well.
pub open spec fn phase_after(prove_mode: Option<ProofMode>, steps: nat) -> ClientPhase
    decreases steps,
{
    if steps == 0 {
        ClientPhase::Execute
    } else {
        successor(phase_after(prove_mode, (steps - 1) as nat), prove_mode)
    }
}

/// Without a proof wanted, a run executes the program, tells the hooks, and is done: nothing is
/// proved.
pub proof fn nothing_is_proved_unasked(steps: nat)
    ensures
        phase_after(None, 0) == ClientPhase::Execute,
        phase_after(None, 1) == ClientPhase::ReportExecution,
        steps >= 2 ==> phase_after(None, steps) == ClientPhase::Done,
    decreases steps,
{
    reveal_with_fuel(phase_after, 3);
    if steps > 2 {
        nothing_is_proved_unasked((steps - 1) as nat);
    }
}

/// Where a proof is wanted, a run goes through all phases in order, makes one proof of the kind
/// that is wanted, and is done.
pub proof fn a_wanted_proof_is_made_once(mode: ProofMode, steps: nat)
    ensures
        phase_after(Some(mode), 0) == ClientPhase::Execute,
        phase_after(Some(mode), 1) == ClientPhase::ReportExecution,
        phase_after(Some(mode), 2) == ClientPhase::ReportProvingStart,
        phase_after(Some(mode), 3) == ClientPhase::Prove(mode),
        phase_after(Some(mode), 4) == ClientPhase::ReportProvingEnd,
        steps >= 5 ==> phase_after(Some(mode), steps) == ClientPhase::Done,
    decreases steps,
{
    reveal_with_fuel(phase_after, 6);
    if steps > 5 {
        a_wanted_proof_is_made_once(mode, (steps - 1) as nat);
    }
}

} // verus!
