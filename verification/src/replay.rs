//! Replaying the transactions of a block one by one, and checking the state root that results.

use crate::bundle::{
    account_views, covered_accounts, override_account, BundleAccount, BundleState, RootScope,
};
use crate::bytes::same_bytes;
use crate::header::BlockHeader;
use crate::primitives::{Address, B256};
use crate::transaction::{
    block_env, optional_access_list, optional_address, optional_fields, replays_in, tx_env,
    AccessListItem, AccessListItemView, BlockEnv, Transaction, TxEnv,
    TxFields, TxFieldsView,
};
use vstd::prelude::*;

verus! {

/// A replay under way: the block's header, and the transactions still to come.
#[derive(Debug, PartialEq, Eq)]
pub struct Replay {
    pub header: BlockHeader,
    pub remaining: Vec<Transaction>,
    /// How many transactions came before.
    pub done: usize,
    /// Whether a transaction without a signer ended the replay.
    pub stopped: bool,
}

/// What a replay does next.
#[derive(Debug, PartialEq, Eq)]
pub enum ReplayStep {
    /// Execute the transaction with this number and commit what it does. Whether it succeeds has
    /// no bearing on the steps that follow.
    Execute { index: usize, env: TxEnv },
    /// The transaction with this number has no signer, and the replay has ended without a root.
    NoSigner { index: usize },
    /// All transactions are done.
    Finished,
}

/// The outcome of a replay.
#[derive(Clone, Copy, Debug, PartialEq, Eq)]
pub struct RootVerdict {
    pub calculated: B256,
    pub actual: B256,
    pub matches: bool,
}

/// Whether `kept` is what the replay's root is taken over: of the accounts that execution touched
/// those that enter the root, the overridden balance in place.
pub open spec fn enters_replay_root(bundle: BundleState, kept: BundleState) -> bool {
    let covered = covered_accounts(bundle.accounts@, RootScope::Replay);
    &&& kept.accounts.len() == covered.len()
    &&& forall|i: int|
        #![trigger kept.accounts[i]]
        0 <= i < covered.len() ==> if crate::bytes::be_value(covered[i].address@)
            == override_account() && covered[i].info is Some {
            crate::bundle::balance_overridden(covered[i], kept.accounts[i])
        } else {
            kept.accounts[i] == covered[i]
        }
}

impl Replay {
    /// The transactions can be counted.
    pub open spec fn wf(self) -> bool {
        self.done + self.remaining.len() <= usize::MAX
    }

    /// Whether all transactions are executed.
    pub open spec fn finished(self) -> bool {
        !self.stopped && self.remaining.len() == 0
    }

    /// Starts the replay of a block.
    pub fn new(header: BlockHeader, transactions: Vec<Transaction>) -> (replay: Self)
        ensures
            replay.wf(),
            replay.header == header,
            replay.remaining == transactions,
            replay.done == 0,
            !replay.stopped,
    {
        Replay { header, remaining: transactions, done: 0, stopped: false }
    }

    /// The block environment of every transaction.
    pub fn env(&self) -> (env: BlockEnv)
        ensures
            env.number == self.header.number,
            env.beneficiary == self.header.beneficiary,
            env.timestamp == self.header.timestamp,
            env.difficulty == self.header.difficulty,
            env.gas_limit == self.header.gas_limit,
            env.basefee == (match self.header.base_fee_per_gas {
                Some(fee) => fee,
                None => 0,
            }),
            env.excess_blob_gas == self.header.excess_blob_gas,
            env.prague == (self.header.requests_hash is Some),
    {
        block_env(&self.header)
    }

    /// Whether `step` replays the next transaction, given its signer and what it says, and `next`
    /// is the replay after it.
    pub open spec fn steps_with(
        self,
        signer: Option<Seq<u8>>,
        fields: Option<TxFieldsView>,
        access_list: Option<Seq<AccessListItemView>>,
        step: ReplayStep,
        next: Self,
    ) -> bool {
        &&& next.wf()
        &&& next.header == self.header
        &&& next.remaining@ == self.remaining@.drop_first()
        &&& next.done == self.done + 1
        &&& match (signer, fields) {
            (Some(caller), Some(tx)) => {
                &&& step matches ReplayStep::Execute { index, env }
                &&& index == self.done
                &&& replays_in(tx, access_list, caller, self.header.base_fee_per_gas, env)
                &&& !next.stopped
            },
            _ => {
                &&& step matches ReplayStep::NoSigner { index }
                &&& index == self.done
                &&& next.stopped
            },
        }
    }

    /// Whether `step` is what the replay does next, and `next` is the replay after it: the next
    /// transaction is executed exactly if it has a signer.
    pub open spec fn advances(self, step: ReplayStep, next: Self) -> bool {
        if self.remaining.len() == 0 {
            step is Finished && next == self
        } else {
            let tx = self.remaining[0];
            &&& self.steps_with(tx.signer(), tx.fields(), tx.access_list(), step, next)
            &&& step is Execute <==> tx.signer() is Some
        }
    }

    /// Takes up the next transaction, given its signer and what it says.
    pub fn step(
        &mut self,
        signer: Option<Address>,
        fields: Option<TxFields>,
        access_list: Option<Vec<AccessListItem>>,
    ) -> (step: ReplayStep)
        requires
            old(self).wf(),
            !old(self).stopped,
            old(self).remaining.len() > 0,
        ensures
            old(self).steps_with(
                optional_address(signer),
                optional_fields(fields),
                optional_access_list(access_list),
                step,
                *final(self),
            ),
    {
        let index: usize = self.done;
        self.remaining.remove(0);
        self.done = self.done + 1;
        assert(self.remaining@ =~= old(self).remaining@.drop_first());
        match (signer, fields) {
            (Some(caller), Some(tx)) => ReplayStep::Execute {
                index,
                env: tx_env(tx, access_list, caller, self.header.base_fee_per_gas),
            },
            _ => {
                self.stopped = true;
                ReplayStep::NoSigner { index }
            },
        }
    }

    /// What the replay does next. The transactions come in order, each once, whatever became of
    /// those before; one without a signer ends the replay.
    pub fn next(&mut self) -> (step: ReplayStep)
        requires
            old(self).wf(),
            !old(self).stopped,
        ensures
            final(self).wf(),
            old(self).advances(step, *final(self)),
    {
        if self.remaining.len() == 0 {
            return ReplayStep::Finished;
        }
        let signer = self.remaining[0].recover_signer();
        let fields = self.remaining[0].read();
        let access_list = self.remaining[0].read_access_list();
        self.step(signer, fields, access_list)
    }

    /// The state over which the replay's root is taken.
    pub fn root_state(&self, bundle: BundleState) -> (kept: BundleState)
        requires
            self.finished(),
            bundle.wf(),
            bundle.has_override_target(),
        ensures
            kept.wf(),
            enters_replay_root(bundle, kept),
    {
        let mut kept = bundle;
        let ghost covered = |account: BundleAccount| RootScope::Replay.covers(account.address@);
        kept.retain(RootScope::Replay);
        proof {
            let i = choose|i: int| bundle.is_override_target(i);
            let account = bundle.accounts@[i];
            assert(covered(account));
            bundle.accounts@.lemma_filter_contains(covered, i);
            let k = choose|k: int| 0 <= k < kept.accounts@.len() && kept.accounts@[k] == account;
            assert(kept.is_override_target(k));
        }
        kept.override_replay_balance();
        kept
    }

    /// The state whose root can be held against the one that host execution reports: both are
    /// taken over the same accounts.
    pub fn reported_state(&self, bundle: &BundleState) -> (reported: BundleState)
        requires
            self.finished(),
        ensures
            account_views(reported.accounts@) == account_views(
                covered_accounts(bundle.accounts@, RootScope::Host),
            ),
            bundle.wf() ==> reported.wf(),
    {
        bundle.covered(RootScope::Host)
    }

    /// Compares the root that the replay gave with that of the block.
    pub fn verdict(&self, calculated: B256) -> (verdict: RootVerdict)
        requires
            self.finished(),
        ensures
            verdict.calculated == calculated,
            verdict.actual == self.header.state_root,
            verdict.matches == (calculated@ == self.header.state_root@),
    {
        RootVerdict {
            calculated,
            actual: self.header.state_root,
            matches: same_bytes(&calculated, &self.header.state_root),
        }
    }
}

/// Whether `states` is a replay from its start on, `steps` being what it does on the way.
pub open spec fn replays_through(states: Seq<Replay>, steps: Seq<ReplayStep>) -> bool {
    &&& states.len() == steps.len() + 1
    &&& forall|i: int|
        #![trigger steps[i]]
        0 <= i < steps.len() ==> !states[i].stopped && states[i].remaining.len() > 0
            && states[i].advances(steps[i], states[i + 1])
}

/// Whether `step` executes the transaction with this number, in the environment that it calls for.
pub open spec fn executes(
    step: ReplayStep,
    transactions: Seq<Transaction>,
    base_fee: Option<u64>,
    number: int,
) -> bool {
    let tx = transactions[number];
    &&& tx.signer() matches Some(caller)
    &&& tx.fields() matches Some(fields)
    &&& step matches ReplayStep::Execute { index, env }
    &&& index == number
    &&& replays_in(fields, tx.access_list(), caller, base_fee, env)
}

/// A replay that finishes has executed every transaction of the block, in order and each once: each
/// had a signer, and ran in the environment that it calls for.
pub proof fn a_finished_replay_executed_the_block(
    states: Seq<Replay>,
    steps: Seq<ReplayStep>,
    transactions: Seq<Transaction>,
)
    requires
        replays_through(states, steps),
        states[0].remaining@ == transactions,
        states[0].done == 0,
        states.last().finished(),
    ensures
        steps.len() == transactions.len(),
        forall|i: int|
            0 <= i < transactions.len() ==> executes(
                #[trigger] steps[i],
                transactions,
                states[0].header.base_fee_per_gas,
                i,
            ),
        states.last().header == states[0].header,
{
    lemma_replayed_so_far(states, steps, transactions, steps.len() as int);
    assert forall|i: int| 0 <= i < transactions.len() implies executes(
        #[trigger] steps[i],
        transactions,
        states[0].header.base_fee_per_gas,
        i,
    ) by {
        lemma_replayed_so_far(states, steps, transactions, i);
        lemma_replayed_so_far(states, steps, transactions, i + 1);
        assert(states[i].remaining[0] == transactions[i]);
        if i + 1 < steps.len() {
            let following = steps[i + 1];
            assert(!states[i + 1].stopped);
        }
    }
}

proof fn lemma_replayed_so_far(
    states: Seq<Replay>,
    steps: Seq<ReplayStep>,
    transactions: Seq<Transaction>,
    n: int,
)
    requires
        replays_through(states, steps),
        states[0].remaining@ == transactions,
        states[0].done == 0,
        0 <= n <= steps.len(),
    ensures
        n <= transactions.len(),
        states[n].remaining@ == transactions.skip(n),
        states[n].done == n,
        states[n].header == states[0].header,
    decreases n,
{
    if n > 0 {
        lemma_replayed_so_far(states, steps, transactions, n - 1);
        let step = steps[n - 1];
        assert(states[n - 1].advances(step, states[n]));
        assert(transactions.skip(n - 1).drop_first() =~= transactions.skip(n));
    } else {
        assert(transactions.skip(0) =~= transactions);
    }
}

/// A transaction without a signer ends the replay: what follows it is neither a further step nor a
/// root. Nothing else ends it before all transactions are executed.
pub proof fn no_signer_ends_the_replay(before: Replay, step: ReplayStep, after: Replay)
    requires
        before.remaining.len() > 0,
        before.advances(step, after),
    ensures
        before.remaining[0].signer() is None ==> step is NoSigner && after.stopped
            && !after.finished(),
        before.remaining[0].signer() is Some ==> step is Execute && !after.stopped,
{
}

/// A block whose transactions all have signers is replayed to its end: no step on the way stops the
/// replay, and after as many steps as there are transactions it is finished.
pub proof fn a_signed_block_is_replayed_to_its_end(
    states: Seq<Replay>,
    steps: Seq<ReplayStep>,
    transactions: Seq<Transaction>,
)
    requires
        replays_through(states, steps),
        states[0].remaining@ == transactions,
        states[0].done == 0,
        !states[0].stopped,
        forall|i: int|
            0 <= i < transactions.len() ==> (#[trigger] transactions[i]).signer() is Some,
    ensures
        !states.last().stopped,
        steps.len() <= transactions.len(),
        steps.len() == transactions.len() <==> states.last().finished(),
{
    let n = steps.len() as int;
    lemma_replayed_so_far(states, steps, transactions, n);
    if n > 0 {
        lemma_replayed_so_far(states, steps, transactions, n - 1);
        let step = steps[n - 1];
        assert(states[n - 1].remaining[0] == transactions[n - 1]);
        assert(states[n - 1].advances(step, states[n]));
    }
}

} // verus!
