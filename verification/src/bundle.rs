//! The state that a block's execution leaves, account by account.

use crate::bytes::{be_parts, be_value, lemma_be_value_injective, same_bytes};
use crate::primitives::{Address, B256, U256};
use crate::storage_keys::{ascending, key_set, slot_set, sorted_keys};
use vstd::prelude::*;

verus! {

/// What the state holds of an account besides its storage.
#[derive(Clone, Copy, Debug, PartialEq, Eq)]
pub struct AccountInfo {
    pub balance: U256,
    pub nonce: u64,
    pub code_hash: B256,
}

/// A storage slot that execution wrote.
#[derive(Clone, Copy, Debug, PartialEq, Eq)]
pub struct StorageSlot {
    pub slot: U256,
    pub present: U256,
}

/// An account that execution touched.
#[derive(Clone, Debug, PartialEq, Eq)]
pub struct BundleAccount {
    pub address: Address,
    /// The account after execution, if it exists then.
    pub info: Option<AccountInfo>,
    pub storage: Vec<StorageSlot>,
    /// Whether the account was destroyed on the way, so that older storage is void.
    pub destroyed: bool,
}

/// An account that execution touched, its storage as a sequence.
pub struct AccountView {
    pub address: Seq<u8>,
    pub info: Option<AccountInfo>,
    pub storage: Seq<StorageSlot>,
    pub destroyed: bool,
}

impl View for BundleAccount {
    type V = AccountView;

    open spec fn view(&self) -> AccountView {
        AccountView {
            address: self.address@,
            info: self.info,
            storage: self.storage@,
            destroyed: self.destroyed,
        }
    }
}

/// Accounts with their storage as sequences.
pub open spec fn account_views(accounts: Seq<BundleAccount>) -> Seq<AccountView> {
    accounts.map_values(|account: BundleAccount| account@)
}

/// Those of the accounts that enter a root with this scope, in order.
pub open spec fn covered_accounts(accounts: Seq<BundleAccount>, scope: RootScope) -> Seq<
    BundleAccount,
> {
    accounts.filter(|account: BundleAccount| scope.covers(account.address@))
}

/// Which accounts enter a state root that is reported for comparison.
#[derive(Clone, Copy, Debug, PartialEq, Eq, Structural)]
pub enum RootScope {
    /// The root that host execution reports.
    Host,
    /// The root that a replay reports.
    Replay,
}

/// The accounts, by the number of their address, that enter the root of host execution.
pub open spec fn in_host_root(v: nat) -> bool {
    ||| v == 0x000000629fbcf27a347d1aeba658435230d74a5fint
    ||| v == 0x037dd48ffd09fbdc1e385fefda48c6e1ef1382afint
    ||| v == 0x06a9ab27c7e2255df1815e6cc0168d7755feb19aint
    ||| v == 0x08e96f308eb008b3db68640aba6b06078625f8cdint
    ||| v == 0x0d0707963952f2fba59dd06f2b425ace40b492feint
    ||| v == 0x111111125421ca6dc452d289314280a0f8842a65int
    ||| v == 0x12106758e03613e66fa96209927940c825e85fffint
    ||| v == 0x1516008376543c283654f60b03a28e1c9930806aint
    ||| v == 0x16c0829dd60124f2a7d49a5e768f7978a57c2393int
    ||| v == 0x1728d7099f6535f5efeba784a4ba54120ceada6bint
    ||| v == 0x1d71eb5d4f05884add4d8e8a4d31eef3a4263c47int
    ||| v == 0x23529b46bb5fdb9f9d0427e9a35115551b72581bint
    ||| v == 0x239426c2feda17d10635b6e7d1cfca9ab33ab222int
    ||| v == 0x26c1087b6a658c106768eea1931e083ce469f20cint
    ||| v == 0x30daff27da012e118c07fae5380eb06f707c5ce4int
    ||| v == 0x340d2bde5eb28c1eed91b2f790723e3b160613b7int
    ||| v == 0x3777261fd6e1ec0704735d491328215b9f5825b1int
    ||| v == 0x4280b10e7cd12171e944401e4018250d2052a0d6int
    ||| v == 0x4a5565db6515923418bb9ab1a8ad816e85c12ff4int
    ||| v == 0x4cff49d0a19ed6ff845a9122fa912abcfb1f68a6int
    ||| v == 0x4d224452801aced8b2f0aebe155379bb5d594381int
    ||| v == 0x4d9ff50ef4da947364bb9650892b2554e7be5e2bint
    ||| v == 0x5c9538085fdfce7470e66f7c3e1b1f0f01d969aaint
    ||| v == 0x5faa989af96af85384b8a938c2ede4a7378d9875int
    ||| v == 0x671e1c289f45ccaa82843501c7bc841ba26b97f1int
}

/// The accounts, by the number of their address, that enter the root of a replay.
pub open spec fn in_replay_root(v: nat) -> bool {
    ||| v == 0x000000629fbcf27a347d1aeba658435230d74a5fint
    ||| v == 0x037dd48ffd09fbdc1e385fefda48c6e1ef1382afint
    ||| v == 0x30daff27da012e118c07fae5380eb06f707c5ce4int
    ||| v == 0x3777261fd6e1ec0704735d491328215b9f5825b1int
    ||| v == 0x671e1c289f45ccaa82843501c7bc841ba26b97f1int
    ||| v == 0xf70da97812cb96acdf810712aa562db8dfa3dbefint
}

impl RootScope {
    /// Whether the account at `address` enters the root.
    pub open spec fn covers(self, address: Seq<u8>) -> bool {
        match self {
            RootScope::Host => in_host_root(be_value(address)),
            RootScope::Replay => in_replay_root(be_value(address)),
        }
    }

    /// Whether the account at `address` enters the root.
    pub fn includes(self, address: &Address) -> (included: bool)
        ensures
            included == self.covers(address@),
    {
        let (high, low): (u32, u128) = be_parts(address);
        match self {
            RootScope::Host => in_host_list(high, low),
            RootScope::Replay => in_replay_list(high, low),
        }
    }
}

fn in_host_list(high: u32, low: u128) -> (found: bool)
    ensures
        found == in_host_root(
            (high * 0x1_0000_0000_0000_0000_0000_0000_0000_0000 + low) as nat,
        ),
{
    (high == 0x00000062 && low == 0x9fbcf27a347d1aeba658435230d74a5f)
        || (high == 0x037dd48f && low == 0xfd09fbdc1e385fefda48c6e1ef1382af)
        || (high == 0x06a9ab27 && low == 0xc7e2255df1815e6cc0168d7755feb19a)
        || (high == 0x08e96f30 && low == 0x8eb008b3db68640aba6b06078625f8cd)
        || (high == 0x0d070796 && low == 0x3952f2fba59dd06f2b425ace40b492fe)
        || (high == 0x11111112 && low == 0x5421ca6dc452d289314280a0f8842a65)
        || (high == 0x12106758 && low == 0xe03613e66fa96209927940c825e85fff)
        || (high == 0x15160083 && low == 0x76543c283654f60b03a28e1c9930806a)
        || (high == 0x16c0829d && low == 0xd60124f2a7d49a5e768f7978a57c2393)
        || (high == 0x1728d709 && low == 0x9f6535f5efeba784a4ba54120ceada6b)
        || (high == 0x1d71eb5d && low == 0x4f05884add4d8e8a4d31eef3a4263c47)
        || (high == 0x23529b46 && low == 0xbb5fdb9f9d0427e9a35115551b72581b)
        || (high == 0x239426c2 && low == 0xfeda17d10635b6e7d1cfca9ab33ab222)
        || (high == 0x26c1087b && low == 0x6a658c106768eea1931e083ce469f20c)
        || (high == 0x30daff27 && low == 0xda012e118c07fae5380eb06f707c5ce4)
        || (high == 0x340d2bde && low == 0x5eb28c1eed91b2f790723e3b160613b7)
        || (high == 0x3777261f && low == 0xd6e1ec0704735d491328215b9f5825b1)
        || (high == 0x4280b10e && low == 0x7cd12171e944401e4018250d2052a0d6)
        || (high == 0x4a5565db && low == 0x6515923418bb9ab1a8ad816e85c12ff4)
        || (high == 0x4cff49d0 && low == 0xa19ed6ff845a9122fa912abcfb1f68a6)
        || (high == 0x4d224452 && low == 0x801aced8b2f0aebe155379bb5d594381)
        || (high == 0x4d9ff50e && low == 0xf4da947364bb9650892b2554e7be5e2b)
        || (high == 0x5c953808 && low == 0x5fdfce7470e66f7c3e1b1f0f01d969aa)
        || (high == 0x5faa989a && low == 0xf96af85384b8a938c2ede4a7378d9875)
        || (high == 0x671e1c28 && low == 0x9f45ccaa82843501c7bc841ba26b97f1)
}

fn in_replay_list(high: u32, low: u128) -> (found: bool)
    ensures
        found == in_replay_root(
            (high * 0x1_0000_0000_0000_0000_0000_0000_0000_0000 + low) as nat,
        ),
{
    (high == 0x00000062 && low == 0x9fbcf27a347d1aeba658435230d74a5f)
        || (high == 0x037dd48f && low == 0xfd09fbdc1e385fefda48c6e1ef1382af)
        || (high == 0x30daff27 && low == 0xda012e118c07fae5380eb06f707c5ce4)
        || (high == 0x3777261f && low == 0xd6e1ec0704735d491328215b9f5825b1)
        || (high == 0x671e1c28 && low == 0x9f45ccaa82843501c7bc841ba26b97f1)
        || (high == 0xf70da978 && low == 0x12cb96acdf810712aa562db8dfa3dbef)
}

/// The accounts that execution touched, each once.
#[derive(Debug, PartialEq, Eq)]
pub struct BundleState {
    pub accounts: Vec<BundleAccount>,
}

/// The same account over again.
fn copy_account(account: &BundleAccount) -> (copy: BundleAccount)
    ensures
        copy@ == account@,
{
    let storage = &account.storage;
    let mut copy: Vec<StorageSlot> = Vec::new();
    for i in 0..storage.len()
        invariant
            copy@ == storage@.take(i as int),
    {
        copy.push(storage[i]);
        assert(copy@ =~= storage@.take(i + 1));
    }
    assert(storage@.take(storage.len() as int) =~= storage@);
    BundleAccount {
        address: account.address,
        info: account.info,
        storage: copy,
        destroyed: account.destroyed,
    }
}

/// The slots that an account's storage lists.
pub open spec fn written_slots(storage: Seq<StorageSlot>) -> Seq<U256> {
    storage.map_values(|entry: StorageSlot| entry.slot)
}

/// The account whose balance a replay sets by hand.
pub open spec fn override_account() -> nat {
    0x000000629fbcf27a347d1aeba658435230d74a5fint as nat
}

/// The balance that a replay gives to that account.
pub open spec fn override_balance() -> nat {
    63298440508785708615
}

/// Whether `after` is `before` with the replay's balance and nothing else changed.
pub open spec fn balance_overridden(before: BundleAccount, after: BundleAccount) -> bool {
    &&& before.info is Some
    &&& after.info is Some
    &&& after.info->0.balance.value() == override_balance()
    &&& after.info->0.nonce == before.info->0.nonce
    &&& after.info->0.code_hash == before.info->0.code_hash
    &&& after.address == before.address
    &&& after.storage == before.storage
    &&& after.destroyed == before.destroyed
}

impl BundleState {
    /// No address occurs twice.
    pub open spec fn wf(self) -> bool {
        forall|i: int, j: int|
            0 <= i < j < self.accounts.len() ==> #[trigger] self.accounts[i].address@
                != #[trigger] self.accounts[j].address@
    }

    /// Whether the account at `index` is the one with this address.
    pub open spec fn is_at(self, address: Seq<u8>, index: int) -> bool {
        0 <= index < self.accounts.len() && self.accounts[index].address@ == address
    }

    /// Whether the state has an account with this address.
    pub open spec fn has(self, address: Seq<u8>) -> bool {
        exists|i: int| self.is_at(address, i)
    }

    /// The numbers of the slots that execution wrote in the account at `address`.
    pub open spec fn modified_slots(self, address: Seq<u8>) -> Set<nat> {
        if self.has(address) {
            let i = choose|i: int| self.is_at(address, i);
            slot_set(written_slots(self.accounts[i].storage@))
        } else {
            Set::empty()
        }
    }

    /// Whether the account at `index` is the one whose balance a replay sets, and exists.
    pub open spec fn is_override_target(self, index: int) -> bool {
        &&& 0 <= index < self.accounts.len()
        &&& be_value(self.accounts[index].address@) == override_account()
        &&& self.accounts[index].info is Some
    }

    /// Whether the account whose balance a replay sets is there and exists.
    pub open spec fn has_override_target(self) -> bool {
        exists|i: int| self.is_override_target(i)
    }

    /// The position of the account at `address`.
    fn find(&self, address: &Address) -> (found: Option<usize>)
        ensures
            match found {
                Some(i) => self.is_at(address@, i as int),
                None => !self.has(address@),
            },
    {
        for i in 0..self.accounts.len()
            invariant
                forall|j: int| 0 <= j < i ==> !self.is_at(address@, j),
        {
            if same_bytes(&self.accounts[i].address, address) {
                return Some(i);
            }
        }
        None
    }

    /// The keys of the slots that execution wrote in the account at `address`, sorted, each once;
    /// none if the account was not touched.
    pub fn modified_keys(&self, address: &Address) -> (keys: Vec<B256>)
        requires
            self.wf(),
        ensures
            ascending(keys@),
            key_set(keys@) == self.modified_slots(address@),
    {
        match self.find(address) {
            Some(index) => {
                let storage = &self.accounts[index].storage;
                let mut slots: Vec<U256> = Vec::new();
                for i in 0..storage.len()
                    invariant
                        slots@ == written_slots(storage@).take(i as int),
                {
                    slots.push(storage[i].slot);
                    assert(slots@ =~= written_slots(storage@).take(i + 1));
                }
                proof {
                    assert(slots@ =~= written_slots(storage@));
                    let i = choose|i: int| self.is_at(address@, i);
                    assert(self.is_at(address@, index as int));
                    if i < index {
                        assert(self.accounts[i].address@ != self.accounts[index as int].address@);
                    } else if index < i {
                        assert(self.accounts[index as int].address@ != self.accounts[i].address@);
                    }
                }
                sorted_keys(&slots)
            },
            None => {
                let keys: Vec<B256> = Vec::new();
                assert(key_set(keys@) =~= Set::empty());
                keys
            },
        }
    }

    /// Keeps the accounts that enter the root, in order and unchanged, and drops the others.
    pub fn retain(&mut self, scope: RootScope)
        ensures
            final(self).accounts@ == covered_accounts(old(self).accounts@, scope),
            old(self).wf() ==> final(self).wf(),
    {
        let ghost before = self.accounts@;
        let ghost covered = |account: BundleAccount| scope.covers(account.address@);
        let ghost mut seen: int = 0;
        let mut at: usize = 0;
        assert(before.take(0).filter(covered) =~= Seq::<BundleAccount>::empty()) by {
            reveal(Seq::filter);
        }
        while at < self.accounts.len()
            invariant
                covered == |account: BundleAccount| scope.covers(account.address@),
                0 <= seen <= before.len(),
                at <= self.accounts.len(),
                self.accounts@.take(at as int) == before.take(seen).filter(covered),
                self.accounts@.skip(at as int) == before.skip(seen),
            decreases before.len() - seen,
        {
            let ghost accounts = self.accounts@;
            let ghost account = accounts[at as int];
            proof {
                assert(accounts.skip(at as int).len() == before.skip(seen).len());
                assert(account == accounts.skip(at as int)[0]);
                assert(before.skip(seen)[0] == before[seen]);
                assert(before.take(seen + 1) =~= before.take(seen).push(account));
                before.take(seen).lemma_filter_push(account, covered);
            }
            if scope.includes(&self.accounts[at].address) {
                at += 1;
                assert(self.accounts@.take(at as int) =~= accounts.take(at - 1).push(account));
                assert(self.accounts@.skip(at as int) =~= accounts.skip(at - 1).skip(1));
            } else {
                self.accounts.remove(at);
                assert(self.accounts@.take(at as int) =~= accounts.take(at as int));
                assert(self.accounts@.skip(at as int) =~= accounts.skip(at as int).skip(1));
            }
            proof {
                assert(before.skip(seen + 1) =~= before.skip(seen).skip(1));
                seen = seen + 1;
            }
        }
        proof {
            assert(before.skip(seen).len() == 0);
            assert(before.take(seen) =~= before);
            assert(self.accounts@.take(at as int) =~= self.accounts@);
            if old(self).wf() {
                lemma_filter_keeps_distinct(before, covered);
            }
        }
    }

    /// A copy of the accounts that enter the root, in order.
    pub fn covered(&self, scope: RootScope) -> (kept: BundleState)
        ensures
            account_views(kept.accounts@) == account_views(
                covered_accounts(self.accounts@, scope),
            ),
            self.wf() ==> kept.wf(),
    {
        let ghost enters = |account: BundleAccount| scope.covers(account.address@);
        let ghost all = self.accounts@;
        let mut accounts: Vec<BundleAccount> = Vec::new();
        assert(all.take(0).filter(enters) =~= Seq::<BundleAccount>::empty()) by {
            reveal(Seq::filter);
        }
        assert(account_views(accounts@) =~= account_views(all.take(0).filter(enters)));
        for i in 0..self.accounts.len()
            invariant
                all == self.accounts@,
                enters == |account: BundleAccount| scope.covers(account.address@),
                account_views(accounts@) == account_views(all.take(i as int).filter(enters)),
        {
            let ghost before = accounts@;
            let ghost account = all[i as int];
            let ghost kept = all.take(i as int).filter(enters);
            proof {
                assert(all.take(i + 1) =~= all.take(i as int).push(account));
                all.take(i as int).lemma_filter_push(account, enters);
            }
            if scope.includes(&self.accounts[i].address) {
                let copy = copy_account(&self.accounts[i]);
                accounts.push(copy);
                assert(account_views(accounts@) =~= account_views(before).push(account@));
                assert(account_views(kept.push(account)) =~= account_views(kept).push(account@));
            }
        }
        let kept = BundleState { accounts };
        proof {
            assert(all.take(all.len() as int) =~= all);
            let listed = covered_accounts(all, scope);
            let views = account_views(kept.accounts@);
            assert(views.len() == listed.len());
            if self.wf() {
                lemma_filter_keeps_distinct(all, enters);
                assert forall|i: int, j: int| 0 <= i < j < kept.accounts.len() implies (
                #[trigger] kept.accounts[i]).address@ != (#[trigger] kept.accounts[j]).address@ by {
                    assert(views[i] == account_views(listed)[i]);
                    assert(views[j] == account_views(listed)[j]);
                    assert(listed[i].address@ != listed[j].address@);
                }
            }
        }
        kept
    }

    /// Whether the account whose balance a replay sets is there and exists.
    pub fn has_replay_target(&self) -> (found: bool)
        ensures
            found == self.has_override_target(),
    {
        self.find_replay_target().is_some()
    }

    fn find_replay_target(&self) -> (found: Option<usize>)
        ensures
            match found {
                Some(i) => self.is_override_target(i as int),
                None => !self.has_override_target(),
            },
    {
        for i in 0..self.accounts.len()
            invariant
                forall|j: int| 0 <= j < i ==> !self.is_override_target(j),
        {
            let (high, low): (u32, u128) = be_parts(&self.accounts[i].address);
            if high == 0x00000062 && low == 0x9fbcf27a347d1aeba658435230d74a5f
                && self.accounts[i].info.is_some() {
                return Some(i);
            }
        }
        None
    }

    /// Sets the balance of the account that a replay overrides.
    pub fn override_replay_balance(&mut self)
        requires
            old(self).wf(),
            old(self).has_override_target(),
        ensures
            final(self).wf(),
            final(self).accounts.len() == old(self).accounts.len(),
            forall|i: int|
                #![trigger final(self).accounts[i]]
                0 <= i < old(self).accounts.len() ==> if old(self).is_override_target(i) {
                    balance_overridden(old(self).accounts[i], final(self).accounts[i])
                } else {
                    final(self).accounts[i] == old(self).accounts[i]
                },
    {
        if let Some(index) = self.find_replay_target() {
            let ghost before = self.accounts@;
            let mut account = self.accounts.remove(index);
            if let Some(info) = account.info {
                account.info = Some(
                    AccountInfo {
                        balance: U256 { limbs: [7958208287657053767, 3, 0, 0] },
                        nonce: info.nonce,
                        code_hash: info.code_hash,
                    },
                );
            }
            self.accounts.insert(index, account);
            proof {
                assert(self.accounts@ =~= before.update(index as int, account));
                assert forall|i: int| old(self).is_override_target(i) implies i == index by {
                    lemma_be_value_injective(
                        before[i].address@,
                        before[index as int].address@,
                    );
                }
            }
        }
    }
}

proof fn lemma_filter_keeps_distinct(
    accounts: Seq<BundleAccount>,
    keep: spec_fn(BundleAccount) -> bool,
)
    requires
        forall|i: int, j: int|
            0 <= i < j < accounts.len() ==> #[trigger] accounts[i].address@
                != #[trigger] accounts[j].address@,
    ensures
        forall|i: int, j: int|
            0 <= i < j < accounts.filter(keep).len() ==> #[trigger] accounts.filter(
                keep,
            )[i].address@ != #[trigger] accounts.filter(keep)[j].address@,
    decreases accounts.len(),
{
    reveal(Seq::filter);
    if accounts.len() > 0 {
        let rest = accounts.drop_last();
        assert forall|i: int, j: int| 0 <= i < j < rest.len() implies #[trigger] rest[i].address@
            != #[trigger] rest[j].address@ by {
            assert(rest[i] == accounts[i] && rest[j] == accounts[j]);
        }
        lemma_filter_keeps_distinct(rest, keep);
        let kept = rest.filter(keep);
        assert forall|i: int| 0 <= i < kept.len() implies #[trigger] kept[i].address@
            != accounts.last().address@ by {
            rest.lemma_filter_contains_rev(keep, kept[i]);
            let k = choose|k: int| 0 <= k < rest.len() && rest[k] == kept[i];
            assert(accounts[k] == rest[k]);
        }
    }
}

/// Retaining twice is retaining once.
pub proof fn retaining_again_changes_nothing(accounts: Seq<BundleAccount>, scope: RootScope)
    ensures
        covered_accounts(covered_accounts(accounts, scope), scope) == covered_accounts(
            accounts,
            scope,
        ),
    decreases accounts.len(),
{
    reveal(Seq::filter);
    let covered = |account: BundleAccount| scope.covers(account.address@);
    if accounts.len() > 0 {
        let rest = accounts.drop_last();
        retaining_again_changes_nothing(rest, scope);
        if covered(accounts.last()) {
            assert(rest.filter(covered).push(accounts.last()).drop_last() =~= rest.filter(covered));
        }
    }
}

} // verus!
