//! The in-memory world state: an execution context, accounts keyed by
//! address, and the accumulated logs.
use vstd::prelude::*;

use crate::hash::{keccak256, keccak256_of};
use crate::types::{Apply, Basic, H160, H256, Log, U256};
use crate::vec_map::VecMap;

verus! {

/// The read-only environment of one execution batch.
#[derive(Clone, Debug, PartialEq, Eq)]
pub struct MemoryVicinity {
    pub gas_price: U256,
    pub origin: H160,
    pub chain_id: U256,
    /// Hashes of the blocks before `block_number`, most recent first.
    pub block_hashes: Vec<H256>,
    pub block_number: U256,
    pub block_coinbase: H160,
    pub block_timestamp: U256,
    pub block_difficulty: U256,
    pub block_gas_limit: U256,
}

/// The ledger state of one account.
pub struct MemoryAccount {
    pub nonce: U256,
    pub balance: U256,
    pub storage: VecMap<H256, H256>,
    pub code: Vec<u8>,
}

/// What an account holds, as mathematical values.
pub ghost struct AccountModel {
    pub nonce: U256,
    pub balance: U256,
    pub code: Seq<u8>,
    pub storage: Map<H256, H256>,
}

impl AccountModel {
    /// The state of an address that holds no account.
    pub open spec fn empty() -> AccountModel {
        AccountModel {
            nonce: U256 { hi: 0, lo: 0 },
            balance: U256 { hi: 0, lo: 0 },
            code: Seq::empty(),
            storage: Map::empty(),
        }
    }

    /// Zero balance, zero nonce and no code; storage does not count.
    pub open spec fn is_empty(self) -> bool {
        self.balance.value() == 0 && self.nonce.value() == 0 && self.code.len() == 0
    }
}

impl View for MemoryAccount {
    type V = AccountModel;

    open spec fn view(&self) -> AccountModel {
        AccountModel {
            nonce: self.nonce,
            balance: self.balance,
            code: self.code@,
            storage: self.storage@,
        }
    }
}

impl MemoryAccount {
    pub fn empty() -> (r: MemoryAccount)
        ensures
            r.storage.wf(),
            r@ == AccountModel::empty(),
    {
        MemoryAccount {
            nonce: U256::zero(),
            balance: U256::zero(),
            storage: VecMap::new(),
            code: Vec::new(),
        }
    }
}

impl Default for MemoryAccount {
    fn default() -> (r: MemoryAccount)
        ensures
            r.storage.wf(),
            r@ == AccountModel::empty(),
    {
        MemoryAccount::empty()
    }
}

/// A map of accounts whose own storage maps are well formed.
pub open spec fn accounts_wf(state: VecMap<H160, MemoryAccount>) -> bool {
    &&& state.wf()
    &&& forall|a: H160| #[trigger] state@.contains_key(a) ==> state@[a].storage.wf()
}

/// The accounts of a map, as models.
pub open spec fn models(state: Map<H160, MemoryAccount>) -> Map<H160, AccountModel> {
    Map::new(|a: H160| state.contains_key(a), |a: H160| state[a]@)
}

/// `r` is what a storage map reads at `k`: its value there, or zero.
pub open spec fn reads_as(storage: Map<H256, H256>, k: H256, r: H256) -> bool {
    if storage.contains_key(k) {
        r == storage[k]
    } else {
        r.is_zero_spec()
    }
}

/// The position in the hash window of block `n` when the current block is
/// `current`, or `None` where the window holds no hash for it.
pub open spec fn hash_window_index(current: nat, n: nat, len: nat) -> Option<int> {
    if n >= current || current - n - 1 >= len {
        None
    } else {
        Some(current - n - 1)
    }
}

/// A storage map without its zero-valued entries.
pub open spec fn pruned(m: Map<H256, H256>) -> Map<H256, H256> {
    Map::new(|k: H256| m.contains_key(k) && !m[k].is_zero_spec(), |k: H256| m[k])
}

/// `m` after writing `pairs` in order: a zero value removes its key, any
/// other value sets it.
pub open spec fn write_pairs(m: Map<H256, H256>, pairs: Seq<(H256, H256)>) -> Map<H256, H256>
    decreases pairs.len(),
{
    if pairs.len() == 0 {
        m
    } else {
        let prev = write_pairs(m, pairs.drop_last());
        let (k, v) = pairs.last();
        if v.is_zero_spec() {
            prev.remove(k)
        } else {
            prev.insert(k, v)
        }
    }
}

/// Storage after a modification: cleared (on reset) or pruned of zeros, then
/// the incoming pairs written in order.
pub open spec fn updated_storage(m: Map<H256, H256>, reset: bool, pairs: Seq<(H256, H256)>) -> Map<
    H256,
    H256,
> {
    write_pairs(
        if reset {
            Map::empty()
        } else {
            pruned(m)
        },
        pairs,
    )
}

/// An account after a modification with the given fields.
pub open spec fn modified(
    prior: AccountModel,
    basic: Basic,
    code: Option<Seq<u8>>,
    pairs: Seq<(H256, H256)>,
    reset: bool,
) -> AccountModel {
    AccountModel {
        nonce: basic.nonce,
        balance: basic.balance,
        code: match code {
            Some(c) => c,
            None => prior.code,
        },
        storage: updated_storage(prior.storage, reset, pairs),
    }
}

/// The bytes of an optional code value.
pub open spec fn code_seq(code: Option<Vec<u8>>) -> Option<Seq<u8>> {
    match code {
        Some(v) => Some(v@),
        None => None,
    }
}

/// The accounts after a modification of the account at `a`.
pub open spec fn modify_step(
    s: Map<H160, AccountModel>,
    a: H160,
    basic: Basic,
    code: Option<Seq<u8>>,
    pairs: Seq<(H256, H256)>,
    reset: bool,
    delete_empty: bool,
) -> Map<H160, AccountModel> {
    let prior = if s.contains_key(a) {
        s[a]
    } else {
        AccountModel::empty()
    };
    let acc = modified(prior, basic, code, pairs, reset);
    if delete_empty && acc.is_empty() {
        s.remove(a)
    } else {
        s.insert(a, acc)
    }
}

/// The accounts after one instruction.
pub open spec fn step(s: Map<H160, AccountModel>, c: Apply, delete_empty: bool) -> Map<
    H160,
    AccountModel,
> {
    match c {
        Apply::Modify { address, basic, code, storage, reset_storage } => modify_step(
            s,
            address,
            basic,
            code_seq(code),
            storage@,
            reset_storage,
            delete_empty,
        ),
        Apply::Delete { address } => s.remove(address),
    }
}

/// The accounts after a sequence of instructions, taken in order.
pub open spec fn apply_all(s: Map<H160, AccountModel>, cs: Seq<Apply>, delete_empty: bool) -> Map<
    H160,
    AccountModel,
>
    decreases cs.len(),
{
    if cs.len() == 0 {
        s
    } else {
        step(apply_all(s, cs.drop_last(), delete_empty), cs.last(), delete_empty)
    }
}

pub struct MemoryBackend<'vicinity> {
    vicinity: &'vicinity MemoryVicinity,
    state: VecMap<H160, MemoryAccount>,
    logs: Vec<Log>,
}

impl<'vicinity> MemoryBackend<'vicinity> {
    pub closed spec fn wf(&self) -> bool {
        accounts_wf(self.state)
    }

    /// The execution context.
    pub closed spec fn env(&self) -> MemoryVicinity {
        *self.vicinity
    }

    /// The accounts present, by address.
    pub closed spec fn accounts(&self) -> Map<H160, AccountModel> {
        models(self.state@)
    }

    /// The logs accumulated so far, oldest first.
    pub closed spec fn log_seq(&self) -> Seq<Log> {
        self.logs@
    }

    /// The account at `a`, or the empty account where there is none.
    pub open spec fn account(&self, a: H160) -> AccountModel {
        if self.accounts().contains_key(a) {
            self.accounts()[a]
        } else {
            AccountModel::empty()
        }
    }

    pub fn new(vicinity: &'vicinity MemoryVicinity, state: VecMap<H160, MemoryAccount>) -> (r: Self)
        requires
            accounts_wf(state),
        ensures
            r.wf(),
            r.env() == *vicinity,
            r.accounts() == models(state@),
            r.log_seq() == Seq::<Log>::empty(),
    {
        MemoryBackend { vicinity, state, logs: Vec::new() }
    }

    /// The accounts, for inspection.
    pub fn state(&self) -> (r: &VecMap<H160, MemoryAccount>)
        requires
            self.wf(),
        ensures
            accounts_wf(*r),
            models(r@) == self.accounts(),
    {
        &self.state
    }

    /// The logs accumulated so far, oldest first.
    pub fn logs(&self) -> (r: &Vec<Log>)
        ensures
            r@ == self.log_seq(),
    {
        &self.logs
    }

    pub fn gas_price(&self) -> (r: U256)
        ensures
            r == self.env().gas_price,
    {
        self.vicinity.gas_price
    }

    pub fn origin(&self) -> (r: H160)
        ensures
            r == self.env().origin,
    {
        self.vicinity.origin
    }

    /// The hash of block `number`, or zero outside the window of recent
    /// blocks.
    pub fn block_hash(&self, number: U256) -> (r: H256)
        ensures
            match hash_window_index(
                self.env().block_number.value(),
                number.value(),
                self.env().block_hashes@.len(),
            ) {
                Some(i) => r == self.env().block_hashes@[i],
                None => r.is_zero_spec(),
            },
    {
        let current = self.vicinity.block_number;
        if number.ge(&current) {
            return H256::zero();
        }
        let back = current.sub(&number).sub(&U256::one());
        if back.ge(&U256::from_usize(self.vicinity.block_hashes.len())) {
            H256::zero()
        } else {
            assert(back.hi == 0);
            self.vicinity.block_hashes[back.lo as usize]
        }
    }

    pub fn block_number(&self) -> (r: U256)
        ensures
            r == self.env().block_number,
    {
        self.vicinity.block_number
    }

    pub fn block_coinbase(&self) -> (r: H160)
        ensures
            r == self.env().block_coinbase,
    {
        self.vicinity.block_coinbase
    }

    pub fn block_timestamp(&self) -> (r: U256)
        ensures
            r == self.env().block_timestamp,
    {
        self.vicinity.block_timestamp
    }

    pub fn block_difficulty(&self) -> (r: U256)
        ensures
            r == self.env().block_difficulty,
    {
        self.vicinity.block_difficulty
    }

    pub fn block_gas_limit(&self) -> (r: U256)
        ensures
            r == self.env().block_gas_limit,
    {
        self.vicinity.block_gas_limit
    }

    pub fn chain_id(&self) -> (r: U256)
        ensures
            r == self.env().chain_id,
    {
        self.vicinity.chain_id
    }

    /// Whether `address` holds an account, default-valued or not.
    pub fn account_exists(&self, address: H160) -> (r: bool)
        requires
            self.wf(),
        ensures
            r == self.accounts().contains_key(address),
    {
        self.state.contains_key(&address)
    }

    pub fn basic(&self, address: H160) -> (r: Basic)
        requires
            self.wf(),
        ensures
            r.balance == self.account(address).balance,
            r.nonce == self.account(address).nonce,
    {
        match self.state.get(&address) {
            Some(a) => Basic { balance: a.balance, nonce: a.nonce },
            None => Basic { balance: U256::zero(), nonce: U256::zero() },
        }
    }

    /// The digest of the code; an absent account hashes as empty code.
    pub fn code_hash(&self, address: H160) -> (r: H256)
        requires
            self.wf(),
        ensures
            r.bytes@ == keccak256_of(self.account(address).code),
    {
        match self.state.get(&address) {
            Some(a) => H256 { bytes: keccak256(a.code.as_slice()) },
            None => {
                let none: Vec<u8> = Vec::new();
                H256 { bytes: keccak256(none.as_slice()) }
            },
        }
    }

    pub fn code_size(&self, address: H160) -> (r: usize)
        requires
            self.wf(),
        ensures
            r == self.account(address).code.len(),
    {
        match self.state.get(&address) {
            Some(a) => a.code.len(),
            None => 0,
        }
    }

    pub fn code(&self, address: H160) -> (r: Vec<u8>)
        requires
            self.wf(),
        ensures
            r@ == self.account(address).code,
    {
        match self.state.get(&address) {
            Some(a) => {
                let c = a.code.clone();
                assert(c@ =~= a.code@);
                c
            },
            None => Vec::new(),
        }
    }

    /// The value at `index` in the storage of `address`; zero where either
    /// is absent.
    pub fn storage(&self, address: H160, index: H256) -> (r: H256)
        requires
            self.wf(),
        ensures
            reads_as(self.account(address).storage, index, r),
    {
        match self.state.get(&address) {
            Some(a) => match a.storage.get(&index) {
                Some(v) => *v,
                None => H256::zero(),
            },
            None => H256::zero(),
        }
    }

    /// Commits a diff: the instructions in order, then the logs appended.
    pub fn apply(&mut self, values: Vec<Apply>, logs: Vec<Log>, delete_empty: bool)
        requires
            old(self).wf(),
        ensures
            final(self).wf(),
            final(self).env() == old(self).env(),
            final(self).accounts() == apply_all(old(self).accounts(), values@, delete_empty),
            final(self).log_seq() == old(self).log_seq() + logs@,
    {
        let ghost start = self.accounts();
        let ghost all = values@;
        let ghost mut done: int = 0;
        let mut rest = values;
        while rest.len() > 0
            invariant
                self.wf(),
                self.vicinity == old(self).vicinity,
                self.logs == old(self).logs,
                0 <= done <= all.len(),
                rest@ == all.subrange(done, all.len() as int),
                self.accounts() == apply_all(start, all.subrange(0, done), delete_empty),
            decreases rest@.len(),
        {
            let c = rest.remove(0);
            assert(c == all[done]);
            self.apply_one(c, delete_empty);
            proof {
                done = done + 1;
                assert(all.subrange(0, done).drop_last() =~= all.subrange(0, done - 1));
                assert(rest@ =~= all.subrange(done, all.len() as int));
            }
        }
        assert(all.subrange(0, all.len() as int) =~= all);
        let mut logs = logs;
        self.logs.append(&mut logs);
    }

    fn apply_one(&mut self, c: Apply, delete_empty: bool)
        requires
            old(self).wf(),
        ensures
            final(self).wf(),
            final(self).vicinity == old(self).vicinity,
            final(self).logs == old(self).logs,
            final(self).accounts() == step(old(self).accounts(), c, delete_empty),
    {
        let ghost s0 = self.state@;
        match c {
            Apply::Modify { address, basic, code, storage, reset_storage } => {
                let ghost prior = self.account(address);
                let ghost acc = modified(prior, basic, code_seq(code), storage@, reset_storage);
                let mut account = match self.state.remove(&address) {
                    Some(a) => a,
                    None => MemoryAccount::empty(),
                };
                assert(account@ == prior);
                let ghost s1 = self.state@;
                account.balance = basic.balance;
                account.nonce = basic.nonce;
                match code {
                    Some(new_code) => {
                        assert(code_seq(code) == Some(new_code@));
                        account.code = new_code;
                    },
                    None => {},
                }
                assert(account.code@ == acc.code);
                if reset_storage {
                    account.storage = VecMap::new();
                }
                let ghost before_prune = account.storage@;
                let zero = H256::zero();
                account.storage.remove_value(&zero);
                proof {
                    let base = if reset_storage {
                        Map::empty()
                    } else {
                        pruned(prior.storage)
                    };
                    assert forall|k: H256| before_prune.contains_key(k) implies (before_prune[k]
                        != zero) == !before_prune[k].is_zero_spec() by {
                        if before_prune[k].is_zero_spec() {
                            assert(before_prune[k].bytes =~= zero.bytes);
                        }
                    }
                    assert(account.storage@ =~= base);
                    assert(storage@.subrange(0, 0) =~= Seq::<(H256, H256)>::empty());
                }
                let mut i: usize = 0;
                while i < storage.len()
                    invariant
                        account.storage.wf(),
                        account.code@ == acc.code,
                        account.balance == basic.balance,
                        account.nonce == basic.nonce,
                        0 <= i <= storage@.len(),
                        account.storage@ == write_pairs(
                            if reset_storage {
                                Map::empty()
                            } else {
                                pruned(prior.storage)
                            },
                            storage@.subrange(0, i as int),
                        ),
                    decreases storage@.len() - i,
                {
                    let (k, v) = storage[i];
                    if v.is_zero() {
                        account.storage.remove(&k);
                    } else {
                        account.storage.insert(k, v);
                    }
                    assert(storage@.subrange(0, i + 1).drop_last() =~= storage@.subrange(
                        0,
                        i as int,
                    ));
                    i = i + 1;
                }
                assert(storage@.subrange(0, storage@.len() as int) =~= storage@);
                let is_empty = account.balance.is_zero() && account.nonce.is_zero()
                    && account.code.len() == 0;
                assert(account@ == acc);
                assert(is_empty == acc.is_empty());
                assert(s1 == s0.remove(address));
                if !(is_empty && delete_empty) {
                    self.state.insert(address, account);
                    assert(self.accounts() =~= step(models(s0), c, delete_empty));
                } else {
                    assert(self.accounts() =~= step(models(s0), c, delete_empty));
                }
            },
            Apply::Delete { address } => {
                self.state.remove(&address);
                assert(self.accounts() =~= step(models(s0), c, delete_empty));
            },
        }
    }
}

} // verus!
