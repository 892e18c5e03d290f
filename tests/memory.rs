use evm_memory::{Apply, Basic, Log, MemoryAccount, MemoryBackend, MemoryVicinity, VecMap};
use evm_memory::{H160, H256, U256};

fn addr(b: u8) -> H160 {
    let mut bytes = [0u8; 20];
    bytes[19] = b;
    H160 { bytes }
}

fn word(b: u8) -> H256 {
    let mut bytes = [0u8; 32];
    bytes[31] = b;
    H256 { bytes }
}

fn num(n: u128) -> U256 {
    U256 { hi: 0, lo: n }
}

fn vicinity(block_number: U256, block_hashes: Vec<H256>) -> MemoryVicinity {
    MemoryVicinity {
        gas_price: num(7),
        origin: addr(9),
        chain_id: num(1),
        block_hashes,
        block_number,
        block_coinbase: addr(8),
        block_timestamp: num(1000),
        block_difficulty: num(3),
        block_gas_limit: num(30_000_000),
    }
}

fn modify(
    address: H160,
    balance: u128,
    nonce: u128,
    code: Option<Vec<u8>>,
    storage: Vec<(H256, H256)>,
    reset_storage: bool,
) -> Apply {
    Apply::Modify {
        address,
        basic: Basic { balance: num(balance), nonce: num(nonce) },
        code,
        storage,
        reset_storage,
    }
}

fn log(b: u8) -> Log {
    Log { address: addr(b), topics: vec![word(b)], data: vec![b] }
}

fn keccak_empty() -> [u8; 32] {
    [
        0xc5, 0xd2, 0x46, 0x01, 0x86, 0xf7, 0x23, 0x3c, 0x92, 0x7e, 0x7d, 0xb2, 0xdc, 0xc7, 0x03,
        0xc0, 0xe5, 0x00, 0xb6, 0x53, 0xca, 0x82, 0x27, 0x3b, 0x7b, 0xfa, 0xd8, 0x04, 0x5d, 0x85,
        0xa4, 0x70,
    ]
}

#[test]
fn absent_address_reads_defaults() {
    let v = vicinity(num(10), vec![]);
    let b = MemoryBackend::new(&v, VecMap::new());
    let a = addr(1);
    assert!(!b.account_exists(a));
    assert_eq!(b.basic(a), Basic { balance: num(0), nonce: num(0) });
    assert!(b.code(a).is_empty());
    assert_eq!(b.code_size(a), 0);
    assert_eq!(b.code_hash(a), H256 { bytes: keccak_empty() });
    assert_eq!(b.storage(a, word(5)), H256::zero());
}

#[test]
fn empty_code_hashes_like_absent_account() {
    let v = vicinity(num(10), vec![]);
    let mut b = MemoryBackend::new(&v, VecMap::new());
    b.apply(vec![modify(addr(1), 5, 0, Some(vec![]), vec![], false)], vec![], false);
    assert!(b.account_exists(addr(1)));
    assert_eq!(b.code_hash(addr(1)), b.code_hash(addr(2)));
}

#[test]
fn code_hash_of_nonempty_code() {
    let v = vicinity(num(10), vec![]);
    let mut b = MemoryBackend::new(&v, VecMap::new());
    let code = vec![0x60u8, 0x00];
    b.apply(vec![modify(addr(1), 0, 1, Some(code.clone()), vec![], false)], vec![], false);
    assert_eq!(b.code(addr(1)), code);
    assert_eq!(b.code_size(addr(1)), 2);
    let h = b.code_hash(addr(1));
    assert_ne!(h, H256 { bytes: keccak_empty() });
    assert_ne!(&h.bytes[..2], &code[..]);
}

#[test]
fn storage_set_then_cleared() {
    let v = vicinity(num(10), vec![]);
    let mut b = MemoryBackend::new(&v, VecMap::new());
    let a = addr(1);
    b.apply(vec![modify(a, 1, 1, None, vec![(word(1), word(42))], false)], vec![], false);
    assert_eq!(b.storage(a, word(1)), word(42));
    b.apply(vec![modify(a, 1, 1, None, vec![(word(1), H256::zero())], false)], vec![], false);
    assert_eq!(b.storage(a, word(1)), H256::zero());
    let acc = b.state().get(&a).unwrap();
    assert!(!acc.storage.contains_key(&word(1)));
    assert!(acc.storage.keys().is_empty());
}

#[test]
fn zero_pair_on_untouched_key_is_not_stored() {
    let v = vicinity(num(10), vec![]);
    let mut b = MemoryBackend::new(&v, VecMap::new());
    let a = addr(1);
    b.apply(vec![modify(a, 1, 0, None, vec![(word(3), H256::zero())], false)], vec![], false);
    assert_eq!(b.state().get(&a).unwrap().storage.len(), 0);
}

#[test]
fn reset_storage_clears_prior_keys() {
    let v = vicinity(num(10), vec![]);
    let mut b = MemoryBackend::new(&v, VecMap::new());
    let a = addr(1);
    b.apply(
        vec![modify(a, 1, 0, None, vec![(word(1), word(11)), (word(2), word(22))], false)],
        vec![],
        false,
    );
    b.apply(vec![modify(a, 1, 0, None, vec![(word(2), word(33))], true)], vec![], false);
    assert_eq!(b.storage(a, word(1)), H256::zero());
    assert_eq!(b.storage(a, word(2)), word(33));
    assert_eq!(b.state().get(&a).unwrap().storage.keys(), vec![word(2)]);
}

#[test]
fn without_reset_prior_keys_stay() {
    let v = vicinity(num(10), vec![]);
    let mut b = MemoryBackend::new(&v, VecMap::new());
    let a = addr(1);
    b.apply(vec![modify(a, 1, 0, None, vec![(word(1), word(11))], false)], vec![], false);
    b.apply(vec![modify(a, 1, 0, None, vec![(word(2), word(22))], false)], vec![], false);
    assert_eq!(b.storage(a, word(1)), word(11));
    assert_eq!(b.storage(a, word(2)), word(22));
}

#[test]
fn apply_prunes_zero_values_of_initial_storage() {
    let v = vicinity(num(10), vec![]);
    let a = addr(1);
    let mut storage = VecMap::new();
    storage.insert(word(1), H256::zero());
    storage.insert(word(2), word(5));
    let mut account = MemoryAccount::empty();
    account.balance = num(1);
    account.storage = storage;
    let mut state = VecMap::new();
    state.insert(a, account);
    let mut b = MemoryBackend::new(&v, state);
    assert_eq!(b.state().get(&a).unwrap().storage.len(), 2);
    b.apply(vec![modify(a, 1, 0, None, vec![], false)], vec![], false);
    assert_eq!(b.state().get(&a).unwrap().storage.keys(), vec![word(2)]);
}

#[test]
fn empty_account_deleted_with_delete_empty() {
    let v = vicinity(num(10), vec![]);
    let mut b = MemoryBackend::new(&v, VecMap::new());
    let a = addr(1);
    b.apply(vec![modify(a, 0, 0, None, vec![(word(1), word(2))], false)], vec![], true);
    assert!(!b.account_exists(a));
    assert_eq!(b.state().len(), 0);
}

#[test]
fn empty_account_kept_without_delete_empty() {
    let v = vicinity(num(10), vec![]);
    let mut b = MemoryBackend::new(&v, VecMap::new());
    let a = addr(1);
    b.apply(vec![modify(a, 0, 0, None, vec![], false)], vec![], false);
    assert!(b.account_exists(a));
    assert_eq!(b.basic(a), Basic { balance: num(0), nonce: num(0) });
    assert_eq!(b.code_size(a), 0);
}

#[test]
fn account_with_code_is_not_empty() {
    let v = vicinity(num(10), vec![]);
    let mut b = MemoryBackend::new(&v, VecMap::new());
    let a = addr(1);
    b.apply(vec![modify(a, 0, 0, Some(vec![1]), vec![], false)], vec![], true);
    assert!(b.account_exists(a));
    b.apply(vec![modify(a, 0, 0, None, vec![], false)], vec![], true);
    assert!(b.account_exists(a));
    assert_eq!(b.code(a), vec![1u8]);
    b.apply(vec![modify(a, 0, 0, Some(vec![]), vec![], false)], vec![], true);
    assert!(!b.account_exists(a));
}

#[test]
fn delete_removes_funded_account() {
    let v = vicinity(num(10), vec![]);
    let mut b = MemoryBackend::new(&v, VecMap::new());
    let a = addr(1);
    b.apply(vec![modify(a, 100, 3, Some(vec![1, 2]), vec![], false)], vec![], false);
    assert!(b.account_exists(a));
    b.apply(vec![Apply::Delete { address: a }], vec![], false);
    assert!(!b.account_exists(a));
    assert_eq!(b.basic(a), Basic { balance: num(0), nonce: num(0) });
}

#[test]
fn last_instruction_for_an_address_wins() {
    let v = vicinity(num(10), vec![]);
    let mut b = MemoryBackend::new(&v, VecMap::new());
    let a = addr(1);
    b.apply(
        vec![modify(a, 5, 0, None, vec![], false), Apply::Delete { address: a }],
        vec![],
        false,
    );
    assert!(!b.account_exists(a));
    b.apply(
        vec![Apply::Delete { address: a }, modify(a, 6, 0, None, vec![], false)],
        vec![],
        false,
    );
    assert_eq!(b.basic(a).balance, num(6));
}

#[test]
fn block_hash_window() {
    let hashes = vec![word(9), word(8), word(7)];
    let v = vicinity(num(10), hashes);
    let b = MemoryBackend::new(&v, VecMap::new());
    assert_eq!(b.block_hash(num(10)), H256::zero());
    assert_eq!(b.block_hash(num(11)), H256::zero());
    assert_eq!(b.block_hash(num(9)), word(9));
    assert_eq!(b.block_hash(num(8)), word(8));
    assert_eq!(b.block_hash(num(7)), word(7));
    assert_eq!(b.block_hash(num(6)), H256::zero());
    assert_eq!(b.block_hash(num(0)), H256::zero());
}

#[test]
fn block_hash_with_wide_numbers() {
    let current = U256 { hi: 1, lo: 1 };
    let v = vicinity(current, vec![word(1), word(2)]);
    let b = MemoryBackend::new(&v, VecMap::new());
    assert_eq!(b.block_hash(U256 { hi: 1, lo: 0 }), word(1));
    assert_eq!(b.block_hash(U256 { hi: 0, lo: u128::MAX }), word(2));
    assert_eq!(b.block_hash(U256 { hi: 0, lo: u128::MAX - 1 }), H256::zero());
    assert_eq!(b.block_hash(U256 { hi: 2, lo: 0 }), H256::zero());
}

#[test]
fn context_values_returned_verbatim() {
    let v = vicinity(num(10), vec![]);
    let b = MemoryBackend::new(&v, VecMap::new());
    assert_eq!(b.gas_price(), num(7));
    assert_eq!(b.origin(), addr(9));
    assert_eq!(b.chain_id(), num(1));
    assert_eq!(b.block_number(), num(10));
    assert_eq!(b.block_coinbase(), addr(8));
    assert_eq!(b.block_timestamp(), num(1000));
    assert_eq!(b.block_difficulty(), num(3));
    assert_eq!(b.block_gas_limit(), num(30_000_000));
}

#[test]
fn logs_accumulate_in_call_order() {
    let v = vicinity(num(10), vec![]);
    let mut b = MemoryBackend::new(&v, VecMap::new());
    b.apply(vec![], vec![log(1), log(2)], false);
    b.apply(vec![], vec![log(2)], false);
    b.apply(vec![Apply::Delete { address: addr(1) }], vec![log(3)], true);
    assert_eq!(b.logs().clone(), vec![log(1), log(2), log(2), log(3)]);
}

#[test]
fn modify_then_empty_deletes() {
    let v = vicinity(num(10), vec![]);
    let mut b = MemoryBackend::new(&v, VecMap::new());
    let a = addr(0xAA);
    let (k1, v1) = (word(1), word(0x11));
    b.apply(vec![modify(a, 10, 1, None, vec![(k1, v1)], false)], vec![], false);
    assert_eq!(b.basic(a), Basic { balance: num(10), nonce: num(1) });
    assert_eq!(b.storage(a, k1), v1);
    assert!(b.account_exists(a));
    b.apply(vec![modify(a, 0, 0, None, vec![], false)], vec![], true);
    assert!(!b.account_exists(a));
}

#[test]
fn u256_arithmetic() {
    let a = U256 { hi: 1, lo: 0 };
    let b = U256 { hi: 0, lo: 1 };
    assert_eq!(a.sub(&b), U256 { hi: 0, lo: u128::MAX });
    assert_eq!(a.sub(&a), U256::zero());
    assert!(a.ge(&b));
    assert!(!b.ge(&a));
    assert!(a.ge(&a));
    assert!(U256::zero().is_zero());
    assert!(!U256::one().is_zero());
    assert_eq!(U256::from_usize(5), num(5));
}

#[test]
fn vec_map_insert_replace_remove() {
    let mut m: VecMap<H256, H256> = VecMap::new();
    m.insert(word(1), word(10));
    m.insert(word(2), word(20));
    m.insert(word(1), word(11));
    assert_eq!(m.len(), 2);
    assert_eq!(m.get(&word(1)), Some(&word(11)));
    assert_eq!(m.remove(&word(1)), Some(word(11)));
    assert_eq!(m.remove(&word(1)), None);
    assert_eq!(m.keys(), vec![word(2)]);
    m.remove_value(&word(20));
    assert_eq!(m.len(), 0);
}
