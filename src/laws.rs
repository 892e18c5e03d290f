//! Properties of the world state that hold of every input.
use vstd::prelude::*;

use crate::hash::keccak256_of;
use crate::memory::{
    hash_window_index, modify_step, pruned, reads_as, step, updated_storage,
    write_pairs, AccountModel, MemoryBackend,
};
use crate::types::{Apply, Basic, Log, H160, H256};

verus! {

/// An address without an account reads as defaults: it does not exist, its
/// balance and nonce are zero, its code is empty and hashes as empty code,
/// and every storage key reads as zero.
pub proof fn lemma_absent_reads_default(b: MemoryBackend, a: H160, k: H256, r: H256)
    requires
        !b.accounts().contains_key(a),
    ensures
        b.account(a) == AccountModel::empty(),
        b.account(a).balance.value() == 0,
        b.account(a).nonce.value() == 0,
        b.account(a).code.len() == 0,
        keccak256_of(b.account(a).code) == keccak256_of(Seq::empty()),
        reads_as(b.account(a).storage, k, r) == r.is_zero_spec(),
{
}

/// Writing pairs never leaves a zero value behind, given a map without one.
proof fn lemma_write_pairs_no_zero(m: Map<H256, H256>, pairs: Seq<(H256, H256)>)
    requires
        forall|k: H256| #[trigger] m.contains_key(k) ==> !m[k].is_zero_spec(),
    ensures
        forall|k: H256| #[trigger]
            write_pairs(m, pairs).contains_key(k) ==> !write_pairs(m, pairs)[k].is_zero_spec(),
    decreases pairs.len(),
{
    if pairs.len() > 0 {
        lemma_write_pairs_no_zero(m, pairs.drop_last());
        let prev = write_pairs(m, pairs.drop_last());
        assert forall|k: H256| #[trigger]
            write_pairs(m, pairs).contains_key(k) implies !write_pairs(m, pairs)[k].is_zero_spec() by {
            if k != pairs.last().0 {
                assert(prev.contains_key(k));
            }
        }
    }
}

/// After a modification the account's storage holds no zero value, whatever
/// it held before.
pub proof fn lemma_updated_storage_no_zero(
    m: Map<H256, H256>,
    reset: bool,
    pairs: Seq<(H256, H256)>,
    k: H256,
)
    requires
        updated_storage(m, reset, pairs).contains_key(k),
    ensures
        !updated_storage(m, reset, pairs)[k].is_zero_spec(),
{
    let base = if reset {
        Map::empty()
    } else {
        pruned(m)
    };
    lemma_write_pairs_no_zero(base, pairs);
}

/// After a modification that writes a nonzero `v` at `k`, the account, if it
/// is kept, reads `v` at `k`; without `delete_empty` it is always kept.
pub proof fn lemma_storage_set(
    s: Map<H160, AccountModel>,
    a: H160,
    basic: Basic,
    code: Option<Seq<u8>>,
    k: H256,
    v: H256,
    reset: bool,
    delete_empty: bool,
)
    requires
        !v.is_zero_spec(),
    ensures
        modify_step(s, a, basic, code, seq![(k, v)], reset, delete_empty).contains_key(a)
            ==> modify_step(s, a, basic, code, seq![(k, v)], reset, delete_empty)[a].storage
            == updated_storage(
            if s.contains_key(a) {
                s[a].storage
            } else {
                Map::empty()
            },
            reset,
            seq![(k, v)],
        ) && modify_step(s, a, basic, code, seq![(k, v)], reset, delete_empty)[a].storage[k] == v,
        !delete_empty ==> modify_step(s, a, basic, code, seq![(k, v)], reset, delete_empty).contains_key(a),
{
    let pairs = seq![(k, v)];
    assert(pairs.drop_last() =~= Seq::<(H256, H256)>::empty());
}

/// After a modification that writes a zero value at `k`, the key is absent
/// from the account's storage, so it reads as zero and is never enumerated.
pub proof fn lemma_storage_clear(
    s: Map<H160, AccountModel>,
    a: H160,
    basic: Basic,
    code: Option<Seq<u8>>,
    k: H256,
    z: H256,
    reset: bool,
    delete_empty: bool,
)
    requires
        z.is_zero_spec(),
    ensures
        modify_step(s, a, basic, code, seq![(k, z)], reset, delete_empty).contains_key(a)
            ==> !modify_step(s, a, basic, code, seq![(k, z)], reset, delete_empty)[a].storage.contains_key(k),
{
    let pairs = seq![(k, z)];
    assert(pairs.drop_last() =~= Seq::<(H256, H256)>::empty());
}

/// Every key of `write_pairs(Map::empty(), pairs)` is written by `pairs`.
proof fn lemma_write_pairs_keys(pairs: Seq<(H256, H256)>, k: H256)
    requires
        write_pairs(Map::empty(), pairs).contains_key(k),
    ensures
        exists|i: int| 0 <= i < pairs.len() && pairs[i].0 == k,
    decreases pairs.len(),
{
    let (lk, lv) = pairs.last();
    if lk != k {
        lemma_write_pairs_keys(pairs.drop_last(), k);
        let i = choose|i: int| 0 <= i < pairs.drop_last().len() && pairs.drop_last()[i].0 == k;
        assert(pairs[i].0 == k);
    } else {
        assert(pairs[pairs.len() - 1].0 == k);
    }
}

/// With `reset`, the storage before the modification is discarded: the new
/// storage is the incoming pairs alone, and each of its keys is one of theirs.
pub proof fn lemma_reset_discards_prior(m: Map<H256, H256>, pairs: Seq<(H256, H256)>, k: H256)
    ensures
        updated_storage(m, true, pairs) == write_pairs(Map::empty(), pairs),
        updated_storage(m, true, pairs).contains_key(k) ==> exists|i: int|
            0 <= i < pairs.len() && pairs[i].0 == k,
{
    if updated_storage(m, true, pairs).contains_key(k) {
        lemma_write_pairs_keys(pairs, k);
    }
}

/// A modification that leaves the account empty removes it when
/// `delete_empty` is set, and keeps it, with the default balance, nonce and
/// code, when it is not.
pub proof fn lemma_empty_account(
    s: Map<H160, AccountModel>,
    a: H160,
    basic: Basic,
    code: Option<Seq<u8>>,
    pairs: Seq<(H256, H256)>,
    reset: bool,
    delete_empty: bool,
)
    requires
        basic.balance.value() == 0,
        basic.nonce.value() == 0,
        code == Some(Seq::<u8>::empty()) || (code is None && (s.contains_key(a) ==> s[a].code.len()
            == 0)),
    ensures
        delete_empty ==> !modify_step(s, a, basic, code, pairs, reset, delete_empty).contains_key(a),
        !delete_empty ==> modify_step(s, a, basic, code, pairs, reset, delete_empty).contains_key(a)
            && modify_step(s, a, basic, code, pairs, reset, delete_empty)[a].is_empty(),
{
}

/// A deletion removes the account whatever it holds and whatever the policy.
pub proof fn lemma_delete_removes(s: Map<H160, AccountModel>, a: H160, delete_empty: bool)
    ensures
        !step(s, Apply::Delete { address: a }, delete_empty).contains_key(a),
{
}

/// No hash at or after the current block; the most recent hash for the block
/// before it; none beyond the window.
pub proof fn lemma_hash_window(current: nat, n: nat, len: nat)
    ensures
        n >= current ==> hash_window_index(current, n, len) is None,
        n + 1 == current && len > 0 ==> hash_window_index(current, n, len) == Some(0int),
        n < current && current - n - 1 >= len ==> hash_window_index(current, n, len) is None,
{
}

/// Logs of successive commits accumulate in call order: two commits of
/// `l1` then `l2` leave the same sequence as one commit of `l1 + l2`.
pub proof fn lemma_logs_accumulate(
    b0: MemoryBackend,
    b1: MemoryBackend,
    b2: MemoryBackend,
    l1: Seq<Log>,
    l2: Seq<Log>,
)
    requires
        b1.log_seq() == b0.log_seq() + l1,
        b2.log_seq() == b1.log_seq() + l2,
    ensures
        b2.log_seq() == b0.log_seq() + (l1 + l2),
        b2.log_seq().len() == b0.log_seq().len() + l1.len() + l2.len(),
{
    assert(b0.log_seq() + l1 + l2 =~= b0.log_seq() + (l1 + l2));
}

} // verus!
