//! Plain value types of the ledger: 256-bit unsigned integers, 160-bit
//! addresses, 256-bit hashes, and the records built from them.
use vstd::prelude::*;

use crate::vec_map::KeyEq;

verus! {

/// The number of distinct values of a `u128` limb.
pub open spec fn limb_base() -> nat {
    0x1_0000_0000_0000_0000_0000_0000_0000_0000nat
}

/// An unsigned 256-bit integer held as a high and a low 128-bit limb.
#[derive(Clone, Copy, Debug, PartialEq, Eq, Structural)]
pub struct U256 {
    pub hi: u128,
    pub lo: u128,
}

impl U256 {
    /// The number this value stands for.
    pub open spec fn value(self) -> nat {
        self.hi as nat * limb_base() + self.lo as nat
    }

    pub fn zero() -> (r: U256)
        ensures
            r.value() == 0,
            r == (U256 { hi: 0, lo: 0 }),
    {
        U256 { hi: 0, lo: 0 }
    }

    pub fn one() -> (r: U256)
        ensures
            r.value() == 1,
    {
        U256 { hi: 0, lo: 1 }
    }

    pub fn from_usize(n: usize) -> (r: U256)
        ensures
            r.value() == n,
    {
        U256 { hi: 0, lo: n as u128 }
    }

    pub fn is_zero(&self) -> (r: bool)
        ensures
            r == (self.value() == 0),
            r == (*self == U256 { hi: 0, lo: 0 }),
    {
        self.hi == 0 && self.lo == 0
    }

    /// Whether `self` is at least `other`.
    pub fn ge(&self, other: &U256) -> (r: bool)
        ensures
            r == (self.value() >= other.value()),
    {
        if self.hi != other.hi {
            proof {
                if self.hi > other.hi {
                    assert(self.value() >= (other.hi + 1) * limb_base());
                } else {
                    assert(other.value() >= (self.hi + 1) * limb_base());
                }
            }
            self.hi > other.hi
        } else {
            self.lo >= other.lo
        }
    }

    /// The difference `self - other`, which must not be negative.
    pub fn sub(&self, other: &U256) -> (r: U256)
        requires
            self.value() >= other.value(),
        ensures
            r.value() == self.value() - other.value(),
    {
        if self.lo >= other.lo {
            proof {
                if self.hi < other.hi {
                    assert(other.value() >= (self.hi + 1) * limb_base());
                }
            }
            U256 { hi: self.hi - other.hi, lo: self.lo - other.lo }
        } else {
            proof {
                if self.hi <= other.hi {
                    assert(self.value() < other.value());
                }
            }
            let lo = (u128::MAX - other.lo) + self.lo + 1;
            U256 { hi: self.hi - other.hi - 1, lo }
        }
    }
}

/// Equality of two byte arrays of one length, element by element.
pub fn bytes_eq<const N: usize>(a: &[u8; N], b: &[u8; N]) -> (r: bool)
    ensures
        r == (*a == *b),
{
    let mut i: usize = 0;
    while i < N
        invariant
            0 <= i <= N,
            a@.len() == N,
            b@.len() == N,
            forall|j: int| 0 <= j < i ==> a@[j] == b@[j],
        decreases N - i,
    {
        if a[i] != b[i] {
            assert(a@[i as int] != b@[i as int]);
            return false;
        }
        i = i + 1;
    }
    assert(*a =~= *b);
    true
}

/// Whether every byte of an array is zero.
pub fn bytes_all_zero<const N: usize>(a: &[u8; N]) -> (r: bool)
    ensures
        r == (forall|j: int| 0 <= j < N ==> a@[j] == 0),
{
    let mut i: usize = 0;
    while i < N
        invariant
            0 <= i <= N,
            a@.len() == N,
            forall|j: int| 0 <= j < i ==> a@[j] == 0,
        decreases N - i,
    {
        if a[i] != 0 {
            return false;
        }
        i = i + 1;
    }
    true
}

/// A 160-bit account address, big-endian bytes.
#[derive(Clone, Copy, Debug, PartialEq, Eq)]
pub struct H160 {
    pub bytes: [u8; 20],
}

/// A 256-bit hash or storage word, big-endian bytes.
#[derive(Clone, Copy, Debug, PartialEq, Eq)]
pub struct H256 {
    pub bytes: [u8; 32],
}

impl H256 {
    /// Whether every byte is zero: the "unset" storage value.
    pub open spec fn is_zero_spec(self) -> bool {
        forall|j: int| 0 <= j < 32 ==> self.bytes@[j] == 0
    }

    pub fn zero() -> (r: H256)
        ensures
            r.is_zero_spec(),
    {
        H256 { bytes: [0u8; 32] }
    }

    pub fn is_zero(&self) -> (r: bool)
        ensures
            r == self.is_zero_spec(),
    {
        bytes_all_zero(&self.bytes)
    }
}

impl KeyEq for H160 {
    fn key_eq(&self, other: &Self) -> (r: bool) {
        let r = bytes_eq(&self.bytes, &other.bytes);
        proof {
            if !r {
                assert(*self != *other);
            }
        }
        r
    }
}

impl KeyEq for H256 {
    fn key_eq(&self, other: &Self) -> (r: bool) {
        let r = bytes_eq(&self.bytes, &other.bytes);
        proof {
            if !r {
                assert(*self != *other);
            }
        }
        r
    }
}

/// The balance and nonce of an account.
#[derive(Clone, Copy, Debug, PartialEq, Eq, Structural)]
pub struct Basic {
    pub balance: U256,
    pub nonce: U256,
}

/// A log entry emitted during execution; carried along, never read.
#[derive(Clone, Debug, PartialEq, Eq)]
pub struct Log {
    pub address: H160,
    pub topics: Vec<H256>,
    pub data: Vec<u8>,
}

/// One instruction of a diff: rewrite an account, or remove it.
pub enum Apply {
    Modify {
        address: H160,
        basic: Basic,
        code: Option<Vec<u8>>,
        storage: Vec<(H256, H256)>,
        reset_storage: bool,
    },
    Delete { address: H160 },
}

} // verus!
