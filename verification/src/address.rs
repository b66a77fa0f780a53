//! Ledger addresses as plain values.

use vstd::prelude::*;

verus! {

/// What an address names.
#[derive(Clone, Copy, Debug, PartialEq, Eq, Structural)]
pub enum AddressKind {
    /// An account, named by its public key.
    Account,
    /// A deployed contract, named by its hash.
    Contract,
}

/// An address on the ledger: its kind and its 32-byte payload.
///
/// Two addresses name the same party exactly when both fields agree.
#[derive(Clone, Copy, Debug, PartialEq, Eq)]
pub struct Address {
    pub kind: AddressKind,
    pub key: [u8; 32],
}

/// Compares two 32-byte words.
pub fn bytes32_eq(a: &[u8; 32], b: &[u8; 32]) -> (equal: bool)
    ensures
        equal == (a@ == b@),
        equal == (*a == *b),
{
    let mut i: usize = 0;
    while i < 32
        invariant
            0 <= i <= 32,
            forall|j: int| 0 <= j < i ==> a[j] == b[j],
        decreases 32 - i,
    {
        if a[i] != b[i] {
            return false;
        }
        i += 1;
    }
    assert(a@ =~= b@);
    assert(*a =~= *b);
    true
}

impl Address {
    /// The account whose public key is `key`.
    pub fn account(key: [u8; 32]) -> (address: Address)
        ensures
            address == (Address { kind: AddressKind::Account, key }),
    {
        Address { kind: AddressKind::Account, key }
    }

    /// The contract whose hash is `key`.
    pub fn contract(key: [u8; 32]) -> (address: Address)
        ensures
            address == (Address { kind: AddressKind::Contract, key }),
    {
        Address { kind: AddressKind::Contract, key }
    }

    /// Whether `self` and `other` name the same party.
    pub fn same_as(&self, other: &Address) -> (equal: bool)
        ensures
            equal == (*self == *other),
    {
        self.kind == other.kind && bytes32_eq(&self.key, &other.key)
    }
}

} // verus!
