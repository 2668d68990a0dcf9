use vstd::prelude::*;

verus! {

/// Highest type code that the general store accepts (trust score).
pub const MAX_PRIMARY_TYPE: u8 = 5;

/// Type code of the legacy document slot, the highest code that exists.
pub const LEGACY_DOCUMENT: u8 = 6;

/// The identity of a calling actor. The registry never makes one up: each
/// operation is handed the principal it acts for.
#[derive(Clone, Copy, Debug, PartialEq, Eq)]
pub struct Principal {
    pub bytes: [u8; 20],
}

/// One record of the registry.
#[derive(Clone, Copy, Debug, PartialEq, Eq)]
pub struct VerificationEntry {
    pub data_hash: [u8; 32],
    pub timestamp: u64,
    pub is_active: bool,
}

/// Why a mutating operation refused its input.
#[derive(Clone, Copy, Debug, PartialEq, Eq)]
pub enum RegistryError {
    /// The type code lies outside the range that the operation accepts.
    InvalidVerificationType,
}

/// The digest that stands for "nothing stored": 32 zero bytes.
pub open spec fn zero_hash() -> [u8; 32] {
    vstd::array::spec_array_fill_for_copy_type::<u8, 32>(0u8)
}

/// The record that every never-written slot reads as.
pub open spec fn blank_entry() -> VerificationEntry {
    VerificationEntry { data_hash: zero_hash(), timestamp: 0, is_active: false }
}

/// The text of `RegistryError::InvalidVerificationType`, as bytes.
pub open spec fn invalid_type_text() -> Seq<u8> {
    seq![
        73u8, 110u8, 118u8, 97u8, 108u8, 105u8, 100u8, 32u8, 118u8, 101u8, 114u8, 105u8, 102u8,
        105u8, 99u8, 97u8, 116u8, 105u8, 111u8, 110u8, 32u8, 116u8, 121u8, 112u8, 101u8,
    ]
}

/// Byte-wise comparison of two arrays of the same length.
pub fn same_bytes<const N: usize>(a: &[u8; N], b: &[u8; N]) -> (r: bool)
    ensures
        r == (*a == *b),
{
    broadcast use vstd::array::group_array_axioms;

    let mut i: usize = 0;
    while i < N
        invariant
            i <= N,
            forall|j: int| 0 <= j < i ==> a[j] == b[j],
        decreases N - i,
    {
        if a[i] != b[i] {
            return false;
        }
        i = i + 1;
    }
    assert(*a =~= *b);
    true
}

impl Principal {
    /// Whether two principals are the same actor.
    pub fn same(&self, other: &Principal) -> (r: bool)
        ensures
            r == (*self == *other),
    {
        same_bytes(&self.bytes, &other.bytes)
    }
}

impl VerificationEntry {
    /// The blank record: zero digest, timestamp 0, inactive.
    pub fn blank() -> (e: VerificationEntry)
        ensures
            e == blank_entry(),
    {
        VerificationEntry { data_hash: [0u8;32], timestamp: 0, is_active: false }
    }
}

impl RegistryError {
    /// The human-readable message of the error, as ASCII bytes.
    pub fn message(&self) -> (text: Vec<u8>)
        ensures
            text@ == invalid_type_text(),
    {
        let text = vec![
            73u8, 110u8, 118u8, 97u8, 108u8, 105u8, 100u8, 32u8, 118u8, 101u8, 114u8, 105u8, 102u8,
            105u8, 99u8, 97u8, 116u8, 105u8, 111u8, 110u8, 32u8, 116u8, 121u8, 112u8, 101u8,
        ];
        assert(text@ =~= invalid_type_text());
        text
    }
}

} // verus!
