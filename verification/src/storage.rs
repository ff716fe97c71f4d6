//! A keyed data store with an ownership rule and a placeholder masking
//! transform.
//!
//! Payloads are stored masked byte-for-byte; the transform is an
//! involution and explicitly not cryptographic. Each entry records the
//! identity that stored it, and only that identity may delete it.

use vstd::prelude::*;

use crate::error::ContractError;

verus! {

/// A stored entry: its key, the identity that stored it, and the
/// masked payload.
#[derive(Clone, Debug, PartialEq)]
pub struct DataEntry {
    pub key: String,
    pub owner: String,
    pub encrypted_data: Vec<u8>,
}

/// The message that creates an empty data store.
#[derive(Clone, Debug, PartialEq)]
pub struct InstantiateMsg {}

/// A state-mutating call on the data store.
#[derive(Clone, Debug, PartialEq)]
pub enum ExecuteMsg {
    StoreData { key: String, data: Vec<u8>, public_key: String },
    DeleteData { key: String },
}

/// A read-only call on the data store.
#[derive(Clone, Debug, PartialEq)]
pub enum QueryMsg {
    GetData { key: String },
}

/// The data store: the stored entries, keyed by their `key` field.
#[derive(Clone, Debug, PartialEq)]
pub struct DataStore {
    pub entries: Vec<DataEntry>,
}

/// The masking transform: every byte is flipped with the fixed pattern.
pub open spec fn xor_mask(s: Seq<u8>) -> Seq<u8> {
    s.map(|i: int, b: u8| b ^ 0xAA)
}

/// Whether the store holds an entry under `k`.
pub open spec fn has_entry(s: Seq<DataEntry>, k: Seq<char>) -> bool {
    exists|i: int| 0 <= i < s.len() && s[i].key@ == k
}

/// The index of the entry under `k`; meaningful when `has_entry` holds.
pub open spec fn entry_index(s: Seq<DataEntry>, k: Seq<char>) -> int {
    choose|i: int| 0 <= i < s.len() && s[i].key@ == k
}

impl DataStore {
    /// The store invariant: entry keys are pairwise distinct.
    pub open spec fn wf(self) -> bool {
        forall|i: int, j: int| 0 <= i < j < self.entries@.len() ==> self.entries@[i].key@
            != self.entries@[j].key@
    }
}

/// Masking twice restores the payload: storing then reading a payload
/// hands back exactly the bytes that were stored.
pub proof fn lemma_mask_round_trip(s: Seq<u8>)
    ensures
        xor_mask(xor_mask(s)) == s,
{
    assert forall|i: int| 0 <= i < s.len() implies xor_mask(xor_mask(s))[i] == s[i] by {
        let b = s[i];
        assert((b ^ 0xAA) ^ 0xAA == b) by (bit_vector);
    }
    assert(xor_mask(xor_mask(s)) =~= s);
}

proof fn lemma_entry_index_of(s: Seq<DataEntry>, k: Seq<char>, i: int)
    requires
        forall|a: int, b: int| 0 <= a < b < s.len() ==> s[a].key@ != s[b].key@,
        0 <= i < s.len(),
        s[i].key@ == k,
    ensures
        has_entry(s, k),
        entry_index(s, k) == i,
{
    assert(has_entry(s, k));
    let j = entry_index(s, k);
    assert(0 <= j < s.len() && s[j].key@ == k);
    if i < j {
        assert(s[i].key@ != s[j].key@);
    } else if j < i {
        assert(s[j].key@ != s[i].key@);
    }
}

/// The index of the entry under `key`, when one exists.
fn find_entry(entries: &Vec<DataEntry>, key: &String) -> (r: Option<usize>)
    ensures
        (match r {
            Some(i) => i < entries@.len() && entries@[i as int].key@ == key@,
            None => !has_entry(entries@, key@),
        }),
{
    let n: usize = entries.len();
    let mut i: usize = 0;
    while i < n
        invariant
            i <= n,
            n == entries@.len(),
            forall|k: int| 0 <= k < i ==> entries@[k].key@ != key@,
        decreases n - i,
    {
        if entries[i].key == *key {
            return Some(i);
        }
        i = i + 1;
    }
    None
}

/// Masks a payload with the fixed byte pattern. The key parameter is a
/// placeholder: the transform does not depend on it, and is explicitly
/// not cryptographic.
pub fn encrypt_data(public_key: &str, data: &[u8]) -> (r: Result<Vec<u8>, ContractError>)
    ensures
        (match r {
            Ok(v) => v@ == xor_mask(data@),
            Err(_) => false,
        }),
{
    let _ = public_key;
    let n: usize = data.len();
    let mut out: Vec<u8> = Vec::new();
    let mut i: usize = 0;
    while i < n
        invariant
            i <= n,
            n == data@.len(),
            out@.len() == i,
            forall|k: int| 0 <= k < i ==> out@[k] == (data@[k] ^ 0xAA),
        decreases n - i,
    {
        out.push(data[i] ^ 0xAA);
        i = i + 1;
    }
    proof {
        assert(out@ =~= xor_mask(data@));
    }
    Ok(out)
}

/// Unmasks a payload; the same transform as `encrypt_data`, since the
/// masking is an involution. The key parameter is a placeholder.
pub fn decrypt_data(private_key: &str, encrypted_data: &[u8]) -> (r: Result<Vec<u8>, ContractError>)
    ensures
        (match r {
            Ok(v) => v@ == xor_mask(encrypted_data@),
            Err(_) => false,
        }),
{
    let _ = private_key;
    let n: usize = encrypted_data.len();
    let mut out: Vec<u8> = Vec::new();
    let mut i: usize = 0;
    while i < n
        invariant
            i <= n,
            n == encrypted_data@.len(),
            out@.len() == i,
            forall|k: int| 0 <= k < i ==> out@[k] == (encrypted_data@[k] ^ 0xAA),
        decreases n - i,
    {
        out.push(encrypted_data[i] ^ 0xAA);
        i = i + 1;
    }
    proof {
        assert(out@ =~= xor_mask(encrypted_data@));
    }
    Ok(out)
}

/// Stores a payload under `key`, masked, and records the caller as its
/// owner. An existing entry under the same key is overwritten.
pub fn store_data(
    store: &mut DataStore,
    sender: &String,
    key: String,
    data: Vec<u8>,
    public_key: String,
) -> (r: Result<(), ContractError>)
    requires
        old(store).wf(),
    ensures
        final(store).wf(),
        r == Ok::<(), ContractError>(()),
        has_entry(final(store).entries@, key@),
        (if has_entry(old(store).entries@, key@) {
            final(store).entries@ == old(store).entries@.update(
                entry_index(old(store).entries@, key@),
                final(store).entries@[entry_index(old(store).entries@, key@)],
            )
        } else {
            final(store).entries@ == old(store).entries@.push(final(store).entries@.last())
        }),
        ({
            let e = final(store).entries@[entry_index(final(store).entries@, key@)];
            e.key@ == key@ && e.owner@ == sender@ && e.encrypted_data@ == xor_mask(data@)
        }),
{
    let encrypted_data: Vec<u8> = match encrypt_data(public_key.as_str(), data.as_slice()) {
        Ok(v) => v,
        Err(e) => {
            proof {
                assert(false);
            }
            return Err(e);
        },
    };
    let entry = DataEntry { key: key.clone(), owner: sender.clone(), encrypted_data };
    let ghost pre = store.entries@;
    match find_entry(&store.entries, &key) {
        Some(i) => {
            proof {
                lemma_entry_index_of(pre, key@, i as int);
            }
            store.entries[i] = entry;
            proof {
                lemma_entry_index_of(store.entries@, key@, i as int);
            }
        },
        None => {
            store.entries.push(entry);
            proof {
                lemma_entry_index_of(store.entries@, key@, pre.len() as int);
            }
        },
    }
    Ok(())
}

/// Deletes the entry under `key`. The entry must exist and the caller
/// must be its owner.
pub fn delete_data(store: &mut DataStore, sender: &String, key: &String) -> (r: Result<
    (),
    ContractError,
>)
    requires
        old(store).wf(),
    ensures
        final(store).wf(),
        (match r {
            Err(e) => final(store).entries@ == old(store).entries@ && (if !has_entry(
                old(store).entries@,
                key@,
            ) {
                e == ContractError::DataNotFound
            } else {
                e == ContractError::Unauthorized && old(store).entries@[entry_index(
                    old(store).entries@,
                    key@,
                )].owner@ != sender@
            }),
            Ok(_) => has_entry(old(store).entries@, key@) && old(store).entries@[entry_index(
                old(store).entries@,
                key@,
            )].owner@ == sender@ && final(store).entries@ == old(store).entries@.remove(
                entry_index(old(store).entries@, key@),
            ),
        }),
{
    match find_entry(&store.entries, key) {
        None => Err(ContractError::DataNotFound),
        Some(i) => {
            proof {
                lemma_entry_index_of(store.entries@, key@, i as int);
            }
            if !(store.entries[i].owner == *sender) {
                Err(ContractError::Unauthorized)
            } else {
                store.entries.remove(i);
                Ok(())
            }
        },
    }
}

/// Reads the payload stored under `key` back, unmasked.
pub fn query_data(store: &DataStore, key: &String, private_key: &String) -> (r: Result<
    Vec<u8>,
    ContractError,
>)
    requires
        store.wf(),
    ensures
        (match r {
            Err(e) => e == ContractError::DataNotFound && !has_entry(store.entries@, key@),
            Ok(v) => has_entry(store.entries@, key@) && v@ == xor_mask(
                store.entries@[entry_index(store.entries@, key@)].encrypted_data@,
            ),
        }),
{
    match find_entry(&store.entries, key) {
        None => Err(ContractError::DataNotFound),
        Some(i) => {
            proof {
                lemma_entry_index_of(store.entries@, key@, i as int);
            }
            decrypt_data(private_key.as_str(), store.entries[i].encrypted_data.as_slice())
        },
    }
}

} // verus!
