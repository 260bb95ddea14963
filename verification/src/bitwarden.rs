//! Finding a secret among those that the vault lists.

use vstd::prelude::*;
use crate::text::same_text;

verus! {

/// One line of the vault's list of secrets: the key that names the secret
/// and the id under which the vault hands it out.
#[derive(Debug, Clone, PartialEq, Eq)]
pub struct SecretEntry {
    pub key: String,
    pub id: u128,
}

/// The entry at index `i` has the key `key`, and none after it has.
pub open spec fn is_last_with_key(entries: Seq<SecretEntry>, key: Seq<char>, i: int) -> bool {
    &&& 0 <= i < entries.len()
    &&& entries[i].key@ == key
    &&& forall|j: int| i < j < entries.len() ==> entries[j].key@ != key
}

/// No entry has the key `key`.
pub open spec fn key_absent(entries: Seq<SecretEntry>, key: Seq<char>) -> bool {
    forall|j: int| 0 <= j < entries.len() ==> entries[j].key@ != key
}

/// The id of the secret named `key`. Where the list names a key twice, the
/// later line counts.
pub fn find_secret(entries: &Vec<SecretEntry>, key: &str) -> (id: Option<u128>)
    ensures
        match id {
            Some(id) => exists|i: int|
                is_last_with_key(entries@, key@, i) && (#[trigger] entries@[i]).id == id,
            None => key_absent(entries@, key@),
        },
{
    let mut i: usize = entries.len();
    while i > 0
        invariant
            i <= entries.len(),
            forall|j: int| i <= j < entries.len() ==> entries@[j].key@ != key@,
        decreases i,
    {
        i = i - 1;
        if same_text(entries[i].key.as_str(), key) {
            return Some(entries[i].id);
        }
    }
    None
}

} // verus!
