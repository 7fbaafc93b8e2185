//! Names of the entries of the archive that a download answers with.

use vstd::prelude::*;

use crate::utils::text::{decimal, lemma_decimal_injective, push_decimal};

verus! {

/// The name of the archive entry at position `index` (from zero): `file-`
/// and the position counted from one.
pub open spec fn entry_name(index: nat) -> Seq<char> {
    "file-"@ + decimal(index + 1)
}

/// The name of the archive entry at position `index`.
pub fn zip_entry_name(index: usize) -> (name: String)
    requires
        index < usize::MAX,
    ensures
        name@ == entry_name(index as nat),
{
    let mut name = String::from_str("file-");
    let n: usize = index + 1;
    push_decimal(&mut name, n as u64);
    name
}

/// The names of the entries of an archive of `count` files, in order.
pub fn zip_entry_names(count: usize) -> (names: Vec<String>)
    ensures
        names@.len() == count,
        forall|i: int| 0 <= i < count ==> #[trigger] names@[i]@ == entry_name(i as nat),
{
    let mut names: Vec<String> = Vec::new();
    let mut i: usize = 0;
    while i < count
        invariant
            i <= count,
            names@.len() == i,
            forall|k: int| 0 <= k < i ==> #[trigger] names@[k]@ == entry_name(k as nat),
        decreases count - i,
    {
        names.push(zip_entry_name(i));
        i = i + 1;
    }
    names
}

/// Different positions give different entry names, so no two files of an
/// archive share a name.
pub proof fn lemma_entry_names_distinct(i: nat, j: nat)
    requires
        entry_name(i) == entry_name(j),
    ensures
        i == j,
{
    let p = "file-"@;
    assert(entry_name(i).subrange(p.len() as int, entry_name(i).len() as int) =~= decimal(i + 1));
    assert(entry_name(j).subrange(p.len() as int, entry_name(j).len() as int) =~= decimal(j + 1));
    lemma_decimal_injective(i + 1, j + 1);
}

} // verus!
