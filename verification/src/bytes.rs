//! Comparing and copying byte strings and texts.

use vstd::prelude::*;

verus! {

/// The view of a table name with a key.
pub open spec fn pair_view(pair: (String, Vec<u8>)) -> (Seq<char>, Seq<u8>) {
    (pair.0@, pair.1@)
}

/// The views of a list of table names with keys.
pub open spec fn pair_views(pairs: Seq<(String, Vec<u8>)>) -> Seq<(Seq<char>, Seq<u8>)> {
    pairs.map_values(|pair: (String, Vec<u8>)| pair_view(pair))
}

/// The views of a list of texts.
pub open spec fn text_views(texts: Seq<String>) -> Seq<Seq<char>> {
    texts.map_values(|text: String| text@)
}

/// Whether two byte strings hold the same bytes.
pub fn bytes_eq(a: &[u8], b: &[u8]) -> (same: bool)
    ensures
        same == (a@ == b@),
{
    if a.len() != b.len() {
        return false;
    }
    let mut i: usize = 0;
    while i < a.len()
        invariant
            i <= a.len(),
            a.len() == b.len(),
            forall|j: int| 0 <= j < i ==> a@[j] == b@[j],
        decreases a.len() - i,
    {
        if a[i] != b[i] {
            return false;
        }
        i = i + 1;
    }
    assert(a@ =~= b@);
    true
}

/// A copy of a byte string.
pub fn copy_bytes(source: &[u8]) -> (copy: Vec<u8>)
    ensures
        copy@ == source@,
{
    vstd::slice::slice_to_vec(source)
}

/// Whether two texts hold the same characters.
pub fn text_eq(a: &str, b: &str) -> (same: bool)
    ensures
        same == (a@ == b@),
{
    let left: String = a.to_owned();
    let right: String = b.to_owned();
    left == right
}

/// Whether a table name with a key is among the given ones.
pub fn contains_pair(pairs: &Vec<(String, Vec<u8>)>, table: &str, key: &[u8]) -> (found: bool)
    ensures
        found == pair_views(pairs@).contains((table@, key@)),
{
    let mut i: usize = 0;
    while i < pairs.len()
        invariant
            i <= pairs.len(),
            forall|j: int| 0 <= j < i ==> pair_views(pairs@)[j] != (table@, key@),
        decreases pairs.len() - i,
    {
        if text_eq(pairs[i].0.as_str(), table) && bytes_eq(pairs[i].1.as_slice(), key) {
            assert(pair_views(pairs@)[i as int] == (table@, key@));
            return true;
        }
        i = i + 1;
    }
    false
}

} // verus!
