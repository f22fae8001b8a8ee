//! String-keyed association lists with map semantics.
//!
//! The request types keep their name-keyed collections (aggregations,
//! highlight fields) as vectors of pairs, so insertion order is a plain
//! sequence property. These helpers give those vectors map behaviour:
//! inserting replaces the entry with the same key in place, removing drops
//! it, and keys stay pairwise distinct.

use vstd::prelude::*;
use vstd::string::StringExecFns;

verus! {

/// No two entries share a key.
pub open spec fn keys_unique<V>(m: Seq<(String, V)>) -> bool {
    forall|i: int, j: int| 0 <= i < j < m.len() ==> m[i].0@ != m[j].0@
}

/// Some entry has the given key.
pub open spec fn has_key<V>(m: Seq<(String, V)>, k: Seq<char>) -> bool {
    exists|i: int| 0 <= i < m.len() && m[i].0@ == k
}

/// Insert with map semantics: replace the entry with this key in place, or
/// append a new entry at the end.
pub fn insert_entry<V>(m: &mut Vec<(String, V)>, key: String, value: V)
    requires
        keys_unique(old(m)@),
    ensures
        keys_unique(final(m)@),
        !has_key(old(m)@, key@) ==> final(m)@ == old(m)@.push((key, value)),
        forall|i: int|
            0 <= i < old(m)@.len() && old(m)@[i].0@ == key@ ==> final(m)@ == old(m)@.update(
                i,
                (key, value),
            ),
{
    let mut j: usize = 0;
    while j < m.len()
        invariant
            j <= m@.len(),
            keys_unique(m@),
            m@ == old(m)@,
            forall|i: int| 0 <= i < j ==> m@[i].0@ != key@,
        decreases m@.len() - j,
    {
        if m[j].0 == key {
            m.set(j, (key, value));
            proof {
                assert forall|a: int, b: int| 0 <= a < b < m@.len() implies m@[a].0@
                    != m@[b].0@ by {
                    assert(old(m)@[a].0@ != old(m)@[b].0@);
                }
            }
            return ;
        }
        j += 1;
    }
    m.push((key, value));
    proof {
        assert forall|a: int, b: int| 0 <= a < b < m@.len() implies m@[a].0@ != m@[b].0@ by {
            if b < m@.len() - 1 {
                assert(old(m)@[a].0@ != old(m)@[b].0@);
            }
        }
    }
}

/// Remove with map semantics: drop the entry with this key, if any; later
/// entries move up, keeping their order.
pub fn remove_entry<V>(m: &mut Vec<(String, V)>, key: &str)
    requires
        keys_unique(old(m)@),
    ensures
        keys_unique(final(m)@),
        !has_key(old(m)@, key@) ==> final(m)@ == old(m)@,
        forall|i: int|
            0 <= i < old(m)@.len() && old(m)@[i].0@ == key@ ==> final(m)@ == old(m)@.remove(i),
{
    let k = String::from_str(key);
    let mut j: usize = 0;
    while j < m.len()
        invariant
            k@ == key@,
            j <= m@.len(),
            keys_unique(m@),
            m@ == old(m)@,
            forall|i: int| 0 <= i < j ==> m@[i].0@ != key@,
        decreases m@.len() - j,
    {
        if m[j].0 == k {
            m.remove(j);
            proof {
                assert forall|a: int, b: int| 0 <= a < b < m@.len() implies m@[a].0@
                    != m@[b].0@ by {
                    let a0: int = if a < j { a } else { a + 1 };
                    let b0: int = if b < j { b } else { b + 1 };
                    assert(old(m)@[a0].0@ != old(m)@[b0].0@);
                }
            }
            return ;
        }
        j += 1;
    }
}

} // verus!
