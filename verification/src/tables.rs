//! Small association tables keyed by strings.
//!
//! The gateway keeps a handful of maps whose keys are phone numbers or
//! session identifiers.  They are stored as vectors of entries with
//! pairwise-distinct keys; the spec functions below give them their
//! map reading.

use vstd::prelude::*;

verus! {

/// One table entry: a string key and its value.
pub struct TableEntry<V> {
    pub key: String,
    pub val: V,
}

/// Whether some entry carries the key `k`.
pub open spec fn table_has<V>(s: Seq<TableEntry<V>>, k: Seq<char>) -> bool {
    exists|i: int| 0 <= i < s.len() && s[i].key@ == k
}

/// The index of the entry carrying `k` (meaningful when `table_has` holds
/// and the keys are distinct).
pub open spec fn table_index<V>(s: Seq<TableEntry<V>>, k: Seq<char>) -> int {
    choose|i: int| 0 <= i < s.len() && s[i].key@ == k
}

/// The value stored under `k`.
pub open spec fn table_val<V>(s: Seq<TableEntry<V>>, k: Seq<char>) -> V {
    s[table_index(s, k)].val
}

/// No two entries share a key.
pub open spec fn distinct_keys<V>(s: Seq<TableEntry<V>>) -> bool {
    forall|i: int, j: int| 0 <= i < j < s.len() ==> s[i].key@ != s[j].key@
}

/// With distinct keys, an entry that carries `k` is the entry the spec
/// functions talk about.
pub proof fn lemma_key_entry_unique<V>(s: Seq<TableEntry<V>>, k: Seq<char>, i: int)
    requires
        distinct_keys(s),
        0 <= i < s.len(),
        s[i].key@ == k,
    ensures
        table_has(s, k),
        table_index(s, k) == i,
        table_val(s, k) == s[i].val,
{
    assert(table_has(s, k));
    let j = table_index(s, k);
    if j != i {
        assert(s[i].key@ != s[j].key@);
        assert(false);
    }
}

/// Removing the entry that carries `k` drops exactly that key.
pub proof fn lemma_remove_entry<V>(s: Seq<TableEntry<V>>, i: int, k: Seq<char>)
    requires
        distinct_keys(s),
        0 <= i < s.len(),
        s[i].key@ == k,
    ensures
        distinct_keys(s.remove(i)),
        !table_has(s.remove(i), k),
        forall|q: Seq<char>| q != k ==> #[trigger] table_has(s.remove(i), q) == table_has(s, q),
        forall|q: Seq<char>| q != k && table_has(s, q) ==> #[trigger] table_val(s.remove(i), q) == table_val(s, q),
{
    let t = s.remove(i);
    assert(forall|j: int| 0 <= j < t.len() ==> t[j] == (if j < i { s[j] } else { s[j + 1] }));
    assert forall|q: Seq<char>| q != k && table_has(s, q) implies #[trigger] table_has(t, q) by {
        let j = table_index(s, q);
        lemma_key_entry_unique(s, q, j);
        if j < i {
            assert(t[j].key@ == q);
        } else {
            assert(j != i);
            assert(t[j - 1].key@ == q);
        }
    }
    assert forall|q: Seq<char>| q != k && table_has(s, q) implies #[trigger] table_val(t, q) == table_val(s, q) by {
        let j = table_index(s, q);
        lemma_key_entry_unique(s, q, j);
        if j < i {
            lemma_key_entry_unique(t, q, j);
        } else {
            lemma_key_entry_unique(t, q, j - 1);
        }
    }
}

/// Appending a fresh key adds exactly that key.
pub proof fn lemma_push_entry<V>(s: Seq<TableEntry<V>>, e: TableEntry<V>)
    requires
        distinct_keys(s),
        !table_has(s, e.key@),
    ensures
        distinct_keys(s.push(e)),
        table_has(s.push(e), e.key@),
        table_val(s.push(e), e.key@) == e.val,
        forall|q: Seq<char>| q != e.key@ ==> #[trigger] table_has(s.push(e), q) == table_has(s, q),
        forall|q: Seq<char>| q != e.key@ && table_has(s, q) ==> #[trigger] table_val(s.push(e), q) == table_val(s, q),
{
    let t = s.push(e);
    assert(t[s.len() as int] == e);
    assert forall|i: int, j: int| 0 <= i < j < t.len() implies t[i].key@ != t[j].key@ by {
        if j < s.len() {
            assert(s[i].key@ != s[j].key@);
        } else {
            assert(t[i] == s[i] && t[j] == e);
            assert(table_has(s, e.key@) == false);
            assert(s[i].key@ != e.key@);
        }
    }
    lemma_key_entry_unique(t, e.key@, s.len() as int);
    assert forall|q: Seq<char>| q != e.key@ && table_has(s, q) implies #[trigger] table_has(t, q) by {
        let j = table_index(s, q);
        lemma_key_entry_unique(s, q, j);
        assert(t[j].key@ == q);
    }
    assert forall|q: Seq<char>| q != e.key@ && table_has(t, q) implies table_has(s, q) by {
        let j = table_index(t, q);
        lemma_key_entry_unique(t, q, j);
        assert(j != s.len());
        assert(s[j].key@ == q);
    }
    assert forall|q: Seq<char>| q != e.key@ && table_has(s, q) implies #[trigger] table_val(t, q) == table_val(s, q) by {
        let j = table_index(s, q);
        lemma_key_entry_unique(s, q, j);
        lemma_key_entry_unique(t, q, j);
    }
}

/// Finds the entry carrying `key`, if any.
pub fn table_find<V>(entries: &Vec<TableEntry<V>>, key: &String) -> (r: Option<usize>)
    ensures
        match r {
            Some(i) => i < entries@.len() && entries@[i as int].key@ == key@,
            None => !table_has(entries@, key@),
        },
{
    let mut i: usize = 0;
    while i < entries.len()
        invariant
            i <= entries@.len(),
            forall|j: int| 0 <= j < i ==> entries@[j].key@ != key@,
        decreases entries@.len() - i,
    {
        if entries[i].key == *key {
            return Some(i);
        }
        i += 1;
    }
    None
}

/// Removes the entry carrying `key`, handing back its value.
pub fn table_remove<V>(entries: &mut Vec<TableEntry<V>>, key: &String) -> (r: Option<V>)
    requires
        distinct_keys(old(entries)@),
    ensures
        distinct_keys(final(entries)@),
        match r {
            Some(v) => {
                &&& table_has(old(entries)@, key@)
                &&& v == table_val(old(entries)@, key@)
                &&& !table_has(final(entries)@, key@)
                &&& forall|q: Seq<char>| q != key@ ==> #[trigger] table_has(final(entries)@, q)
                    == table_has(old(entries)@, q)
                &&& forall|q: Seq<char>| q != key@ && table_has(old(entries)@, q)
                    ==> #[trigger] table_val(final(entries)@, q) == table_val(old(entries)@, q)
            },
            None => {
                &&& !table_has(old(entries)@, key@)
                &&& final(entries)@ == old(entries)@
            },
        },
{
    match table_find(entries, key) {
        Some(i) => {
            proof {
                lemma_key_entry_unique(entries@, key@, i as int);
                lemma_remove_entry(entries@, i as int, key@);
            }
            let e = entries.remove(i);
            Some(e.val)
        }
        None => None,
    }
}

/// Stores `val` under `key`, replacing any entry that carried the key.
pub fn table_upsert<V>(entries: &mut Vec<TableEntry<V>>, key: &String, val: V)
    requires
        distinct_keys(old(entries)@),
    ensures
        distinct_keys(final(entries)@),
        table_has(final(entries)@, key@),
        table_val(final(entries)@, key@) == val,
        forall|q: Seq<char>| q != key@ ==> #[trigger] table_has(final(entries)@, q)
            == table_has(old(entries)@, q),
        forall|q: Seq<char>| q != key@ && table_has(old(entries)@, q)
            ==> #[trigger] table_val(final(entries)@, q) == table_val(old(entries)@, q),
{
    let _ = table_remove(entries, key);
    let e = TableEntry { key: key.clone(), val };
    proof {
        lemma_push_entry(entries@, e);
    }
    entries.push(e);
}

/// Reads the value stored under `key` without changing the table.
pub fn table_get<'a, V>(entries: &'a Vec<TableEntry<V>>, key: &String) -> (r: Option<&'a V>)
    requires
        distinct_keys(entries@),
    ensures
        match r {
            Some(v) => table_has(entries@, key@) && *v == table_val(entries@, key@),
            None => !table_has(entries@, key@),
        },
{
    match table_find(entries, key) {
        Some(i) => {
            proof {
                lemma_key_entry_unique(entries@, key@, i as int);
            }
            Some(&entries[i].val)
        }
        None => None,
    }
}

} // verus!
