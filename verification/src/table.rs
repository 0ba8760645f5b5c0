//! The asset replacement table.
//!
//! A mapping from normalized logical path to physical replacement path. The
//! interception layer consults it on every file open; mod code fills it
//! before the detours are enabled. A later insert for the same key replaces
//! the earlier one.

use vstd::prelude::*;

verus! {

/// Mapping encoded by a sequence of key/value pairs, later pairs winning.
pub open spec fn map_of(entries: Seq<(String, String)>) -> Map<Seq<char>, Seq<char>>
    decreases entries.len(),
{
    if entries.len() == 0 {
        Map::empty()
    } else {
        map_of(entries.drop_last()).insert(entries.last().0@, entries.last().1@)
    }
}

/// Keys at or after position `j` do not bind `k`, so the whole table binds
/// `k` exactly as its first `j` entries do.
proof fn lemma_map_of_skip_suffix(entries: Seq<(String, String)>, j: int, k: Seq<char>)
    requires
        0 <= j <= entries.len(),
        forall|m: int| j <= m < entries.len() ==> entries[m].0@ != k,
    ensures
        map_of(entries).contains_key(k) == map_of(entries.take(j)).contains_key(k),
        map_of(entries).contains_key(k) ==> map_of(entries)[k] == map_of(entries.take(j))[k],
    decreases entries.len() - j,
{
    if j < entries.len() {
        lemma_map_of_skip_suffix(entries, j + 1, k);
        assert(entries.take(j + 1).drop_last() =~= entries.take(j));
        assert(map_of(entries.take(j + 1)) == map_of(entries.take(j)).insert(
            entries[j].0@,
            entries[j].1@,
        ));
    } else {
        assert(entries.take(j) =~= entries);
    }
}

/// Replacement table: logical path to replacement path.
pub struct ReplacementTable {
    entries: Vec<(String, String)>,
}

impl ReplacementTable {
    /// The mapping the table encodes.
    pub closed spec fn view(&self) -> Map<Seq<char>, Seq<char>> {
        map_of(self.entries@)
    }

    /// An empty table.
    pub fn new() -> (r: ReplacementTable)
        ensures
            r@ == Map::<Seq<char>, Seq<char>>::empty(),
    {
        ReplacementTable { entries: Vec::new() }
    }

    /// Map `key` to `replacement`, replacing an earlier binding of `key`.
    pub fn insert(&mut self, key: String, replacement: String)
        ensures
            final(self)@ == old(self)@.insert(key@, replacement@),
    {
        let ghost pre = self.entries@;
        self.entries.push((key, replacement));
        proof {
            assert(self.entries@.drop_last() =~= pre);
        }
    }

    /// The replacement bound to `key`, when the table holds one.
    pub fn lookup(&self, key: &String) -> (r: Option<String>)
        ensures
            match r {
                Some(v) => self@.contains_key(key@) && v@ == self@[key@],
                None => !self@.contains_key(key@),
            },
    {
        let mut j: usize = self.entries.len();
        while j > 0
            invariant
                j <= self.entries@.len(),
                forall|m: int| j <= m < self.entries@.len() ==> self.entries@[m].0@ != key@,
            decreases j,
    {
            let pair = &self.entries[j - 1];
            if pair.0 == *key {
                proof {
                    lemma_map_of_skip_suffix(self.entries@, j as int, key@);
                    assert(self.entries@.take(j as int).drop_last() =~= self.entries@.take(
                        j - 1,
                    ));
                }
                return Some(pair.1.clone());
            }
            j = j - 1;
        }
        proof {
            lemma_map_of_skip_suffix(self.entries@, 0, key@);
            assert(self.entries@.take(0) =~= Seq::<(String, String)>::empty());
        }
        None
    }
}

} // verus!
