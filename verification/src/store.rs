//! The entry namespace a cache manager owns.
//!
//! An [`EntryStore`] maps full path strings to byte payloads. Its view is a
//! `Map<Seq<char>, Seq<u8>>`, and every operation is specified against that
//! map, so the rest of the crate reasons about paths and payloads alone.

use vstd::prelude::*;

verus! {

/// One stored entry: a full path and the bytes kept at that path.
struct Entry {
    path: String,
    data: Vec<u8>,
}

/// The mapping described by a sequence of entries; a later entry overrides an
/// earlier one with the same path.
spec fn map_of(s: Seq<Entry>) -> Map<Seq<char>, Seq<u8>>
    decreases s.len(),
{
    if s.len() == 0 {
        Map::empty()
    } else {
        map_of(s.drop_last()).insert(s.last().path@, s.last().data@)
    }
}

/// No two entries of the sequence name the same path.
spec fn distinct_paths(s: Seq<Entry>) -> bool {
    forall|i: int, j: int| 0 <= i < j < s.len() ==> s[i].path@ != s[j].path@
}

/// A path is in the mapping exactly when some entry names it.
proof fn lemma_map_of_domain(s: Seq<Entry>, path: Seq<char>)
    ensures
        map_of(s).contains_key(path) <==> exists|i: int| 0 <= i < s.len() && s[i].path@ == path,
    decreases s.len(),
{
    if s.len() > 0 {
        lemma_map_of_domain(s.drop_last(), path);
        if s.last().path@ != path {
            assert(map_of(s).contains_key(path) <==> map_of(s.drop_last()).contains_key(path));
            if exists|i: int| 0 <= i < s.len() && s[i].path@ == path {
                let i = choose|i: int| 0 <= i < s.len() && s[i].path@ == path;
                assert(s.drop_last()[i] == s[i]);
            }
        } else {
            assert(s[s.len() - 1].path@ == path);
        }
    }
}

/// With distinct paths, the entry that names a path gives its payload.
proof fn lemma_map_of_index(s: Seq<Entry>, i: int)
    requires
        distinct_paths(s),
        0 <= i < s.len(),
    ensures
        map_of(s).contains_key(s[i].path@),
        map_of(s)[s[i].path@] == s[i].data@,
    decreases s.len(),
{
    if i == s.len() - 1 {
        assert(s[i] == s.last());
    } else {
        lemma_map_of_index(s.drop_last(), i);
        assert(s.drop_last()[i] == s[i]);
        assert(s.last().path@ != s[i].path@);
    }
}

/// Replacing the entry at a named path updates the mapping at that path and
/// nothing else.
proof fn lemma_map_of_update(s: Seq<Entry>, i: int, e: Entry)
    requires
        distinct_paths(s),
        0 <= i < s.len(),
        e.path@ == s[i].path@,
    ensures
        map_of(s.update(i, e)) == map_of(s).insert(e.path@, e.data@),
        distinct_paths(s.update(i, e)),
    decreases s.len(),
{
    let t = s.update(i, e);
    if i == s.len() - 1 {
        assert(t.drop_last() =~= s.drop_last());
        assert(t.last() == e);
        assert(map_of(t) == map_of(s.drop_last()).insert(e.path@, e.data@));
        assert(map_of(s).insert(e.path@, e.data@) =~= map_of(s.drop_last()).insert(
            e.path@,
            e.data@,
        ));
    } else {
        lemma_map_of_update(s.drop_last(), i, e);
        assert(t.drop_last() =~= s.drop_last().update(i, e));
        assert(t.last() == s.last());
        assert(map_of(t) == map_of(s.drop_last()).insert(e.path@, e.data@).insert(
            s.last().path@,
            s.last().data@,
        ));
        assert(s.last().path@ != e.path@);
        assert(map_of(s.drop_last()).insert(e.path@, e.data@).insert(s.last().path@, s.last().data@)
            =~= map_of(s).insert(e.path@, e.data@));
    }
}

/// Appending an entry with a fresh path inserts it into the mapping.
proof fn lemma_map_of_push(s: Seq<Entry>, e: Entry)
    requires
        distinct_paths(s),
        forall|i: int| 0 <= i < s.len() ==> s[i].path@ != e.path@,
    ensures
        map_of(s.push(e)) == map_of(s).insert(e.path@, e.data@),
        distinct_paths(s.push(e)),
{
    assert(s.push(e).drop_last() =~= s);
    assert(s.push(e).last() == e);
}

/// A path-to-payload namespace with one entry per path.
pub struct EntryStore {
    entries: Vec<Entry>,
}

impl View for EntryStore {
    type V = Map<Seq<char>, Seq<u8>>;

    closed spec fn view(&self) -> Map<Seq<char>, Seq<u8>> {
        map_of(self.entries@)
    }
}

impl EntryStore {
    /// Each path is named by at most one entry.
    pub closed spec fn wf(&self) -> bool {
        distinct_paths(self.entries@)
    }

    /// An empty namespace.
    pub fn new() -> (r: Self)
        ensures
            r.wf(),
            r@ == Map::<Seq<char>, Seq<u8>>::empty(),
    {
        EntryStore { entries: Vec::new() }
    }

    /// The payload stored at a path, or `None` when the path is unmapped.
    pub fn read(&self, path: &String) -> (r: Option<Vec<u8>>)
        requires
            self.wf(),
        ensures
            match r {
                Some(d) => self@.contains_key(path@) && d@ == self@[path@],
                None => !self@.contains_key(path@),
            },
    {
        let n = self.entries.len();
        let mut i: usize = 0;
        while i < n
            invariant
                self.wf(),
                n == self.entries@.len(),
                0 <= i <= n,
                forall|k: int| 0 <= k < i ==> self.entries@[k].path@ != path@,
            decreases n - i,
        {
            if self.entries[i].path == *path {
                let d = vstd::slice::slice_to_vec(self.entries[i].data.as_slice());
                proof {
                    lemma_map_of_index(self.entries@, i as int);
                }
                return Some(d);
            }
            i += 1;
        }
        proof {
            lemma_map_of_domain(self.entries@, path@);
        }
        None
    }

    /// Stores a payload at a path, replacing whatever the path held before.
    pub fn write(&mut self, path: String, data: Vec<u8>)
        requires
            old(self).wf(),
        ensures
            final(self).wf(),
            final(self)@ == old(self)@.insert(path@, data@),
    {
        let n = self.entries.len();
        let mut i: usize = 0;
        while i < n
            invariant
                self.wf(),
                self == old(self),
                n == self.entries@.len(),
                0 <= i <= n,
                forall|k: int| 0 <= k < i ==> self.entries@[k].path@ != path@,
            decreases n - i,
        {
            if self.entries[i].path == path {
                let ghost pre = self.entries@;
                let entry = Entry { path, data };
                proof {
                    lemma_map_of_update(pre, i as int, entry);
                }
                self.entries[i] = entry;
                return ;
            }
            i += 1;
        }
        let ghost pre = self.entries@;
        let entry = Entry { path, data };
        proof {
            lemma_map_of_push(pre, entry);
        }
        self.entries.push(entry);
    }
}

} // verus!
