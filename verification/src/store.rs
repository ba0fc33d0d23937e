//! The storage model: a flat collection of files keyed by identifier.
//!
//! This models the semantics the service requires of its storage root —
//! atomic create-or-fail for new files and ordinary reads of existing
//! ones — as a map from identifier bytes to content bytes. The handlers
//! are verified against this model; a deployment backs the same
//! interface with one flat directory, one file per identifier.

use vstd::prelude::*;
use crate::bytes::bytes_eq;
use crate::bytes::copy_bytes;
use crate::error::ServiceError;

verus! {

/// The map a sequence of (identifier, content) entries denotes: later
/// entries win, though a well-formed store never repeats an identifier.
pub open spec fn map_of(s: Seq<(Vec<u8>, Vec<u8>)>) -> Map<Seq<u8>, Seq<u8>>
    decreases s.len(),
{
    if s.len() == 0 {
        Map::empty()
    } else {
        map_of(s.drop_last()).insert(s.last().0@, s.last().1@)
    }
}

/// Whether no two entries share an identifier.
pub open spec fn unique_keys(s: Seq<(Vec<u8>, Vec<u8>)>) -> bool {
    forall|i: int, j: int| 0 <= i < j < s.len() ==> s[i].0@ != s[j].0@
}

/// A key is in the denoted map exactly when some entry carries it.
proof fn lemma_map_of_contains(s: Seq<(Vec<u8>, Vec<u8>)>, k: Seq<u8>)
    ensures
        map_of(s).contains_key(k) <==> (exists|i: int| 0 <= i < s.len() && s[i].0@ == k),
    decreases s.len(),
{
    if s.len() > 0 {
        lemma_map_of_contains(s.drop_last(), k);
        if map_of(s).contains_key(k) {
            if k == s.last().0@ {
                assert(s[s.len() - 1].0@ == k);
            } else {
                let i = choose|i: int| 0 <= i < s.drop_last().len() && s.drop_last()[i].0@ == k;
                assert(s[i].0@ == k);
            }
        }
        if exists|i: int| 0 <= i < s.len() && s[i].0@ == k {
            let i = choose|i: int| 0 <= i < s.len() && s[i].0@ == k;
            if i < s.len() - 1 {
                assert(s.drop_last()[i].0@ == k);
            }
        }
    }
}

/// Under unique keys, the denoted map sends each entry's identifier to
/// that entry's content.
proof fn lemma_map_of_index(s: Seq<(Vec<u8>, Vec<u8>)>, i: int)
    requires
        unique_keys(s),
        0 <= i < s.len(),
    ensures
        map_of(s).contains_key(s[i].0@),
        map_of(s)[s[i].0@] == s[i].1@,
    decreases s.len(),
{
    if i < s.len() - 1 {
        assert(unique_keys(s.drop_last())) by {
            assert(forall|p: int, q: int|
                0 <= p < q < s.drop_last().len() ==> s.drop_last()[p] == s[p]
                    && s.drop_last()[q] == s[q]);
        }
        lemma_map_of_index(s.drop_last(), i);
        assert(s.drop_last()[i] == s[i]);
        assert(s[i].0@ != s.last().0@);
    }
}

/// The storage root: every stored file, keyed by its identifier.
pub struct Store {
    entries: Vec<(Vec<u8>, Vec<u8>)>,
}

impl Store {
    /// The map this store denotes: identifier bytes to content bytes.
    pub closed spec fn view(&self) -> Map<Seq<u8>, Seq<u8>> {
        map_of(self.entries@)
    }

    /// Well-formedness: no identifier is stored twice.
    pub closed spec fn wf(&self) -> bool {
        unique_keys(self.entries@)
    }

    /// An empty storage root.
    pub fn new() -> (s: Store)
        ensures
            s.wf(),
            s@ == Map::<Seq<u8>, Seq<u8>>::empty(),
    {
        Store { entries: Vec::new() }
    }

    /// The index of the entry carrying `id`, if any.
    fn find_index(&self, id: &[u8]) -> (r: Option<usize>)
        ensures
            match r {
                Some(i) => i < self.entries@.len() && self.entries@[i as int].0@ == id@,
                None => forall|j: int|
                    0 <= j < self.entries@.len() ==> self.entries@[j].0@ != id@,
            },
    {
        let n = self.entries.len();
        let mut j: usize = 0;
        while j < n
            invariant
                n == self.entries@.len(),
                j <= n,
                forall|k: int| 0 <= k < j ==> self.entries@[k].0@ != id@,
            decreases n - j,
        {
            if bytes_eq(self.entries[j].0.as_slice(), id) {
                return Some(j);
            }
            j = j + 1;
        }
        None
    }

    /// Whether a file for this identifier exists.
    pub fn contains(&self, id: &[u8]) -> (r: bool)
        ensures
            r == self@.contains_key(id@),
    {
        proof {
            lemma_map_of_contains(self.entries@, id@);
        }
        match self.find_index(id) {
            Some(_) => true,
            None => false,
        }
    }

    /// Creates the file for `id` with the given content, atomically:
    /// if a file for `id` already exists the store is left unchanged
    /// and the creation fails, exactly as a storage root whose create
    /// operation is create-or-fail.
    pub fn create(&mut self, id: &[u8], data: Vec<u8>) -> (r: Result<(), ServiceError>)
        requires
            old(self).wf(),
        ensures
            final(self).wf(),
            old(self)@.contains_key(id@) ==> r == Err::<(), ServiceError>(
                ServiceError::AlreadyExists,
            ) && final(self)@ == old(self)@,
            !old(self)@.contains_key(id@) ==> r == Ok::<(), ServiceError>(())
                && final(self)@ == old(self)@.insert(id@, data@),
    {
        if self.contains(id) {
            return Err(ServiceError::AlreadyExists);
        }
        proof {
            lemma_map_of_contains(self.entries@, id@);
        }
        let key = copy_bytes(id);
        let ghost before = self.entries@;
        self.entries.push((key, data));
        proof {
            assert(self.entries@.drop_last() =~= before);
            assert(self.entries@.last().0@ == id@);
        }
        Ok(())
    }

    /// Opens the file for `id` and yields its full content, or reports
    /// that no such file exists.
    pub fn open(&self, id: &[u8]) -> (r: Result<Vec<u8>, ServiceError>)
        requires
            self.wf(),
        ensures
            match r {
                Ok(data) => self@.contains_key(id@) && data@ == self@[id@],
                Err(e) => e == ServiceError::NotFound && !self@.contains_key(id@),
            },
    {
        match self.find_index(id) {
            Some(i) => {
                proof {
                    lemma_map_of_index(self.entries@, i as int);
                }
                Ok(copy_bytes(self.entries[i].1.as_slice()))
            },
            None => {
                proof {
                    lemma_map_of_contains(self.entries@, id@);
                }
                Err(ServiceError::NotFound)
            },
        }
    }
}

} // verus!
