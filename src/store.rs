use vstd::prelude::*;

use crate::types::{Asset, AssetView};

verus! {

/// The records of a sequence keyed by identifier; a later record of an
/// identifier replaces an earlier one.
pub open spec fn records_map(s: Seq<Asset>) -> Map<Seq<u8>, AssetView>
    decreases s.len(),
{
    if s.len() == 0 {
        Map::empty()
    } else {
        records_map(s.drop_last()).insert(s.last().id@, s.last()@)
    }
}

proof fn lemma_records_absent(s: Seq<Asset>, k: Seq<u8>)
    requires
        forall|j: int| 0 <= j < s.len() ==> s[j].id@ != k,
    ensures
        !records_map(s).contains_key(k),
    decreases s.len(),
{
    if s.len() > 0 {
        lemma_records_absent(s.drop_last(), k);
    }
}

proof fn lemma_records_last(s: Seq<Asset>, j: int, k: Seq<u8>)
    requires
        0 <= j < s.len(),
        s[j].id@ == k,
        forall|i: int| j < i < s.len() ==> s[i].id@ != k,
    ensures
        records_map(s).contains_key(k),
        records_map(s)[k] == s[j]@,
    decreases s.len(),
{
    if j < s.len() - 1 {
        lemma_records_last(s.drop_last(), j, k);
    }
}

proof fn lemma_records_concat(a: Seq<Asset>, b: Seq<Asset>)
    ensures
        records_map(a + b) == records_map(a).union_prefer_right(records_map(b)),
    decreases b.len(),
{
    if b.len() == 0 {
        assert(a + b =~= a);
        assert(records_map(a).union_prefer_right(records_map(b)) =~= records_map(a));
    } else {
        lemma_records_concat(a, b.drop_last());
        assert((a + b).drop_last() =~= a + b.drop_last());
        assert(records_map(a + b) =~= records_map(a).union_prefer_right(records_map(b)));
    }
}

/// Searches `s` from its end for the record of `id`.
fn find_last(s: &Vec<Asset>, id: &crate::types::Hash) -> (r: Option<usize>)
    ensures
        r is None ==> !records_map(s@).contains_key(id@),
        r is Some ==> r->0 < s@.len() && records_map(s@).contains_key(id@) && records_map(s@)[id@]
            == s@[r->0 as int]@,
{
    let mut i: usize = s.len();
    while i > 0
        invariant
            i <= s@.len(),
            forall|j: int| i <= j < s@.len() ==> s@[j].id@ != id@,
        decreases i,
    {
        i = i - 1;
        if s[i].id.same_as(id) {
            proof {
                lemma_records_last(s@, i as int, id@);
            }
            return Some(i);
        }
    }
    proof {
        lemma_records_absent(s@, id@);
    }
    None
}

/// A staged store of asset records. Records inserted into the cache are seen
/// by this store's own reads at once, and join the committed records only when
/// `commit` runs.
pub struct AssetStore {
    committed: Vec<Asset>,
    cache: Vec<Asset>,
}

impl AssetStore {
    /// The committed records, by identifier.
    pub closed spec fn committed_view(&self) -> Map<Seq<u8>, AssetView> {
        records_map(self.committed@)
    }

    /// The records that this session reads: the committed ones, overlaid with
    /// those staged in the cache.
    pub closed spec fn view(&self) -> Map<Seq<u8>, AssetView> {
        records_map(self.committed@).union_prefer_right(records_map(self.cache@))
    }

    /// An empty store.
    pub fn new() -> (r: AssetStore)
        ensures
            r.committed_view() == Map::<Seq<u8>, AssetView>::empty(),
            r.view() == Map::<Seq<u8>, AssetView>::empty(),
    {
        let r = AssetStore { committed: Vec::new(), cache: Vec::new() };
        assert(r.view() =~= Map::<Seq<u8>, AssetView>::empty());
        r
    }

    /// A new, independent session over the same committed records, with
    /// nothing staged.
    pub fn open_session(&self) -> (r: AssetStore)
        ensures
            r.committed_view() == self.committed_view(),
            r.view() == self.committed_view(),
    {
        let mut committed: Vec<Asset> = Vec::new();
        let mut i: usize = 0;
        while i < self.committed.len()
            invariant
                i <= self.committed@.len(),
                committed@.len() == i,
                forall|j: int| 0 <= j < i ==> committed@[j]@ == self.committed@[j]@,
            decreases self.committed@.len() - i,
        {
            committed.push(self.committed[i].copied());
            i = i + 1;
        }
        proof {
            lemma_records_same_view(committed@, self.committed@);
        }
        let r = AssetStore { committed, cache: Vec::new() };
        assert(r.view() =~= r.committed_view());
        r
    }

    /// Whether this session holds a record of `id`.
    pub fn contains(&self, id: &crate::types::Hash) -> (r: bool)
        ensures
            r == self.view().contains_key(id@),
    {
        if find_last(&self.cache, id).is_some() {
            true
        } else {
            find_last(&self.committed, id).is_some()
        }
    }

    /// A copy of the record of `id` that this session holds, if any.
    pub fn get(&self, id: &crate::types::Hash) -> (r: Option<Asset>)
        ensures
            r is Some <==> self.view().contains_key(id@),
            r is Some ==> r->0@ == self.view()[id@],
    {
        match find_last(&self.cache, id) {
            Some(i) => Some(self.cache[i].copied()),
            None => match find_last(&self.committed, id) {
                Some(i) => Some(self.committed[i].copied()),
                None => None,
            },
        }
    }

    /// Stages `asset` under its identifier; the committed records stay as
    /// they were.
    pub fn insert_cache(&mut self, asset: Asset)
        ensures
            final(self).view() == old(self).view().insert(asset.id@, asset@),
            final(self).committed_view() == old(self).committed_view(),
    {
        proof {
            let s = self.cache@.push(asset);
            assert(s.drop_last() =~= self.cache@);
        }
        self.cache.push(asset);
        assert(self.view() =~= old(self).view().insert(asset.id@, asset@));
    }

    /// Makes every staged record a committed one.
    pub fn commit(&mut self)
        ensures
            final(self).committed_view() == old(self).view(),
            final(self).view() == old(self).view(),
    {
        self.committed.append(&mut self.cache);
        proof {
            lemma_records_concat(old(self).committed@, old(self).cache@);
            assert(records_map(self.cache@) =~= Map::<Seq<u8>, AssetView>::empty());
        }
        assert(self.view() =~= self.committed_view());
    }

    /// A key of a committed record is a key that the session reads.
    pub proof fn lemma_committed_keys_read(&self)
        ensures
            forall|k: Seq<u8>| #[trigger]
                self.committed_view().contains_key(k) ==> self.view().contains_key(k),
    {
    }

    /// Drops every staged record.
    pub fn revert_cache(&mut self)
        ensures
            final(self).committed_view() == old(self).committed_view(),
            final(self).view() == old(self).committed_view(),
    {
        self.cache = Vec::new();
        assert(self.view() =~= self.committed_view());
    }
}

proof fn lemma_records_same_view(a: Seq<Asset>, b: Seq<Asset>)
    requires
        a.len() == b.len(),
        forall|j: int| 0 <= j < a.len() ==> a[j]@ == b[j]@,
    ensures
        records_map(a) == records_map(b),
    decreases a.len(),
{
    if a.len() > 0 {
        lemma_records_same_view(a.drop_last(), b.drop_last());
    }
}

} // verus!
