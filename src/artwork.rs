//! Artwork upload cache: content identifier to the URL the collector gave.

use vstd::prelude::*;

verus! {

/// Content identifiers mapped to artwork URLs, in the order first seen.
/// Entries are only added or updated, never evicted.
pub struct ArtworkCache {
    entries: Vec<(String, String)>,
    urls: Ghost<Map<Seq<char>, String>>,
}

impl View for ArtworkCache {
    type V = Map<Seq<char>, String>;

    closed spec fn view(&self) -> Map<Seq<char>, String> {
        self.urls@
    }
}

impl ArtworkCache {
    /// Keys are unique and the entries are exactly the map.
    pub closed spec fn wf(&self) -> bool {
        &&& forall|i: int, j: int|
            0 <= i < j < self.entries@.len() ==> self.entries@[i].0@ != self.entries@[j].0@
        &&& forall|i: int|
            0 <= i < self.entries@.len() ==> {
                &&& #[trigger] self.urls@.contains_key(self.entries@[i].0@)
                &&& self.urls@[self.entries@[i].0@] == self.entries@[i].1
            }
        &&& forall|k: Seq<char>|
            #[trigger] self.urls@.contains_key(k) ==> exists|i: int|
                0 <= i < self.entries@.len() && self.entries@[i].0@ == k
    }

    pub fn new() -> (r: ArtworkCache)
        ensures
            r.wf(),
            r@ == Map::<Seq<char>, String>::empty(),
    {
        ArtworkCache { entries: Vec::new(), urls: Ghost(Map::empty()) }
    }

    fn find(&self, key: &String) -> (r: Option<usize>)
        requires
            self.wf(),
        ensures
            match r {
                Some(i) => {
                    &&& i < self.entries@.len()
                    &&& self.entries@[i as int].0@ == key@
                    &&& self@.contains_key(key@)
                    &&& self@[key@] == self.entries@[i as int].1
                },
                None => !self@.contains_key(key@),
            },
    {
        let mut i: usize = 0;
        while i < self.entries.len()
            invariant
                self.wf(),
                i <= self.entries@.len(),
                forall|j: int| 0 <= j < i ==> self.entries@[j].0@ != key@,
            decreases self.entries@.len() - i,
        {
            if self.entries[i].0 == *key {
                assert(self.urls@.contains_key(self.entries@[i as int].0@));
                return Some(i);
            }
            i = i + 1;
        }
        None
    }

    /// Whether an upload of this content has been acknowledged.
    pub fn contains(&self, key: &String) -> (r: bool)
        requires
            self.wf(),
        ensures
            r == self@.contains_key(key@),
    {
        match self.find(key) {
            Some(i) => true,
            None => false,
        }
    }

    /// The URL recorded for this content, if any.
    pub fn get(&self, key: &String) -> (r: Option<String>)
        requires
            self.wf(),
        ensures
            match r {
                Some(u) => self@.contains_key(key@) && u == self@[key@],
                None => !self@.contains_key(key@),
            },
    {
        match self.find(key) {
            Some(i) => Some(self.entries[i].1.clone()),
            None => None,
        }
    }

    /// Records an acknowledged upload; a later acknowledgement for the same
    /// content replaces the URL.
    pub fn insert(&mut self, key: String, url: String)
        requires
            old(self).wf(),
        ensures
            final(self).wf(),
            final(self)@ == old(self)@.insert(key@, url),
    {
        let ghost k = key@;
        let ghost u = url;
        match self.find(&key) {
            Some(i) => {
                self.entries.set(i, (key, url));
                self.urls = Ghost(self.urls@.insert(k, u));
                assert forall|j: int| 0 <= j < self.entries@.len() implies {
                    &&& #[trigger] self.urls@.contains_key(self.entries@[j].0@)
                    &&& self.urls@[self.entries@[j].0@] == self.entries@[j].1
                } by {
                    if j != i {
                        assert(old(self).urls@.contains_key(old(self).entries@[j].0@));
                    }
                }
                assert forall|k2: Seq<char>| #[trigger] self.urls@.contains_key(k2) implies exists|
                    j: int,
                | 0 <= j < self.entries@.len() && self.entries@[j].0@ == k2 by {
                    if k2 == k {
                        assert(self.entries@[i as int].0@ == k2);
                    } else {
                        let j = choose|j: int|
                            0 <= j < old(self).entries@.len() && old(self).entries@[j].0@ == k2;
                        assert(self.entries@[j].0@ == k2);
                    }
                }
            },
            None => {
                assert forall|j: int| 0 <= j < old(self).entries@.len() implies old(
                    self,
                ).entries@[j].0@ != k by {
                    assert(old(self).urls@.contains_key(old(self).entries@[j].0@));
                }
                self.entries.push((key, url));
                self.urls = Ghost(self.urls@.insert(k, u));
                assert forall|j: int| 0 <= j < self.entries@.len() implies {
                    &&& #[trigger] self.urls@.contains_key(self.entries@[j].0@)
                    &&& self.urls@[self.entries@[j].0@] == self.entries@[j].1
                } by {
                    if j < old(self).entries@.len() {
                        assert(old(self).urls@.contains_key(old(self).entries@[j].0@));
                    }
                }
                assert forall|k2: Seq<char>| #[trigger] self.urls@.contains_key(k2) implies exists|
                    j: int,
                | 0 <= j < self.entries@.len() && self.entries@[j].0@ == k2 by {
                    if k2 == k {
                        assert(self.entries@[self.entries@.len() - 1].0@ == k2);
                    } else {
                        let j = choose|j: int|
                            0 <= j < old(self).entries@.len() && old(self).entries@[j].0@ == k2;
                        assert(self.entries@[j].0@ == k2);
                    }
                }
            },
        }
    }
}

} // verus!
