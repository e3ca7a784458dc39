use vstd::prelude::*;

use crate::tree::BaoTree;

verus! {

/// What a reader can learn of a stored blob.
pub struct BlobView {
    /// The hash the blob is stored under.
    pub hash: Seq<u8>,
    /// The root hash its outboard records.
    pub root: Seq<u8>,
    /// The tree metadata its outboard records.
    pub tree: BaoTree,
    /// The outboard bytes.
    pub outboard: Seq<u8>,
    /// The content bytes.
    pub data: Seq<u8>,
    /// Whether both buffers are immutable.
    pub frozen: bool,
}

/// A value that can be stored in a [`Table`], keyed by its hash.
pub trait Slot: Sized {
    /// The blob this value holds.
    spec fn blob(&self) -> BlobView;

    /// The hash the value is keyed by.
    fn key(&self) -> (r: &crate::hash::Hash)
        ensures
            r@ == self.blob().hash,
    ;
}

/// A map from hash to slot, held as a vector with distinct keys.
pub struct Table<S> {
    slots: Vec<S>,
    contents: Ghost<Map<Seq<u8>, BlobView>>,
}

impl<S: Slot> Table<S> {
    /// The blobs in the table, by hash.
    pub closed spec fn view(&self) -> Map<Seq<u8>, BlobView> {
        self.contents@
    }

    /// The vector has distinct keys and holds exactly the blobs of the view.
    pub closed spec fn wf(&self) -> bool {
        &&& forall|i: int, j: int|
            0 <= i < j < self.slots@.len() ==> (#[trigger] self.slots@[i]).blob().hash != (
            #[trigger] self.slots@[j]).blob().hash
        &&& forall|i: int|
            0 <= i < self.slots@.len() ==> self.contents@.contains_key(
                (#[trigger] self.slots@[i]).blob().hash,
            ) && self.contents@[self.slots@[i].blob().hash] == self.slots@[i].blob()
        &&& forall|k: Seq<u8>|
            #[trigger] self.contents@.contains_key(k) ==> exists|i: int|
                0 <= i < self.slots@.len() && (#[trigger] self.slots@[i]).blob().hash == k
    }

    /// An empty table.
    pub fn new() -> (r: Table<S>)
        ensures
            r.wf(),
            r.view() == Map::<Seq<u8>, BlobView>::empty(),
    {
        Table { slots: Vec::new(), contents: Ghost(Map::empty()) }
    }

    /// The position of the slot keyed by `h`, if any.
    fn find(&self, h: &crate::hash::Hash) -> (r: Option<usize>)
        requires
            self.wf(),
        ensures
            r is Some ==> r->0 < self.slots@.len() && self.slots@[r->0 as int].blob().hash
                == h@,
            r is Some <==> self.view().contains_key(h@),
    {
        let mut i: usize = 0;
        while i < self.slots.len()
            invariant
                self.wf(),
                i <= self.slots@.len(),
                forall|j: int| 0 <= j < i ==> (#[trigger] self.slots@[j]).blob().hash != h@,
            decreases self.slots@.len() - i,
        {
            if self.slots[i].key().same(h) {
                return Some(i);
            }
            i = i + 1;
        }
        None
    }

    /// Whether a slot is keyed by `h`.
    pub fn contains(&self, h: &crate::hash::Hash) -> (r: bool)
        requires
            self.wf(),
        ensures
            r == self.view().contains_key(h@),
    {
        self.find(h).is_some()
    }

    /// The slot keyed by `h`, if any.
    pub fn get(&self, h: &crate::hash::Hash) -> (r: Option<&S>)
        requires
            self.wf(),
        ensures
            r is Some <==> self.view().contains_key(h@),
            r is Some ==> r->0.blob() == self.view()[h@],
    {
        match self.find(h) {
            Some(i) => Some(&self.slots[i]),
            None => None,
        }
    }

    /// Stores `s` under its key, replacing what was there.
    pub fn upsert(&mut self, s: S)
        requires
            old(self).wf(),
        ensures
            final(self).wf(),
            final(self).view() == old(self).view().insert(s.blob().hash, s.blob()),
    {
        let ghost k = s.blob().hash;
        let ghost b = s.blob();
        let found = self.find(s.key());
        self.contents = Ghost(self.contents@.insert(k, b));
        match found {
            Some(i) => {
                self.slots.set(i, s);
                assert forall|k2: Seq<u8>| #[trigger]
                    self.contents@.contains_key(k2) implies exists|j: int|
                        0 <= j < self.slots@.len() && (#[trigger] self.slots@[j]).blob().hash
                            == k2 by {
                    if k2 == k {
                        assert(self.slots@[i as int].blob().hash == k2);
                    } else {
                        assert(old(self).contents@.contains_key(k2));
                        let j = choose|j: int|
                            0 <= j < old(self).slots@.len() && (#[trigger] old(
                                self,
                            ).slots@[j]).blob().hash == k2;
                        assert(self.slots@[j].blob().hash == k2);
                    }
                }
            },
            None => {
                self.slots.push(s);
                let ghost n = old(self).slots@.len() as int;
                assert(self.slots@[n].blob().hash == k);
                assert forall|k2: Seq<u8>| #[trigger]
                    self.contents@.contains_key(k2) implies exists|j: int|
                        0 <= j < self.slots@.len() && (#[trigger] self.slots@[j]).blob().hash
                            == k2 by {
                    if k2 == k {
                        assert(self.slots@[n].blob().hash == k2);
                    } else {
                        assert(old(self).contents@.contains_key(k2));
                        let j = choose|j: int|
                            0 <= j < old(self).slots@.len() && (#[trigger] old(
                                self,
                            ).slots@[j]).blob().hash == k2;
                        assert(self.slots@[j].blob().hash == k2);
                    }
                }
            },
        }
    }

    /// Removes the slot keyed by `h` and hands it back.
    pub fn take(&mut self, h: &crate::hash::Hash) -> (r: Option<S>)
        requires
            old(self).wf(),
        ensures
            final(self).wf(),
            final(self).view() == old(self).view().remove(h@),
            r is Some <==> old(self).view().contains_key(h@),
            r is Some ==> r->0.blob() == old(self).view()[h@],
    {
        match self.find(h) {
            Some(i) => {
                let s = self.slots.remove(i);
                let ghost k = h@;
                self.contents = Ghost(self.contents@.remove(k));
                let ghost old_slots = old(self).slots@;
                assert forall|a: int| 0 <= a < self.slots@.len() implies #[trigger] self.slots@[a]
                    == old_slots[if a < i {
                    a
                } else {
                    a + 1
                }] by {}
                assert forall|a: int, b: int|
                    0 <= a < b < self.slots@.len() implies (#[trigger] self.slots@[a]).blob().hash
                    != (#[trigger] self.slots@[b]).blob().hash by {
                    let a2 = if a < i {
                        a
                    } else {
                        a + 1
                    };
                    let b2 = if b < i {
                        b
                    } else {
                        b + 1
                    };
                    assert(self.slots@[a] == old_slots[a2]);
                    assert(self.slots@[b] == old_slots[b2]);
                }
                assert forall|a: int| 0 <= a < self.slots@.len() implies self.contents@.contains_key(
                    (#[trigger] self.slots@[a]).blob().hash,
                ) && self.contents@[self.slots@[a].blob().hash] == self.slots@[a].blob() by {
                    let a2 = if a < i {
                        a
                    } else {
                        a + 1
                    };
                    assert(self.slots@[a] == old_slots[a2]);
                    assert(a2 != i);
                }
                assert forall|k2: Seq<u8>| #[trigger]
                    self.contents@.contains_key(k2) implies exists|j: int|
                        0 <= j < self.slots@.len() && (#[trigger] self.slots@[j]).blob().hash
                            == k2 by {
                    assert(old(self).contents@.contains_key(k2));
                    let j = choose|j: int|
                        0 <= j < old_slots.len() && (#[trigger] old_slots[j]).blob().hash == k2;
                    assert(j != i);
                    let j2 = if j < i {
                        j
                    } else {
                        j - 1
                    };
                    assert(self.slots@[j2] == old_slots[j]);
                }
                Some(s)
            },
            None => None,
        }
    }

    /// The keys of the table, each once.
    pub fn keys(&self) -> (r: Vec<crate::hash::Hash>)
        requires
            self.wf(),
        ensures
            forall|i: int| 0 <= i < r@.len() ==> self.view().contains_key(#[trigger] r@[i]@),
            forall|k: Seq<u8>|
                #[trigger] self.view().contains_key(k) ==> exists|i: int|
                    0 <= i < r@.len() && #[trigger] r@[i]@ == k,
            forall|i: int, j: int| 0 <= i < j < r@.len() ==> (#[trigger] r@[i])@ != (#[trigger] r@[j])@,
    {
        let mut r: Vec<crate::hash::Hash> = Vec::new();
        let mut i: usize = 0;
        while i < self.slots.len()
            invariant
                self.wf(),
                i <= self.slots@.len(),
                r@.len() == i,
                forall|j: int| 0 <= j < i ==> (#[trigger] r@[j])@ == self.slots@[j].blob().hash,
            decreases self.slots@.len() - i,
        {
            r.push(*self.slots[i].key());
            i = i + 1;
        }
        assert forall|i: int| 0 <= i < r@.len() implies self.view().contains_key(#[trigger] r@[i]@) by {
            assert(r@[i]@ == self.slots@[i].blob().hash);
        }
        assert forall|k: Seq<u8>| #[trigger] self.view().contains_key(k) implies exists|i: int|
            0 <= i < r@.len() && #[trigger] r@[i]@ == k by {
            let j = choose|j: int| 0 <= j < self.slots@.len() && (#[trigger] self.slots@[j]).blob().hash == k;
            assert(r@[j]@ == k);
        }
        assert forall|a: int, b: int| 0 <= a < b < r@.len() implies (#[trigger] r@[a])@ != (#[trigger] r@[b])@ by {
            assert(r@[a]@ == self.slots@[a].blob().hash);
            assert(r@[b]@ == self.slots@[b].blob().hash);
        }
        r
    }
}

} // verus!
