use vstd::prelude::*;

use crate::buffer::{bytes_view, written, write_fits, MutableMemFile};
use crate::entry::{Entry, PartialEntry};
use crate::error::StoreError;
use crate::table::{BlobView, Slot, Table};
use crate::tree::{bao_encoding, outboard_len, BaoTree, FileOutboard, BLOCK_SIZE_LOG};

verus! {

/// Number of bytes an export writes at a time.
pub const EXPORT_CHUNK_SIZE: usize = 1048576;

/// The state of a store: complete blobs and partial blobs, by hash.
pub struct StoreView {
    pub complete: Map<Seq<u8>, BlobView>,
    pub partial: Map<Seq<u8>, BlobView>,
}

/// What holds of every state of a store: no hash is both complete and
/// partial; every blob sits under its own hash, which its outboard records
/// as root; complete blobs are frozen, partial ones are not.
pub open spec fn store_invariant(v: StoreView) -> bool {
    &&& forall|k: Seq<u8>|
        !(#[trigger] v.complete.contains_key(k) && #[trigger] v.partial.contains_key(k))
    &&& forall|k: Seq<u8>|
        #[trigger] v.complete.contains_key(k) ==> v.complete[k].hash == k && v.complete[k].root
            == k && v.complete[k].frozen
    &&& forall|k: Seq<u8>|
        #[trigger] v.partial.contains_key(k) ==> v.partial[k].hash == k && v.partial[k].root
            == k && !v.partial[k].frozen
}

/// What a lookup of `h` finds: the complete blob, else the partial one.
pub open spec fn lookup(v: StoreView, h: Seq<u8>) -> Option<BlobView> {
    if v.complete.contains_key(h) {
        Some(v.complete[h])
    } else if v.partial.contains_key(h) {
        Some(v.partial[h])
    } else {
        None
    }
}

/// The blob a complete entry holds for content `data` of a given tree,
/// outboard and hash.
pub open spec fn complete_blob(h: Seq<u8>, tree: BaoTree, outboard: Seq<u8>, data: Seq<u8>) -> BlobView {
    BlobView { hash: h, root: h, tree, outboard, data, frozen: true }
}

/// The blob that importing `data` stores.
pub open spec fn imported_blob(data: Seq<u8>) -> BlobView {
    complete_blob(
        bao_encoding(data, BLOCK_SIZE_LOG).1,
        BaoTree { size: data.len() as u64, block_log: BLOCK_SIZE_LOG },
        bao_encoding(data, BLOCK_SIZE_LOG).0,
        data,
    )
}

/// The state after storing `b` as the complete blob of `h`.
pub open spec fn with_complete(v: StoreView, h: Seq<u8>, b: BlobView) -> StoreView {
    StoreView { complete: v.complete.insert(h, b), partial: v.partial.remove(h) }
}

/// Whether `after` is what importing `data` into `before` gives, with `h` returned.
pub open spec fn imported(before: StoreView, data: Seq<u8>, h: Seq<u8>, after: StoreView) -> bool {
    &&& h == bao_encoding(data, BLOCK_SIZE_LOG).1
    &&& after == with_complete(before, h, imported_blob(data))
}

/// The blob that promoting a partial blob `b` stores under `h`.
pub open spec fn promoted(h: Seq<u8>, b: BlobView) -> BlobView {
    complete_blob(h, b.tree, b.outboard, b.data)
}

/// Whether `after` is what promoting the partial entry `given` of hash `h`
/// in `before` gives: the store's own buffers for `h` are frozen where it
/// has them, else those of `given`.
pub open spec fn completed(before: StoreView, h: Seq<u8>, given: BlobView, after: StoreView) -> bool {
    let src = if before.partial.contains_key(h) {
        before.partial[h]
    } else {
        given
    };
    after == with_complete(before, h, promoted(h, src))
}

/// A fresh partial blob: zeroed buffers of the final sizes.
pub open spec fn fresh_partial(h: Seq<u8>, size: u64) -> BlobView {
    BlobView {
        hash: h,
        root: h,
        tree: BaoTree { size, block_log: BLOCK_SIZE_LOG },
        outboard: Seq::new(outboard_len(size, BLOCK_SIZE_LOG), |i: int| 0u8),
        data: Seq::new(size as nat, |i: int| 0u8),
        frozen: false,
    }
}

/// Whether content of `size` bytes fits in memory (its outboard, never
/// longer, then fits too).
pub open spec fn fits_in_memory(size: u64) -> bool {
    size <= usize::MAX
}

/// The half-open byte ranges an export of `len` bytes writes, in order.
pub open spec fn export_chunk_spec(len: nat) -> Seq<(usize, usize)> {
    Seq::new(
        ((len + EXPORT_CHUNK_SIZE - 1) / (EXPORT_CHUNK_SIZE as int)) as nat,
        |i: int|
            (
                (i * EXPORT_CHUNK_SIZE) as usize,
                (if (i + 1) * EXPORT_CHUNK_SIZE < len {
                    (i + 1) * EXPORT_CHUNK_SIZE
                } else {
                    len as int
                }) as usize,
            ),
    )
}

/// The in-memory store of complete and partial blobs.
pub struct Store {
    complete: Table<Entry>,
    partial: Table<PartialEntry>,
}

impl Store {
    /// The blobs of the store.
    pub closed spec fn view(&self) -> StoreView {
        StoreView { complete: self.complete.view(), partial: self.partial.view() }
    }

    /// The tables are well formed and the state meets [`store_invariant`].
    pub closed spec fn wf(&self) -> bool {
        &&& self.complete.wf()
        &&& self.partial.wf()
        &&& store_invariant(self.view())
    }

    /// An empty store.
    pub fn new() -> (r: Store)
        ensures
            r.wf(),
            r.view().complete == Map::<Seq<u8>, BlobView>::empty(),
            r.view().partial == Map::<Seq<u8>, BlobView>::empty(),
    {
        Store { complete: Table::new(), partial: Table::new() }
    }

    /// The entry for `hash`: the complete blob if there is one, else the
    /// partial one, else nothing.
    pub fn get(&self, hash: &crate::hash::Hash) -> (r: Option<Entry>)
        requires
            self.wf(),
        ensures
            r is Some <==> lookup(self.view(), hash@) is Some,
            r is Some ==> r->0.blob() == lookup(self.view(), hash@)->0,
    {
        match self.complete.get(hash) {
            Some(e) => Some(e.duplicate()),
            None => match self.partial.get(hash) {
                Some(p) => Some(p.to_entry()),
                None => None,
            },
        }
    }

    /// The partial entry for `hash`, if there is one.
    pub fn get_partial(&self, hash: &crate::hash::Hash) -> (r: Option<PartialEntry>)
        requires
            self.wf(),
        ensures
            r is Some <==> self.view().partial.contains_key(hash@),
            r is Some ==> r->0.blob() == self.view().partial[hash@],
    {
        match self.partial.get(hash) {
            Some(p) => Some(p.duplicate()),
            None => None,
        }
    }

    /// Allocates zeroed buffers for a blob of `size` bytes and registers them
    /// as the partial entry of `hash`, replacing any earlier one.
    /// Fails with `DataTooLarge` where the content or its outboard does not
    /// fit in memory, and with `InvalidInput` where `hash` is already
    /// complete; the store is then unchanged.
    pub fn get_or_create_partial(&mut self, hash: crate::hash::Hash, size: u64) -> (r: Result<
        PartialEntry,
        StoreError,
    >)
        requires
            old(self).wf(),
        ensures
            final(self).wf(),
            !fits_in_memory(size) ==> r == Err::<PartialEntry, StoreError>(
                StoreError::DataTooLarge,
            ) && final(self).view() == old(self).view(),
            fits_in_memory(size) && old(self).view().complete.contains_key(hash@) ==> r == Err::<
                PartialEntry,
                StoreError,
            >(StoreError::InvalidInput) && final(self).view() == old(self).view(),
            fits_in_memory(size) && !old(self).view().complete.contains_key(hash@) ==> r is Ok
                && r->Ok_0.blob() == fresh_partial(hash@, size) && final(self).view() == (
            StoreView {
                complete: old(self).view().complete,
                partial: old(self).view().partial.insert(hash@, fresh_partial(hash@, size)),
            }),
    {
        let tree = BaoTree::new(size, BLOCK_SIZE_LOG);
        let ob_size = crate::tree::outboard_size(size);
        proof {
            crate::tree::lemma_outboard_len_bound(size);
        }
        if ob_size > usize::MAX as u64 || size > usize::MAX as u64 {
            return Err(crate::error::data_too_large());
        }
        if self.complete.contains(&hash) {
            return Err(StoreError::InvalidInput);
        }
        let data = MutableMemFile::zeroed(size as usize);
        let outboard = MutableMemFile::zeroed(ob_size as usize);
        let entry = PartialEntry::assemble(hash, tree, outboard, data);
        assert(entry.blob() == fresh_partial(hash@, size));
        self.partial.upsert(entry.duplicate());
        proof {
            let v = self.view();
            assert(v.complete == old(self).view().complete);
            assert forall|k: Seq<u8>| #[trigger] v.complete.contains_key(k) implies v.complete[k].hash
                == k && v.complete[k].root == k && v.complete[k].frozen by {
                assert(old(self).view().complete.contains_key(k));
            }
            assert forall|k: Seq<u8>| #[trigger] v.partial.contains_key(k) implies v.partial[k].hash
                == k && v.partial[k].root == k && !v.partial[k].frozen by {
                if k != hash@ {
                    assert(old(self).view().partial.contains_key(k));
                }
            }
            assert forall|k: Seq<u8>|
                !(#[trigger] v.complete.contains_key(k) && #[trigger] v.partial.contains_key(k)) by {
                if k != hash@ && v.partial.contains_key(k) {
                    assert(old(self).view().partial.contains_key(k));
                }
            }
        }
        Ok(entry)
    }

    /// Writes `data` at `offset` into the content of the partial blob `hash`.
    /// Fails with `NotFound` where `hash` has no partial entry, and with
    /// `InvalidInput` where the written range does not fit in `usize`; the
    /// store is then unchanged.
    pub fn write_partial(&mut self, hash: &crate::hash::Hash, offset: u64, data: &[u8]) -> (r: Result<(), StoreError>)
        requires
            old(self).wf(),
        ensures
            final(self).wf(),
            !old(self).view().partial.contains_key(hash@) ==> r == Err::<(), StoreError>(
                StoreError::NotFound,
            ) && final(self).view() == old(self).view(),
            old(self).view().partial.contains_key(hash@) && !write_fits(offset, data@.len()) ==> r
                == Err::<(), StoreError>(StoreError::InvalidInput) && final(self).view() == old(
                self,
            ).view(),
            old(self).view().partial.contains_key(hash@) && write_fits(offset, data@.len()) ==> r
                is Ok && final(self).view() == (StoreView {
                complete: old(self).view().complete,
                partial: old(self).view().partial.insert(
                    hash@,
                    BlobView {
                        data: written(old(self).view().partial[hash@].data, offset as int, data@),
                        ..old(self).view().partial[hash@]
                    },
                ),
            }),
    {
        match self.partial.take(hash) {
            None => {
                assert(self.partial.view() =~= old(self).partial.view());
                Err(StoreError::NotFound)
            },
            Some(mut p) => {
                let r = p.write_data_at(offset, data);
                let ghost pb = p.blob();
                self.partial.upsert(p);
                proof {
                    let before = old(self).view();
                    let after = self.view();
                    assert(after.partial =~= before.partial.insert(hash@, pb));
                    if r is Err {
                        assert(after.partial =~= before.partial);
                    }
                    assert(after.partial.dom() =~= before.partial.dom());
                    lemma_partial_replaced(before, hash@, after);
                }
                r
            },
        }
    }

    /// Writes `data` at `offset` into the outboard of the partial blob `hash`,
    /// failing as [`Store::write_partial`] does.
    pub fn write_partial_outboard(&mut self, hash: &crate::hash::Hash, offset: u64, data: &[u8]) -> (r: Result<(), StoreError>)
        requires
            old(self).wf(),
        ensures
            final(self).wf(),
            !old(self).view().partial.contains_key(hash@) ==> r == Err::<(), StoreError>(
                StoreError::NotFound,
            ) && final(self).view() == old(self).view(),
            old(self).view().partial.contains_key(hash@) && !write_fits(offset, data@.len()) ==> r
                == Err::<(), StoreError>(StoreError::InvalidInput) && final(self).view() == old(
                self,
            ).view(),
            old(self).view().partial.contains_key(hash@) && write_fits(offset, data@.len()) ==> r
                is Ok && final(self).view() == (StoreView {
                complete: old(self).view().complete,
                partial: old(self).view().partial.insert(
                    hash@,
                    BlobView {
                        outboard: written(
                            old(self).view().partial[hash@].outboard,
                            offset as int,
                            data@,
                        ),
                        ..old(self).view().partial[hash@]
                    },
                ),
            }),
    {
        match self.partial.take(hash) {
            None => {
                assert(self.partial.view() =~= old(self).partial.view());
                Err(StoreError::NotFound)
            },
            Some(mut p) => {
                let r = p.write_outboard_at(offset, data);
                let ghost pb = p.blob();
                self.partial.upsert(p);
                proof {
                    let before = old(self).view();
                    let after = self.view();
                    assert(after.partial =~= before.partial.insert(hash@, pb));
                    if r is Err {
                        assert(after.partial =~= before.partial);
                    }
                    assert(after.partial.dom() =~= before.partial.dom());
                    lemma_partial_replaced(before, hash@, after);
                }
                r
            },
        }
    }

    /// Promotes a partial blob: freezes the buffers that the store holds for
    /// the entry's hash (the entry's own where the store holds none), and in
    /// one step removes the hash from the partial blobs and stores it as
    /// complete.
    pub fn insert_complete(&mut self, entry: PartialEntry)
        requires
            old(self).wf(),
        ensures
            final(self).wf(),
            completed(old(self).view(), entry.blob().hash, entry.blob(), final(self).view()),
    {
        let hash = entry.hash();
        let src = match self.partial.take(&hash) {
            Some(p) => p,
            None => entry,
        };
        let (_, tree, outboard, data) = src.into_parts();
        let e = Entry::complete(hash, tree, outboard.freeze(), data.freeze());
        self.complete.upsert(e);
        proof {
            lemma_complete_stored(old(self).view(), hash@, e.blob(), self.view());
        }
    }

    /// Stores `data` as a complete blob with the given outboard, under the
    /// outboard's root hash, which it returns.
    pub fn insert_complete_data(&mut self, data: bytes::Bytes, outboard: FileOutboard) -> (r: crate::hash::Hash)
        requires
            old(self).wf(),
        ensures
            final(self).wf(),
            r@ == outboard.root@,
            final(self).view() == with_complete(
                old(self).view(),
                r@,
                complete_blob(r@, outboard.tree, outboard.data@, bytes_view(data)),
            ),
    {
        let root = outboard.root;
        let tree = outboard.tree;
        let ob = outboard.data.to_bytes();
        let e = Entry::complete(root, tree, ob, data);
        self.partial.take(&root);
        self.complete.upsert(e);
        proof {
            lemma_complete_stored(old(self).view(), root@, e.blob(), self.view());
        }
        root
    }

    /// Hashes `data`, builds its outboard, and stores it as a complete blob;
    /// returns its hash.
    pub fn import_bytes(&mut self, data: bytes::Bytes) -> (r: crate::hash::Hash)
        requires
            old(self).wf(),
        ensures
            final(self).wf(),
            imported(old(self).view(), bytes_view(data), r@, final(self).view()),
    {
        let outboard = crate::tree::build_outboard(&data);
        self.insert_complete_data(data, outboard)
    }

    /// The hashes of the complete blobs at this moment, each once.
    pub fn blobs(&self) -> (r: Vec<crate::hash::Hash>)
        requires
            self.wf(),
        ensures
            forall|i: int| 0 <= i < r@.len() ==> self.view().complete.contains_key(#[trigger] r@[i]@),
            forall|k: Seq<u8>|
                #[trigger] self.view().complete.contains_key(k) ==> exists|i: int|
                    0 <= i < r@.len() && #[trigger] r@[i]@ == k,
            forall|i: int, j: int| 0 <= i < j < r@.len() ==> (#[trigger] r@[i])@ != (#[trigger] r@[j])@,
    {
        self.complete.keys()
    }

    /// The hashes of the partial blobs at this moment, each once.
    pub fn partial_blobs(&self) -> (r: Vec<crate::hash::Hash>)
        requires
            self.wf(),
        ensures
            forall|i: int| 0 <= i < r@.len() ==> self.view().partial.contains_key(#[trigger] r@[i]@),
            forall|k: Seq<u8>|
                #[trigger] self.view().partial.contains_key(k) ==> exists|i: int|
                    0 <= i < r@.len() && #[trigger] r@[i]@ == k,
            forall|i: int, j: int| 0 <= i < j < r@.len() ==> (#[trigger] r@[i])@ != (#[trigger] r@[j])@,
    {
        self.partial.keys()
    }

    /// The hashes of collection roots: this store keeps none.
    pub fn roots(&self) -> (r: Vec<crate::hash::Hash>)
        ensures
            r@.len() == 0,
    {
        Vec::new()
    }

    /// Checking stored blobs is not offered by this store.
    pub fn validate(&self) -> (r: Result<(), StoreError>)
        ensures
            r == Err::<(), StoreError>(StoreError::Unimplemented),
    {
        Err(StoreError::Unimplemented)
    }

    /// The content to export for `hash` to a target path with the given
    /// properties. Fails with `InvalidInput` where the target is not
    /// absolute or has no parent directory, else with `NotFound` where
    /// `hash` is not complete.
    pub fn export_source(&self, hash: &crate::hash::Hash, target_is_absolute: bool, target_has_parent: bool) -> (r: Result<bytes::Bytes, StoreError>)
        requires
            self.wf(),
        ensures
            !(target_is_absolute && target_has_parent) ==> r == Err::<bytes::Bytes, StoreError>(
                StoreError::InvalidInput,
            ),
            target_is_absolute && target_has_parent && !self.view().complete.contains_key(hash@)
                ==> r == Err::<bytes::Bytes, StoreError>(StoreError::NotFound),
            target_is_absolute && target_has_parent && self.view().complete.contains_key(hash@)
                ==> r is Ok && bytes_view(r->Ok_0) == self.view().complete[hash@].data,
    {
        if !target_is_absolute || !target_has_parent {
            return Err(StoreError::InvalidInput);
        }
        match self.complete.get(hash) {
            Some(e) => Ok(e.data_reader().to_bytes()),
            None => Err(StoreError::NotFound),
        }
    }
}

/// No hash is ever both a complete and a partial blob of a store.
pub proof fn lemma_disjoint(s: &Store, h: Seq<u8>)
    requires
        s.wf(),
    ensures
        !(s.view().complete.contains_key(h) && s.view().partial.contains_key(h)),
{
}

/// Every state of a store meets [`store_invariant`].
pub proof fn lemma_invariant(s: &Store)
    requires
        s.wf(),
    ensures
        store_invariant(s.view()),
{
}

/// Replacing a partial blob by one that differs only in its buffers keeps
/// the invariant.
proof fn lemma_partial_replaced(before: StoreView, h: Seq<u8>, after: StoreView)
    requires
        store_invariant(before),
        before.partial.contains_key(h),
        after.complete == before.complete,
        after.partial.dom() == before.partial.dom(),
        forall|k: Seq<u8>| k != h && before.partial.contains_key(k) ==> after.partial[k] == before.partial[k],
        after.partial[h].hash == h,
        after.partial[h].root == h,
        !after.partial[h].frozen,
    ensures
        store_invariant(after),
{
    assert forall|k: Seq<u8>| #[trigger] after.partial.contains_key(k) implies after.partial[k].hash
        == k && after.partial[k].root == k && !after.partial[k].frozen by {
        if k != h {
            assert(before.partial.contains_key(k));
        }
    }
    assert forall|k: Seq<u8>|
        !(#[trigger] after.complete.contains_key(k) && #[trigger] after.partial.contains_key(k)) by {
        if after.partial.contains_key(k) {
            assert(before.partial.contains_key(k));
        }
    }
    assert forall|k: Seq<u8>| #[trigger] after.complete.contains_key(k) implies after.complete[k].hash
        == k && after.complete[k].root == k && after.complete[k].frozen by {
        assert(before.complete.contains_key(k));
    }
}

/// Storing a frozen blob under its own hash as complete keeps the invariant.
proof fn lemma_complete_stored(before: StoreView, h: Seq<u8>, b: BlobView, after: StoreView)
    requires
        store_invariant(before),
        after == with_complete(before, h, b),
        b.hash == h,
        b.root == h,
        b.frozen,
    ensures
        store_invariant(after),
{
    assert forall|k: Seq<u8>| #[trigger] after.complete.contains_key(k) implies after.complete[k].hash
        == k && after.complete[k].root == k && after.complete[k].frozen by {
        if k != h {
            assert(before.complete.contains_key(k));
        }
    }
    assert forall|k: Seq<u8>| #[trigger] after.partial.contains_key(k) implies after.partial[k].hash
        == k && after.partial[k].root == k && !after.partial[k].frozen by {
        assert(before.partial.contains_key(k));
    }
    assert forall|k: Seq<u8>|
        !(#[trigger] after.complete.contains_key(k) && #[trigger] after.partial.contains_key(k)) by {
        if after.partial.contains_key(k) && k != h {
            assert(before.partial.contains_key(k));
            assert(!before.complete.contains_key(k));
        }
    }
}

/// The byte ranges an export of `len` bytes writes, in order: chunks of
/// [`EXPORT_CHUNK_SIZE`] bytes, the last one possibly shorter. Progress is
/// reported at the start of each.
pub fn export_chunks(len: usize) -> (r: Vec<(usize, usize)>)
    ensures
        r@ == export_chunk_spec(len as nat),
{
    let mut r: Vec<(usize, usize)> = Vec::new();
    let mut start: usize = 0;
    while start < len
        invariant
            start <= len,
            start == r@.len() * EXPORT_CHUNK_SIZE || start == len,
            r@.len() == (start + EXPORT_CHUNK_SIZE - 1) / (EXPORT_CHUNK_SIZE as int),
            forall|i: int| 0 <= i < r@.len() ==> #[trigger] r@[i] == export_chunk_spec(len as nat)[i],
        decreases len - start,
    {
        let end = if len - start > EXPORT_CHUNK_SIZE {
            start + EXPORT_CHUNK_SIZE
        } else {
            len
        };
        let ghost n = r@.len();
        assert(start == n * EXPORT_CHUNK_SIZE);
        assert(n < (len + EXPORT_CHUNK_SIZE - 1) / (EXPORT_CHUNK_SIZE as int));
        r.push((start, end));
        assert(r@[n as int] == export_chunk_spec(len as nat)[n as int]);
        start = end;
    }
    assert(r@ =~= export_chunk_spec(len as nat));
    r
}

} // verus!
