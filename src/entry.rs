use vstd::prelude::*;

use crate::buffer::{MemFile, MutableMemFile};
use crate::table::{BlobView, Slot};
use crate::tree::{BaoTree, FileOutboard, MutableOutboard, PreOrderOutboard};

verus! {

/// A copy of an outboard's metadata with another handle on its buffer.
fn duplicate_file_outboard(o: &FileOutboard) -> (r: FileOutboard)
    ensures
        r.root@ == o.root@,
        r.tree == o.tree,
        r.data@ == o.data@,
        r.data.is_immutable() == o.data.is_immutable(),
{
    PreOrderOutboard { root: o.root, tree: o.tree, data: o.data.duplicate() }
}

/// A copy of a mutable outboard.
fn duplicate_mutable_outboard(o: &MutableOutboard) -> (r: MutableOutboard)
    ensures
        r.root@ == o.root@,
        r.tree == o.tree,
        r.data@ == o.data@,
{
    PreOrderOutboard { root: o.root, tree: o.tree, data: o.data.duplicate() }
}

/// A blob as readers see it, complete or partial.
#[derive(Debug)]
pub struct Entry {
    hash: crate::hash::Hash,
    outboard: FileOutboard,
    data: MemFile,
}

impl Slot for Entry {
    closed spec fn blob(&self) -> BlobView {
        BlobView {
            hash: self.hash@,
            root: self.outboard.root@,
            tree: self.outboard.tree,
            outboard: self.outboard.data@,
            data: self.data@,
            frozen: self.data.is_immutable() && self.outboard.data.is_immutable(),
        }
    }

    fn key(&self) -> (r: &crate::hash::Hash) {
        &self.hash
    }
}

impl Entry {
    /// The entry of a complete blob, over immutable buffers.
    pub(crate) fn complete(hash: crate::hash::Hash, tree: BaoTree, outboard: bytes::Bytes, data: bytes::Bytes) -> (r: Entry)
        ensures
            r.blob() == (BlobView {
                hash: hash@,
                root: hash@,
                tree,
                outboard: crate::buffer::bytes_view(outboard),
                data: crate::buffer::bytes_view(data),
                frozen: true,
            }),
    {
        Entry {
            hash,
            outboard: PreOrderOutboard { root: hash, tree, data: MemFile::Immutable(outboard) },
            data: MemFile::Immutable(data),
        }
    }

    /// A further handle on the same blob.
    pub fn duplicate(&self) -> (r: Entry)
        ensures
            r.blob() == self.blob(),
    {
        Entry {
            hash: self.hash,
            outboard: duplicate_file_outboard(&self.outboard),
            data: self.data.duplicate(),
        }
    }

    /// The hash of the blob.
    pub fn hash(&self) -> (r: crate::hash::Hash)
        ensures
            r@ == self.blob().hash,
    {
        self.hash
    }

    /// The content length, as the tree metadata records it.
    pub fn size(&self) -> (r: u64)
        ensures
            r == self.blob().tree.size,
    {
        self.outboard.tree.size()
    }

    /// A handle on the outboard.
    pub fn outboard(&self) -> (r: FileOutboard)
        ensures
            r.root@ == self.blob().root,
            r.tree == self.blob().tree,
            r.data@ == self.blob().outboard,
            self.blob().frozen ==> r.data.is_immutable(),
    {
        duplicate_file_outboard(&self.outboard)
    }

    /// A handle for reading the content.
    pub fn data_reader(&self) -> (r: MemFile)
        ensures
            r@ == self.blob().data,
            self.blob().frozen ==> r.is_immutable(),
    {
        self.data.duplicate()
    }

    /// The byte ranges of the content that are verified and can be served:
    /// all of it for a complete blob, none for a partial one.
    pub fn available_ranges(&self) -> (r: Vec<(u64, u64)>)
        ensures
            r@ == available_spec(self.blob()),
    {
        if self.data.is_immutable_exec() && self.outboard.data.is_immutable_exec() {
            let size = self.outboard.tree.size();
            if size > 0 {
                return vec![(0, size)];
            }
        }
        Vec::new()
    }
}

/// The verified byte ranges of a blob: the whole content once it is frozen.
pub open spec fn available_spec(b: BlobView) -> Seq<(u64, u64)> {
    if b.frozen && b.tree.size > 0 {
        seq![(0u64, b.tree.size)]
    } else {
        Seq::empty()
    }
}

/// A blob still being written.
#[derive(Debug)]
pub struct PartialEntry {
    hash: crate::hash::Hash,
    outboard: MutableOutboard,
    data: MutableMemFile,
}

impl Slot for PartialEntry {
    closed spec fn blob(&self) -> BlobView {
        BlobView {
            hash: self.hash@,
            root: self.outboard.root@,
            tree: self.outboard.tree,
            outboard: self.outboard.data@,
            data: self.data@,
            frozen: false,
        }
    }

    fn key(&self) -> (r: &crate::hash::Hash) {
        &self.hash
    }
}

impl PartialEntry {
    /// A partial entry rooted at `hash` over the given buffers.
    pub(crate) fn assemble(hash: crate::hash::Hash, tree: BaoTree, outboard: MutableMemFile, data: MutableMemFile) -> (r: PartialEntry)
        ensures
            r.blob() == (BlobView {
                hash: hash@,
                root: hash@,
                tree,
                outboard: outboard@,
                data: data@,
                frozen: false,
            }),
    {
        PartialEntry { hash, outboard: PreOrderOutboard { root: hash, tree, data: outboard }, data }
    }

    /// A copy of the entry, buffers included.
    pub fn duplicate(&self) -> (r: PartialEntry)
        ensures
            r.blob() == self.blob(),
    {
        PartialEntry {
            hash: self.hash,
            outboard: duplicate_mutable_outboard(&self.outboard),
            data: self.data.duplicate(),
        }
    }

    /// The entry seen through the reader interface.
    pub fn to_entry(&self) -> (r: Entry)
        ensures
            r.blob() == self.blob(),
    {
        let o = duplicate_mutable_outboard(&self.outboard);
        Entry {
            hash: self.hash,
            outboard: PreOrderOutboard { root: o.root, tree: o.tree, data: MemFile::Mutable(o.data) },
            data: MemFile::Mutable(self.data.duplicate()),
        }
    }

    /// Splits the entry into its hash, tree, outboard buffer and content buffer.
    pub(crate) fn into_parts(self) -> (r: (crate::hash::Hash, BaoTree, MutableMemFile, MutableMemFile))
        ensures
            r.0@ == self.blob().hash,
            r.1 == self.blob().tree,
            r.2@ == self.blob().outboard,
            r.3@ == self.blob().data,
    {
        (self.hash, self.outboard.tree, self.outboard.data, self.data)
    }

    /// Writes `data` into the content buffer at `offset`.
    pub(crate) fn write_data_at(&mut self, offset: u64, data: &[u8]) -> (r: Result<(), crate::error::StoreError>)
        ensures
            crate::buffer::write_fits(offset, data@.len()) ==> r is Ok && final(self).blob() == (BlobView {
                data: crate::buffer::written(old(self).blob().data, offset as int, data@),
                ..old(self).blob()
            }),
            !crate::buffer::write_fits(offset, data@.len()) ==> r == Err::<(), crate::error::StoreError>(
                crate::error::StoreError::InvalidInput,
            ) && final(self).blob() == old(self).blob(),
    {
        self.data.write_at(offset, data)
    }

    /// Writes `data` into the outboard buffer at `offset`.
    pub(crate) fn write_outboard_at(&mut self, offset: u64, data: &[u8]) -> (r: Result<(), crate::error::StoreError>)
        ensures
            crate::buffer::write_fits(offset, data@.len()) ==> r is Ok && final(self).blob() == (BlobView {
                outboard: crate::buffer::written(old(self).blob().outboard, offset as int, data@),
                ..old(self).blob()
            }),
            !crate::buffer::write_fits(offset, data@.len()) ==> r == Err::<(), crate::error::StoreError>(
                crate::error::StoreError::InvalidInput,
            ) && final(self).blob() == old(self).blob(),
    {
        self.outboard.data.write_at(offset, data)
    }

    /// The hash of the blob.
    pub fn hash(&self) -> (r: crate::hash::Hash)
        ensures
            r@ == self.blob().hash,
    {
        self.hash
    }

    /// The final content length, as the tree metadata records it.
    pub fn size(&self) -> (r: u64)
        ensures
            r == self.blob().tree.size,
    {
        self.outboard.tree.size()
    }

    /// A read handle on a copy of the outboard.
    pub fn outboard(&self) -> (r: FileOutboard)
        ensures
            r.root@ == self.blob().root,
            r.tree == self.blob().tree,
            r.data@ == self.blob().outboard,
            !r.data.is_immutable(),
    {
        let o = duplicate_mutable_outboard(&self.outboard);
        PreOrderOutboard { root: o.root, tree: o.tree, data: MemFile::Mutable(o.data) }
    }

    /// A read handle on a copy of the content.
    pub fn data_reader(&self) -> (r: MemFile)
        ensures
            r@ == self.blob().data,
            !r.is_immutable(),
    {
        MemFile::Mutable(self.data.duplicate())
    }

    /// A writable copy of the outboard.
    pub fn outboard_mut(&self) -> (r: MutableOutboard)
        ensures
            r.root@ == self.blob().root,
            r.tree == self.blob().tree,
            r.data@ == self.blob().outboard,
    {
        duplicate_mutable_outboard(&self.outboard)
    }

    /// A writable copy of the content.
    pub fn data_writer(&self) -> (r: MutableMemFile)
        ensures
            r@ == self.blob().data,
    {
        self.data.duplicate()
    }

    /// The verified byte ranges: none, as nothing of a partial blob has been
    /// checked against its outboard yet.
    pub fn available_ranges(&self) -> (r: Vec<(u64, u64)>)
        ensures
            r@ == available_spec(self.blob()),
    {
        Vec::new()
    }
}

} // verus!
