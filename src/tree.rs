use vstd::prelude::*;

use crate::buffer::{bytes_view, MemFile, MutableMemFile};


verus! {

/// Log2 of the block size in units of 1024-byte chunks: blocks of 16 KiB.
pub const BLOCK_SIZE_LOG: u8 = 4;

/// The number of bytes in a block for a given log2 of chunks per block.
pub open spec fn block_bytes(block_log: u8) -> nat {
    vstd::arithmetic::power2::pow2((block_log + 10) as nat)
}

/// The number of blocks that content of `size` bytes spans; empty content
/// still has one (empty) block.
pub open spec fn block_count(size: u64, block_log: u8) -> nat {
    let full = (size + block_bytes(block_log) - 1) / (block_bytes(block_log) as int);
    if full == 0 {
        1
    } else {
        full as nat
    }
}

/// The byte length of a pre-order outboard: an 8-byte length prefix, then
/// one pair of 32-byte hashes for each internal node of the tree.
pub open spec fn outboard_len(size: u64, block_log: u8) -> nat {
    ((block_count(size, block_log) - 1) * 64 + 8) as nat
}

/// An outboard is never longer than its content, or than 8 bytes.
pub proof fn lemma_outboard_len_bound(size: u64)
    ensures
        outboard_len(size, BLOCK_SIZE_LOG) <= (if size < 8 {
            8
        } else {
            size as int
        }),
{
    vstd::arithmetic::power2::lemma2_to64();
    assert(block_bytes(BLOCK_SIZE_LOG) == 16384);
    let full = (size + 16383) / 16384;
    assert(full * 16384 <= size + 16383) by (nonlinear_arith)
        requires
            full == (size + 16383) / 16384,
            size >= 0,
    ;
    if full >= 2 {
        assert((full - 1) * 64 + 8 <= size) by (nonlinear_arith)
            requires
                full >= 2,
                full * 16384 <= size + 16383,
        ;
    }
}

/// What `bao_tree::io::outboard` computes for content: the outboard bytes
/// in pre-order layout, and the 32-byte root hash.
pub uninterp spec fn bao_encoding(data: Seq<u8>, block_log: u8) -> (Seq<u8>, Seq<u8>);

/// Relies on `bao_tree::io::outboard_size`, which computes
/// `(max(blocks, 1) - 1) * 64 + 8` from the size alone. Its shifts need a
/// block size under 2^64 bytes.
#[verifier::external_body]
fn bao_outboard_size(size: u64, block_log: u8) -> (r: u64)
    requires
        block_log < 54,
    ensures
        r == outboard_len(size, block_log),
{
    bao_tree::io::outboard_size(size, bao_tree::BlockSize(block_log))
}

/// Relies on `bao_tree::io::outboard`: it hashes the content into a tree and
/// returns the pre-order outboard, length prefix included, with the root hash.
/// The outboard it allocates has `outboard_size` bytes.
#[verifier::external_body]
fn bao_outboard(data: &bytes::Bytes, block_log: u8) -> (r: (Vec<u8>, crate::hash::Hash))
    requires
        block_log < 54,
    ensures
        (r.0@, r.1@) == bao_encoding(bytes_view(*data), block_log),
        r.0@.len() == outboard_len(bytes_view(*data).len() as u64, block_log),
{
    let (outboard, root) = bao_tree::io::outboard(data, bao_tree::BlockSize(block_log));
    (outboard, crate::hash::Hash::from_bytes(*root.as_bytes()))
}

/// The byte length of the outboard for content of `size` bytes, with the
/// store's block size.
pub fn outboard_size(size: u64) -> (r: u64)
    ensures
        r == outboard_len(size, BLOCK_SIZE_LOG),
{
    bao_outboard_size(size, BLOCK_SIZE_LOG)
}

/// The shape of a Merkle tree: the content length and the block size.
#[derive(Clone, Copy, Debug, PartialEq, Eq, Structural)]
pub struct BaoTree {
    pub size: u64,
    pub block_log: u8,
}

impl BaoTree {
    /// The tree over `size` bytes in blocks of `2^block_log` chunks.
    pub fn new(size: u64, block_log: u8) -> (r: BaoTree)
        ensures
            r.size == size,
            r.block_log == block_log,
    {
        BaoTree { size, block_log }
    }

    /// The content length the tree covers.
    pub fn size(&self) -> (r: u64)
        ensures
            r == self.size,
    {
        self.size
    }
}

/// The outboard of a blob: its root hash, its tree shape, and the buffer of
/// internal node hashes in pre-order layout.
#[derive(Debug)]
pub struct PreOrderOutboard<D> {
    pub root: crate::hash::Hash,
    pub tree: BaoTree,
    pub data: D,
}

/// A mutable outboard of a partial blob.
pub type MutableOutboard = PreOrderOutboard<MutableMemFile>;

/// An outboard as readers see it.
pub type FileOutboard = PreOrderOutboard<MemFile>;

/// Hashes `data` and returns its outboard over immutable bytes.
pub fn build_outboard(data: &bytes::Bytes) -> (r: FileOutboard)
    ensures
        r.root@ == bao_encoding(bytes_view(*data), BLOCK_SIZE_LOG).1,
        r.data@ == bao_encoding(bytes_view(*data), BLOCK_SIZE_LOG).0,
        r.data@.len() == outboard_len(r.tree.size, BLOCK_SIZE_LOG),
        r.data.is_immutable(),
        r.tree.size == bytes_view(*data).len(),
        r.tree.block_log == BLOCK_SIZE_LOG,
{
    let (outboard, root) = bao_outboard(data, BLOCK_SIZE_LOG);
    let size = crate::buffer::bytes_len(data) as u64;
    let tree = BaoTree::new(size, BLOCK_SIZE_LOG);
    PreOrderOutboard {
        root,
        tree,
        data: MemFile::Immutable(crate::buffer::bytes_from_vec(outboard)),
    }
}

} // verus!
