//! Properties that relate several operations of the store.
use vstd::prelude::*;

use crate::buffer::read_range;
use crate::store::{
    export_chunk_spec, EXPORT_CHUNK_SIZE, completed, fresh_partial, imported, imported_blob, lookup, promoted, store_invariant,
    StoreView,
};
use crate::table::BlobView;
use crate::tree::{bao_encoding, outboard_len, BLOCK_SIZE_LOG};

verus! {

/// Importing bytes and reading the whole content of the entry back gives
/// the same bytes, and the hash returned is the tree hash of those bytes,
/// which the outboard records as root.
pub proof fn lemma_import_round_trip(before: StoreView, data: Seq<u8>, h: Seq<u8>, after: StoreView)
    requires
        imported(before, data, h, after),
        data.len() <= usize::MAX,
    ensures
        lookup(after, h) == Some(imported_blob(data)),
        read_range(lookup(after, h)->0.data, 0, data.len() as usize) == data,
        h == bao_encoding(data, BLOCK_SIZE_LOG).1,
        lookup(after, h)->0.root == h,
        lookup(after, h)->0.tree.size == data.len(),
{
    if data.len() > 0 {
        assert(data.subrange(0, data.len() as int) =~= data);
    } else {
        assert(data =~= Seq::<u8>::empty());
    }
}

/// Promoting a partial blob is one step: before it a lookup finds the
/// partial blob, after it the complete one, never neither or both; other
/// hashes are not touched, and the invariant holds on both sides.
pub proof fn lemma_promotion_atomic(before: StoreView, h: Seq<u8>, given: BlobView, after: StoreView)
    requires
        store_invariant(before),
        before.partial.contains_key(h),
        completed(before, h, given, after),
    ensures
        lookup(before, h) == Some(before.partial[h]),
        !lookup(before, h)->0.frozen,
        lookup(after, h) == Some(promoted(h, before.partial[h])),
        lookup(after, h)->0.frozen,
        after.complete.contains_key(h) && !after.partial.contains_key(h),
        forall|k: Seq<u8>| k != h ==> #[trigger] lookup(after, k) == lookup(before, k),
        store_invariant(after),
{
    assert(!before.complete.contains_key(h));
    assert forall|k: Seq<u8>| #[trigger] after.complete.contains_key(k) implies after.complete[k].hash
        == k && after.complete[k].root == k && after.complete[k].frozen by {
        if k != h {
            assert(before.complete.contains_key(k));
        }
    }
    assert forall|k: Seq<u8>| #[trigger] after.partial.contains_key(k) implies after.partial[k].hash
        == k && after.partial[k].root == k && !after.partial[k].frozen by {
        assert(before.partial.contains_key(k));
    }
    assert forall|k: Seq<u8>|
        !(#[trigger] after.complete.contains_key(k) && #[trigger] after.partial.contains_key(k)) by {
        if after.partial.contains_key(k) && k != h {
            assert(before.partial.contains_key(k));
            assert(!before.complete.contains_key(k));
        }
    }
}

/// The outboard size is a function of the content length alone, and a
/// fresh partial blob gets exactly that many outboard bytes, and `size`
/// content bytes.
pub proof fn lemma_partial_sizing(h: Seq<u8>, size: u64, first: nat, second: nat, before: StoreView, after: StoreView)
    requires
        first == outboard_len(size, BLOCK_SIZE_LOG),
        second == outboard_len(size, BLOCK_SIZE_LOG),
        after.partial == before.partial.insert(h, fresh_partial(h, size)),
    ensures
        first == second,
        after.partial[h].outboard.len() == first,
        after.partial[h].data.len() == size,
{
}

/// A list of the complete hashes taken before an import does not hold the
/// hash of newly imported content.
pub proof fn lemma_snapshot_stable(before: StoreView, snapshot: Seq<Seq<u8>>, data: Seq<u8>, h: Seq<u8>, after: StoreView)
    requires
        forall|i: int| 0 <= i < snapshot.len() ==> before.complete.contains_key(#[trigger] snapshot[i]),
        !before.complete.contains_key(h),
        imported(before, data, h, after),
    ensures
        !snapshot.contains(h),
        after.complete.contains_key(h),
{
}

/// A complete blob is frozen: what a lookup finds for it has immutable
/// buffers, so writes through its handles are refused.
pub proof fn lemma_complete_frozen(v: StoreView, h: Seq<u8>)
    requires
        store_invariant(v),
        v.complete.contains_key(h),
    ensures
        lookup(v, h) is Some,
        lookup(v, h)->0.frozen,
{
}

/// The chunks an export writes tile the content: the first starts at 0,
/// each starts where the one before ended, none is empty, and the last
/// ends at the content's length.
pub proof fn lemma_export_chunks_tile(len: nat)
    requires
        len <= usize::MAX,
    ensures
        len == 0 ==> export_chunk_spec(len).len() == 0,
        len > 0 ==> export_chunk_spec(len).len() > 0 && export_chunk_spec(len)[0].0 == 0
            && export_chunk_spec(len).last().1 == len,
        forall|i: int|
            0 < i < export_chunk_spec(len).len() ==> (#[trigger] export_chunk_spec(len)[i]).0
                == export_chunk_spec(len)[i - 1].1,
        forall|i: int|
            0 <= i < export_chunk_spec(len).len() ==> (#[trigger] export_chunk_spec(len)[i]).0
                < export_chunk_spec(len)[i].1,
{
    let c = EXPORT_CHUNK_SIZE as int;
    let n = (len + c - 1) / c;
    assert(n * c <= len + c - 1 && len + c - 1 < n * c + c) by (nonlinear_arith)
        requires
            n == (len + c - 1) / c,
            c == 1048576,
            len >= 0,
    ;
    assert forall|i: int|
        0 < i < export_chunk_spec(len).len() implies (#[trigger] export_chunk_spec(len)[i]).0
        == export_chunk_spec(len)[i - 1].1 by {
        assert(i * c < len) by (nonlinear_arith)
            requires
                0 <= i < n,
                n * c <= len + c - 1,
                c == 1048576,
        ;
        assert((i - 1 + 1) * c == i * c);
    }
    assert forall|i: int|
        0 <= i < export_chunk_spec(len).len() implies (#[trigger] export_chunk_spec(len)[i]).0
        < export_chunk_spec(len)[i].1 by {
        assert(i * c < len) by (nonlinear_arith)
            requires
                0 <= i < n,
                n * c <= len + c - 1,
                c == 1048576,
        ;
        assert((i + 1) * c == i * c + c);
    }
    if len > 0 {
        assert(n >= 1);
        assert((n - 1 + 1) * c >= len);
    }
}

} // verus!
