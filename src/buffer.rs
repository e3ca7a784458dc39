use vstd::prelude::*;

use crate::error::StoreError;

verus! {

#[verifier::external_type_specification]
#[verifier::external_body]
pub struct ExBytes(bytes::Bytes);

/// The bytes that a shared immutable buffer holds.
pub uninterp spec fn bytes_view(b: bytes::Bytes) -> Seq<u8>;

/// Relies on `From<Vec<u8>> for Bytes`: the buffer takes over the vector's bytes.
#[verifier::external_body]
pub(crate) fn bytes_from_vec(v: Vec<u8>) -> (r: bytes::Bytes)
    ensures
        bytes_view(r) == v@,
{
    bytes::Bytes::from(v)
}

/// Relies on `Bytes::len`: the number of bytes held.
#[verifier::external_body]
pub(crate) fn bytes_len(b: &bytes::Bytes) -> (r: usize)
    ensures
        r == bytes_view(*b).len(),
{
    b.len()
}

/// Relies on `Bytes::clone`: a new handle on the same bytes.
#[verifier::external_body]
pub(crate) fn bytes_clone(b: &bytes::Bytes) -> (r: bytes::Bytes)
    ensures
        bytes_view(r) == bytes_view(*b),
{
    b.clone()
}

/// Relies on `Bytes::slice`: a handle on `start..end`, which it requires to
/// lie within the buffer (it panics otherwise).
#[verifier::external_body]
pub(crate) fn bytes_slice(b: &bytes::Bytes, start: usize, end: usize) -> (r: bytes::Bytes)
    requires
        start <= end <= bytes_view(*b).len(),
    ensures
        bytes_view(r) == bytes_view(*b).subrange(start as int, end as int),
{
    b.slice(start..end)
}

/// Relies on `<[u8]>::to_vec`, reached through `Bytes`' deref: a copy of the bytes.
#[verifier::external_body]
pub(crate) fn bytes_to_vec(b: &bytes::Bytes) -> (r: Vec<u8>)
    ensures
        r@ == bytes_view(*b),
{
    b.to_vec()
}

/// The bytes that a read of `len` bytes at `offset` returns: the part of the
/// request that lies within the content, empty when `offset` is past its end.
pub open spec fn read_range(content: Seq<u8>, offset: u64, len: usize) -> Seq<u8> {
    if offset < content.len() {
        let end = if offset + len < content.len() {
            offset + len
        } else {
            content.len() as int
        };
        content.subrange(offset as int, end)
    } else {
        Seq::empty()
    }
}

/// The content after writing `data` at `start`: the buffer grows, filled
/// with zeros, where the write reaches past its end.
pub open spec fn written(content: Seq<u8>, start: int, data: Seq<u8>) -> Seq<u8> {
    if data.len() == 0 {
        content
    } else {
        let n = if start + data.len() > content.len() {
            start + data.len()
        } else {
            content.len() as int
        };
        Seq::new(
            n as nat,
            |i: int|
                if start <= i < start + data.len() {
                    data[i - start]
                } else if i < content.len() {
                    content[i]
                } else {
                    0u8
                },
        )
    }
}

/// The content after resizing to `len`: cut, or grown with zeros.
pub open spec fn resized(content: Seq<u8>, len: nat) -> Seq<u8> {
    Seq::new(len, |i: int| if i < content.len() { content[i] } else { 0u8 })
}

/// Whether a write of `len` bytes at `offset` has addresses that fit in `usize`.
pub open spec fn write_fits(offset: u64, len: nat) -> bool {
    offset + len <= usize::MAX
}

/// Copies `content[start..end]` into a new vector.
fn copy_range(content: &Vec<u8>, start: usize, end: usize) -> (r: Vec<u8>)
    requires
        start <= end <= content@.len(),
    ensures
        r@ == content@.subrange(start as int, end as int),
{
    let mut r: Vec<u8> = Vec::with_capacity(end - start);
    let mut i: usize = start;
    while i < end
        invariant
            start <= i <= end <= content@.len(),
            r@ == content@.subrange(start as int, i as int),
        decreases end - i,
    {
        r.push(content[i]);
        i = i + 1;
    }
    r
}

/// The clamped bounds of a read of `len` bytes at `offset`.
fn limited_range(offset: u64, len: usize, buf_len: usize) -> (r: (usize, usize))
    ensures
        r.0 <= r.1 <= buf_len,
        offset < buf_len ==> r.0 == offset,
        offset < buf_len ==> r.1 == (if offset + len < buf_len {
            offset + len
        } else {
            buf_len as int
        }),
        offset >= buf_len ==> r.0 == 0 && r.1 == 0,
{
    if offset < buf_len as u64 {
        let start = offset as usize;
        let end = if len < buf_len - start {
            start + len
        } else {
            buf_len
        };
        (start, end)
    } else {
        (0, 0)
    }
}

/// A resizable buffer with one owner, used for the blobs still being written.
#[derive(Debug, Default)]
pub struct MutableMemFile {
    data: Vec<u8>,
}

impl View for MutableMemFile {
    type V = Seq<u8>;

    closed spec fn view(&self) -> Seq<u8> {
        self.data@
    }
}

impl MutableMemFile {
    /// An empty buffer with room for `capacity` bytes.
    pub fn with_capacity(capacity: usize) -> (r: MutableMemFile)
        ensures
            r@ == Seq::<u8>::empty(),
    {
        MutableMemFile { data: Vec::with_capacity(capacity) }
    }

    /// A buffer of `len` zero bytes.
    pub fn zeroed(len: usize) -> (r: MutableMemFile)
        ensures
            r@ == Seq::new(len as nat, |i: int| 0u8),
    {
        let mut data: Vec<u8> = Vec::with_capacity(len);
        let mut i: usize = 0;
        while i < len
            invariant
                i <= len,
                data@ == Seq::new(i as nat, |j: int| 0u8),
            decreases len - i,
        {
            data.push(0u8);
            i = i + 1;
            assert(data@ =~= Seq::new(i as nat, |j: int| 0u8));
        }
        MutableMemFile { data }
    }

    /// An independent copy of the buffer.
    pub fn duplicate(&self) -> (r: MutableMemFile)
        ensures
            r@ == self@,
    {
        let data = copy_range(&self.data, 0, self.data.len());
        assert(self.data@.subrange(0, self.data@.len() as int) =~= self.data@);
        MutableMemFile { data }
    }

    /// Turns the buffer into shared immutable bytes with the same content.
    pub fn freeze(self) -> (r: bytes::Bytes)
        ensures
            bytes_view(r) == self@,
    {
        bytes_from_vec(self.data)
    }

    /// Reads up to `len` bytes at `offset`; the read stops at the end of the content.
    pub fn read_at(&self, offset: u64, len: usize) -> (r: bytes::Bytes)
        ensures
            bytes_view(r) == read_range(self@, offset, len),
    {
        let (start, end) = limited_range(offset, len, self.data.len());
        let part = copy_range(&self.data, start, end);
        proof {
            if offset >= self@.len() {
                assert(self@.subrange(0, 0) =~= Seq::<u8>::empty());
            }
        }
        bytes_from_vec(part)
    }

    /// The current length of the content.
    pub fn len(&self) -> (r: u64)
        ensures
            r == self@.len(),
    {
        self.data.len() as u64
    }

    /// Writes `data` at `offset`, growing the buffer with zeros where needed.
    /// Fails with `InvalidInput`, leaving the content as it was, where the
    /// written range does not fit in `usize`.
    pub fn write_at(&mut self, offset: u64, data: &[u8]) -> (r: Result<(), StoreError>)
        ensures
            write_fits(offset, data@.len()) ==> r is Ok && final(self)@ == written(
                old(self)@,
                offset as int,
                data@,
            ),
            !write_fits(offset, data@.len()) ==> r == Err::<(), StoreError>(
                StoreError::InvalidInput,
            ) && final(self)@ == old(self)@,
    {
        if offset > usize::MAX as u64 {
            return Err(StoreError::InvalidInput);
        }
        let start = offset as usize;
        if data.len() > usize::MAX - start {
            return Err(StoreError::InvalidInput);
        }
        if data.len() == 0 {
            return Ok(());
        }
        let end = start + data.len();
        let old_len = self.data.len();
        let n = if end > old_len {
            end
        } else {
            old_len
        };
        let ghost want = written(self.data@, start as int, data@);
        let mut out: Vec<u8> = Vec::with_capacity(n);
        let mut i: usize = 0;
        while i < n
            invariant
                i <= n,
                n == want.len(),
                old_len == self.data@.len(),
                end == start + data@.len(),
                want == written(self.data@, start as int, data@),
                data@.len() > 0,
                out@ == want.subrange(0, i as int),
            decreases n - i,
        {
            let b = if start <= i && i < end {
                data[i - start]
            } else if i < old_len {
                self.data[i]
            } else {
                0u8
            };
            out.push(b);
            i = i + 1;
            assert(out@ =~= want.subrange(0, i as int));
        }
        assert(out@ =~= want);
        self.data = out;
        Ok(())
    }

    /// Writes the bytes of `data` at `offset`, as `write_at` does.
    pub fn write_bytes_at(&mut self, offset: u64, data: &bytes::Bytes) -> (r: Result<(), StoreError>)
        ensures
            write_fits(offset, bytes_view(*data).len()) ==> r is Ok && final(self)@ == written(
                old(self)@,
                offset as int,
                bytes_view(*data),
            ),
            !write_fits(offset, bytes_view(*data).len()) ==> r == Err::<(), StoreError>(
                StoreError::InvalidInput,
            ) && final(self)@ == old(self)@,
    {
        let v = bytes_to_vec(data);
        self.write_at(offset, v.as_slice())
    }

    /// Resizes the content to `len` bytes (capped at `usize::MAX`), cutting
    /// it or filling it with zeros.
    pub fn set_len(&mut self, len: u64) -> (r: Result<(), StoreError>)
        ensures
            r is Ok,
            final(self)@ == resized(
                old(self)@,
                if len <= usize::MAX {
                    len as nat
                } else {
                    usize::MAX as nat
                },
            ),
    {
        let target: usize = if len <= usize::MAX as u64 {
            len as usize
        } else {
            usize::MAX
        };
        let ghost before = self.data@;
        if target <= self.data.len() {
            self.data.truncate(target);
            assert(self.data@ =~= resized(before, target as nat));
        } else {
            while self.data.len() < target
                invariant
                    before.len() <= self.data@.len() <= target,
                    self.data@ == resized(before, self.data@.len()),
                decreases target - self.data@.len(),
            {
                self.data.push(0u8);
                assert(self.data@ =~= resized(before, self.data@.len()));
            }
        }
        Ok(())
    }

    /// Nothing to flush for memory.
    pub fn sync(&self) -> (r: Result<(), StoreError>)
        ensures
            r is Ok,
    {
        Ok(())
    }
}

/// A buffer that is either shared and read-only, or owned and writable.
#[derive(Debug)]
pub enum MemFile {
    /// Immutable data, used for complete blobs.
    Immutable(bytes::Bytes),
    /// Mutable data, used for partial blobs.
    Mutable(MutableMemFile),
}

impl View for MemFile {
    type V = Seq<u8>;

    open spec fn view(&self) -> Seq<u8> {
        match self {
            MemFile::Immutable(b) => bytes_view(*b),
            MemFile::Mutable(m) => m@,
        }
    }
}

impl MemFile {
    /// Whether the buffer is the read-only variant.
    pub open spec fn is_immutable(&self) -> bool {
        self is Immutable
    }

    /// Whether the buffer is the read-only variant.
    pub fn is_immutable_exec(&self) -> (r: bool)
        ensures
            r == self.is_immutable(),
    {
        match self {
            MemFile::Immutable(_) => true,
            MemFile::Mutable(_) => false,
        }
    }

    /// The content as shared immutable bytes.
    pub fn to_bytes(&self) -> (r: bytes::Bytes)
        ensures
            bytes_view(r) == self@,
    {
        match self {
            MemFile::Immutable(b) => bytes_clone(b),
            MemFile::Mutable(m) => m.duplicate().freeze(),
        }
    }

    /// Another handle with the same content and variant.
    pub fn duplicate(&self) -> (r: MemFile)
        ensures
            r@ == self@,
            r.is_immutable() == self.is_immutable(),
    {
        match self {
            MemFile::Immutable(b) => MemFile::Immutable(bytes_clone(b)),
            MemFile::Mutable(m) => MemFile::Mutable(m.duplicate()),
        }
    }

    /// Reads up to `len` bytes at `offset`; the read stops at the end of the content.
    pub fn read_at(&self, offset: u64, len: usize) -> (r: bytes::Bytes)
        ensures
            bytes_view(r) == read_range(self@, offset, len),
    {
        match self {
            MemFile::Immutable(b) => {
                let (start, end) = limited_range(offset, len, bytes_len(b));
                proof {
                    if offset >= self@.len() {
                        assert(self@.subrange(0, 0) =~= Seq::<u8>::empty());
                    }
                }
                bytes_slice(b, start, end)
            },
            MemFile::Mutable(m) => m.read_at(offset, len),
        }
    }

    /// The current length of the content.
    pub fn len(&self) -> (r: u64)
        ensures
            r == self@.len(),
    {
        match self {
            MemFile::Immutable(b) => bytes_len(b) as u64,
            MemFile::Mutable(m) => m.len(),
        }
    }

    /// Writes `data` at `offset`. Immutable data refuses with
    /// `ReadOnlyViolation` and stays as it was.
    pub fn write_at(&mut self, offset: u64, data: &[u8]) -> (r: Result<(), StoreError>)
        ensures
            old(self).is_immutable() ==> r == Err::<(), StoreError>(
                StoreError::ReadOnlyViolation,
            ) && *final(self) == *old(self),
            !old(self).is_immutable() && write_fits(offset, data@.len()) ==> r is Ok
                && final(self)@ == written(old(self)@, offset as int, data@),
            !old(self).is_immutable() && !write_fits(offset, data@.len()) ==> r == Err::<
                (),
                StoreError,
            >(StoreError::InvalidInput) && final(self)@ == old(self)@,
            final(self).is_immutable() == old(self).is_immutable(),
    {
        match self {
            MemFile::Immutable(_) => Err(StoreError::ReadOnlyViolation),
            MemFile::Mutable(inner) => inner.write_at(offset, data),
        }
    }

    /// Writes the bytes of `data` at `offset`, as `write_at` does.
    pub fn write_bytes_at(&mut self, offset: u64, data: &bytes::Bytes) -> (r: Result<
        (),
        StoreError,
    >)
        ensures
            old(self).is_immutable() ==> r == Err::<(), StoreError>(
                StoreError::ReadOnlyViolation,
            ) && *final(self) == *old(self),
            !old(self).is_immutable() && write_fits(offset, bytes_view(*data).len()) ==> r is Ok
                && final(self)@ == written(old(self)@, offset as int, bytes_view(*data)),
            !old(self).is_immutable() && !write_fits(offset, bytes_view(*data).len()) ==> r
                == Err::<(), StoreError>(StoreError::InvalidInput) && final(self)@ == old(self)@,
            final(self).is_immutable() == old(self).is_immutable(),
    {
        match self {
            MemFile::Immutable(_) => Err(StoreError::ReadOnlyViolation),
            MemFile::Mutable(inner) => inner.write_bytes_at(offset, data),
        }
    }

    /// Resizes the content to `len` bytes. Immutable data refuses with
    /// `ReadOnlyViolation` and stays as it was.
    pub fn set_len(&mut self, len: u64) -> (r: Result<(), StoreError>)
        ensures
            old(self).is_immutable() ==> r == Err::<(), StoreError>(
                StoreError::ReadOnlyViolation,
            ) && *final(self) == *old(self),
            !old(self).is_immutable() ==> r is Ok && final(self)@ == resized(
                old(self)@,
                if len <= usize::MAX {
                    len as nat
                } else {
                    usize::MAX as nat
                },
            ),
            final(self).is_immutable() == old(self).is_immutable(),
    {
        match self {
            MemFile::Immutable(_) => Err(StoreError::ReadOnlyViolation),
            MemFile::Mutable(inner) => inner.set_len(len),
        }
    }

    /// Nothing to flush for memory.
    pub fn sync(&self) -> (r: Result<(), StoreError>)
        ensures
            r is Ok,
    {
        Ok(())
    }
}

} // verus!
