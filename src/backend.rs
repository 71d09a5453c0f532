//! The capability that both frontends speak: a fixed size, random-access reads
//! and random-access writes.

use std::sync::Arc;
use vstd::prelude::*;

verus! {

/// A fault reported by the storage medium behind a backend.
#[derive(Debug, Clone, Copy, PartialEq, Eq, Structural)]
pub enum BackendError {
    Io,
}

/// Fixed-size byte storage shared by every connection and every queue.
///
/// Keeping `offset + len <= size` is the caller's duty: implementations may
/// assume that every access lies inside `[0, size)`.
pub trait BlockBackend {
    /// The total byte length, fixed for the lifetime of the backend. An
    /// implementation outside verified code returns its size here too.
    spec fn capacity(&self) -> u64;

    /// `data` is what a successful read of `data.len()` bytes at `offset`
    /// hands back. A verified implementation states here what its medium
    /// holds; to generic callers it is opaque, so they learn it only from a
    /// read that succeeded.
    open spec fn read_ok(&self, offset: u64, data: Seq<u8>) -> bool {
        true
    }

    /// `data` was stored at `offset` by a successful write. As with
    /// `read_ok`, generic callers learn it only from a write that succeeded.
    open spec fn write_ok(&self, offset: u64, data: Seq<u8>) -> bool {
        true
    }

    fn size(&self) -> (r: u64)
        ensures
            r == self.capacity(),
    ;

    fn read_at(&self, offset: u64, dst: &mut [u8]) -> (r: Result<(), BackendError>)
        requires
            offset + old(dst)@.len() <= self.capacity(),
        ensures
            final(dst)@.len() == old(dst)@.len(),
            r is Ok ==> self.read_ok(offset, final(dst)@),
    ;

    fn write_at(&self, offset: u64, src: &[u8]) -> (r: Result<(), BackendError>)
        requires
            offset + src@.len() <= self.capacity(),
        ensures
            r is Ok ==> self.write_ok(offset, src@),
    ;
}

/// A shared handle forwards every operation to the backend it points to.
impl<T: BlockBackend> BlockBackend for Arc<T> {
    open spec fn capacity(&self) -> u64 {
        (**self).capacity()
    }

    open spec fn read_ok(&self, offset: u64, data: Seq<u8>) -> bool {
        (**self).read_ok(offset, data)
    }

    open spec fn write_ok(&self, offset: u64, data: Seq<u8>) -> bool {
        (**self).write_ok(offset, data)
    }

    fn size(&self) -> (r: u64) {
        (**self).size()
    }

    fn read_at(&self, offset: u64, dst: &mut [u8]) -> (r: Result<(), BackendError>) {
        (**self).read_at(offset, dst)
    }

    fn write_at(&self, offset: u64, src: &[u8]) -> (r: Result<(), BackendError>) {
        (**self).write_at(offset, src)
    }
}

/// Reads `n` bytes at `offset` into the front of `buf`, leaving the rest of
/// `buf` as it was. On success the front of `buf` is what the backend read
/// there.
pub fn read_prefix<B: BlockBackend>(backend: &B, offset: u64, buf: &mut [u8], n: usize) -> (r:
    Result<(), BackendError>)
    requires
        n <= old(buf)@.len(),
        offset + n <= backend.capacity(),
    ensures
        final(buf)@.len() == old(buf)@.len(),
        final(buf)@.subrange(n as int, final(buf)@.len() as int) == old(buf)@.subrange(
            n as int,
            old(buf)@.len() as int,
        ),
        r is Ok ==> backend.read_ok(offset, final(buf)@.take(n as int)),
{
    if n == buf.len() {
        let ghost before = buf@;
        let r = backend.read_at(offset, buf);
        assert(buf@.take(n as int) =~= buf@);
        assert(buf@.subrange(n as int, buf@.len() as int) =~= before.subrange(
            n as int,
            before.len() as int,
        ));
        return r;
    }
    let mut tmp: Vec<u8> = vec![0u8; n];
    let r = backend.read_at(offset, tmp.as_mut_slice());
    if r.is_ok() {
        let ghost before = buf@;
        let mut i: usize = 0;
        while i < n
            invariant
                i <= n,
                n <= buf@.len(),
                tmp@.len() == n,
                buf@.len() == before.len(),
                forall|j: int| i <= j < buf@.len() ==> buf@[j] == before[j],
                forall|j: int| 0 <= j < i ==> buf@[j] == tmp@[j],
            decreases n - i,
        {
            buf[i] = tmp[i];
            i = i + 1;
        }
        assert(buf@.subrange(n as int, buf@.len() as int) =~= before.subrange(
            n as int,
            before.len() as int,
        ));
        assert(buf@.take(n as int) =~= tmp@);
    }
    r
}

/// Writes the first `n` bytes of `buf` to the backend at `offset`, and
/// nothing else.
pub fn write_prefix<B: BlockBackend>(backend: &B, offset: u64, buf: &[u8], n: usize) -> (r: Result<
    (),
    BackendError,
>)
    requires
        n <= buf@.len(),
        offset + n <= backend.capacity(),
    ensures
        r is Ok ==> backend.write_ok(offset, buf@.take(n as int)),
{
    let part = vstd::slice::slice_subrange(buf, 0, n);
    backend.write_at(offset, part)
}

} // verus!
