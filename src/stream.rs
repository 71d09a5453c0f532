//! A position-tracked byte stream over a backend, for protocols that speak in
//! terms of read, write and seek.

use crate::backend::{read_prefix, write_prefix, BackendError, BlockBackend};
use vstd::prelude::*;

verus! {

/// Where a seek is measured from.
#[derive(Debug, Clone, Copy, PartialEq, Eq, Structural)]
pub enum SeekOrigin {
    Start(u64),
    End(i64),
    Current(i64),
}

/// Why a stream operation failed.
#[derive(Debug, Clone, Copy, PartialEq, Eq, Structural)]
pub enum StreamError {
    /// A write found no room left before the end of the device.
    WritePastEnd,
    /// A relative seek would land before zero or beyond the largest position.
    InvalidSeek,
    /// The backend reported a fault.
    Backend,
}

impl StreamError {
    pub fn message(&self) -> (r: String)
        ensures
            r@ == match self {
                StreamError::WritePastEnd => "write past end of device"@,
                StreamError::InvalidSeek => "invalid seek to a negative or overflowing position"@,
                StreamError::Backend => "backend I/O failed"@,
            },
    {
        match self {
            StreamError::WritePastEnd => "write past end of device".to_string(),
            StreamError::InvalidSeek => {
                "invalid seek to a negative or overflowing position".to_string()
            },
            StreamError::Backend => "backend I/O failed".to_string(),
        }
    }
}

/// Bytes left between `pos` and the end of a device of `size` bytes.
pub open spec fn remaining(size: u64, pos: u64) -> int {
    if pos >= size {
        0
    } else {
        size - pos
    }
}

/// How many bytes one read or write moves for a buffer of `len` bytes.
pub open spec fn transfer_len(size: u64, pos: u64, len: int) -> int {
    if len < remaining(size, pos) {
        len
    } else {
        remaining(size, pos)
    }
}

/// Where a relative seek lands, before any range check.
pub open spec fn seek_target(size: u64, pos: u64, origin: SeekOrigin) -> int {
    match origin {
        SeekOrigin::Start(n) => n as int,
        SeekOrigin::End(k) => size + k,
        SeekOrigin::Current(k) => pos + k,
    }
}

/// Reads that start inside the device never carry the position past its end,
/// and once the position stands at or beyond the end (after reading the whole
/// device, or after an absolute seek past it) a read moves no bytes and a
/// write finds no room.
pub proof fn lemma_end_of_device(size: u64, pos: u64, len: nat)
    ensures
        pos <= size ==> pos + transfer_len(size, pos, len as int) <= size,
        pos <= size && pos + transfer_len(size, pos, len as int) == size ==> remaining(
            size,
            (pos + transfer_len(size, pos, len as int)) as u64,
        ) == 0,
        pos >= size ==> remaining(size, pos) == 0 && transfer_len(size, pos, len as int) == 0,
{
}

/// A backend seen as a stream with a current position.
///
/// The position may stand beyond the end after an absolute seek; reads there
/// return nothing and writes fail.
pub struct VramSeeker<B: BlockBackend> {
    backend: B,
    pos: u64,
    size: u64,
}

impl<B: BlockBackend> VramSeeker<B> {
    pub closed spec fn spec_pos(&self) -> u64 {
        self.pos
    }

    pub closed spec fn spec_size(&self) -> u64 {
        self.size
    }

    pub closed spec fn spec_backend(&self) -> B {
        self.backend
    }

    /// The cached size is the backend's.
    pub closed spec fn wf(&self) -> bool {
        self.size == self.backend.capacity()
    }

    /// A stream at position zero.
    pub fn new(backend: B) -> (r: Self)
        ensures
            r.wf(),
            r.spec_pos() == 0,
            r.spec_size() == backend.capacity(),
            r.spec_backend() == backend,
    {
        let size = backend.size();
        VramSeeker { backend, pos: 0, size }
    }

    pub fn position(&self) -> (r: u64)
        ensures
            r == self.spec_pos(),
    {
        self.pos
    }

    pub fn size(&self) -> (r: u64)
        ensures
            r == self.spec_size(),
    {
        self.size
    }

    /// Reads up to `buf.len()` bytes at the current position.
    ///
    /// At or past the end this returns `Ok(0)`. Otherwise it reads as much as
    /// fits before the end and advances by that much, or leaves the position
    /// alone when the backend faults.
    pub fn read(&mut self, buf: &mut [u8]) -> (r: Result<usize, StreamError>)
        requires
            old(self).wf(),
        ensures
            final(self).wf(),
            final(self).spec_size() == old(self).spec_size(),
            final(self).spec_backend() == old(self).spec_backend(),
            final(buf)@.len() == old(buf)@.len(),
            remaining(old(self).spec_size(), old(self).spec_pos()) == 0 ==> r == Ok::<
                usize,
                StreamError,
            >(0) && final(self).spec_pos() == old(self).spec_pos() && final(buf)@ == old(buf)@,
            match r {
                Ok(n) => n == transfer_len(
                    old(self).spec_size(),
                    old(self).spec_pos(),
                    old(buf)@.len() as int,
                ) && final(self).spec_pos() == old(self).spec_pos() + n && final(buf)@.subrange(
                    n as int,
                    final(buf)@.len() as int,
                ) == old(buf)@.subrange(n as int, old(buf)@.len() as int),
                Err(e) => e == StreamError::Backend && final(self).spec_pos() == old(
                    self,
                ).spec_pos(),
            },
            remaining(old(self).spec_size(), old(self).spec_pos()) > 0 ==> (r matches Ok(n)
                ==> old(self).spec_backend().read_ok(
                old(self).spec_pos(),
                final(buf)@.take(n as int),
            )),
    {
        let remaining: u64 = if self.pos >= self.size {
            0
        } else {
            self.size - self.pos
        };
        if remaining == 0 {
            return Ok(0);
        }
        let n: usize = if (buf.len() as u64) < remaining {
            buf.len()
        } else {
            remaining as usize
        };
        match read_prefix(&self.backend, self.pos, buf, n) {
            Ok(()) => {
                self.pos = self.pos + n as u64;
                Ok(n)
            },
            Err(_) => Err(StreamError::Backend),
        }
    }

    /// Writes up to `buf.len()` bytes at the current position.
    ///
    /// At or past the end this fails with `WritePastEnd`, whatever `buf`
    /// holds. Otherwise it writes as much as fits before the end and advances
    /// by that much, or leaves the position alone when the backend faults.
    pub fn write(&mut self, buf: &[u8]) -> (r: Result<usize, StreamError>)
        requires
            old(self).wf(),
        ensures
            final(self).wf(),
            final(self).spec_size() == old(self).spec_size(),
            final(self).spec_backend() == old(self).spec_backend(),
            remaining(old(self).spec_size(), old(self).spec_pos()) == 0 ==> r == Err::<
                usize,
                StreamError,
            >(StreamError::WritePastEnd),
            remaining(old(self).spec_size(), old(self).spec_pos()) > 0 && buf@.len() == 0 ==> r
                == Ok::<usize, StreamError>(0),
            match r {
                Ok(n) => n == transfer_len(
                    old(self).spec_size(),
                    old(self).spec_pos(),
                    buf@.len() as int,
                ) && final(self).spec_pos() == old(self).spec_pos() + n,
                Err(e) => (e == StreamError::Backend || e == StreamError::WritePastEnd)
                    && final(self).spec_pos() == old(self).spec_pos(),
            },
            r == Err::<usize, StreamError>(StreamError::WritePastEnd) ==> remaining(
                old(self).spec_size(),
                old(self).spec_pos(),
            ) == 0,
            r matches Ok(n) ==> (n > 0 ==> old(self).spec_backend().write_ok(
                old(self).spec_pos(),
                buf@.take(n as int),
            )),
    {
        let remaining: u64 = if self.pos >= self.size {
            0
        } else {
            self.size - self.pos
        };
        if remaining == 0 {
            return Err(StreamError::WritePastEnd);
        }
        let n: usize = if (buf.len() as u64) < remaining {
            buf.len()
        } else {
            remaining as usize
        };
        if n == 0 {
            return Ok(0);
        }
        match write_prefix(&self.backend, self.pos, buf, n) {
            Ok(()) => {
                self.pos = self.pos + n as u64;
                Ok(n)
            },
            Err(_) => Err(StreamError::Backend),
        }
    }

    /// Nothing is buffered, so there is nothing to flush.
    pub fn flush(&mut self) -> (r: Result<(), StreamError>)
        ensures
            r is Ok,
            *final(self) == *old(self),
    {
        Ok(())
    }

    /// Moves the position.
    ///
    /// `Start(n)` always succeeds and sets the position to `n`, also past the
    /// end. `End(k)` and `Current(k)` succeed when `size + k`, resp.
    /// `pos + k`, is a position at all (not negative, within `u64`).
    pub fn seek(&mut self, origin: SeekOrigin) -> (r: Result<u64, StreamError>)
        requires
            old(self).wf(),
        ensures
            final(self).wf(),
            final(self).spec_size() == old(self).spec_size(),
            final(self).spec_backend() == old(self).spec_backend(),
            ({
                let t = seek_target(old(self).spec_size(), old(self).spec_pos(), origin);
                if 0 <= t <= u64::MAX {
                    r == Ok::<u64, StreamError>(t as u64) && final(self).spec_pos() == t
                } else {
                    r == Err::<u64, StreamError>(StreamError::InvalidSeek)
                        && final(self).spec_pos() == old(self).spec_pos()
                }
            }),
    {
        let (base, offset): (u64, i64) = match origin {
            SeekOrigin::Start(n) => {
                self.pos = n;
                return Ok(n);
            },
            SeekOrigin::End(k) => (self.size, k),
            SeekOrigin::Current(k) => (self.pos, k),
        };
        if offset >= 0 {
            let d = offset as u64;
            if base > u64::MAX - d {
                return Err(StreamError::InvalidSeek);
            }
            self.pos = base + d;
        } else {
            let d: u64 = (-(offset + 1)) as u64 + 1;
            if base < d {
                return Err(StreamError::InvalidSeek);
            }
            self.pos = base - d;
        }
        Ok(self.pos)
    }
}

} // verus!
