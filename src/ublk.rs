//! The kernel block-queue frontend's own decisions: device parameters, and
//! how one IO descriptor is bounded and answered against the backend.

use crate::backend::{read_prefix, write_prefix, BlockBackend};
use vstd::arithmetic::power2::{lemma_pow2_strictly_increases, pow2};
use vstd::prelude::*;

verus! {

/// Bytes in one sector, the addressing unit of IO descriptors.
pub const SECTOR_SIZE: u64 = 512;

/// The most hardware queues a device is given.
pub const MAX_QUEUES: usize = 8;

/// The smallest physical block shift (4096 bytes).
pub const MIN_PHYSICAL_SHIFT: u8 = 12;

/// Configuration of the kernel block-queue frontend.
#[derive(Debug, Clone, Copy, PartialEq, Eq, Structural)]
pub struct UblkConfig {
    /// Logical block size in bytes; a non-zero power of two.
    pub logical_block_size: u32,
}

/// Why a configuration was refused at startup.
#[derive(Debug, Clone, Copy, PartialEq, Eq, Structural)]
pub enum ConfigError {
    /// The logical block size is zero or not a power of two.
    BadLogicalBlockSize,
}

impl ConfigError {
    pub fn message(&self) -> (r: String)
        ensures
            r@ == "logical_block_size must be a non-zero power of two"@,
    {
        "logical_block_size must be a non-zero power of two".to_string()
    }
}

/// Checks that the logical block size is a non-zero power of two, and returns
/// its base-two logarithm.
pub fn validate_block_size(cfg: &UblkConfig) -> (r: Result<u8, ConfigError>)
    ensures
        match r {
            Ok(s) => s < 32 && pow2(s as nat) == cfg.logical_block_size,
            Err(e) => e == ConfigError::BadLogicalBlockSize && forall|k: nat|
                pow2(k) != cfg.logical_block_size,
        },
{
    let lbs = cfg.logical_block_size as u64;
    let mut p: u64 = 1;
    let mut k: u8 = 0;
    proof {
        vstd::arithmetic::power2::lemma2_to64();
    }
    while k < 32
        invariant
            k <= 32,
            lbs == cfg.logical_block_size,
            p == pow2(k as nat),
            forall|j: nat| j < k ==> pow2(j) != lbs,
        decreases 32 - k,
    {
        if p == lbs {
            return Ok(k);
        }
        proof {
            vstd::arithmetic::power2::lemma_pow2_unfold((k + 1) as nat);
            vstd::arithmetic::power2::lemma2_to64();
            if k < 31 {
                lemma_pow2_strictly_increases((k + 1) as nat, 32);
            }
        }
        p = p * 2;
        k = k + 1;
    }
    proof {
        vstd::arithmetic::power2::lemma2_to64();
        assert forall|j: nat| pow2(j) != lbs by {
            if j > 32 {
                lemma_pow2_strictly_increases(32, j);
            }
        }
    }
    Err(ConfigError::BadLogicalBlockSize)
}

/// How many hardware queues to use, given the machine's parallelism when it
/// is known: that many, at most `MAX_QUEUES`, at least one.
pub fn queue_count(available: Option<usize>) -> (r: u16)
    ensures
        match available {
            Some(n) => r == if n == 0 {
                1
            } else if n < MAX_QUEUES {
                n
            } else {
                MAX_QUEUES
            },
            None => r == 1,
        },
{
    match available {
        Some(n) => {
            if n == 0 {
                1
            } else if n < MAX_QUEUES {
                n as u16
            } else {
                MAX_QUEUES as u16
            }
        },
        None => 1,
    }
}

/// The block parameters a device is registered with.
#[derive(Debug, Clone, Copy, PartialEq, Eq, Structural)]
pub struct DeviceParams {
    pub dev_sectors: u64,
    pub logical_bs_shift: u8,
    pub physical_bs_shift: u8,
    pub io_min_shift: u8,
    pub io_opt_shift: u8,
}

/// Parameters for a device of `capacity` bytes and the given logical block
/// shift: whole sectors only, and a physical block of at least 4096 bytes.
pub fn device_params(capacity: u64, lbs_shift: u8) -> (r: DeviceParams)
    ensures
        r.dev_sectors == capacity / SECTOR_SIZE,
        r.logical_bs_shift == lbs_shift,
        r.physical_bs_shift == if lbs_shift < MIN_PHYSICAL_SHIFT {
            MIN_PHYSICAL_SHIFT
        } else {
            lbs_shift
        },
        r.io_min_shift == lbs_shift,
        r.io_opt_shift == lbs_shift,
{
    DeviceParams {
        dev_sectors: capacity / SECTOR_SIZE,
        logical_bs_shift: lbs_shift,
        physical_bs_shift: if lbs_shift < MIN_PHYSICAL_SHIFT {
            MIN_PHYSICAL_SHIFT
        } else {
            lbs_shift
        },
        io_min_shift: lbs_shift,
        io_opt_shift: lbs_shift,
    }
}

/// The operation an IO descriptor asks for.
#[derive(Debug, Clone, Copy, PartialEq, Eq, Structural)]
pub enum IoOp {
    Read,
    Write,
    Flush,
    Discard,
    WriteZeroes,
    WriteSame,
    Unknown,
}

/// One IO descriptor: the operation and the sector range it covers.
#[derive(Debug, Clone, Copy, PartialEq, Eq, Structural)]
pub struct IoRequest {
    pub op: IoOp,
    pub start_sector: u64,
    pub nr_sectors: u32,
}

/// How a request is completed.
#[derive(Debug, Clone, Copy, PartialEq, Eq, Structural)]
pub enum Completion {
    /// Success, with the number of bytes transferred.
    Done(usize),
    /// The request starts at or beyond the end of the device.
    InvalidArgument,
    /// The backend faulted.
    IoFailure,
    /// The operation is not supported.
    NotSupported,
}

/// The byte offset a request starts at.
pub open spec fn req_offset(req: IoRequest) -> int {
    req.start_sector * SECTOR_SIZE
}

/// The bytes a request moves: its sectors, cut at the end of the device and
/// at the size of the request buffer.
pub open spec fn req_len(req: IoRequest, capacity: u64, max_io: int) -> int {
    let want = req.nr_sectors * SECTOR_SIZE;
    let room = capacity - req_offset(req);
    let a = if want < room {
        want
    } else {
        room
    };
    if a < max_io {
        a
    } else {
        max_io
    }
}

/// A request that starts inside the device moves only bytes inside it, and
/// never more than its buffer holds or its sectors cover.
pub proof fn lemma_request_in_bounds(req: IoRequest, capacity: u64, max_io: nat)
    requires
        req_offset(req) < capacity,
    ensures
        0 <= req_len(req, capacity, max_io as int),
        req_offset(req) + req_len(req, capacity, max_io as int) <= capacity,
        req_len(req, capacity, max_io as int) <= max_io,
        req_len(req, capacity, max_io as int) <= req.nr_sectors * SECTOR_SIZE,
{
}

/// Answers one request against the backend, with `buf` the request's buffer
/// (whose length is the largest transfer one request may make).
///
/// A request that starts at or past the end of the device is refused and the
/// backend is not touched. Reads and writes move `req_len` bytes at the
/// request's offset through the front of `buf`, and complete with that count
/// when the backend succeeds; a flush succeeds with nothing moved; every
/// other operation is not supported.
pub fn handle_io<B: BlockBackend>(backend: &B, req: IoRequest, buf: &mut [u8]) -> (r: Completion)
    ensures
        final(buf)@.len() == old(buf)@.len(),
        req_offset(req) >= backend.capacity() ==> r == Completion::InvalidArgument && final(buf)@
            == old(buf)@,
        req.op == IoOp::Write ==> final(buf)@ == old(buf)@,
        (req.op == IoOp::Read || req.op == IoOp::Write) && req_offset(req) < backend.capacity()
            ==> {
            let n = req_len(req, backend.capacity(), old(buf)@.len() as int);
            &&& (r == Completion::Done(n as usize) || r == Completion::IoFailure)
            &&& final(buf)@.subrange(n, old(buf)@.len() as int) == old(buf)@.subrange(
                n,
                old(buf)@.len() as int,
            )
            &&& (req.op == IoOp::Read && r == Completion::Done(n as usize) ==> backend.read_ok(
                req_offset(req) as u64,
                final(buf)@.take(n),
            ))
            &&& (req.op == IoOp::Write && r == Completion::Done(n as usize) ==> backend.write_ok(
                req_offset(req) as u64,
                old(buf)@.take(n),
            ))
        },
        req.op == IoOp::Flush && req_offset(req) < backend.capacity() ==> r == Completion::Done(0)
            && final(buf)@ == old(buf)@,
        req.op != IoOp::Read && req.op != IoOp::Write && req.op != IoOp::Flush && req_offset(req)
            < backend.capacity() ==> r == Completion::NotSupported && final(buf)@ == old(buf)@,
{
    let cap = backend.size();
    // the first sector that starts at or past the end
    let end_sector: u64 = cap / SECTOR_SIZE + if cap % SECTOR_SIZE == 0 {
        0
    } else {
        1
    };
    if req.start_sector >= end_sector {
        proof {
            assert(req.start_sector * SECTOR_SIZE >= cap) by (nonlinear_arith)
                requires
                    req.start_sector >= end_sector,
                    cap % SECTOR_SIZE == 0 ==> end_sector == cap / SECTOR_SIZE,
                    cap % SECTOR_SIZE != 0 ==> end_sector == cap / SECTOR_SIZE + 1,
                    SECTOR_SIZE == 512,
            ;
        }
        return Completion::InvalidArgument;
    }
    proof {
        assert(req.start_sector * SECTOR_SIZE < cap) by (nonlinear_arith)
            requires
                req.start_sector < end_sector,
                cap % SECTOR_SIZE == 0 ==> end_sector == cap / SECTOR_SIZE,
                cap % SECTOR_SIZE != 0 ==> end_sector == cap / SECTOR_SIZE + 1,
                SECTOR_SIZE == 512,
        ;
    }
    let offset: u64 = req.start_sector * SECTOR_SIZE;
    let want: u64 = req.nr_sectors as u64 * SECTOR_SIZE;
    let room: u64 = cap - offset;
    let a: u64 = if want < room {
        want
    } else {
        room
    };
    let n: usize = if a < buf.len() as u64 {
        a as usize
    } else {
        buf.len()
    };
    match req.op {
        IoOp::Read => match read_prefix(backend, offset, buf, n) {
            Ok(()) => Completion::Done(n),
            Err(_) => Completion::IoFailure,
        },
        IoOp::Write => match write_prefix(backend, offset, buf, n) {
            Ok(()) => Completion::Done(n),
            Err(_) => Completion::IoFailure,
        },
        IoOp::Flush => Completion::Done(0),
        _ => Completion::NotSupported,
    }
}

} // verus!
