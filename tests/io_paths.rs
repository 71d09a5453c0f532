use std::sync::atomic::{AtomicUsize, Ordering};
use std::sync::{Arc, Mutex};
use vramblk::backend::{BackendError, BlockBackend};
use vramblk::stream::{SeekOrigin, StreamError, VramSeeker};
use vramblk::ublk::{handle_io, Completion, IoOp, IoRequest};

struct MemBackend {
    data: Mutex<Vec<u8>>,
    calls: AtomicUsize,
    fail: bool,
}

impl MemBackend {
    fn new(size: usize) -> Self {
        MemBackend { data: Mutex::new(vec![0; size]), calls: AtomicUsize::new(0), fail: false }
    }

    fn failing(size: usize) -> Self {
        MemBackend { data: Mutex::new(vec![0; size]), calls: AtomicUsize::new(0), fail: true }
    }

    fn calls(&self) -> usize {
        self.calls.load(Ordering::SeqCst)
    }
}

impl BlockBackend for MemBackend {
    fn capacity(&self) -> u64 {
        self.data.lock().unwrap().len() as u64
    }

    fn size(&self) -> u64 {
        self.data.lock().unwrap().len() as u64
    }

    fn read_at(&self, offset: u64, dst: &mut [u8]) -> Result<(), BackendError> {
        self.calls.fetch_add(1, Ordering::SeqCst);
        if self.fail {
            return Err(BackendError::Io);
        }
        let d = self.data.lock().unwrap();
        let o = offset as usize;
        dst.copy_from_slice(&d[o..o + dst.len()]);
        Ok(())
    }

    fn write_at(&self, offset: u64, src: &[u8]) -> Result<(), BackendError> {
        self.calls.fetch_add(1, Ordering::SeqCst);
        if self.fail {
            return Err(BackendError::Io);
        }
        let mut d = self.data.lock().unwrap();
        let o = offset as usize;
        d[o..o + src.len()].copy_from_slice(src);
        Ok(())
    }
}

#[test]
fn write_then_read_round_trips() {
    let b = Arc::new(MemBackend::new(4096));
    let mut s = VramSeeker::new(b.clone());
    for (o, l) in [(0u64, 4096usize), (100, 1), (4000, 96), (17, 300)] {
        let data: Vec<u8> = (0..l).map(|i| (i as u64 * 7 + o) as u8).collect();
        assert_eq!(s.seek(SeekOrigin::Start(o)), Ok(o));
        assert_eq!(s.write(&data), Ok(l));
        assert_eq!(s.seek(SeekOrigin::Start(o)), Ok(o));
        let mut back = vec![0u8; l];
        assert_eq!(s.read(&mut back), Ok(l));
        assert_eq!(back, data);
    }
}

#[test]
fn stream_is_exhausted_after_reading_the_whole_device() {
    let b = Arc::new(MemBackend::new(1000));
    let mut s = VramSeeker::new(b);
    let mut buf = vec![0u8; 300];
    let mut total = 0;
    loop {
        let n = s.read(&mut buf).unwrap();
        if n == 0 {
            break;
        }
        total += n;
    }
    assert_eq!(total, 1000);
    assert_eq!(s.position(), 1000);
    assert_eq!(s.read(&mut buf), Ok(0));
    assert_eq!(s.write(&[1, 2, 3]), Err(StreamError::WritePastEnd));
    assert_eq!(s.write(&[]), Err(StreamError::WritePastEnd));
    assert_eq!(s.position(), 1000);
}

#[test]
fn reads_and_writes_are_clamped_at_the_end() {
    let b = Arc::new(MemBackend::new(10));
    let mut s = VramSeeker::new(b.clone());
    assert_eq!(s.seek(SeekOrigin::Start(7)), Ok(7));
    assert_eq!(s.write(&[9, 9, 9, 9, 9]), Ok(3));
    assert_eq!(s.position(), 10);
    assert_eq!(s.seek(SeekOrigin::End(-5)), Ok(5));
    let mut buf = vec![0xaau8; 8];
    assert_eq!(s.read(&mut buf), Ok(5));
    assert_eq!(buf, vec![0, 0, 9, 9, 9, 0xaa, 0xaa, 0xaa]);
    assert_eq!(s.seek(SeekOrigin::Start(9)), Ok(9));
    assert_eq!(s.write(&[]), Ok(0));
    assert_eq!(s.position(), 9);
}

#[test]
fn absolute_seek_past_end_is_allowed() {
    let b = Arc::new(MemBackend::new(64));
    let mut s = VramSeeker::new(b);
    assert_eq!(s.seek(SeekOrigin::Start(1_000_000)), Ok(1_000_000));
    assert_eq!(s.position(), 1_000_000);
    let mut buf = [0u8; 16];
    assert_eq!(s.read(&mut buf), Ok(0));
    assert_eq!(s.write(&buf), Err(StreamError::WritePastEnd));
    assert_eq!(s.seek(SeekOrigin::Start(u64::MAX)), Ok(u64::MAX));
}

#[test]
fn relative_seeks_are_checked() {
    let b = Arc::new(MemBackend::new(64));
    let mut s = VramSeeker::new(b);
    assert_eq!(s.seek(SeekOrigin::Current(10)), Ok(10));
    assert_eq!(s.seek(SeekOrigin::Current(-4)), Ok(6));
    assert_eq!(s.seek(SeekOrigin::Current(-7)), Err(StreamError::InvalidSeek));
    assert_eq!(s.position(), 6);
    assert_eq!(s.seek(SeekOrigin::End(0)), Ok(64));
    assert_eq!(s.seek(SeekOrigin::End(36)), Ok(100));
    assert_eq!(s.seek(SeekOrigin::End(-64)), Ok(0));
    assert_eq!(s.seek(SeekOrigin::End(-65)), Err(StreamError::InvalidSeek));
    assert_eq!(s.seek(SeekOrigin::End(i64::MIN)), Err(StreamError::InvalidSeek));
    assert_eq!(s.seek(SeekOrigin::Start(u64::MAX - 1)), Ok(u64::MAX - 1));
    assert_eq!(s.seek(SeekOrigin::Current(1)), Ok(u64::MAX));
    assert_eq!(s.seek(SeekOrigin::Current(1)), Err(StreamError::InvalidSeek));
    assert_eq!(s.seek(SeekOrigin::Current(i64::MIN)), Ok(u64::MAX - (1u64 << 63)));
    assert_eq!(s.flush(), Ok(()));
}

#[test]
fn backend_faults_surface_as_stream_errors() {
    let b = Arc::new(MemBackend::failing(64));
    let mut s = VramSeeker::new(b);
    let mut buf = [0u8; 8];
    assert_eq!(s.read(&mut buf), Err(StreamError::Backend));
    assert_eq!(s.write(&buf), Err(StreamError::Backend));
    assert_eq!(s.position(), 0);
    assert_eq!(StreamError::WritePastEnd.message(), "write past end of device");
    assert_eq!(StreamError::Backend.message(), "backend I/O failed");
}

#[test]
fn shared_handle_forwards_to_the_backend() {
    let b = Arc::new(MemBackend::new(32));
    let h = b.clone();
    assert_eq!(BlockBackend::size(&h), 32);
    h.write_at(4, &[5, 6]).unwrap();
    let mut out = [0u8; 3];
    b.read_at(3, &mut out).unwrap();
    assert_eq!(out, [0, 5, 6]);
}

#[test]
fn two_connections_on_disjoint_ranges() {
    let b = Arc::new(MemBackend::new(1 << 16));
    let mut conns = [VramSeeker::new(b.clone()), VramSeeker::new(b.clone())];
    for round in 0..50u64 {
        for k in 0..2u64 {
            let s = &mut conns[k as usize];
            let data: Vec<u8> = (0..512u64).map(|i| (i + round + k * 31) as u8).collect();
            let at = k * (1 << 15) + (round % 64) * 512;
            assert_eq!(s.seek(SeekOrigin::Start(at)), Ok(at));
            assert_eq!(s.write(&data), Ok(512));
        }
        for k in 0..2u64 {
            let s = &mut conns[k as usize];
            let data: Vec<u8> = (0..512u64).map(|i| (i + round + k * 31) as u8).collect();
            let at = k * (1 << 15) + (round % 64) * 512;
            assert_eq!(s.seek(SeekOrigin::Start(at)), Ok(at));
            let mut back = vec![0u8; 512];
            assert_eq!(s.read(&mut back), Ok(512));
            assert_eq!(back, data);
        }
    }
}

fn req(op: IoOp, start_sector: u64, nr_sectors: u32) -> IoRequest {
    IoRequest { op, start_sector, nr_sectors }
}

#[test]
fn request_past_the_end_is_refused_without_touching_the_backend() {
    let b = MemBackend::new(4096);
    let mut buf = vec![7u8; 4096];
    assert_eq!(handle_io(&b, req(IoOp::Read, 9, 1), &mut buf), Completion::InvalidArgument);
    assert_eq!(handle_io(&b, req(IoOp::Write, 100, 1), &mut buf), Completion::InvalidArgument);
    assert_eq!(handle_io(&b, req(IoOp::Read, u64::MAX, 1), &mut buf), Completion::InvalidArgument);
    assert_eq!(handle_io(&b, req(IoOp::Flush, 9, 0), &mut buf), Completion::InvalidArgument);
    assert_eq!(b.calls(), 0);
    assert!(buf.iter().all(|&x| x == 7));
}

#[test]
fn request_at_the_end_is_refused() {
    let b = MemBackend::new(4096);
    let mut buf = vec![7u8; 4096];
    assert_eq!(handle_io(&b, req(IoOp::Read, 8, 4), &mut buf), Completion::InvalidArgument);
    assert_eq!(handle_io(&b, req(IoOp::Write, 8, 1), &mut buf), Completion::InvalidArgument);
    assert_eq!(handle_io(&b, req(IoOp::Flush, 8, 0), &mut buf), Completion::InvalidArgument);
    assert_eq!(b.calls(), 0);
    assert!(buf.iter().all(|&x| x == 7));
}

#[test]
fn partial_last_sector_is_served_up_to_the_end() {
    let b = MemBackend::new(1000);
    b.write_at(0, &vec![5u8; 1000]).unwrap();
    let mut buf = vec![0u8; 4096];
    assert_eq!(handle_io(&b, req(IoOp::Read, 1, 8), &mut buf), Completion::Done(488));
    assert!(buf[..488].iter().all(|&x| x == 5));
    assert!(buf[488..].iter().all(|&x| x == 0));
    assert_eq!(handle_io(&b, req(IoOp::Read, 2, 1), &mut buf), Completion::InvalidArgument);
}

#[test]
fn straddling_request_is_clamped_to_the_device() {
    let b = MemBackend::new(4096);
    b.write_at(0, &vec![3u8; 4096]).unwrap();
    let mut buf = vec![0u8; 8192];
    buf[2048..].fill(1);
    assert_eq!(handle_io(&b, req(IoOp::Read, 6, 8), &mut buf), Completion::Done(1024));
    assert!(buf[..1024].iter().all(|&x| x == 3));
    assert!(buf[1024..2048].iter().all(|&x| x == 0));
    assert!(buf[2048..].iter().all(|&x| x == 1));
    let mut wbuf = vec![9u8; 8192];
    assert_eq!(handle_io(&b, req(IoOp::Write, 7, 4), &mut wbuf), Completion::Done(512));
    let mut tail = [0u8; 1024];
    b.read_at(3072, &mut tail).unwrap();
    assert!(tail[..512].iter().all(|&x| x == 3));
    assert!(tail[512..].iter().all(|&x| x == 9));
}

#[test]
fn request_is_clamped_to_the_buffer() {
    let b = MemBackend::new(1 << 20);
    let mut buf = vec![0u8; 4096];
    assert_eq!(handle_io(&b, req(IoOp::Write, 0, 64), &mut buf), Completion::Done(4096));
    assert_eq!(handle_io(&b, req(IoOp::Read, 16, 64), &mut buf), Completion::Done(4096));
}

#[test]
fn flush_and_unsupported_operations() {
    let b = MemBackend::new(4096);
    let mut buf = vec![0u8; 512];
    assert_eq!(handle_io(&b, req(IoOp::Flush, 0, 0), &mut buf), Completion::Done(0));
    assert_eq!(handle_io(&b, req(IoOp::Discard, 0, 1), &mut buf), Completion::NotSupported);
    assert_eq!(handle_io(&b, req(IoOp::WriteZeroes, 0, 1), &mut buf), Completion::NotSupported);
    assert_eq!(handle_io(&b, req(IoOp::WriteSame, 0, 1), &mut buf), Completion::NotSupported);
    assert_eq!(handle_io(&b, req(IoOp::Unknown, 0, 1), &mut buf), Completion::NotSupported);
    assert_eq!(b.calls(), 0);
}

#[test]
fn backend_fault_completes_with_io_failure() {
    let b = MemBackend::failing(4096);
    let mut buf = vec![0u8; 512];
    assert_eq!(handle_io(&b, req(IoOp::Read, 0, 1), &mut buf), Completion::IoFailure);
    assert_eq!(handle_io(&b, req(IoOp::Write, 0, 1), &mut buf), Completion::IoFailure);
}
