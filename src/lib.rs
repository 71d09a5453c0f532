//! Serving a fixed-size, byte-addressable memory backend as a block device,
//! through a network block protocol and through a kernel block-queue interface.

pub mod backend;
pub mod stream;
pub mod nbd;
pub mod ublk;
pub mod size;
