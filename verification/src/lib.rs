//! A pool that hands out byte slices and strings as immutable views that can be
//! cloned and sent across threads without copying. The pool appends each value
//! to one growable staging buffer and splits it off as a view; memory is
//! allocated only when the staging buffer has to grow.

pub mod buffer;
pub mod laws;
pub mod pool;

pub use bytes::Bytes;
pub use pool::BytesPool;
