//! What this crate takes on trust about the `bytes` crate.
//!
//! A [`BytesMut`] is a handle on a uniquely owned window of a reference-counted
//! allocation; a [`Bytes`] is a frozen, immutable window. Verus cannot look
//! inside either. This module gives their contents a name and states, for each
//! method the pool calls, how the method moves those contents. None of the
//! statements below is proved: each one was read off the source of `bytes`.
//!
//! Whether an allocation is still referenced by other handles is not a property
//! of a handle's value: dropping a `Bytes` somewhere else changes it. No name
//! stands for it here, and [`BytesMut::try_reclaim`] is specified by what holds
//! for either answer. The pool keeps its own record of whether it has handed
//! out a part of its allocation.
//!
//! How much memory a growing buffer obtains is the allocator's choice: the
//! contracts bound a new capacity from below and never fix it. A method that
//! grows a buffer ends by panic or abort when the memory cannot be had. The
//! contracts describe the calls that return, and their `requires` keep the
//! bytes asked for within `isize::MAX`, the most that any allocation can hold.

use bytes::Bytes;
use bytes::BytesMut;
use vstd::prelude::*;

verus! {

/// `bytes::BytesMut`, opaque to the verifier.
#[verifier::external_type_specification]
#[verifier::external_body]
pub struct ExBytesMut(BytesMut);

/// `bytes::Bytes`, opaque to the verifier.
#[verifier::external_type_specification]
#[verifier::external_body]
pub struct ExBytes(Bytes);

/// The bytes a buffer holds, in order: what `&buf[..]` reads.
pub uninterp spec fn buf_bytes(buf: BytesMut) -> Seq<u8>;

/// The number of bytes a buffer can hold before it has to grow, counting the
/// ones it already holds. This is the `cap` field of the handle, which
/// `BytesMut::capacity` reads: a part of the buffer's value, changed only
/// through `&mut`.
pub uninterp spec fn buf_capacity(buf: BytesMut) -> usize;

/// The bytes a frozen view shows, in order: what `&view[..]` reads. A `Bytes`
/// has no method that writes, and no `BytesMut` overlaps the window of a live
/// `Bytes`, so this is a function of the view alone.
pub uninterp spec fn view_bytes(view: Bytes) -> Seq<u8>;

/// `BytesMut::new`: the new buffer holds no byte. Its capacity is left open,
/// as the documentation leaves it.
pub assume_specification[ BytesMut::new ]() -> (buf: BytesMut)
    ensures
        buf_bytes(buf).len() == 0,
;

/// `BytesMut::with_capacity`: the new buffer holds no byte and has room for at
/// least `capacity` of them. The underlying `Vec::with_capacity` panics above
/// `isize::MAX`.
pub assume_specification[ BytesMut::with_capacity ](capacity: usize) -> (buf: BytesMut)
    requires
        capacity <= isize::MAX,
    ensures
        buf_bytes(buf).len() == 0,
        buf_capacity(buf) >= capacity,
;

/// `BytesMut::capacity`: reads the buffer's capacity.
pub assume_specification[ BytesMut::capacity ](buf: &BytesMut) -> (n: usize)
    ensures
        n == buf_capacity(*buf),
;

/// `BytesMut::extend_from_slice`: reserves room for `extend`, then copies it
/// behind the bytes already held. The capacity is untouched when the bytes
/// fit. No slice spans more than `isize::MAX` bytes, so an empty buffer takes
/// any slice; a buffer that holds bytes takes a slice that keeps the total
/// within `isize::MAX`.
pub assume_specification[ BytesMut::extend_from_slice ](buf: &mut BytesMut, extend: &[u8])
    requires
        buf_bytes(*old(buf)).len() == 0 || buf_bytes(*old(buf)).len() + extend@.len()
            <= isize::MAX,
    ensures
        buf_bytes(*final(buf)) == buf_bytes(*old(buf)) + extend@,
        buf_bytes(*old(buf)).len() + extend@.len() <= buf_capacity(*old(buf))
            ==> buf_capacity(*final(buf)) == buf_capacity(*old(buf)),
;

/// `BytesMut::split`: the result takes every byte held, and the buffer is left
/// empty at the position right behind them, with the capacity that remains.
pub assume_specification[ BytesMut::split ](buf: &mut BytesMut) -> (head: BytesMut)
    ensures
        buf_bytes(head) == buf_bytes(*old(buf)),
        buf_bytes(*final(buf)).len() == 0,
        buf_capacity(*final(buf)) == buf_capacity(*old(buf)) - buf_bytes(*old(buf)).len(),
;

/// `Bytes::new`: the new view shows no byte. It points at a static empty slice
/// and holds no part of any allocation.
pub assume_specification[ Bytes::new ]() -> (view: Bytes)
    ensures
        view_bytes(view).len() == 0,
;

/// `BytesMut::freeze`: the view shows the bytes the buffer held.
pub assume_specification[ BytesMut::freeze ](buf: BytesMut) -> (view: Bytes)
    ensures
        view_bytes(view) == buf_bytes(buf),
;

/// `<BytesMut as Clone>::clone`: the clone holds a copy of the bytes, in an
/// allocation of its own.
pub assume_specification[ <BytesMut as Clone>::clone ](buf: &BytesMut) -> (copy: BytesMut)
    ensures
        buf_bytes(copy) == buf_bytes(*buf),
;

/// `BytesMut::reserve`: keeps the bytes held and makes room for `additional`
/// more, by reclaiming or by allocating. The capacity never shrinks.
pub assume_specification[ BytesMut::reserve ](buf: &mut BytesMut, additional: usize)
    requires
        buf_bytes(*old(buf)).len() + additional <= isize::MAX,
    ensures
        buf_bytes(*final(buf)) == buf_bytes(*old(buf)),
        buf_capacity(*final(buf)) >= buf_capacity(*old(buf)),
        buf_capacity(*final(buf)) >= buf_bytes(*old(buf)).len() + additional,
;

/// `BytesMut::try_reclaim`: keeps the bytes held and never allocates. It
/// answers `true` at once when the room is already there. Otherwise the answer
/// depends on whether other handles still share the allocation and on how large
/// the allocation is: on `true` the room is there and the capacity has not
/// shrunk, on `false` the buffer is as it was.
pub assume_specification[ BytesMut::try_reclaim ](buf: &mut BytesMut, additional: usize) -> (ok:
    bool)
    ensures
        buf_bytes(*final(buf)) == buf_bytes(*old(buf)),
        ok ==> buf_capacity(*final(buf)) >= buf_bytes(*old(buf)).len() + additional,
        ok ==> buf_capacity(*final(buf)) >= buf_capacity(*old(buf)),
        !ok ==> buf_capacity(*final(buf)) == buf_capacity(*old(buf)),
        buf_bytes(*old(buf)).len() + additional <= buf_capacity(*old(buf)) ==> ok
            && buf_capacity(*final(buf)) == buf_capacity(*old(buf)),
;

} // verus!
