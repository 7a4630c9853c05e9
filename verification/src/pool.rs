//! The pool: one growable staging buffer from which immutable, cheaply cloned
//! views are split off.
//!
//! Every operation appends to the staging buffer and detaches what it appended
//! in the same call, so between calls the staging buffer holds no byte. That is
//! the pool's invariant, [`BytesPool::wf`], and it is why a view shows exactly
//! the bytes of the call that made it.
//!
//! Two things remain of the pool's state. One is its capacity: the number of
//! bytes that can still be appended before the staging buffer has to grow. The
//! other is whether a view may still hold a part of the allocation that the
//! staging buffer writes to, [`BytesPool::may_be_shared`]. A share of at least
//! one byte hands out such a part. The pool owns its allocation alone again
//! once the buffer has confirmed it by granting a reclaim, or once a
//! reservation has moved the staging buffer to room that no view has seen.

use crate::buffer::buf_bytes;
use crate::buffer::buf_capacity;
use crate::buffer::view_bytes;
use bytes::Bytes;
use bytes::BytesMut;
use vstd::prelude::*;
use vstd::string::*;
use vstd::utf8::*;

verus! {

/// A pool of bytes that are handed out as immutable views.
///
/// The pool owns one staging buffer. Views that were split off may keep parts
/// of its allocation alive; the pool itself only ever writes behind them.
#[derive(Debug, PartialEq, Eq, PartialOrd, Ord, Hash)]
pub struct BytesPool {
    inner: BytesMut,
    shared: bool,
}

impl BytesPool {
    /// The staging buffer holds no byte: everything appended so far has been
    /// detached.
    pub closed spec fn wf(&self) -> bool {
        buf_bytes(self.inner).len() == 0
    }

    /// The capacity of the pool, as [`BytesPool::capacity`] reports it.
    pub closed spec fn spec_capacity(&self) -> usize {
        buf_capacity(self.inner)
    }

    /// A view may still hold a part of the allocation that the staging buffer
    /// writes to. Where this is false, the pool owns that allocation alone.
    pub closed spec fn may_be_shared(&self) -> bool {
        self.shared
    }

    /// How detaching `len` bytes moves the pool from `self` to `next`. Bytes
    /// that fit are taken out of the capacity one for one, and a view of at
    /// least one byte holds a part of the allocation from then on. Detaching
    /// nothing changes neither.
    pub open spec fn detaches(&self, len: nat, next: &Self) -> bool {
        &&& next.wf()
        &&& len <= self.capacity() ==> next.capacity() == self.capacity() - len
        &&& next.may_be_shared() == (len > 0 || self.may_be_shared())
    }

    /// How asking for room for `additional` bytes moves the pool from `self` to
    /// `next`. The room is there afterwards and the capacity has not shrunk.
    /// Nothing changes when the room was there already; otherwise the staging
    /// buffer has grown into room that it owns alone.
    pub open spec fn reserves(&self, additional: usize, next: &Self) -> bool {
        &&& next.wf()
        &&& next.capacity() >= additional
        &&& next.capacity() >= self.capacity()
        &&& additional <= self.capacity() ==> next.capacity() == self.capacity()
            && next.may_be_shared() == self.may_be_shared()
        &&& additional > self.capacity() ==> !next.may_be_shared()
    }

    /// How an attempt to reclaim room for `additional` bytes moves the pool
    /// from `self` to `next`.
    ///
    /// A pool that owns its allocation alone is granted the room it already
    /// has, and nothing changes. In every other case the answer `ok` is the
    /// buffer's to give: it depends on whether views are still alive and on
    /// how large the allocation is. A grant leaves the room in place, with the
    /// pool as the only owner; a refusal leaves the pool as it was.
    ///
    /// Room at hand is never granted on trust to a pool that may be shared:
    /// such a pool is granted only what the buffer took back from released
    /// views, so its capacity has risen. A grant that leaves the capacity as
    /// it was went to a sole owner with the room at hand.
    pub open spec fn reclaims(&self, additional: usize, ok: bool, next: &Self) -> bool {
        &&& next.wf()
        &&& !self.may_be_shared() && additional <= self.capacity() ==> ok && next.capacity()
            == self.capacity()
        &&& ok ==> next.capacity() >= additional && next.capacity() >= self.capacity()
            && !next.may_be_shared()
        &&& !ok ==> next.capacity() == self.capacity() && next.may_be_shared()
            == self.may_be_shared()
        &&& self.may_be_shared() && ok ==> next.capacity() > self.capacity()
        &&& ok && next.capacity() == self.capacity() ==> !self.may_be_shared() && additional
            <= self.capacity()
    }

    /// Creates a pool with an empty staging buffer and a capacity that is left
    /// open. Nothing is allocated, and no view exists yet.
    #[inline]
    pub fn new() -> (pool: Self)
        ensures
            pool.wf(),
            !pool.may_be_shared(),
    {
        BytesPool { inner: BytesMut::new(), shared: false }
    }

    /// Creates a pool whose staging buffer is empty and can take at least
    /// `capacity` bytes before it has to grow. No view exists yet.
    #[inline]
    pub fn with_capacity(capacity: usize) -> (pool: Self)
        requires
            capacity <= isize::MAX,
        ensures
            pool.wf(),
            !pool.may_be_shared(),
            pool.capacity() >= capacity,
    {
        BytesPool { inner: BytesMut::with_capacity(capacity), shared: false }
    }

    /// The number of bytes that can be appended before the staging buffer has
    /// to grow.
    #[inline]
    #[verifier::when_used_as_spec(spec_capacity)]
    pub fn capacity(&self) -> (n: usize)
        ensures
            n == self.spec_capacity(),
    {
        self.inner.capacity()
    }

    /// Appends `bytes` to the staging buffer and detaches them as an immutable
    /// view. The view shows exactly `bytes`. The staging buffer grows only if
    /// `bytes` does not fit in the capacity.
    ///
    /// An empty slice gives an empty view that holds no memory, and leaves the
    /// pool untouched.
    #[inline]
    pub fn share_bytes(&mut self, bytes: &[u8]) -> (view: Bytes)
        requires
            old(self).wf(),
        ensures
            view_bytes(view) == bytes@,
            old(self).detaches(bytes@.len(), final(self)),
            bytes@.len() == 0 ==> *final(self) == *old(self),
    {
        if bytes.is_empty() {
            let view = Bytes::new();
            assert(view_bytes(view) =~= bytes@);
            return view;
        }
        self.inner.extend_from_slice(bytes);
        self.shared = true;
        self.inner.split().freeze()
    }

    /// Appends the UTF-8 encoding of `s` to the staging buffer and detaches it
    /// as an immutable view. The view shows exactly that encoding, so it is
    /// valid UTF-8 and decodes to `s`: whoever wraps it as a string may skip
    /// the validation.
    #[inline]
    pub fn share_str(&mut self, s: &str) -> (view: Bytes)
        requires
            old(self).wf(),
        ensures
            view_bytes(view) == s.spec_bytes(),
            valid_utf8(view_bytes(view)),
            decode_utf8(view_bytes(view)) == s@,
            old(self).detaches(s.spec_bytes().len(), final(self)),
            s.spec_bytes().len() == 0 ==> *final(self) == *old(self),
    {
        proof {
            encode_utf8_valid_utf8(s@);
            encode_utf8_decode_utf8(s@);
        }
        self.share_bytes(s.as_bytes())
    }

    /// Makes room for at least `additional` bytes, growing the staging buffer
    /// now if it has to. Room that is already there is left as it is.
    #[inline]
    pub fn reserve(&mut self, additional: usize)
        requires
            old(self).wf(),
            additional <= old(self).capacity() || additional <= isize::MAX,
        ensures
            old(self).reserves(additional, final(self)),
    {
        if additional <= self.inner.capacity() {
            return;
        }
        self.inner.reserve(additional);
        self.shared = false;
    }

    /// Tries to make room for at least `additional` bytes without allocating,
    /// and says whether the room is there and the pool's alone.
    ///
    /// Room is granted only to a pool that owns its allocation alone. What the
    /// buffer is asked for is chosen by [`reclaim_request`], and what its
    /// answer means for the pool's owners is settled by
    /// [`shared_after_reclaim`].
    #[inline]
    #[must_use]
    pub fn try_reclaim(&mut self, additional: usize) -> (ok: bool)
        requires
            old(self).wf(),
        ensures
            old(self).reclaims(additional, ok, final(self)),
    {
        let room = self.inner.capacity();
        let ok = match reclaim_request(self.shared, room, additional) {
            Some(ask) => self.inner.try_reclaim(ask),
            None => false,
        };
        self.shared = shared_after_reclaim(self.shared, ok);
        ok
    }
}

/// Chooses what a reclaim asks of the staging buffer, for a pool with `room`
/// bytes at hand that wants room for `additional`.
///
/// The buffer grants room at hand without looking at who else holds its
/// allocation. That is right for a pool that owns the allocation alone, and for
/// a request beyond the room at hand the buffer looks in any case: both ask for
/// `additional` as it came. Where a view may hold the allocation and the room
/// is at hand, the request is for one byte more than that, which the buffer
/// grants only to a sole owner. Where there is no such number, nothing is
/// asked and the reclaim is refused.
pub fn reclaim_request(shared: bool, room: usize, additional: usize) -> (ask: Option<usize>)
    ensures
        !shared || additional > room ==> ask == Some(additional),
        shared && additional <= room && room < usize::MAX ==> ask is Some && ask.unwrap()
            == room + 1,
        shared && additional <= room && room == usize::MAX ==> ask is None,
{
    if !shared || additional > room {
        Some(additional)
    } else if room < usize::MAX {
        Some(room + 1)
    } else {
        None
    }
}

/// Whether a view may still hold the pool's allocation after a reclaim. A
/// grant settles that none does; a refusal leaves the question where it was.
pub fn shared_after_reclaim(shared: bool, granted: bool) -> (next: bool)
    ensures
        next == (shared && !granted),
{
    shared && !granted
}

impl Clone for BytesPool {
    /// The clone is a pool of its own: it shares no memory with `self` or with
    /// any view, and its capacity is left open.
    fn clone(&self) -> (pool: Self)
        ensures
            self.wf() ==> pool.wf(),
            !pool.may_be_shared(),
    {
        BytesPool { inner: self.inner.clone(), shared: false }
    }
}

impl Default for BytesPool {
    fn default() -> (pool: Self)
        ensures
            pool.wf(),
            !pool.may_be_shared(),
    {
        BytesPool::new()
    }
}

} // verus!
