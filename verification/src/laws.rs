//! Laws that relate several operations of the pool. Each one is stated over
//! the relations that the operations' contracts establish, so it holds of every
//! run of the pool that the contracts allow.

use crate::buffer::view_bytes;
use crate::pool::BytesPool;
use bytes::Bytes;
use vstd::prelude::*;

verus! {

/// The sum of the lengths in `lens`.
pub open spec fn total_len(lens: Seq<nat>) -> nat
    decreases lens.len(),
{
    if lens.len() == 0 {
        0
    } else {
        total_len(lens.drop_last()) + lens.last()
    }
}

/// A run of detaches: the pool starts as `pools[0]`, and detaching `lens[i]`
/// bytes takes it from `pools[i]` to `pools[i + 1]`.
pub open spec fn detach_run(pools: Seq<BytesPool>, lens: Seq<nat>) -> bool {
    &&& pools.len() == lens.len() + 1
    &&& forall|i: int|
        0 <= i < lens.len() ==> (#[trigger] pools[i]).detaches(lens[i], &pools[i + 1])
}

/// Sharing no bytes gives an empty view and changes neither the capacity nor
/// what is known of the pool's owners.
pub proof fn lemma_empty_share_changes_nothing(before: BytesPool, view: Bytes, after: BytesPool)
    requires
        before.wf(),
        view_bytes(view) == Seq::<u8>::empty(),
        before.detaches(0, &after),
    ensures
        view_bytes(view).len() == 0,
        after.wf(),
        after.capacity() == before.capacity(),
        after.may_be_shared() == before.may_be_shared(),
{
}

/// The capacity is a lower bound on what can be shared before the staging
/// buffer grows. In a run of detaches whose lengths add up to no more than the
/// capacity at the start, every piece fits in the capacity at hand, and the run
/// takes exactly the bytes it detached out of the capacity.
pub proof fn lemma_capacity_is_spent_without_growth(pools: Seq<BytesPool>, lens: Seq<nat>)
    requires
        detach_run(pools, lens),
        pools[0].wf(),
        total_len(lens) <= pools[0].capacity(),
    ensures
        forall|i: int| 0 <= i < lens.len() ==> lens[i] <= (#[trigger] pools[i]).capacity(),
        pools.last().wf(),
        pools.last().capacity() == pools[0].capacity() - total_len(lens),
    decreases lens.len(),
{
    if lens.len() > 0 {
        let n = lens.len() - 1;
        let head_pools = pools.drop_last();
        let head_lens = lens.drop_last();
        assert forall|i: int| 0 <= i < head_lens.len() implies (#[trigger] head_pools[i]).detaches(
            head_lens[i],
            &head_pools[i + 1],
        ) by {
            assert(pools[i].detaches(lens[i], &pools[i + 1]));
        }
        lemma_capacity_is_spent_without_growth(head_pools, head_lens);
        assert(head_pools.last() == pools[n]);
        assert(pools[n].detaches(lens[n], &pools[n + 1]));
        assert forall|i: int| 0 <= i < lens.len() implies lens[i] <= (#[trigger] pools[i]).capacity() by {
            if i < n {
                assert(head_pools[i] == pools[i]);
            }
        }
    }
}

/// Room that was reserved is spent without growth. After room for `room` bytes
/// was reserved, any run of detaches whose lengths add up to no more than
/// `room` finds every piece fitting in the capacity at hand.
pub proof fn lemma_reserved_room_is_spent_without_growth(
    before: BytesPool,
    room: usize,
    pools: Seq<BytesPool>,
    lens: Seq<nat>,
)
    requires
        before.wf(),
        detach_run(pools, lens),
        before.reserves(room, &pools[0]),
        total_len(lens) <= room,
    ensures
        forall|i: int| 0 <= i < lens.len() ==> lens[i] <= (#[trigger] pools[i]).capacity(),
        pools.last().capacity() == pools[0].capacity() - total_len(lens),
        pools.last().capacity() >= before.capacity() - total_len(lens),
{
    lemma_capacity_is_spent_without_growth(pools, lens);
}

/// Room that was reclaimed is spent without growth. After a reclaim of room
/// for `room` bytes was granted, any run of detaches whose lengths add up to no
/// more than `room` finds every piece fitting in the capacity at hand.
pub proof fn lemma_reclaimed_room_is_spent_without_growth(
    before: BytesPool,
    room: usize,
    pools: Seq<BytesPool>,
    lens: Seq<nat>,
)
    requires
        before.wf(),
        detach_run(pools, lens),
        before.reclaims(room, true, &pools[0]),
        total_len(lens) <= room,
    ensures
        forall|i: int| 0 <= i < lens.len() ==> lens[i] <= (#[trigger] pools[i]).capacity(),
        pools.last().capacity() == pools[0].capacity() - total_len(lens),
        pools.last().capacity() >= before.capacity() - total_len(lens),
{
    lemma_capacity_is_spent_without_growth(pools, lens);
}

/// A pool that owns its allocation alone is never refused room it already
/// has. So a reclaim is refused only where a view may hold a part of the
/// allocation or the room is not at hand, and a refusal leaves the pool as it
/// was. A reservation that follows provides the room.
pub proof fn lemma_refused_reclaim_changes_nothing(
    before: BytesPool,
    additional: usize,
    refused: BytesPool,
    after: BytesPool,
)
    requires
        before.wf(),
        before.reclaims(additional, false, &refused),
        refused.reserves(additional, &after),
    ensures
        before.may_be_shared() || additional > before.capacity(),
        refused.capacity() == before.capacity(),
        refused.may_be_shared() == before.may_be_shared(),
        after.capacity() >= additional,
        after.capacity() >= before.capacity(),
{
}

/// Sole ownership lasts until the next view of at least one byte. Once a
/// reclaim was granted, or a reservation had to grow the staging buffer, the
/// pool owns its allocation alone; empty shares, reservations and reclaims do
/// not change that, and every reclaim of room at hand is granted.
pub proof fn lemma_sole_owner_is_granted_room_at_hand(
    owner: BytesPool,
    idle: BytesPool,
    reserved: BytesPool,
    room: usize,
    additional: usize,
    ok: bool,
    after: BytesPool,
)
    requires
        owner.wf(),
        !owner.may_be_shared(),
        owner.detaches(0, &idle),
        idle.reserves(room, &reserved),
        reserved.reclaims(additional, ok, &after),
        additional <= reserved.capacity(),
    ensures
        ok,
        after.capacity() == reserved.capacity(),
        !after.may_be_shared(),
{
}

/// A reservation that had to grow the staging buffer leaves the pool as the
/// only owner of the room it writes to, whatever views were made before: a
/// reclaim of room at hand that follows is granted.
pub proof fn lemma_growth_restores_sole_ownership(
    before: BytesPool,
    len: nat,
    shared: BytesPool,
    room: usize,
    grown: BytesPool,
    additional: usize,
    ok: bool,
    after: BytesPool,
)
    requires
        before.wf(),
        before.detaches(len, &shared),
        shared.reserves(room, &grown),
        room > shared.capacity(),
        grown.reclaims(additional, ok, &after),
        additional <= grown.capacity(),
    ensures
        ok,
        after.capacity() == grown.capacity(),
        after.capacity() >= room,
{
}

/// Room at hand is not handed to a pool on trust once it has shared bytes.
/// After a share of at least one byte, a reclaim is granted only where the
/// buffer took back room from views that were released: the capacity has
/// risen, whatever was asked for. Were the capacity to stay, the reclaim was
/// refused.
pub proof fn lemma_grant_after_a_share_raises_capacity(
    before: BytesPool,
    len: nat,
    shared: BytesPool,
    additional: usize,
    ok: bool,
    after: BytesPool,
)
    requires
        before.wf(),
        len > 0,
        before.detaches(len, &shared),
        shared.reclaims(additional, ok, &after),
    ensures
        ok ==> after.capacity() > shared.capacity() && !after.may_be_shared(),
        after.capacity() == shared.capacity() ==> !ok && after.may_be_shared(),
{
}

/// A granted reclaim confirms that no view holds the allocation any more: a
/// second reclaim, of any room that is then at hand, is granted as well.
pub proof fn lemma_grant_restores_sole_ownership(
    before: BytesPool,
    len: nat,
    shared: BytesPool,
    first: usize,
    reclaimed: BytesPool,
    second: usize,
    ok: bool,
    after: BytesPool,
)
    requires
        before.wf(),
        before.detaches(len, &shared),
        shared.reclaims(first, true, &reclaimed),
        reclaimed.reclaims(second, ok, &after),
        second <= first || second <= reclaimed.capacity(),
    ensures
        ok,
        after.capacity() == reclaimed.capacity(),
        after.capacity() >= shared.capacity(),
{
}

} // verus!
