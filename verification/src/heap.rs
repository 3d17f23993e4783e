//! The object heap: which addresses hold a live object, and what it is.

use vstd::prelude::*;
use crate::blob::VecBlob;
use crate::refcount::{
    count_after_acquire, count_after_release, disposal_after_release, held_throughout,
    lemma_count_follows_holders, lemma_held_before_last, outstanding, run, step, Disposal, Lifetime, Op,
};

verus! {

/// What a holder can observe of a managed object.
pub struct ObjectView {
    /// The number of references currently held.
    pub count: nat,
    /// The immutable payload.
    pub bytes: Seq<u8>,
}

/// The heap after a fresh object with payload `bytes` was placed at `addr`:
/// its creator is its first holder.
pub open spec fn heap_with_object(
    h: Map<usize, ObjectView>,
    addr: usize,
    bytes: Seq<u8>,
) -> Map<usize, ObjectView> {
    h.insert(addr, ObjectView { count: 1, bytes })
}

/// The heap after one more reference to the object at `addr` was taken.
pub open spec fn heap_after_acquire(h: Map<usize, ObjectView>, addr: usize) -> Map<
    usize,
    ObjectView,
> {
    h.insert(
        addr,
        ObjectView { count: count_after_acquire(h[addr].count), bytes: h[addr].bytes },
    )
}

/// The heap after one reference to the object at `addr` was given back: the
/// last one takes the object with it.
pub open spec fn heap_after_release(h: Map<usize, ObjectView>, addr: usize) -> Map<
    usize,
    ObjectView,
> {
    if disposal_after_release(h[addr].count) == Disposal::Destroy {
        h.remove(addr)
    } else {
        h.insert(
            addr,
            ObjectView { count: count_after_release(h[addr].count), bytes: h[addr].bytes },
        )
    }
}

/// Where the object at `addr` is in its life, as the heap shows it.
pub open spec fn lifetime_at(h: Map<usize, ObjectView>, addr: usize) -> Lifetime {
    if h.dom().contains(addr) {
        Lifetime::Live { count: h[addr].count }
    } else {
        Lifetime::Destroyed
    }
}

/// The heap after one lifetime operation on the object at `addr`.
pub open spec fn heap_after_op(h: Map<usize, ObjectView>, addr: usize, op: Op) -> Map<
    usize,
    ObjectView,
> {
    match op {
        Op::Acquire => heap_after_acquire(h, addr),
        Op::Release => heap_after_release(h, addr),
    }
}

/// The heap moves an object through its life as the lifetime rules say, and
/// an operation on one object leaves the rest of the heap as it was.
pub proof fn lemma_heap_follows_lifetime(h: Map<usize, ObjectView>, addr: usize, op: Op)
    requires
        h.dom().contains(addr),
        h[addr].count >= 1,
    ensures
        lifetime_at(heap_after_op(h, addr, op), addr) == step(lifetime_at(h, addr), op),
        heap_after_op(h, addr, op).remove(addr) == h.remove(addr),
{
    assert(heap_after_op(h, addr, op).remove(addr) =~= h.remove(addr));
}

/// The heap after the lifetime operations of `ops`, in order, on the object
/// at `addr`.
pub open spec fn heap_after_ops(h: Map<usize, ObjectView>, addr: usize, ops: Seq<Op>) -> Map<
    usize,
    ObjectView,
>
    decreases ops.len(),
{
    if ops.len() == 0 {
        h
    } else {
        heap_after_op(heap_after_ops(h, addr, ops.drop_last()), addr, ops.last())
    }
}

/// Where the holders of an object keep to the protocol, the heap keeps the
/// object, with its bytes and with a count equal to the references
/// outstanding, until the last reference is given back, and frees it then.
/// The rest of the heap stays as it was.
pub proof fn lemma_heap_follows_holders(h: Map<usize, ObjectView>, addr: usize, ops: Seq<Op>)
    requires
        h.dom().contains(addr),
        h[addr].count >= 1,
        held_throughout(h[addr].count, ops),
    ensures
        lifetime_at(heap_after_ops(h, addr, ops), addr) == run(lifetime_at(h, addr), ops),
        heap_after_ops(h, addr, ops).dom().contains(addr) <==> outstanding(h[addr].count, ops)
            >= 1,
        heap_after_ops(h, addr, ops).dom().contains(addr) ==> {
            &&& heap_after_ops(h, addr, ops)[addr].count == outstanding(h[addr].count, ops)
            &&& heap_after_ops(h, addr, ops)[addr].bytes == h[addr].bytes
        },
        heap_after_ops(h, addr, ops).remove(addr) == h.remove(addr),
    decreases ops.len(),
{
    let initial = h[addr].count;
    lemma_count_follows_holders(initial, ops);
    if ops.len() > 0 {
        let front = ops.drop_last();
        lemma_held_before_last(initial, ops);
        lemma_heap_follows_holders(h, addr, front);
        lemma_count_follows_holders(initial, front);
        lemma_heap_follows_lifetime(heap_after_ops(h, addr, front), addr, ops.last());
    }
}

/// The storage that managed objects are allocated from and returned to.
///
/// An address is an index into the heap. Address zero is the null pointer
/// and never holds an object; an address that was freed is not handed out
/// again.
pub struct Heap {
    slots: Vec<Option<VecBlob>>,
}

impl View for Heap {
    type V = Map<usize, ObjectView>;

    closed spec fn view(&self) -> Map<usize, ObjectView> {
        Map::new(
            |a: usize| 0 <= a < self.slots@.len() && self.slots@[a as int] is Some,
            |a: usize| self.slots@[a as int]->0@,
        )
    }
}

impl Heap {
    /// The invariant but for the object at `addr`, whose count may be zero
    /// for the moment between its last release and its reclamation.
    pub(crate) closed spec fn wf_apart_from(&self, addr: usize) -> bool {
        &&& self.slots@.len() >= 1
        &&& self.slots@[0] is None
        &&& forall|i: int|
            0 <= i < self.slots@.len() && i != addr && (#[trigger] self.slots@[i]) is Some
                ==> self.slots@[i]->0@.count >= 1
    }

    /// The heap's invariant: null holds nothing, and every live object has
    /// at least one holder.
    pub closed spec fn wf(&self) -> bool {
        &&& self.slots@.len() >= 1
        &&& self.slots@[0] is None
        &&& forall|i: int|
            0 <= i < self.slots@.len() && (#[trigger] self.slots@[i]) is Some
                ==> self.slots@[i]->0@.count >= 1
    }

    /// In a well-formed heap no object lives at null, and every live object
    /// has a holder.
    pub proof fn lemma_wf(&self)
        requires
            self.wf(),
        ensures
            !self@.dom().contains(0),
            forall|a: usize| self@.dom().contains(a) ==> (#[trigger] self@[a]).count >= 1,
    {
    }

    /// An empty heap.
    pub fn new() -> (heap: Heap)
        ensures
            heap.wf(),
            heap@ == Map::<usize, ObjectView>::empty(),
    {
        let mut slots: Vec<Option<VecBlob>> = Vec::new();
        slots.push(None);
        let heap = Heap { slots };
        assert(heap@ =~= Map::<usize, ObjectView>::empty());
        heap
    }

    /// Tells whether `addr` holds a live object.
    pub fn is_allocated(&self, addr: usize) -> (live: bool)
        ensures
            live == self@.dom().contains(addr),
    {
        addr < self.slots.len() && self.slots[addr].is_some()
    }

    /// Places `object` at a fresh address and returns that address.
    pub(crate) fn allocate(&mut self, object: VecBlob) -> (addr: usize)
        requires
            old(self).wf(),
            object@.count >= 1,
        ensures
            final(self).wf(),
            addr != 0,
            !old(self)@.dom().contains(addr),
            final(self)@ == old(self)@.insert(addr, object@),
    {
        let addr = self.slots.len();
        self.slots.push(Some(object));
        assert(final(self)@ =~= old(self)@.insert(addr, object@));
        addr
    }

    /// The object at `addr`.
    pub(crate) fn object(&self, addr: usize) -> (object: &VecBlob)
        requires
            self@.dom().contains(addr),
        ensures
            object@ == self@[addr],
    {
        self.slots[addr].as_ref().unwrap()
    }

    /// The object at `addr`, for the protocol's operations to update.
    pub(crate) fn object_mut(&mut self, addr: usize) -> (object: &mut VecBlob)
        requires
            old(self).wf(),
            old(self)@.dom().contains(addr),
        ensures
            object@ == old(self)@[addr],
            final(self)@ == old(self)@.insert(addr, final(object)@),
            final(self).wf_apart_from(addr),
            final(object)@.count >= 1 ==> final(self).wf(),
    {
        self.slots[addr].as_mut().unwrap()
    }

    /// Reclaims the storage of the object at `addr`.
    pub(crate) fn free(&mut self, addr: usize)
        requires
            old(self).wf_apart_from(addr),
            old(self)@.dom().contains(addr),
        ensures
            final(self).wf(),
            final(self)@ == old(self)@.remove(addr),
    {
        self.slots[addr] = None;
        assert(final(self)@ =~= old(self)@.remove(addr));
    }
}

} // verus!
