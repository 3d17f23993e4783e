//! The byte-buffer object: a managed object over an immutable byte sequence,
//! and the operations that its holders reach it through.

use vstd::prelude::*;
use vstd::slice::slice_to_vec;
use vstd::utf8::encode_utf8;
use crate::guid::{eq_guid, same_guid, uuid, IUnknown, Interface, Uuid};
use crate::heap::{heap_after_acquire, heap_after_release, heap_with_object, Heap, ObjectView};
use crate::hresult::{HResult, E_INVALIDARG, E_NOINTERFACE, S_OK};
use crate::refcount::{acquired, released, Disposal};

verus! {

/// A reference-counted, immutable byte buffer.
pub struct VecBlob {
    ref_count: u32,
    data: Vec<u8>,
}

impl View for VecBlob {
    type V = ObjectView;

    closed spec fn view(&self) -> ObjectView {
        ObjectView { count: self.ref_count as nat, bytes: self.data@ }
    }
}

impl Interface for VecBlob {
    open spec fn spec_iid() -> Uuid {
        Uuid {
            data1: 0x8ba5fb08,
            data2: 0x5195,
            data3: 0x40e2,
            data4: [0xac, 0x58, 0x0d, 0x98, 0x9c, 0x3a, 0x01, 0x02],
        }
    }

    fn iid() -> (id: Uuid) {
        uuid(0x8ba5fb08, 0x5195, 0x40e2, [0xac, 0x58, 0x0d, 0x98, 0x9c, 0x3a, 0x01, 0x02])
    }
}

impl VecBlob {
    /// Allocates a buffer object that owns `data` and returns its address.
    /// The caller holds the object's first and only reference.
    pub fn from_vec(heap: &mut Heap, data: Vec<u8>) -> (this: usize)
        requires
            old(heap).wf(),
        ensures
            final(heap).wf(),
            this != 0,
            !old(heap)@.dom().contains(this),
            final(heap)@ == heap_with_object(old(heap)@, this, data@),
    {
        let object = VecBlob { ref_count: 1, data };
        heap.allocate(object)
    }

    /// Allocates a buffer object over a copy of `data`.
    pub fn from_slice(heap: &mut Heap, data: &[u8]) -> (this: usize)
        requires
            old(heap).wf(),
        ensures
            final(heap).wf(),
            this != 0,
            !old(heap)@.dom().contains(this),
            final(heap)@ == heap_with_object(old(heap)@, this, data@),
    {
        Self::from_vec(heap, slice_to_vec(data))
    }

    /// Allocates a buffer object over the UTF-8 encoding of `s`.
    pub fn from_string(heap: &mut Heap, s: String) -> (this: usize)
        requires
            old(heap).wf(),
        ensures
            final(heap).wf(),
            this != 0,
            !old(heap)@.dom().contains(this),
            final(heap)@ == heap_with_object(old(heap)@, this, encode_utf8(s@)),
    {
        Self::from_vec(heap, slice_to_vec(s.as_str().as_bytes()))
    }

    /// Allocates a buffer object over the UTF-8 encoding of `s`.
    pub fn from_str(heap: &mut Heap, s: &str) -> (this: usize)
        requires
            old(heap).wf(),
        ensures
            final(heap).wf(),
            this != 0,
            !old(heap)@.dom().contains(this),
            final(heap)@ == heap_with_object(old(heap)@, this, encode_utf8(s@)),
    {
        Self::from_vec(heap, slice_to_vec(s.as_bytes()))
    }

    /// The number of references currently held to this object.
    pub fn ref_count(&self) -> (count: u32)
        ensures
            count == self@.count,
    {
        self.ref_count
    }

    /// The object's bytes.
    pub fn as_bytes(&self) -> (bytes: &[u8])
        ensures
            bytes@ == self@.bytes,
    {
        self.data.as_slice()
    }
}

/// The identifiers that a buffer object answers to: the base interface's
/// and its own.
pub open spec fn answers_to(id: Uuid) -> bool {
    same_guid(id, IUnknown::spec_iid()) || same_guid(id, VecBlob::spec_iid())
}

/// The code that an identity query reports. `uuid` is `None` where the
/// caller passed a null identifier, and `out_is_null` says the same of
/// the output pointer.
pub open spec fn query_code(uuid: Option<Uuid>, out_is_null: bool) -> HResult {
    match uuid {
        Some(id) if !out_is_null => if answers_to(id) {
            S_OK
        } else {
            E_NOINTERFACE
        },
        _ => E_INVALIDARG,
    }
}

/// Decides which code an identity query reports, without touching the
/// object.
pub fn decide_query(uuid: Option<&Uuid>, out_is_null: bool) -> (code: HResult)
    ensures
        code == query_code(
            match uuid {
                Some(id) => Some(*id),
                None => None,
            },
            out_is_null,
        ),
{
    match uuid {
        Some(id) => {
            if out_is_null {
                E_INVALIDARG
            } else if eq_guid(id, &IUnknown::iid()) || eq_guid(id, &VecBlob::iid()) {
                S_OK
            } else {
                E_NOINTERFACE
            }
        },
        None => E_INVALIDARG,
    }
}

/// The heap after an identity query on the object at `this` that reported
/// `code`: a successful query takes a reference, any other leaves the heap
/// as it was.
pub open spec fn heap_after_query(h: Map<usize, ObjectView>, this: usize, code: HResult) -> Map<
    usize,
    ObjectView,
> {
    if code == S_OK {
        heap_after_acquire(h, this)
    } else {
        h
    }
}

/// What an identity query that reported `code` leaves in an output slot
/// that it can write to: the object's address on success, and null after
/// every failure, so that no stale pointer is left behind.
pub open spec fn out_after_query(this: usize, code: HResult) -> usize {
    if code == S_OK {
        this
    } else {
        0
    }
}

/// What an identity query does, settled before anything is touched.
pub struct QueryPlan {
    /// The code to report.
    pub code: HResult,
    /// Whether the caller takes one more reference to the object.
    pub acquire: bool,
    /// The pointer to write to the output slot, or `None` where the caller
    /// gave no slot to write to.
    pub write: Option<usize>,
}

/// The plan of an identity query on the object at `this`. A reference is
/// taken on success only, and every query that has an output slot writes
/// to it.
pub open spec fn query_plan(this: usize, uuid: Option<Uuid>, out_is_null: bool) -> QueryPlan {
    let code = query_code(uuid, out_is_null);
    QueryPlan {
        code,
        acquire: code == S_OK,
        write: if out_is_null {
            None
        } else {
            Some(out_after_query(this, code))
        },
    }
}

/// Plans an identity query on the object at `this` without touching it:
/// the code to report, whether to take a reference, and what to write to
/// the output slot.
pub fn plan_query(this: usize, uuid: Option<&Uuid>, out_is_null: bool) -> (plan: QueryPlan)
    ensures
        plan == query_plan(
            this,
            match uuid {
                Some(id) => Some(*id),
                None => None,
            },
            out_is_null,
        ),
{
    let code = decide_query(uuid, out_is_null);
    let acquire = code == S_OK;
    let pointer: usize = if acquire {
        this
    } else {
        0
    };
    let write = if out_is_null {
        None
    } else {
        Some(pointer)
    };
    QueryPlan { code, acquire, write }
}

/// Identify: asks the object at `this` for the interface named by `uuid`.
///
/// A null `uuid` or `out_object` is `None`. Where the object answers to the
/// identifier, its address is written to `out_object` and the caller holds
/// one more reference. Every other query fails: the count is left alone, and
/// null is written to `out_object` wherever there is one.
pub fn query_interface(
    heap: &mut Heap,
    this: usize,
    uuid: Option<&Uuid>,
    out_object: Option<&mut usize>,
) -> (code: HResult)
    requires
        old(heap).wf(),
        old(heap)@.dom().contains(this),
        uuid is Some && out_object is Some && answers_to(*uuid->0) ==> old(heap)@[this].count
            < u32::MAX,
    ensures
        final(heap).wf(),
        code == query_code(
            match uuid {
                Some(id) => Some(*id),
                None => None,
            },
            out_object is None,
        ),
        final(heap)@ == heap_after_query(old(heap)@, this, code),
        match out_object {
            Some(out) => *final(out) == out_after_query(this, code),
            None => true,
        },
{
    let plan = plan_query(this, uuid, out_object.is_none());
    if plan.acquire {
        let object = heap.object_mut(this);
        object.ref_count = acquired(object.ref_count);
    }
    match (out_object, plan.write) {
        (Some(out), Some(pointer)) => {
            *out = pointer;
        },
        _ => {},
    }
    plan.code
}

/// Acquire: takes one more reference to the object at `this` and returns
/// the new count.
pub fn add_ref(heap: &mut Heap, this: usize) -> (count: u32)
    requires
        old(heap).wf(),
        old(heap)@.dom().contains(this),
        old(heap)@[this].count < u32::MAX,
    ensures
        final(heap).wf(),
        final(heap)@ == heap_after_acquire(old(heap)@, this),
        count == final(heap)@[this].count,
{
    let object = heap.object_mut(this);
    let prev = object.ref_count;
    object.ref_count = acquired(prev);
    object.ref_count
}

/// Release: gives back one reference to the object at `this` and returns
/// the new count. The release that brings the count to zero reclaims the
/// object's storage.
pub fn release(heap: &mut Heap, this: usize) -> (count: u32)
    requires
        old(heap).wf(),
        old(heap)@.dom().contains(this),
    ensures
        final(heap).wf(),
        final(heap)@ == heap_after_release(old(heap)@, this),
        count == old(heap)@[this].count - 1,
        count == 0 <==> !final(heap)@.dom().contains(this),
{
    proof {
        heap.lemma_wf();
    }
    let object = heap.object_mut(this);
    let prev = object.ref_count;
    let (count, disposal) = released(prev);
    object.ref_count = count;
    match disposal {
        Disposal::Destroy => {
            heap.free(this);
            0
        },
        Disposal::Keep => count,
    }
}

/// The bytes of the buffer object at `this`, from the first on.
pub fn get_buffer_pointer(heap: &Heap, this: usize) -> (buffer: &[u8])
    requires
        heap@.dom().contains(this),
    ensures
        buffer@ == heap@[this].bytes,
{
    heap.object(this).as_bytes()
}

/// The length in bytes of the buffer object at `this`.
pub fn get_buffer_size(heap: &Heap, this: usize) -> (size: usize)
    requires
        heap@.dom().contains(this),
    ensures
        size == heap@[this].bytes.len(),
{
    heap.object(this).as_bytes().len()
}

/// Round trip: a freshly made buffer object holds exactly the bytes it was
/// made from, under one reference, and the accessors read them back.
pub proof fn lemma_fresh_buffer_round_trip(h: Map<usize, ObjectView>, this: usize, bytes: Seq<u8>)
    ensures
        heap_with_object(h, this, bytes).dom().contains(this),
        heap_with_object(h, this, bytes)[this].bytes == bytes,
        heap_with_object(h, this, bytes)[this].bytes.len() == bytes.len(),
        heap_with_object(h, this, bytes)[this].count == 1,
{
}

/// The payload is immutable: no protocol operation that leaves the object
/// alive changes its bytes.
pub proof fn lemma_payload_is_immutable(h: Map<usize, ObjectView>, this: usize, code: HResult)
    requires
        h.dom().contains(this),
    ensures
        heap_after_acquire(h, this)[this].bytes == h[this].bytes,
        heap_after_query(h, this, code)[this].bytes == h[this].bytes,
        heap_after_release(h, this).dom().contains(this) ==> heap_after_release(h, this)[this].bytes
            == h[this].bytes,
{
}

/// An identity query on a live object, given both pointers, succeeds for
/// the base identifier and for the object's own: it hands out the object's
/// address and takes one reference. For any other identifier it reports the
/// missing interface, hands out null and leaves the heap as it was.
pub proof fn lemma_query_by_identifier(h: Map<usize, ObjectView>, this: usize, id: Uuid)
    requires
        h.dom().contains(this),
    ensures
        answers_to(IUnknown::spec_iid()),
        answers_to(VecBlob::spec_iid()),
        answers_to(id) ==> {
            &&& query_code(Some(id), false) == S_OK
            &&& query_plan(this, Some(id), false) == (QueryPlan {
                code: S_OK,
                acquire: true,
                write: Some(this),
            })
            &&& out_after_query(this, query_code(Some(id), false)) == this
            &&& heap_after_query(h, this, query_code(Some(id), false))[this].count == h[this].count
                + 1
        },
        !answers_to(id) ==> {
            &&& query_code(Some(id), false) == E_NOINTERFACE
            &&& query_plan(this, Some(id), false) == (QueryPlan {
                code: E_NOINTERFACE,
                acquire: false,
                write: Some(0usize),
            })
            &&& out_after_query(this, query_code(Some(id), false)) == 0
            &&& heap_after_query(h, this, query_code(Some(id), false)) == h
        },
{
}

/// A query with a null identifier or a null output pointer is malformed: it
/// reports the invalid argument, takes no reference and leaves the heap as
/// it was. Where it has an output slot, it leaves null there.
pub proof fn lemma_query_with_null_argument(
    h: Map<usize, ObjectView>,
    this: usize,
    uuid: Option<Uuid>,
    out_is_null: bool,
)
    requires
        uuid is None || out_is_null,
    ensures
        query_code(uuid, out_is_null) == E_INVALIDARG,
        query_code(uuid, out_is_null) < 0,
        !query_plan(this, uuid, out_is_null).acquire,
        out_after_query(this, query_code(uuid, out_is_null)) == 0,
        !out_is_null ==> query_plan(this, uuid, out_is_null).write == Some(0usize),
        out_is_null ==> query_plan(this, uuid, out_is_null).write is None,
        heap_after_query(h, this, query_code(uuid, out_is_null)) == h,
{
}

/// A query never half succeeds: it reports success exactly when it takes a
/// reference, and then it hands out the object's address. Otherwise the
/// pointer it hands out is null.
pub proof fn lemma_query_is_all_or_nothing(this: usize, uuid: Option<Uuid>, out_is_null: bool)
    ensures
        query_plan(this, uuid, out_is_null).acquire <==> query_plan(this, uuid, out_is_null).code
            == S_OK,
        query_plan(this, uuid, out_is_null).code == S_OK ==> query_plan(
            this,
            uuid,
            out_is_null,
        ).write == Some(this),
        query_plan(this, uuid, out_is_null).code != S_OK ==> {
            ||| query_plan(this, uuid, out_is_null).write == Some(0usize)
            ||| query_plan(this, uuid, out_is_null).write is None
        },
{
}

} // verus!
