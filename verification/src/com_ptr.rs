//! The owning handle: one held reference to a managed object.

use std::marker::PhantomData;
use vstd::prelude::*;
use crate::blob::{release, VecBlob};
use crate::guid::Interface;
use crate::heap::{heap_after_release, Heap};

verus! {

/// A non-null pointer to an object seen through the interface `T`, standing
/// for one reference that its owner holds.
///
/// A handle cannot be copied: a second handle to the same object stands for
/// a second reference, which has to be acquired. Giving the handle up with
/// [`ComPtr::drop`] gives its reference back, once.
pub struct ComPtr<T: Interface> {
    ptr: usize,
    interface: PhantomData<T>,
}

impl<T: Interface> ComPtr<T> {
    #[verifier::type_invariant]
    spec fn non_null(&self) -> bool {
        self.ptr != 0
    }

    /// The address of the object that the handle points to.
    pub closed spec fn addr(&self) -> usize {
        self.ptr
    }

    /// Wraps a pointer that already stands for one held reference. The
    /// count is not touched.
    pub fn new(object_ptr: usize) -> (handle: Self)
        requires
            object_ptr != 0,
        ensures
            handle.addr() == object_ptr,
    {
        ComPtr { ptr: object_ptr, interface: PhantomData }
    }

    /// The held pointer. The handle keeps its reference.
    pub fn as_raw(&self) -> (object_ptr: usize)
        ensures
            object_ptr == self.addr(),
            object_ptr != 0,
    {
        proof {
            use_type_invariant(self);
        }
        self.ptr
    }

    /// Gives the handle up, releasing its reference through the base
    /// protocol, and returns the object's new count.
    pub fn drop(self, heap: &mut Heap) -> (count: u32)
        requires
            old(heap).wf(),
            old(heap)@.dom().contains(self.addr()),
        ensures
            final(heap).wf(),
            final(heap)@ == heap_after_release(old(heap)@, self.addr()),
            count == old(heap)@[self.addr()].count - 1,
            count == 0 <==> !final(heap)@.dom().contains(self.addr()),
    {
        release(heap, self.ptr)
    }
}

impl ComPtr<VecBlob> {
    /// The object that the handle points to, for as long as the handle's
    /// reference keeps it alive.
    pub fn deref<'a>(&self, heap: &'a Heap) -> (object: &'a VecBlob)
        requires
            heap@.dom().contains(self.addr()),
        ensures
            object@ == heap@[self.addr()],
    {
        heap.object(self.ptr)
    }
}

} // verus!
