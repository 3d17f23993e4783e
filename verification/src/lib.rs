//! A reference-counted, COM-style object protocol.
//!
//! Every object answers three base operations: identify
//! (`query_interface`), acquire (`add_ref`) and release. An object is made
//! with one reference, lives while any reference is held, and is reclaimed by
//! the release that gives the last one back.
//!
//! * [`guid`]: interface identifiers and their comparison.
//! * [`hresult`]: the result codes that the operations report.
//! * [`refcount`]: the lifetime rules as a state machine, and what follows
//!   from them for every sequence of acquires and releases.
//! * [`heap`]: the storage that objects are allocated from. Objects are
//!   named by non-null addresses, so that the operations can say what they
//!   do to the object, to its holders' pointers and to the rest of memory.
//! * [`blob`]: the byte-buffer object and the operations on it.
//! * [`com_ptr`]: the owning handle, which stands for one held reference.
//! * [`shared`]: the atomic counter for objects that several threads hold.

pub mod guid;
pub mod hresult;
pub mod refcount;
pub mod heap;
pub mod blob;
pub mod com_ptr;
pub mod shared;
