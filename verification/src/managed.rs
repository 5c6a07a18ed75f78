//! Wrappers that track who owns a native object, and the table of handles
//! under which the scripting side knows such objects.
//!
//! The object system's operations (take a reference, drop one, copy a
//! boxed value, free one) are not performed here. A function that calls
//! for one returns it as a [`NativeOp`]; the embedding performs it on the
//! native-loop thread.

use vstd::prelude::*;
use std::collections::HashMap;
use crate::types::GType;

pub mod boxed;
pub mod fundamental;

pub use boxed::{Boxed, BoxedSource};
pub use fundamental::Fundamental;

verus! {

/// An operation of the object system on the value at `ptr`.
#[derive(Debug, Clone, Copy, PartialEq, Eq, Structural)]
pub enum NativeOp {
    /// Take a reference to a reference-counted object.
    ObjectRef { ptr: usize },
    /// Drop a reference to a reference-counted object.
    ObjectUnref { ptr: usize },
    /// Copy a boxed value of type `gtype`; gives the address of the copy.
    BoxedCopy { gtype: GType, ptr: usize },
    /// Free a boxed value of type `gtype`.
    BoxedFree { gtype: GType, ptr: usize },
    /// Allocate `size` bytes and copy them from `ptr`; gives the address
    /// of the copy.
    RawCopy { ptr: usize, size: usize },
    /// Free what a raw copy allocated.
    RawFree { ptr: usize },
    /// Call the reference function at `func`.
    FundamentalRef { func: usize, ptr: usize },
    /// Call the release function at `func`.
    FundamentalUnref { func: usize, ptr: usize },
    /// Take a reference to a variant, sinking a floating one.
    VariantRefSink { ptr: usize },
    /// Take a reference to a variant.
    VariantRef { ptr: usize },
    /// Drop a reference to a variant.
    VariantUnref { ptr: usize },
}

/// A reference-counted object of the object system, by its address. The
/// wrapper stands for one reference.
#[derive(Debug, Clone, Copy, PartialEq, Eq, Structural)]
pub struct GObject {
    pub ptr: usize,
}

impl GObject {
    /// Wraps a pointer that the caller does not own: the reference that
    /// the wrapper stands for has yet to be taken.
    pub fn from_glib_none(ptr: usize) -> (r: (Self, NativeOp))
        ensures
            r.0.ptr == ptr,
            r.1 == (NativeOp::ObjectRef { ptr }),
    {
        (GObject { ptr }, NativeOp::ObjectRef { ptr })
    }

    /// A second wrapper of the same object: the pointer is shared and one
    /// more reference is to be taken.
    pub fn share(&self) -> (r: (Self, NativeOp))
        ensures
            r.0.ptr == self.ptr,
            r.1 == (NativeOp::ObjectRef { ptr: self.ptr }),
    {
        (GObject { ptr: self.ptr }, NativeOp::ObjectRef { ptr: self.ptr })
    }

    /// Gives the wrapper up: its reference is to be dropped.
    pub fn release(self) -> (r: NativeOp)
        ensures
            r == (NativeOp::ObjectUnref { ptr: self.ptr }),
    {
        NativeOp::ObjectUnref { ptr: self.ptr }
    }
}

/// A native object under management.
#[derive(Debug, PartialEq, Eq)]
pub enum NativeValue {
    GObject(GObject),
    Boxed(Boxed),
    Fundamental(Fundamental),
}

impl NativeValue {
    /// The address of the object.
    pub open spec fn spec_as_ptr(&self) -> usize {
        match self {
            NativeValue::GObject(o) => o.ptr,
            NativeValue::Boxed(b) => b.spec_as_ptr(),
            NativeValue::Fundamental(f) => f.spec_as_ptr(),
        }
    }

    /// The address of the object.
    #[verifier::when_used_as_spec(spec_as_ptr)]
    pub fn as_ptr(&self) -> (r: usize)
        ensures
            r == self.spec_as_ptr(),
    {
        match self {
            NativeValue::GObject(o) => o.ptr,
            NativeValue::Boxed(b) => b.as_ptr(),
            NativeValue::Fundamental(f) => f.as_ptr(),
        }
    }
}

/// The handle under which the scripting side knows a managed object.
#[derive(Debug, Clone, Copy, PartialEq, Eq, Structural)]
pub struct NativeHandle {
    pub id: u64,
}

impl NativeHandle {
    pub fn inner(&self) -> (r: u64)
        ensures
            r == self.id,
    {
        self.id
    }

    /// The address of the object behind the handle, unless the handle no
    /// longer resolves.
    pub fn get_ptr(&self, handles: &HandleMap) -> (r: Option<usize>)
        ensures
            r == handles.ptr_of(*self),
    {
        handles.get_ptr(*self)
    }

    /// The same under the name that marshaling code uses.
    pub fn as_ptr(&self, handles: &HandleMap) -> (r: Option<usize>)
        ensures
            r == handles.ptr_of(*self),
    {
        handles.get_ptr(*self)
    }
}

/// The table of live managed objects. Handles are given out in increasing
/// order, starting at one, and never again.
pub struct HandleMap {
    handle_map: HashMap<u64, NativeValue>,
    next: u64,
}

impl View for HandleMap {
    type V = Map<u64, NativeValue>;

    closed spec fn view(&self) -> Map<u64, NativeValue> {
        self.handle_map@
    }
}

impl HandleMap {
    /// The handle that the next insertion gives out.
    pub closed spec fn next_id(&self) -> u64 {
        self.next
    }

    /// Every live handle was given out before the next one.
    #[verifier::type_invariant]
    spec fn wf(&self) -> bool {
        &&& self.next >= 1
        &&& forall|id: u64| #[trigger] self.handle_map@.contains_key(id) ==> 1 <= id < self.next
    }

    /// The address behind a handle, if the handle is live.
    pub open spec fn ptr_of(&self, handle: NativeHandle) -> Option<usize> {
        if self@.contains_key(handle.id) {
            Some(self@[handle.id].spec_as_ptr())
        } else {
            None
        }
    }

    /// An empty table.
    pub fn new() -> (r: Self)
        ensures
            r@ == Map::<u64, NativeValue>::empty(),
            r.next_id() == 1,
    {
        HandleMap { handle_map: HashMap::new(), next: 1 }
    }

    /// Registers an object and gives out its handle: the next one, which
    /// no object has had before. Once every handle has been given out the
    /// object comes back.
    pub fn insert(&mut self, value: NativeValue) -> (r: Result<NativeHandle, NativeValue>)
        ensures
            old(self).next_id() < u64::MAX ==> r == Ok::<NativeHandle, NativeValue>(
                NativeHandle { id: old(self).next_id() },
            ) && !old(self)@.contains_key(old(self).next_id()) && final(self)@ == old(
                self,
            )@.insert(old(self).next_id(), value) && final(self).next_id() == old(self).next_id()
                + 1,
            old(self).next_id() == u64::MAX ==> r == Err::<NativeHandle, NativeValue>(value)
                && final(self)@ == old(self)@ && final(self).next_id() == old(self).next_id(),
    {
        broadcast use vstd::std_specs::hash::group_hash_axioms;

        proof {
            use_type_invariant(&*self);
        }
        if self.next == u64::MAX {
            return Err(value);
        }
        let mut taken = HandleMap { handle_map: HashMap::new(), next: 1 };
        std::mem::swap(self, &mut taken);
        let HandleMap { handle_map: mut map, next: id } = taken;
        map.insert(id, value);
        *self = HandleMap { handle_map: map, next: id + 1 };
        Ok(NativeHandle { id })
    }

    /// Takes an object out of the table. Its handle no longer resolves.
    pub fn remove(&mut self, handle: NativeHandle) -> (r: Option<NativeValue>)
        ensures
            final(self).next_id() == old(self).next_id(),
            final(self)@ == old(self)@.remove(handle.id),
            r == if old(self)@.contains_key(handle.id) {
                Some(old(self)@[handle.id])
            } else {
                None
            },
    {
        broadcast use vstd::std_specs::hash::group_hash_axioms;

        proof {
            use_type_invariant(&*self);
        }
        let mut taken = HandleMap { handle_map: HashMap::new(), next: 1 };
        std::mem::swap(self, &mut taken);
        let HandleMap { handle_map: mut map, next } = taken;
        let removed = map.remove(&handle.id);
        *self = HandleMap { handle_map: map, next };
        removed
    }

    /// Whether a handle is live. A live handle was given out before the
    /// next one.
    pub fn contains_key(&self, handle: NativeHandle) -> (r: bool)
        ensures
            r == self@.contains_key(handle.id),
            r ==> 1 <= handle.id < self.next_id(),
    {
        broadcast use vstd::std_specs::hash::group_hash_axioms;

        proof {
            use_type_invariant(self);
        }

        self.handle_map.contains_key(&handle.id)
    }

    /// The address of the object behind a handle, unless the handle no
    /// longer resolves.
    pub fn get_ptr(&self, handle: NativeHandle) -> (r: Option<usize>)
        ensures
            r == self.ptr_of(handle),
    {
        broadcast use vstd::std_specs::hash::group_hash_axioms;

        match self.handle_map.get(&handle.id) {
            Some(value) => Some(value.as_ptr()),
            None => None,
        }
    }
}

} // verus!
