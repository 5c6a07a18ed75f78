//! Variant values: reference-counted, with references that may float.

use vstd::prelude::*;
use crate::managed::NativeOp;

verus! {

/// A variant and whether the wrapper owns a reference to it.
#[derive(Debug, PartialEq, Eq)]
pub struct GVariant {
    ptr: usize,
    is_owned: bool,
}

impl GVariant {
    pub closed spec fn spec_as_ptr(&self) -> usize {
        self.ptr
    }

    pub closed spec fn spec_is_owned(&self) -> bool {
        self.is_owned
    }

    /// Wraps a reference that the caller owns and hands over.
    pub fn from_glib_full(ptr: usize) -> (r: Self)
        ensures
            r.spec_as_ptr() == ptr,
            r.spec_is_owned(),
    {
        GVariant { ptr, is_owned: true }
    }

    /// Wraps a borrowed pointer. The wrapper of a variant owns a
    /// reference, which the returned operation takes, sinking a floating
    /// one; the wrapper of null owns nothing.
    pub fn from_glib_none(ptr: usize) -> (r: (Self, Option<NativeOp>))
        ensures
            r.0.spec_as_ptr() == ptr,
            r.0.spec_is_owned() == (ptr != 0),
            r.1 == if ptr != 0 {
                Some(NativeOp::VariantRefSink { ptr })
            } else {
                None
            },
    {
        if ptr == 0 {
            return (GVariant { ptr: 0, is_owned: false }, None);
        }
        (GVariant { ptr, is_owned: true }, Some(NativeOp::VariantRefSink { ptr }))
    }

    #[verifier::when_used_as_spec(spec_as_ptr)]
    pub fn as_ptr(&self) -> (r: usize)
        ensures
            r == self.spec_as_ptr(),
    {
        self.ptr
    }

    #[verifier::when_used_as_spec(spec_is_owned)]
    pub fn is_owned(&self) -> (r: bool)
        ensures
            r == self.spec_is_owned(),
    {
        self.is_owned
    }

    pub fn as_ref(&self) -> (r: &usize)
        ensures
            *r == self.spec_as_ptr(),
    {
        &self.ptr
    }

    /// Clones the wrapper: the same pointer, with a reference of its own
    /// that the returned operation takes. The clone of a null wrapper
    /// owns nothing.
    pub fn duplicate(&self) -> (r: (Self, Option<NativeOp>))
        ensures
            r.0.spec_as_ptr() == self.spec_as_ptr(),
            r.0.spec_is_owned() == (self.spec_as_ptr() != 0),
            r.1 == if self.spec_as_ptr() != 0 {
                Some(NativeOp::VariantRef { ptr: self.spec_as_ptr() })
            } else {
                None
            },
    {
        if self.ptr == 0 {
            return (GVariant { ptr: 0, is_owned: false }, None);
        }
        (GVariant { ptr: self.ptr, is_owned: true }, Some(NativeOp::VariantRef { ptr: self.ptr }))
    }

    /// Gives the wrapper up: its reference is dropped if and only if it
    /// owns one.
    pub fn release(self) -> (r: Option<NativeOp>)
        ensures
            r == if self.spec_is_owned() && self.spec_as_ptr() != 0 {
                Some(NativeOp::VariantUnref { ptr: self.spec_as_ptr() })
            } else {
                None
            },
    {
        if self.is_owned && self.ptr != 0 {
            Some(NativeOp::VariantUnref { ptr: self.ptr })
        } else {
            None
        }
    }
}

} // verus!
