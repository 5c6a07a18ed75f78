//! Fundamental values: reference-counted natives whose reference and
//! release functions are particular to the type.

use vstd::prelude::*;
use crate::managed::NativeOp;

verus! {

/// A fundamental value, the addresses of its reference and release
/// functions, and whether the wrapper owns a reference.
#[derive(Debug, PartialEq, Eq)]
pub struct Fundamental {
    ptr: usize,
    unref_fn: Option<usize>,
    ref_fn: Option<usize>,
    is_owned: bool,
}

impl Fundamental {
    pub closed spec fn spec_as_ptr(&self) -> usize {
        self.ptr
    }

    pub closed spec fn spec_is_owned(&self) -> bool {
        self.is_owned
    }

    pub closed spec fn ref_fn(&self) -> Option<usize> {
        self.ref_fn
    }

    pub closed spec fn unref_fn(&self) -> Option<usize> {
        self.unref_fn
    }

    /// The call that takes a reference to the value at `ptr`, where there
    /// is a value and a function to call.
    pub open spec fn reference(ptr: usize, ref_fn: Option<usize>) -> Option<NativeOp> {
        if ptr != 0 && ref_fn is Some {
            Some(NativeOp::FundamentalRef { func: ref_fn->0, ptr })
        } else {
            None
        }
    }

    /// Wraps a reference that the caller owns and hands over.
    pub fn from_glib_full(ptr: usize, ref_fn: Option<usize>, unref_fn: Option<usize>) -> (r: Self)
        ensures
            r.spec_as_ptr() == ptr,
            r.ref_fn() == ref_fn,
            r.unref_fn() == unref_fn,
            r.spec_is_owned(),
    {
        Fundamental { ptr, unref_fn, ref_fn, is_owned: true }
    }

    /// Wraps a borrowed pointer. The wrapper of a value owns a reference,
    /// which the returned call takes; the wrapper of null owns nothing.
    pub fn from_glib_none(ptr: usize, ref_fn: Option<usize>, unref_fn: Option<usize>) -> (r: (
        Self,
        Option<NativeOp>,
    ))
        ensures
            r.0.spec_as_ptr() == ptr,
            r.0.ref_fn() == ref_fn,
            r.0.unref_fn() == unref_fn,
            r.0.spec_is_owned() == (ptr != 0),
            r.1 == Self::reference(ptr, ref_fn),
    {
        if ptr == 0 {
            return (Fundamental { ptr: 0, unref_fn, ref_fn, is_owned: false }, None);
        }
        let op = match ref_fn {
            Some(func) => Some(NativeOp::FundamentalRef { func, ptr }),
            None => None,
        };
        (Fundamental { ptr, unref_fn, ref_fn, is_owned: true }, op)
    }

    #[verifier::when_used_as_spec(spec_as_ptr)]
    pub fn as_ptr(&self) -> (r: usize)
        ensures
            r == self.spec_as_ptr(),
    {
        self.ptr
    }

    #[verifier::when_used_as_spec(spec_is_owned)]
    pub fn is_owned(&self) -> (r: bool)
        ensures
            r == self.spec_is_owned(),
    {
        self.is_owned
    }

    /// Clones the wrapper: the same pointer, with a reference of its own
    /// that the returned call takes. The clone of a null wrapper owns
    /// nothing.
    pub fn duplicate(&self) -> (r: (Self, Option<NativeOp>))
        ensures
            r.0.spec_as_ptr() == self.spec_as_ptr(),
            r.0.ref_fn() == self.ref_fn(),
            r.0.unref_fn() == self.unref_fn(),
            r.0.spec_is_owned() == (self.spec_as_ptr() != 0),
            r.1 == Self::reference(self.spec_as_ptr(), self.ref_fn()),
    {
        Self::from_glib_none(self.ptr, self.ref_fn, self.unref_fn)
    }

    /// What giving the wrapper up calls for: releasing the reference, if
    /// and only if the wrapper owns one and has a function to call.
    pub open spec fn released(&self) -> Option<NativeOp> {
        if self.spec_is_owned() && self.spec_as_ptr() != 0 && self.unref_fn() is Some {
            Some(NativeOp::FundamentalUnref { func: self.unref_fn()->0, ptr: self.spec_as_ptr() })
        } else {
            None
        }
    }

    /// Gives the wrapper up.
    pub fn release(self) -> (r: Option<NativeOp>)
        ensures
            r == self.released(),
    {
        if self.is_owned && self.ptr != 0 {
            match self.unref_fn {
                Some(func) => Some(NativeOp::FundamentalUnref { func, ptr: self.ptr }),
                None => None,
            }
        } else {
            None
        }
    }
}

} // verus!
