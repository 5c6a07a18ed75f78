//! Boxed values: native value types that are copied and freed, never
//! shared.
//!
//! A wrapper made from a pointer that the caller owns takes the value
//! over. A wrapper made from a borrowed pointer needs a copy of its own:
//! by the type's copy function where the type is known, byte for byte
//! where only the size is known, and not at all where neither is, since
//! the pointer could dangle as soon as its owner frees the value. The
//! same holds of a clone: it owns a copy of its own, or it is refused.

use vstd::prelude::*;
use crate::error::Error;
use crate::managed::NativeOp;
use crate::types::GType;

verus! {

/// A boxed value, what is known of its type and size, and whether the
/// wrapper owns it.
#[derive(Debug, PartialEq, Eq)]
pub struct Boxed {
    ptr: usize,
    gtype: Option<GType>,
    size: Option<usize>,
    is_owned: bool,
}

/// Where a wrapper's value comes from.
#[derive(Debug, PartialEq, Eq)]
pub enum BoxedSource {
    /// The wrapper is complete.
    Ready(Boxed),
    /// The value has to be copied first: the wrapper will own the copy
    /// that `op` gives.
    Copy { op: NativeOp, gtype: Option<GType>, size: Option<usize> },
}

impl Boxed {
    pub closed spec fn spec_as_ptr(&self) -> usize {
        self.ptr
    }

    pub closed spec fn spec_gtype(&self) -> Option<GType> {
        self.gtype
    }

    pub closed spec fn spec_size(&self) -> Option<usize> {
        self.size
    }

    pub closed spec fn spec_is_owned(&self) -> bool {
        self.is_owned
    }

    /// The wrapper that owns the value at `ptr`.
    pub closed spec fn owned(ptr: usize, gtype: Option<GType>, size: Option<usize>) -> Boxed {
        Boxed { ptr, gtype, size, is_owned: true }
    }

    /// The wrapper that holds `ptr` without owning it.
    pub closed spec fn unowned(ptr: usize, gtype: Option<GType>, size: Option<usize>) -> Boxed {
        Boxed { ptr, gtype, size, is_owned: false }
    }

    /// The fields of the two kinds of wrapper.
    pub broadcast proof fn lemma_fields(ptr: usize, gtype: Option<GType>, size: Option<usize>)
        ensures
            (#[trigger] Boxed::owned(ptr, gtype, size)).spec_as_ptr() == ptr,
            Boxed::owned(ptr, gtype, size).spec_gtype() == gtype,
            Boxed::owned(ptr, gtype, size).spec_size() == size,
            Boxed::owned(ptr, gtype, size).spec_is_owned(),
            (#[trigger] Boxed::unowned(ptr, gtype, size)).spec_as_ptr() == ptr,
            Boxed::unowned(ptr, gtype, size).spec_gtype() == gtype,
            Boxed::unowned(ptr, gtype, size).spec_size() == size,
            !Boxed::unowned(ptr, gtype, size).spec_is_owned(),
    {
    }

    /// Wraps a value that the caller owns and hands over. Nothing is
    /// known of its size.
    pub fn from_glib_full(gtype: Option<GType>, ptr: usize) -> (r: Self)
        ensures
            r == Boxed::owned(ptr, gtype, None),
    {
        Boxed { ptr, gtype, size: None, is_owned: true }
    }

    /// Wraps a value of known size that the caller owns and hands over.
    pub fn from_glib_full_with_size(gtype: Option<GType>, ptr: usize, size: Option<usize>) -> (r:
        Self)
        ensures
            r == Boxed::owned(ptr, gtype, size),
    {
        Boxed { ptr, gtype, size, is_owned: true }
    }

    /// How an owned copy of the value at `ptr` is made, given the type
    /// and the size as far as they are known: by the type's copy function
    /// where the type is known, else byte for byte where the size is, and
    /// else not at all.
    pub open spec fn copy(gtype: Option<GType>, ptr: usize, size: Option<usize>) -> Option<
        NativeOp,
    > {
        match gtype {
            Some(gt) => Some(NativeOp::BoxedCopy { gtype: gt, ptr }),
            None => match size {
                Some(s) => Some(NativeOp::RawCopy { ptr, size: s }),
                None => None,
            },
        }
    }

    /// What wrapping a borrowed value gives: a null pointer is wrapped as
    /// it is, unowned; a value whose type or size is known is to be
    /// copied; any other is refused, with the name of its type.
    pub open spec fn from_none<'a>(
        gtype: Option<GType>,
        ptr: usize,
        size: Option<usize>,
        name: Option<&'a str>,
    ) -> Result<BoxedSource, Error<'a>> {
        if ptr == 0 {
            Ok(BoxedSource::Ready(Boxed::unowned(ptr, gtype, None)))
        } else {
            match Self::copy(gtype, ptr, size) {
                Some(op) => Ok(
                    BoxedSource::Copy {
                        op,
                        gtype,
                        size: if gtype is Some {
                            None
                        } else {
                            size
                        },
                    },
                ),
                None => Err(Error::UncopyableBoxed { ptr, name }),
            }
        }
    }

    /// Wraps a borrowed value of which neither size nor name is known.
    pub fn from_glib_none(gtype: Option<GType>, ptr: usize) -> (r: Result<BoxedSource, Error<'static>>)
        ensures
            r == Self::from_none(gtype, ptr, None, None),
    {
        Self::from_glib_none_with_size(gtype, ptr, None, None)
    }

    /// Wraps a borrowed value. `name` is the name of its type, for the
    /// message of a refusal.
    pub fn from_glib_none_with_size<'a>(
        gtype: Option<GType>,
        ptr: usize,
        size: Option<usize>,
        name: Option<&'a str>,
    ) -> (r: Result<BoxedSource, Error<'a>>)
        ensures
            r == Self::from_none(gtype, ptr, size, name),
    {
        if ptr == 0 {
            return Ok(BoxedSource::Ready(Boxed { ptr, gtype, size: None, is_owned: false }));
        }
        match gtype {
            Some(gt) => Ok(
                BoxedSource::Copy { op: NativeOp::BoxedCopy { gtype: gt, ptr }, gtype, size: None },
            ),
            None => match size {
                Some(s) => Ok(
                    BoxedSource::Copy {
                        op: NativeOp::RawCopy { ptr, size: s },
                        gtype: None,
                        size: Some(s),
                    },
                ),
                None => Err(Error::UncopyableBoxed { ptr, name }),
            },
        }
    }

    #[verifier::when_used_as_spec(spec_as_ptr)]
    pub fn as_ptr(&self) -> (r: usize)
        ensures
            r == self.spec_as_ptr(),
    {
        self.ptr
    }

    #[verifier::when_used_as_spec(spec_gtype)]
    pub fn gtype(&self) -> (r: Option<GType>)
        ensures
            r == self.spec_gtype(),
    {
        self.gtype
    }

    /// The size of the value in bytes, where the wrapper knows it.
    #[verifier::when_used_as_spec(spec_size)]
    pub fn size(&self) -> (r: Option<usize>)
        ensures
            r == self.spec_size(),
    {
        self.size
    }

    #[verifier::when_used_as_spec(spec_is_owned)]
    pub fn is_owned(&self) -> (r: bool)
        ensures
            r == self.spec_is_owned(),
    {
        self.is_owned
    }

    /// What a clone of this wrapper is. The clone of a wrapper that owns
    /// a value owns a copy of its own, made by the type's copy function
    /// or, where only the size is known, byte for byte; where neither is
    /// known the clone is refused, since it could only share the pointer.
    /// The clone of a wrapper that owns nothing owns nothing.
    pub open spec fn cloned(&self) -> Result<BoxedSource, Error<'static>> {
        if self.spec_as_ptr() == 0 || !self.spec_is_owned() {
            Ok(
                BoxedSource::Ready(
                    Boxed::unowned(self.spec_as_ptr(), self.spec_gtype(), self.spec_size()),
                ),
            )
        } else {
            match Self::copy(self.spec_gtype(), self.spec_as_ptr(), self.spec_size()) {
                Some(op) => Ok(
                    BoxedSource::Copy { op, gtype: self.spec_gtype(), size: self.spec_size() },
                ),
                None => Err(Error::UncopyableBoxed { ptr: self.spec_as_ptr(), name: None }),
            }
        }
    }

    /// Clones the wrapper. An owned value is never shared between two
    /// wrappers.
    pub fn duplicate(&self) -> (r: Result<BoxedSource, Error<'static>>)
        ensures
            r == self.cloned(),
    {
        if self.ptr == 0 || !self.is_owned {
            return Ok(
                BoxedSource::Ready(
                    Boxed { ptr: self.ptr, gtype: self.gtype, size: self.size, is_owned: false },
                ),
            );
        }
        match self.gtype {
            Some(gt) => Ok(
                BoxedSource::Copy {
                    op: NativeOp::BoxedCopy { gtype: gt, ptr: self.ptr },
                    gtype: self.gtype,
                    size: self.size,
                },
            ),
            None => match self.size {
                Some(s) => Ok(
                    BoxedSource::Copy {
                        op: NativeOp::RawCopy { ptr: self.ptr, size: s },
                        gtype: None,
                        size: self.size,
                    },
                ),
                None => Err(Error::UncopyableBoxed { ptr: self.ptr, name: None }),
            },
        }
    }

    /// What giving the wrapper up calls for: freeing the value, if and
    /// only if the wrapper owns one.
    pub open spec fn released(&self) -> Option<NativeOp> {
        if self.spec_is_owned() && self.spec_as_ptr() != 0 {
            match self.spec_gtype() {
                Some(gt) => Some(NativeOp::BoxedFree { gtype: gt, ptr: self.spec_as_ptr() }),
                None => Some(NativeOp::RawFree { ptr: self.spec_as_ptr() }),
            }
        } else {
            None
        }
    }

    /// Gives the wrapper up.
    pub fn release(self) -> (r: Option<NativeOp>)
        ensures
            r == self.released(),
    {
        if self.is_owned && self.ptr != 0 {
            match self.gtype {
                Some(gt) => Some(NativeOp::BoxedFree { gtype: gt, ptr: self.ptr }),
                None => Some(NativeOp::RawFree { ptr: self.ptr }),
            }
        } else {
            None
        }
    }

    /// A clone never shares a value that its source owns: the clone of a
    /// wrapper that owns a value is a wrapper of the copy, whatever
    /// address the copy was made at, which owns it, or it is refused. The
    /// clone of a wrapper that owns nothing has the same pointer and owns
    /// nothing, so that giving it up frees nothing.
    pub proof fn lemma_clone_is_independent(b: Boxed, copy: usize)
        ensures
            b.spec_is_owned() && b.spec_as_ptr() != 0 ==> !(b.cloned() matches Ok(
                BoxedSource::Ready(_),
            )),
            b.spec_is_owned() && b.spec_as_ptr() != 0 && (b.spec_gtype() is Some || b.spec_size()
                is Some) ==> b.cloned() is Ok && b.cloned()->Ok_0.finished(copy).spec_as_ptr()
                == copy && b.cloned()->Ok_0.finished(copy).spec_is_owned() && b.cloned()->Ok_0.finished(
                copy,
            ).spec_gtype() == b.spec_gtype(),
            b.spec_is_owned() && b.spec_as_ptr() != 0 && b.spec_gtype() is None && b.spec_size()
                is None ==> b.cloned() is Err,
            !(b.spec_is_owned() && b.spec_as_ptr() != 0) ==> b.cloned() is Ok
                && b.cloned()->Ok_0.finished(copy).spec_as_ptr() == b.spec_as_ptr()
                && !b.cloned()->Ok_0.finished(copy).spec_is_owned() && b.cloned()->Ok_0.finished(
                copy,
            ).released() is None,
    {
    }
}

impl BoxedSource {
    /// The wrapper once the copy, if one was called for, has been made at
    /// `copy`.
    pub open spec fn finished(self, copy: usize) -> Boxed {
        match self {
            BoxedSource::Ready(boxed) => boxed,
            BoxedSource::Copy { op, gtype, size } => Boxed::owned(copy, gtype, size),
        }
    }

    /// Completes the wrapper with the address of the copy. Where none was
    /// called for the address is not looked at.
    pub fn finish(self, copy: usize) -> (r: Boxed)
        ensures
            r == self.finished(copy),
    {
        match self {
            BoxedSource::Ready(boxed) => boxed,
            BoxedSource::Copy { op, gtype, size } => Boxed { ptr: copy, gtype, size, is_owned: true },
        }
    }
}

} // verus!
