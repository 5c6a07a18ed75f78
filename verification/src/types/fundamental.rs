//! Descriptors of fundamental types: reference-counted values whose
//! reference and release functions are particular to the type and looked
//! up by name.

use vstd::prelude::*;

verus! {

/// Descriptor of a fundamental value.
#[derive(Debug, Clone, PartialEq, Eq)]
pub struct FundamentalType {
    pub is_borrowed: bool,
    pub lib: String,
    pub ref_func: String,
    pub unref_func: String,
}

impl FundamentalType {
    pub fn new(is_borrowed: bool, lib: String, ref_func: String, unref_func: String) -> (r: Self)
        ensures
            r.is_borrowed == is_borrowed,
            r.lib == lib,
            r.ref_func == ref_func,
            r.unref_func == unref_func,
    {
        FundamentalType { is_borrowed, lib, ref_func, unref_func }
    }
}

/// Descriptor of a plain structure that the object system does not know.
#[derive(Debug, Clone, PartialEq, Eq)]
pub struct StructType {
    pub is_borrowed: bool,
    pub type_: String,
    pub size: Option<usize>,
}

impl StructType {
    pub fn new(is_borrowed: bool, type_: String, size: Option<usize>) -> (r: Self)
        ensures
            r.is_borrowed == is_borrowed,
            r.type_ == type_,
            r.size == size,
    {
        StructType { is_borrowed, type_, size }
    }
}

} // verus!
