//! Uniform records: plain data that is copied byte for byte into a buffer.

use crate::data::{Pod, Zeroable};
use vstd::prelude::*;

verus! {

/// Marks a record type as one that shaders read as a uniform: it can be
/// copied at will, all zeroes is a value of it, and it has neither padding
/// nor pointers inside.
pub trait Uniform {
}

/// Accepts only plain data. Called on every field of a record, it makes the
/// compiler reject a record with a field that is none.
pub fn check_data_for_pod<T: Pod + Zeroable>(_data: &T) {
}

} // verus!
