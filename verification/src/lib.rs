//! Recursive "partial" counterparts for data types.
//!
//! A partial counterpart of a type has the same shape, but every field may be
//! absent, recursively. The crate has two halves:
//!
//! * the capability trait [`HasPartial`] with its built-in instances, which
//!   generated code leans on, and
//! * a verified model of the code-generation transform (see [`transform`]):
//!   given a struct or enum definition with `partial(...)` annotations, it
//!   produces the sibling definition with every field type softened to an
//!   optional partial form, plus the trait linkage tying the original name to
//!   the sibling.
use vstd::prelude::*;

pub mod config;
pub mod laws;
pub mod model;
pub mod resolve;
pub mod transform;

verus! {

/// The capability: a type has a designated partial counterpart.
///
/// Scalar types are their own partial form; containers soften their element
/// (or value) type recursively; `Option<T>` flattens to `T`'s partial form so
/// that the extra optional layer added by the transform does not pile up.
pub trait HasPartial {
    type Partial;
}

impl HasPartial for bool {
    type Partial = bool;
}

impl HasPartial for char {
    type Partial = char;
}

impl HasPartial for i8 {
    type Partial = i8;
}

impl HasPartial for i16 {
    type Partial = i16;
}

impl HasPartial for i32 {
    type Partial = i32;
}

impl HasPartial for i64 {
    type Partial = i64;
}

impl HasPartial for i128 {
    type Partial = i128;
}

impl HasPartial for isize {
    type Partial = isize;
}

impl HasPartial for u8 {
    type Partial = u8;
}

impl HasPartial for u16 {
    type Partial = u16;
}

impl HasPartial for u32 {
    type Partial = u32;
}

impl HasPartial for u64 {
    type Partial = u64;
}

impl HasPartial for u128 {
    type Partial = u128;
}

impl HasPartial for usize {
    type Partial = usize;
}

impl HasPartial for () {
    type Partial = ();
}

impl HasPartial for String {
    type Partial = String;
}

impl<T: HasPartial> HasPartial for Vec<T> {
    type Partial = Vec<T::Partial>;
}

impl<K, V: HasPartial> HasPartial for std::collections::HashMap<K, V> {
    type Partial = std::collections::HashMap<K, V::Partial>;
}

impl<T: HasPartial> HasPartial for Option<T> {
    type Partial = T::Partial;
}

} // verus!
