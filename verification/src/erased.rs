//! A share of the table with its payload type taken out of sight.
//!
//! The table holds endpoints of many payload types at once. A share enters
//! it as a boxed value of unknown type and is turned back into endpoints by
//! the worker that collects it, which names the type it expects.

use std::any::Any;
use vstd::prelude::*;

verus! {

/// A value of some sendable type, boxed as `dyn Any + Send`. The verifier
/// does not take that type in a field, so the struct is opaque to it.
#[verifier::external_body]
pub struct Erased {
    inner: Box<dyn Any + Send>,
}

/// `Box::new`, and the coercion of the box to `dyn Any + Send`. Nothing is
/// claimed of the result.
#[verifier::external_body]
pub(crate) fn erase<V: Send + 'static>(value: V) -> Erased {
    Erased { inner: Box::new(value) }
}

/// `Box::<dyn Any + Send>::downcast`: the boxed value, if it is a `V`.
/// Nothing is claimed of the result.
#[verifier::external_body]
pub(crate) fn restore<V: Send + 'static>(erased: Erased) -> Option<V> {
    match erased.inner.downcast::<V>() {
        Ok(value) => Some(*value),
        Err(_) => None,
    }
}

} // verus!
