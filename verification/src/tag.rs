//! Runtime identity of a payload type.
//!
//! The shared table keeps endpoints of many payload types side by side. Each
//! entry carries the tag of the type it was built for, and every later
//! access is checked against it.

use std::any::TypeId;
use vstd::prelude::*;

verus! {

/// `std::any::TypeId`, opaque here.
#[verifier::external_type_specification]
#[verifier::external_body]
pub struct ExTypeId(TypeId);

/// `TypeId::of`: the identifier that the compiler assigns to `T`. Nothing is
/// claimed of it here.
#[verifier::external_body]
fn type_id_of<T: 'static>() -> TypeId {
    TypeId::of::<T>()
}

/// `TypeId::eq`: two identifiers compare equal exactly when they are the
/// same identifier.
#[verifier::external_body]
fn type_id_eq(a: &TypeId, b: &TypeId) -> (r: bool)
    ensures
        r == (*a == *b),
{
    a == b
}

/// The identity of a payload type, as the table stores it.
#[derive(Clone, Copy, Debug)]
pub struct TypeTag {
    id: TypeId,
}

impl TypeTag {
    /// The tag of `T`.
    pub fn of<T: 'static>() -> TypeTag {
        TypeTag { id: type_id_of::<T>() }
    }

    /// Whether two tags stand for the same type.
    pub fn same(&self, other: &TypeTag) -> (r: bool)
        ensures
            r == (*self == *other),
    {
        type_id_eq(&self.id, &other.id)
    }
}

} // verus!
