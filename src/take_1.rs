//! An attribute that carries its own value.
//!
//! Here one object is both the attribute's type descriptor and the storage
//! of its value. Every distinct value therefore needs its own instance, and
//! the canonical instance of a type can only stand for one fixed value.
use vstd::prelude::*;

verus! {

/// `Attribute` here combines storage and type.
pub trait Attribute: Sized {
    /// The type of the value that this attribute carries.
    type ValueType;

    /// The canonical instance of this attribute type.
    spec fn canonical() -> Self;

    /// The value that this instance carries.
    spec fn carried(&self) -> Self::ValueType;

    /// Given the type, get back its canonical instance.
    fn type_to_value() -> (r: &'static Self)
        ensures
            *r == Self::canonical(),
    ;

    /// Return the value carried by this attribute object.
    fn value(&self) -> (r: Self::ValueType)
        ensures
            r == self.carried(),
    ;
}

/// A `Duration` stores an `i32` value.
pub struct Duration {
    pub v: i32,
}

impl Attribute for Duration {
    type ValueType = i32;

    open spec fn canonical() -> Self {
        Duration { v: 0 }
    }

    open spec fn carried(&self) -> i32 {
        self.v
    }

    fn type_to_value() -> (r: &'static Self) {
        &Duration { v: 0 }
    }

    fn value(&self) -> (r: i32) {
        self.v
    }
}

/// Get the value of an attribute from an instance of it.
pub fn get_attr<A>(attr: &A) -> (r: Option<A::ValueType>)
    where
        A: Attribute,
    ensures
        r == Some(attr.carried()),
{
    Some(attr.value())
}

/// Get the value of an attribute from its type alone, through the type's
/// canonical instance.
pub fn get_attr_value<A: 'static + Attribute>() -> (r: Option<A::ValueType>)
    ensures
        r == Some(A::canonical().carried()),
{
    let attr = A::type_to_value();
    Some(attr.value())
}

} // verus!
