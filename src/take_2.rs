//! Attributes as pure markers, with the values stored on the entity.
//!
//! An attribute type carries no value; its canonical instance (the witness)
//! only selects which accessor runs. An entity links itself to an attribute
//! type by implementing `EntityAttribute`, and `Attr` then reads the
//! attribute from the type alone. Which attribute is read is always fixed
//! at compile time, since each attribute has its own value type.
use vstd::prelude::*;

verus! {

/// An attribute type, used as a marker.
pub trait Attribute: Sized {
    /// The type of the value of this attribute.
    type ValueType;

    /// The canonical instance (witness) of this attribute type.
    spec fn witness() -> Self;

    /// Given the type, get back its canonical instance.
    fn type_to_value() -> (r: &'static Self)
        ensures
            *r == Self::witness(),
    ;
}

/// Link an entity and an attribute.
pub trait EntityAttribute<A: Attribute> {
    /// The value of attribute `A` on this entity, read with witness `attr`.
    spec fn attr_value(&self, attr: A) -> A::ValueType;

    /// The witness only selects the impl: the value does not depend on it.
    proof fn lemma_witness_irrelevant(&self, a: A, b: A)
        ensures
            self.attr_value(a) == self.attr_value(b),
    ;

    /// Read attribute `A` from this entity.
    fn get_attr(&self, attr: &A) -> (r: A::ValueType)
        ensures
            r == self.attr_value(*attr),
    ;
}

/// Read an attribute from its type alone, without a witness in hand.
pub trait Attr<A: 'static + Attribute> {
    /// The value of attribute `A` on this entity, read by type.
    spec fn value_by_type(&self) -> A::ValueType;

    /// Read attribute `A` from this entity.
    fn get(&self) -> (r: A::ValueType)
        ensures
            r == self.value_by_type(),
    ;
}

/// Every entity linked to an attribute can read it by type: the canonical
/// witness is fetched and handed to the link.
impl<A, E> Attr<A> for E where A: 'static + Attribute, E: EntityAttribute<A> {
    open spec fn value_by_type(&self) -> A::ValueType {
        self.attr_value(A::witness())
    }

    fn get(&self) -> (r: A::ValueType) {
        let attr = A::type_to_value();
        self.get_attr(attr)
    }
}

/// Reading an attribute by type gives what the link gives with the canonical
/// witness, and indeed with any witness.
pub proof fn lemma_get_agrees_with_link<A: 'static + Attribute, E: EntityAttribute<A>>(
    e: &E,
    attr: A,
)
    ensures
        Attr::<A>::value_by_type(e) == e.attr_value(A::witness()),
        Attr::<A>::value_by_type(e) == e.attr_value(attr),
{
    e.lemma_witness_irrelevant(A::witness(), attr);
}

/// `Duration` is a marker with no value of its own.
pub struct Duration {}

/// `Duration` values are `i32`.
impl Attribute for Duration {
    type ValueType = i32;

    open spec fn witness() -> Self {
        Duration {}
    }

    fn type_to_value() -> (r: &'static Self) {
        &Duration {}
    }
}

/// `StartTime` is a marker with no value of its own.
pub struct StartTime {}

/// `StartTime` values are `i32`.
impl Attribute for StartTime {
    type ValueType = i32;

    open spec fn witness() -> Self {
        StartTime {}
    }

    fn type_to_value() -> (r: &'static Self) {
        &StartTime {}
    }
}

/// A sample entity, with a duration and a start time.
pub struct Event {
    pub duration: i32,
    pub start_time: i32,
}

/// The `Duration` attribute of an event is its `duration` field.
impl EntityAttribute<Duration> for Event {
    open spec fn attr_value(&self, _attr: Duration) -> i32 {
        self.duration
    }

    proof fn lemma_witness_irrelevant(&self, _a: Duration, _b: Duration) {
    }

    fn get_attr(&self, _attr: &Duration) -> (r: i32) {
        self.duration
    }
}

/// The `StartTime` attribute of an event is its `start_time` field.
impl EntityAttribute<StartTime> for Event {
    open spec fn attr_value(&self, _attr: StartTime) -> i32 {
        self.start_time
    }

    proof fn lemma_witness_irrelevant(&self, _a: StartTime, _b: StartTime) {
    }

    fn get_attr(&self, _attr: &StartTime) -> (r: i32) {
        self.start_time
    }
}

/// Every attribute of an event, read by link with any witness or by type,
/// is the field that the event stores for it.
pub proof fn lemma_event_attrs_are_fields(e: Event, d: Duration, s: StartTime)
    ensures
        EntityAttribute::<Duration>::attr_value(&e, d) == e.duration,
        EntityAttribute::<StartTime>::attr_value(&e, s) == e.start_time,
        Attr::<Duration>::value_by_type(&e) == e.duration,
        Attr::<StartTime>::value_by_type(&e) == e.start_time,
{
}

} // verus!
