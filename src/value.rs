use vstd::prelude::*;

use vstd::std_specs::cmp::PartialEqSpec;

use crate::kind::{kind_of, Float64, Typed, ValueType};

verus! {

/// A configuration value: an optional payload, its kind, and the index of
/// the value it overrides in the [`crate::Layers`] arena that holds it.
#[derive(Debug)]
pub struct Value<T> {
    val: Option<T>,
    value_type: ValueType,
    shadowed: Option<usize>,
}

/// Read access to a value's payload.
pub trait Readable<T> {
    fn get(&self) -> (r: &Option<T>);
}

impl<T> Value<T> {
    /// The payload.
    pub closed spec fn payload(&self) -> Option<T> {
        self.val
    }

    /// The kind tag.
    pub closed spec fn kind(&self) -> ValueType {
        self.value_type
    }

    /// The arena index of the value this one overrides.
    pub closed spec fn shadow(&self) -> Option<usize> {
        self.shadowed
    }

    /// The value with the same payload and kind whose shadow is `target`
    /// (a root when `target` is `None`).
    pub closed spec fn with_shadow(self, target: Option<usize>) -> Value<T> {
        Value { shadowed: target, ..self }
    }

    pub proof fn lemma_with_shadow(self, target: Option<usize>)
        ensures
            self.with_shadow(target).payload() == self.payload(),
            self.with_shadow(target).kind() == self.kind(),
            self.with_shadow(target).shadow() == target,
    {
    }

    pub fn value_type(&self) -> (r: ValueType)
        ensures
            r == self.kind(),
    {
        self.value_type
    }

    pub fn shadowed(&self) -> (r: Option<usize>)
        ensures
            r == self.shadow(),
    {
        self.shadowed
    }

    /// Moves the payload and kind into a value whose shadow is `target`.
    pub(crate) fn into_shadowing(self, target: Option<usize>) -> (r: Value<T>)
        ensures
            r == self.with_shadow(target),
    {
        Value { val: self.val, value_type: self.value_type, shadowed: target }
    }
}

impl<T: Typed> Value<T> {
    /// The kind agrees with the payload.
    pub open spec fn wf(&self) -> bool {
        self.kind() == kind_of(self.payload())
    }

    /// A fresh value holding `v`, with no shadow.
    pub fn new(v: T) -> (r: Value<T>)
        ensures
            r.payload() == Some(v),
            r.kind() == T::type_tag(),
            r.shadow() is None,
            r.wf(),
            r == Value::fresh(Some(v), T::type_tag()),
    {
        let value_type = v.value_type();
        Value { val: Some(v), value_type, shadowed: None }
    }
}

impl<T> Value<T> {
    /// The value that a constructor builds from an optional payload.
    pub closed spec fn fresh(val: Option<T>, value_type: ValueType) -> Value<T> {
        Value { val, value_type, shadowed: None }
    }

    pub proof fn lemma_fresh(val: Option<T>, value_type: ValueType)
        ensures
            Self::fresh(val, value_type).payload() == val,
            Self::fresh(val, value_type).kind() == value_type,
            Self::fresh(val, value_type).shadow() is None,
    {
    }
}

impl<T: Typed> From<Option<T>> for Value<T> {
    fn from(val: Option<T>) -> (r: Value<T>)
        ensures
            r.payload() == val,
            r.kind() == kind_of(val),
            r.shadow() is None,
            r.wf(),
    {
        let value_type = crate::kind::classify(&val);
        Value { val, value_type, shadowed: None }
    }
}

impl<T: Typed> vstd::std_specs::convert::FromSpecImpl<Option<T>> for Value<T> {
    open spec fn obeys_from_spec() -> bool {
        true
    }

    open spec fn from_spec(val: Option<T>) -> Value<T> {
        Value::fresh(val, kind_of(val))
    }
}

impl From<i64> for Value<i64> {
    fn from(val: i64) -> (r: Value<i64>)
        ensures
            r.payload() == Some(val),
            r.kind() == ValueType::Integer,
            r.shadow() is None,
            r.wf(),
    {
        Value { val: Some(val), value_type: ValueType::Integer, shadowed: None }
    }
}

impl vstd::std_specs::convert::FromSpecImpl<i64> for Value<i64> {
    open spec fn obeys_from_spec() -> bool {
        true
    }

    open spec fn from_spec(val: i64) -> Value<i64> {
        Value::fresh(Some(val), ValueType::Integer)
    }
}

impl From<Float64> for Value<Float64> {
    fn from(val: Float64) -> (r: Value<Float64>)
        ensures
            r.payload() == Some(val),
            r.kind() == ValueType::Float,
            r.shadow() is None,
            r.wf(),
    {
        Value { val: Some(val), value_type: ValueType::Float, shadowed: None }
    }
}

impl vstd::std_specs::convert::FromSpecImpl<Float64> for Value<Float64> {
    open spec fn obeys_from_spec() -> bool {
        true
    }

    open spec fn from_spec(val: Float64) -> Value<Float64> {
        Value::fresh(Some(val), ValueType::Float)
    }
}

impl From<bool> for Value<bool> {
    fn from(val: bool) -> (r: Value<bool>)
        ensures
            r.payload() == Some(val),
            r.kind() == ValueType::Bool,
            r.shadow() is None,
            r.wf(),
    {
        Value { val: Some(val), value_type: ValueType::Bool, shadowed: None }
    }
}

impl vstd::std_specs::convert::FromSpecImpl<bool> for Value<bool> {
    open spec fn obeys_from_spec() -> bool {
        true
    }

    open spec fn from_spec(val: bool) -> Value<bool> {
        Value::fresh(Some(val), ValueType::Bool)
    }
}

impl<'a> From<&'a str> for Value<String> {
    fn from(val: &'a str) -> (r: Value<String>)
        ensures
            r.payload() is Some,
            r.payload()->0@ == val@,
            r.kind() == ValueType::String,
            r.shadow() is None,
            r.wf(),
    {
        let owned = val.to_owned();
        Value { val: Some(owned), value_type: ValueType::String, shadowed: None }
    }
}

/// A `String` is known by its characters only, so the converted value is
/// described by the `ensures` of `from` rather than by one spec value.
impl<'a> vstd::std_specs::convert::FromSpecImpl<&'a str> for Value<String> {
    open spec fn obeys_from_spec() -> bool {
        false
    }

    open spec fn from_spec(val: &'a str) -> Value<String> {
        Value::fresh(Some(choose|s: String| s@ == val@), ValueType::String)
    }
}

impl From<String> for Value<String> {
    fn from(val: String) -> (r: Value<String>)
        ensures
            r.payload() == Some(val),
            r.kind() == ValueType::String,
            r.shadow() is None,
            r.wf(),
    {
        Value { val: Some(val), value_type: ValueType::String, shadowed: None }
    }
}

impl vstd::std_specs::convert::FromSpecImpl<String> for Value<String> {
    open spec fn obeys_from_spec() -> bool {
        true
    }

    open spec fn from_spec(val: String) -> Value<String> {
        Value::fresh(Some(val), ValueType::String)
    }
}

impl<T> Readable<T> for Value<T> {
    fn get(&self) -> (r: &Option<T>)
        ensures
            *r == self.payload(),
    {
        &self.val
    }
}

/// Two payloads are equal when both are missing, or both are present with
/// elements equal under the element type's own equality.
pub open spec fn payload_eq<T: Typed>(a: Option<T>, b: Option<T>) -> bool {
    match (a, b) {
        (Some(x), Some(y)) => x.same(&y),
        (None, None) => true,
        _ => false,
    }
}

impl<T: Typed> PartialEq for Value<T> {
    fn eq(&self, other: &Value<T>) -> (r: bool)
        ensures
            r == payload_eq(self.payload(), other.payload()),
    {
        match self.get() {
            Some(val) => {
                match other.get() {
                    Some(other_val) => val.is_same(other_val),
                    None => false,
                }
            },
            None => {
                match other.get() {
                    Some(_) => false,
                    None => true,
                }
            },
        }
    }
}

impl<T: Typed> vstd::std_specs::cmp::PartialEqSpecImpl for Value<T> {
    open spec fn obeys_eq_spec() -> bool {
        true
    }

    open spec fn eq_spec(&self, other: &Value<T>) -> bool {
        payload_eq(self.payload(), other.payload())
    }
}

/// Classifying an optional payload recurses into it: a present element
/// gets its own type's tag, and a missing one is `Absent`.
pub proof fn lemma_classify_option<T: Typed>(v: T)
    ensures
        kind_of(Some(v)) == T::type_tag(),
        kind_of(None::<T>) == ValueType::Absent,
        kind_of(Some(v)) != ValueType::Absent,
{
    T::lemma_tag_present();
}

/// Two freshly built values are equal exactly when their elements are
/// equal; so equal elements give equal values and different elements give
/// different values.
pub proof fn lemma_eq_fresh<T: Typed>(v1: T, v2: T)
    ensures
        Value::fresh(Some(v1), T::type_tag()).eq_spec(&Value::fresh(Some(v2), T::type_tag()))
            == v1.same(&v2),
{
    Value::<T>::lemma_fresh(Some(v1), T::type_tag());
    Value::<T>::lemma_fresh(Some(v2), T::type_tag());
}

/// A value built from nothing equals another such value, and differs from
/// every value built from an element.
pub proof fn lemma_eq_absent<T: Typed>(v: T)
    ensures
        Value::<T>::fresh(None, ValueType::Absent).eq_spec(&Value::fresh(None, ValueType::Absent)),
        !Value::<T>::fresh(None, ValueType::Absent).eq_spec(&Value::fresh(Some(v), T::type_tag())),
        !Value::<T>::fresh(Some(v), T::type_tag()).eq_spec(&Value::fresh(None, ValueType::Absent)),
{
    Value::<T>::lemma_fresh(None, ValueType::Absent);
    Value::<T>::lemma_fresh(Some(v), T::type_tag());
}

/// Value equality is symmetric.
pub proof fn lemma_eq_symmetric<T: Typed>(a: Value<T>, b: Value<T>)
    ensures
        a.eq_spec(&b) == b.eq_spec(&a),
{
    match (a.payload(), b.payload()) {
        (Some(x), Some(y)) => T::lemma_same_symmetric(&x, &y),
        _ => {},
    }
}

/// Equality ignores provenance: giving a value a shadow, or a different
/// one, does not change what it equals.
pub proof fn lemma_eq_ignores_shadow<T: Typed>(a: Value<T>, b: Value<T>, target: Option<usize>)
    ensures
        a.with_shadow(target).eq_spec(&b) == a.eq_spec(&b),
        b.eq_spec(&a.with_shadow(target)) == b.eq_spec(&a),
{
    a.lemma_with_shadow(target);
}

} // verus!
