use vstd::prelude::*;

verus! {

/// The semantic kind of a configuration value. `Absent` tags a missing
/// payload; `Mapping` and `Array` are reserved for nested values and no
/// constructor produces them.
#[derive(Debug, Clone, Copy, PartialEq, Eq, Structural)]
pub enum ValueType {
    Absent,
    Integer,
    Float,
    Bool,
    String,
    Mapping,
    Array,
}

/// The kind of an optional payload: `Absent` when missing, otherwise the tag
/// of the element type.
pub open spec fn kind_of<T: Typed>(v: Option<T>) -> ValueType {
    match v {
        Some(_) => T::type_tag(),
        None => ValueType::Absent,
    }
}

/// Classifies an optional payload: the element's own tag when present,
/// `Absent` otherwise.
pub fn classify<T: Typed>(v: &Option<T>) -> (r: ValueType)
    ensures
        r == kind_of(*v),
{
    match v {
        Some(x) => x.value_type(),
        None => ValueType::Absent,
    }
}

/// The element types a [`crate::Value`] can hold, each with a fixed tag.
pub trait Typed: Sized {
    /// The tag of every value of this type.
    spec fn type_tag() -> ValueType;

    /// Equality of two elements, as the element type defines it.
    spec fn same(&self, other: &Self) -> bool;

    /// No element type is tagged as absent.
    proof fn lemma_tag_present()
        ensures
            Self::type_tag() != ValueType::Absent,
    ;

    /// Element equality is symmetric.
    proof fn lemma_same_symmetric(a: &Self, b: &Self)
        ensures
            a.same(b) == b.same(a),
    ;

    fn value_type(&self) -> (r: ValueType)
        ensures
            r == Self::type_tag(),
    ;

    fn is_same(&self, other: &Self) -> (r: bool)
        ensures
            r == self.same(other),
    ;
}

impl Typed for i64 {
    open spec fn type_tag() -> ValueType {
        ValueType::Integer
    }

    open spec fn same(&self, other: &Self) -> bool {
        *self == *other
    }

    proof fn lemma_tag_present() {
    }

    proof fn lemma_same_symmetric(a: &Self, b: &Self) {
    }

    fn value_type(&self) -> (r: ValueType) {
        ValueType::Integer
    }

    fn is_same(&self, other: &Self) -> (r: bool) {
        *self == *other
    }
}

impl Typed for bool {
    open spec fn type_tag() -> ValueType {
        ValueType::Bool
    }

    open spec fn same(&self, other: &Self) -> bool {
        *self == *other
    }

    proof fn lemma_tag_present() {
    }

    proof fn lemma_same_symmetric(a: &Self, b: &Self) {
    }

    fn value_type(&self) -> (r: ValueType) {
        ValueType::Bool
    }

    fn is_same(&self, other: &Self) -> (r: bool) {
        *self == *other
    }
}

impl Typed for String {
    open spec fn type_tag() -> ValueType {
        ValueType::String
    }

    open spec fn same(&self, other: &Self) -> bool {
        self@ == other@
    }

    proof fn lemma_tag_present() {
    }

    proof fn lemma_same_symmetric(a: &Self, b: &Self) {
    }

    fn value_type(&self) -> (r: ValueType) {
        ValueType::String
    }

    fn is_same(&self, other: &Self) -> (r: bool) {
        *self == *other
    }
}

impl<'a> Typed for &'a str {
    open spec fn type_tag() -> ValueType {
        ValueType::String
    }

    open spec fn same(&self, other: &Self) -> bool {
        (*self)@ == (*other)@
    }

    proof fn lemma_tag_present() {
    }

    proof fn lemma_same_symmetric(a: &Self, b: &Self) {
    }

    fn value_type(&self) -> (r: ValueType) {
        ValueType::String
    }

    fn is_same(&self, other: &Self) -> (r: bool) {
        let a = (**self).to_owned();
        let b = (**other).to_owned();
        a == b
    }
}

/// Mask of the exponent bits of an IEEE 754 binary64 number.
pub const EXPONENT_MASK: u64 = 0x7ff0_0000_0000_0000;

/// Mask of the fraction bits of an IEEE 754 binary64 number.
pub const FRACTION_MASK: u64 = 0x000f_ffff_ffff_ffff;

/// Mask of every bit but the sign.
pub const MAGNITUDE_MASK: u64 = 0x7fff_ffff_ffff_ffff;

/// A 64-bit floating-point number, held as its IEEE 754 binary64 bit pattern.
#[derive(Debug, Clone, Copy)]
pub struct Float64 {
    bits: u64,
}

/// The bit pattern encodes a NaN: all exponent bits set, fraction non-zero.
pub open spec fn is_nan_bits(b: u64) -> bool {
    (b & EXPONENT_MASK) == EXPONENT_MASK && (b & FRACTION_MASK) != 0
}

/// The bit pattern encodes positive or negative zero.
pub open spec fn is_zero_bits(b: u64) -> bool {
    (b & MAGNITUDE_MASK) == 0
}

/// IEEE 754 equality on bit patterns: a NaN equals nothing, the two zeros
/// are equal, and any other numbers are equal when their bits are.
pub open spec fn float_eq_bits(a: u64, b: u64) -> bool {
    &&& !is_nan_bits(a)
    &&& !is_nan_bits(b)
    &&& (a == b || (is_zero_bits(a) && is_zero_bits(b)))
}

impl Float64 {
    pub closed spec fn spec_bits(&self) -> u64 {
        self.bits
    }

    pub fn from_bits(bits: u64) -> (r: Float64)
        ensures
            r.spec_bits() == bits,
    {
        Float64 { bits }
    }

    pub fn to_bits(&self) -> (r: u64)
        ensures
            r == self.spec_bits(),
    {
        self.bits
    }

    pub fn is_nan(&self) -> (r: bool)
        ensures
            r == is_nan_bits(self.spec_bits()),
    {
        (self.bits & EXPONENT_MASK) == EXPONENT_MASK && (self.bits & FRACTION_MASK) != 0
    }
}

impl Typed for Float64 {
    open spec fn type_tag() -> ValueType {
        ValueType::Float
    }

    open spec fn same(&self, other: &Self) -> bool {
        float_eq_bits(self.spec_bits(), other.spec_bits())
    }

    proof fn lemma_tag_present() {
    }

    proof fn lemma_same_symmetric(a: &Self, b: &Self) {
    }

    fn value_type(&self) -> (r: ValueType) {
        ValueType::Float
    }

    fn is_same(&self, other: &Self) -> (r: bool) {
        let a = self.to_bits();
        let b = other.to_bits();
        !self.is_nan() && !other.is_nan() && (a == b || ((a & MAGNITUDE_MASK) == 0 && (b
            & MAGNITUDE_MASK) == 0))
    }
}

} // verus!
