//! The concrete-value interface consumed by the checker: each value carries
//! an element kind, its runtime shape, and — for functions — an optional
//! boxed content.

use vstd::prelude::*;
use crate::types::{SpecType, SpecValueType, dims_model};

verus! {

/// A concrete runtime value, reduced to what the checker reads of it:
/// its kind, its shape, and, for a function, the boxed content if any.
#[derive(Debug, PartialEq, Eq)]
pub enum Value {
    Num(Vec<usize>),
    Byte(Vec<usize>),
    Char(Vec<usize>),
    Func(Vec<usize>, Option<Box<Value>>),
}

/// Mathematical counterpart of `Value`.
pub ghost enum SpecValue {
    Num(Seq<nat>),
    Byte(Seq<nat>),
    Char(Seq<nat>),
    Func(Seq<nat>, Option<Box<SpecValue>>),
}

pub open spec fn value_model(v: Value) -> SpecValue
    decreases v,
{
    match v {
        Value::Num(dims) => SpecValue::Num(dims_model(dims@)),
        Value::Byte(dims) => SpecValue::Byte(dims_model(dims@)),
        Value::Char(dims) => SpecValue::Char(dims_model(dims@)),
        Value::Func(dims, inner) => SpecValue::Func(
            dims_model(dims@),
            match inner {
                Some(b) => Some(Box::new(value_model(*b))),
                None => None,
            },
        ),
    }
}

impl View for Value {
    type V = SpecValue;

    open spec fn view(&self) -> SpecValue {
        value_model(*self)
    }
}

impl DeepView for Value {
    type V = SpecValue;

    open spec fn deep_view(&self) -> SpecValue {
        value_model(*self)
    }
}

/// The shape a concrete value actually has.
pub open spec fn spec_value_shape(v: SpecValue) -> Seq<nat> {
    match v {
        SpecValue::Num(dims) => dims,
        SpecValue::Byte(dims) => dims,
        SpecValue::Char(dims) => dims,
        SpecValue::Func(dims, _) => dims,
    }
}

/// The abstract description of a concrete value. Numeric and byte values are
/// numeric; a function that holds a boxed value is described recursively
/// through `Boxed`; the shape is always exactly the value's own.
pub open spec fn spec_from_value(v: SpecValue) -> SpecType
    decreases v,
{
    SpecType {
        value: match v {
            SpecValue::Num(_) => SpecValueType::Num,
            SpecValue::Byte(_) => SpecValueType::Num,
            SpecValue::Char(_) => SpecValueType::Char,
            SpecValue::Func(_, inner) => match inner {
                Some(b) => SpecValueType::Boxed(Box::new(spec_from_value(*b))),
                None => SpecValueType::Function,
            },
        },
        shape: Some(spec_value_shape(v)),
    }
}

impl Value {
    /// The value's shape: dimension sizes, outermost first.
    pub fn shape(&self) -> (r: &Vec<usize>)
        ensures
            dims_model(r@) == spec_value_shape(self@),
    {
        match self {
            Value::Num(dims) => dims,
            Value::Byte(dims) => dims,
            Value::Char(dims) => dims,
            Value::Func(dims, _) => dims,
        }
    }

    /// For a function value, the boxed content if it represents one.
    pub fn as_boxed(&self) -> (r: Option<&Value>)
        ensures
            match r {
                Some(inner) => self@ matches SpecValue::Func(_, Some(b)) && inner@ == *b,
                None => !(self@ matches SpecValue::Func(_, Some(_))),
            },
    {
        match self {
            Value::Func(_, Some(inner)) => Some(inner),
            _ => None,
        }
    }
}

} // verus!
