//! The type model: an abstract description of a value as an element kind
//! together with an optional, exactly-known shape.

use vstd::prelude::*;
use crate::value::{Value, spec_from_value};

verus! {

/// The element kind of an abstract value. `Boxed` wraps the full description
/// of the contents of an opaque container; `Unknown` carries no information.
#[derive(Debug, PartialEq, Eq)]
pub enum ValueType {
    Num,
    Char,
    Function,
    Boxed(Box<Type>),
    Unknown,
}

/// An abstract value: an element kind and, when it could be proven,
/// the exact shape (dimension sizes, outermost first).
#[derive(Debug, PartialEq, Eq)]
pub struct Type {
    pub value: ValueType,
    pub shape: Option<Vec<usize>>,
}

/// Mathematical counterpart of `ValueType`.
pub ghost enum SpecValueType {
    Num,
    Char,
    Function,
    Boxed(Box<SpecType>),
    Unknown,
}

/// Mathematical counterpart of `Type`: shapes are sequences of naturals.
pub ghost struct SpecType {
    pub value: SpecValueType,
    pub shape: Option<Seq<nat>>,
}

/// A sequence of machine-sized dimensions read as naturals.
pub open spec fn dims_model(dims: Seq<usize>) -> Seq<nat> {
    dims.map_values(|d: usize| d as nat)
}

/// An optional shape read as an optional sequence of naturals.
pub open spec fn shape_model(shape: Option<Vec<usize>>) -> Option<Seq<nat>> {
    match shape {
        Some(dims) => Some(dims_model(dims@)),
        None => None,
    }
}

pub open spec fn value_type_model(v: ValueType) -> SpecValueType
    decreases v,
{
    match v {
        ValueType::Num => SpecValueType::Num,
        ValueType::Char => SpecValueType::Char,
        ValueType::Function => SpecValueType::Function,
        ValueType::Boxed(t) => SpecValueType::Boxed(Box::new(type_model(*t))),
        ValueType::Unknown => SpecValueType::Unknown,
    }
}

pub open spec fn type_model(t: Type) -> SpecType
    decreases t,
{
    SpecType { value: value_type_model(t.value), shape: shape_model(t.shape) }
}

impl View for ValueType {
    type V = SpecValueType;

    open spec fn view(&self) -> SpecValueType {
        value_type_model(*self)
    }
}

impl DeepView for ValueType {
    type V = SpecValueType;

    open spec fn deep_view(&self) -> SpecValueType {
        value_type_model(*self)
    }
}

impl View for Type {
    type V = SpecType;

    open spec fn view(&self) -> SpecType {
        type_model(*self)
    }
}

impl DeepView for Type {
    type V = SpecType;

    open spec fn deep_view(&self) -> SpecType {
        type_model(*self)
    }
}

/// The default abstract value: nothing is known of it.
pub open spec fn spec_default_type() -> SpecType {
    SpecType { value: SpecValueType::Unknown, shape: None }
}

impl Default for ValueType {
    fn default() -> (r: ValueType)
        ensures
            r@ == SpecValueType::Unknown,
    {
        ValueType::Unknown
    }
}

impl Default for Type {
    fn default() -> (r: Type)
        ensures
            r@ == spec_default_type(),
    {
        Type { value: ValueType::Unknown, shape: None }
    }
}

/// Copies a dimension list.
fn clone_dims(dims: &Vec<usize>) -> (r: Vec<usize>)
    ensures
        r@ == dims@,
{
    let mut r: Vec<usize> = Vec::new();
    let mut i: usize = 0;
    while i < dims.len()
        invariant
            i <= dims.len(),
            r@ == dims@.subrange(0, i as int),
        decreases dims.len() - i,
    {
        r.push(dims[i]);
        i = i + 1;
    }
    proof {
        assert(r@ =~= dims@);
    }
    r
}

/// Decides equality of two dimension lists.
fn dims_eq(a: &Vec<usize>, b: &Vec<usize>) -> (r: bool)
    ensures
        r == (dims_model(a@) == dims_model(b@)),
{
    if a.len() != b.len() {
        proof {
            assert(dims_model(a@).len() != dims_model(b@).len());
        }
        return false;
    }
    let mut i: usize = 0;
    while i < a.len()
        invariant
            a@.len() == b@.len(),
            i <= a.len(),
            forall|j: int| 0 <= j < i ==> a@[j] == b@[j],
        decreases a.len() - i,
    {
        if a[i] != b[i] {
            proof {
                assert(dims_model(a@)[i as int] != dims_model(b@)[i as int]);
            }
            return false;
        }
        i = i + 1;
    }
    proof {
        assert(dims_model(a@) =~= dims_model(b@));
    }
    true
}

/// Decides equality of two optional shapes.
pub fn shape_eq(a: &Option<Vec<usize>>, b: &Option<Vec<usize>>) -> (r: bool)
    ensures
        r == (shape_model(*a) == shape_model(*b)),
{
    match (a, b) {
        (Some(da), Some(db)) => dims_eq(da, db),
        (None, None) => true,
        _ => false,
    }
}

/// Decides structural equality of two element kinds.
pub fn value_type_eq(a: &ValueType, b: &ValueType) -> (r: bool)
    ensures
        r == (a@ == b@),
    decreases a,
{
    match (a, b) {
        (ValueType::Num, ValueType::Num) => true,
        (ValueType::Char, ValueType::Char) => true,
        (ValueType::Function, ValueType::Function) => true,
        (ValueType::Boxed(x), ValueType::Boxed(y)) => type_eq(x, y),
        (ValueType::Unknown, ValueType::Unknown) => true,
        _ => false,
    }
}

/// Decides structural equality of two abstract values: this is the one test
/// used to recognise that stack slots carry the same type and shape.
pub fn type_eq(a: &Type, b: &Type) -> (r: bool)
    ensures
        r == (a@ == b@),
    decreases a,
{
    let ve = value_type_eq(&a.value, &b.value);
    let se = shape_eq(&a.shape, &b.shape);
    ve && se
}

impl Type {
    /// Builds a description with an exactly-known shape.
    pub fn new(value: ValueType, shape: Vec<usize>) -> (r: Type)
        ensures
            r@ == (SpecType { value: value@, shape: Some(dims_model(shape@)) }),
    {
        Type { value, shape: Some(shape) }
    }

    /// Builds a description whose shape could not be proven.
    pub fn unknown_shape(value: ValueType) -> (r: Type)
        ensures
            r@ == (SpecType { value: value@, shape: None }),
    {
        Type { value, shape: None }
    }

    /// Describes a concrete value. Total: concrete values are fully known,
    /// so the resulting shape is always present.
    pub fn from_value(val: &Value) -> (r: Type)
        ensures
            r@ == spec_from_value(val@),
        decreases val,
    {
        let value = match val {
            Value::Num(_) | Value::Byte(_) => ValueType::Num,
            Value::Char(_) => ValueType::Char,
            Value::Func(_, inner) => match inner {
                Some(b) => ValueType::Boxed(Box::new(Type::from_value(b))),
                None => ValueType::Function,
            },
        };
        Type { value, shape: Some(clone_dims(val.shape())) }
    }
}

} // verus!
