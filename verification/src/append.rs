//! The value a new element of an array property starts from: the midpoint
//! of the first and last elements for numeric tuples and colors, a copy of
//! the last element, or a default of the element type. The arithmetic on
//! floats (interpolation, snapping and clamping a zero) is left to the
//! caller; the library decides which of these applies.
use vstd::prelude::*;
use crate::model::{same_value, PropertyElement, PropertyValue, PropertyValueType, ScalarPropertyType};

verus! {

/// The default of one scalar of a new element.
#[derive(Clone, Copy, Debug, PartialEq, Eq, Structural)]
pub enum ScalarDefault {
    /// Zero of this numeric type (`F32`, `I32` or `U32`).
    Zero(ScalarPropertyType),
    /// Opaque black.
    Black,
    False,
    /// The empty string.
    Empty,
    /// The first value of the enum type with this id.
    FirstValue(u64),
}

/// The default of a scalar of type `ty`.
pub open spec fn scalar_default_spec(ty: ScalarPropertyType) -> ScalarDefault {
    match ty {
        ScalarPropertyType::Bool => ScalarDefault::False,
        ScalarPropertyType::Color => ScalarDefault::Black,
        ScalarPropertyType::String => ScalarDefault::Empty,
        ScalarPropertyType::Enum(id) => ScalarDefault::FirstValue(id),
        _ => ScalarDefault::Zero(ty),
    }
}

/// The default of a scalar of type `ty`.
pub fn scalar_default(ty: &ScalarPropertyType) -> (res: ScalarDefault)
    ensures
        res == scalar_default_spec(*ty),
{
    match ty {
        ScalarPropertyType::Bool => ScalarDefault::False,
        ScalarPropertyType::Color => ScalarDefault::Black,
        ScalarPropertyType::String => ScalarDefault::Empty,
        ScalarPropertyType::Enum(id) => ScalarDefault::FirstValue(*id),
        ScalarPropertyType::F32 => ScalarDefault::Zero(ScalarPropertyType::F32),
        ScalarPropertyType::I32 => ScalarDefault::Zero(ScalarPropertyType::I32),
        ScalarPropertyType::U32 => ScalarDefault::Zero(ScalarPropertyType::U32),
    }
}

/// The value is a number (`F32`, `I32` or `U32`).
pub open spec fn is_numeric<F, C>(v: PropertyValue<F, C>) -> bool {
    v is F32 || v is I32 || v is U32
}

/// A midpoint of `first` and `last` is sought: two tuples of the same length
/// made only of numbers, or two colors.
pub open spec fn midpoint_applies<F, C>(first: PropertyValue<F, C>, last: PropertyValue<F, C>) -> bool {
    match (first, last) {
        (PropertyValue::Tuple(a), PropertyValue::Tuple(b)) => {
            &&& a@.len() == b@.len()
            &&& forall|i: int| 0 <= i < a@.len() ==> is_numeric(#[trigger] a@[i])
            &&& forall|i: int| 0 <= i < b@.len() ==> is_numeric(#[trigger] b@[i])
        },
        (PropertyValue::Color(_), PropertyValue::Color(_)) => true,
        _ => false,
    }
}

fn all_numeric<F, C>(v: &Vec<PropertyValue<F, C>>) -> (res: bool)
    ensures
        res == forall|i: int| 0 <= i < v@.len() ==> is_numeric(#[trigger] v@[i]),
{
    let n = v.len();
    for i in 0..n
        invariant
            n == v@.len(),
            forall|k: int| 0 <= k < i ==> is_numeric(#[trigger] v@[k]),
    {
        let numeric = match &v[i] {
            PropertyValue::F32(_) | PropertyValue::I32(_) | PropertyValue::U32(_) => true,
            _ => false,
        };
        if !numeric {
            assert(!is_numeric(v@[i as int]));
            return false;
        }
    }
    true
}

/// Whether a midpoint of `first` and `last` is sought for a new element.
pub fn element_midpoint_applies<F, C>(first: &PropertyValue<F, C>, last: &PropertyValue<F, C>) -> (res: bool)
    ensures
        res == midpoint_applies(*first, *last),
{
    match (first, last) {
        (PropertyValue::Tuple(a), PropertyValue::Tuple(b)) => a.len() == b.len() && all_numeric(a)
            && all_numeric(b),
        (PropertyValue::Color(_), PropertyValue::Color(_)) => true,
        _ => false,
    }
}

/// What a new element of an array starts from.
pub enum AppendDefault<F, C> {
    /// Zero of this numeric type, snapped to the step and clamped to the
    /// property's range.
    ClampedZero(ScalarPropertyType),
    /// The midpoint of the first and last elements; the last one when they
    /// cannot be interpolated.
    Midpoint(PropertyValue<F, C>, PropertyValue<F, C>),
    /// A copy of the last element.
    Last(PropertyValue<F, C>),
    /// A scalar default.
    Scalar(ScalarDefault),
    /// A tuple of the defaults of its scalars.
    Tuple(Vec<ScalarDefault>),
}

/// The defaults of the scalars of a tuple type.
pub open spec fn tuple_defaults_spec(scalars: Seq<ScalarPropertyType>) -> Seq<ScalarDefault> {
    scalars.map_values(|t: ScalarPropertyType| scalar_default_spec(t))
}

/// What a new element starts from, for elements of type `ty` after the
/// elements `elements` (first and last as given): for numbers, a clamped
/// zero; for colors and tuples, the midpoint of the first and last elements
/// when there are two or more and it applies, else a copy of the last
/// element, else black or the tuple of defaults; for other scalars, their
/// default.
pub open spec fn append_default_matches<F, C>(
    res: AppendDefault<F, C>,
    ty: PropertyValueType,
    elements: Seq<PropertyElement<PropertyValue<F, C>>>,
) -> bool {
    let n = elements.len();
    let from_elements = match ty {
        PropertyValueType::Scalar(ScalarPropertyType::Color) => true,
        PropertyValueType::Tuple(_) => true,
        _ => false,
    };
    if !from_elements {
        match ty {
            PropertyValueType::Scalar(s) => match s {
                ScalarPropertyType::F32 | ScalarPropertyType::I32 | ScalarPropertyType::U32 => res
                    == AppendDefault::<F, C>::ClampedZero(s),
                _ => res == AppendDefault::<F, C>::Scalar(scalar_default_spec(s)),
            },
            _ => false,
        }
    } else if n >= 2 && midpoint_applies(elements[0].value, elements[n - 1].value) {
        match res {
            AppendDefault::Midpoint(a, b) => same_value(elements[0].value, a) && same_value(
                elements[n - 1].value,
                b,
            ),
            _ => false,
        }
    } else if n >= 1 {
        match res {
            AppendDefault::Last(v) => same_value(elements[n - 1].value, v),
            _ => false,
        }
    } else {
        match ty {
            PropertyValueType::Tuple(scalars) => match res {
                AppendDefault::Tuple(d) => d@ == tuple_defaults_spec(scalars@),
                _ => false,
            },
            _ => res == AppendDefault::<F, C>::Scalar(ScalarDefault::Black),
        }
    }
}

fn tuple_defaults(scalars: &Vec<ScalarPropertyType>) -> (res: Vec<ScalarDefault>)
    ensures
        res@ == tuple_defaults_spec(scalars@),
{
    let mut out: Vec<ScalarDefault> = Vec::new();
    let n = scalars.len();
    for i in 0..n
        invariant
            n == scalars@.len(),
            out@ == tuple_defaults_spec(scalars@.subrange(0, i as int)),
    {
        out.push(scalar_default(&scalars[i]));
        assert(tuple_defaults_spec(scalars@.subrange(0, i + 1)) =~= tuple_defaults_spec(
            scalars@.subrange(0, i as int),
        ).push(scalar_default_spec(scalars@[i as int])));
    }
    assert(scalars@.subrange(0, n as int) =~= scalars@);
    out
}

/// What a new element of an array of `ty` values starts from, after the
/// elements `elements` (see [`append_default_matches`]).
pub fn append_default<F: Copy, C: Copy>(
    ty: &PropertyValueType,
    elements: &Vec<PropertyElement<PropertyValue<F, C>>>,
) -> (res: AppendDefault<F, C>)
    ensures
        append_default_matches(res, *ty, elements@),
{
    let from_elements = match ty {
        PropertyValueType::Scalar(ScalarPropertyType::Color) => true,
        PropertyValueType::Tuple(_) => true,
        _ => false,
    };
    if !from_elements {
        return match ty {
            PropertyValueType::Scalar(ScalarPropertyType::F32) => AppendDefault::ClampedZero(ScalarPropertyType::F32),
            PropertyValueType::Scalar(ScalarPropertyType::I32) => AppendDefault::ClampedZero(ScalarPropertyType::I32),
            PropertyValueType::Scalar(ScalarPropertyType::U32) => AppendDefault::ClampedZero(ScalarPropertyType::U32),
            PropertyValueType::Scalar(s) => AppendDefault::Scalar(scalar_default(s)),
            PropertyValueType::Tuple(_) => AppendDefault::Scalar(ScalarDefault::Black),
        };
    }
    let n = elements.len();
    if n >= 2 {
        let first = elements[0].value();
        let last = elements[n - 1].value();
        if element_midpoint_applies(first, last) {
            return AppendDefault::Midpoint(first.clone(), last.clone());
        }
    }
    if n >= 1 {
        return AppendDefault::Last(elements[n - 1].value().clone());
    }
    match ty {
        PropertyValueType::Tuple(scalars) => AppendDefault::Tuple(tuple_defaults(scalars)),
        _ => AppendDefault::Scalar(ScalarDefault::Black),
    }
}

/// A color array with two or more elements, whose first and last values
/// are colors, starts a new element from the midpoint of its first and last
/// colors, never from a plain copy of the last.
pub proof fn lemma_color_array_appends_midpoint<F, C>(
    res: AppendDefault<F, C>,
    elements: Seq<PropertyElement<PropertyValue<F, C>>>,
)
    requires
        append_default_matches(res, PropertyValueType::Scalar(ScalarPropertyType::Color), elements),
        elements.len() >= 2,
        elements[0].value is Color,
        elements[elements.len() - 1].value is Color,
    ensures
        res matches AppendDefault::Midpoint(a, b) && a == elements[0].value && b == elements[elements.len() - 1].value,
{
}

/// A tuple array with two or more elements, whose first and last values are
/// tuples of the same length made only of numbers, starts a new element
/// from the midpoint of those two tuples.
pub proof fn lemma_numeric_tuples_append_midpoint<F, C>(
    res: AppendDefault<F, C>,
    ty: PropertyValueType,
    elements: Seq<PropertyElement<PropertyValue<F, C>>>,
    first: Vec<PropertyValue<F, C>>,
    last: Vec<PropertyValue<F, C>>,
)
    requires
        ty is Tuple,
        append_default_matches(res, ty, elements),
        elements.len() >= 2,
        elements[0].value == PropertyValue::<F, C>::Tuple(first),
        elements[elements.len() - 1].value == PropertyValue::<F, C>::Tuple(last),
        first@.len() == last@.len(),
        forall|i: int| 0 <= i < first@.len() ==> (#[trigger] first@[i] is F32 || first@[i] is I32 || first@[i] is U32),
        forall|i: int| 0 <= i < last@.len() ==> (#[trigger] last@[i] is F32 || last@[i] is I32 || last@[i] is U32),
    ensures
        res matches AppendDefault::Midpoint(a, b) && same_value(elements[0].value, a) && same_value(
            elements[elements.len() - 1].value,
            b,
        ),
{
    assert(midpoint_applies(elements[0].value, elements[elements.len() - 1].value)) by {
        assert forall|i: int| 0 <= i < first@.len() implies is_numeric(#[trigger] first@[i]) by {}
        assert forall|i: int| 0 <= i < last@.len() implies is_numeric(#[trigger] last@[i]) by {}
    }
}

/// What a new element starts from, case by case: numbers start from a
/// clamped zero of their type; switches from `false`, strings from the
/// empty string, enums from their first value; a color or tuple array with
/// one element copies it; an empty color array starts from black; an empty
/// tuple array from one default per scalar (zero, black, `false`, empty,
/// first value).
pub proof fn lemma_append_default_cases<F, C>(
    res: AppendDefault<F, C>,
    ty: PropertyValueType,
    elements: Seq<PropertyElement<PropertyValue<F, C>>>,
)
    requires
        append_default_matches(res, ty, elements),
    ensures
        ty == PropertyValueType::Scalar(ScalarPropertyType::F32) ==> res == AppendDefault::<F, C>::ClampedZero(ScalarPropertyType::F32),
        ty == PropertyValueType::Scalar(ScalarPropertyType::I32) ==> res == AppendDefault::<F, C>::ClampedZero(ScalarPropertyType::I32),
        ty == PropertyValueType::Scalar(ScalarPropertyType::U32) ==> res == AppendDefault::<F, C>::ClampedZero(ScalarPropertyType::U32),
        ty == PropertyValueType::Scalar(ScalarPropertyType::Bool) ==> res == AppendDefault::<F, C>::Scalar(ScalarDefault::False),
        ty == PropertyValueType::Scalar(ScalarPropertyType::String) ==> res == AppendDefault::<F, C>::Scalar(ScalarDefault::Empty),
        forall|id: u64| ty == PropertyValueType::Scalar(ScalarPropertyType::Enum(id))
            ==> res == AppendDefault::<F, C>::Scalar(ScalarDefault::FirstValue(id)),
        (ty == PropertyValueType::Scalar(ScalarPropertyType::Color) || ty is Tuple) && elements.len() == 1
            ==> (res matches AppendDefault::Last(v) && same_value(elements[0].value, v)),
        ty == PropertyValueType::Scalar(ScalarPropertyType::Color) && elements.len() == 0
            ==> res == AppendDefault::<F, C>::Scalar(ScalarDefault::Black),
        forall|scalars: Vec<ScalarPropertyType>| ty == PropertyValueType::Tuple(scalars) && elements.len() == 0
            ==> (res matches AppendDefault::Tuple(d) && d@.len() == scalars@.len() && forall|i: int| 0 <= i < d@.len() ==> {
                let t = #[trigger] scalars@[i];
                &&& (t == ScalarPropertyType::F32 || t == ScalarPropertyType::I32 || t == ScalarPropertyType::U32) ==> d@[i] == ScalarDefault::Zero(t)
                &&& t == ScalarPropertyType::Color ==> d@[i] == ScalarDefault::Black
                &&& t == ScalarPropertyType::Bool ==> d@[i] == ScalarDefault::False
                &&& t == ScalarPropertyType::String ==> d@[i] == ScalarDefault::Empty
                &&& forall|id: u64| t == ScalarPropertyType::Enum(id) ==> d@[i] == ScalarDefault::FirstValue(id)
            }),
{
}

} // verus!
