use zerium::append::{append_default, element_midpoint_applies, AppendDefault, ScalarDefault};
use zerium::edit::{PropertyElement, PropertyElementId};
use zerium::model::{PropertyValue, PropertyValueType, ScalarPropertyType};

type Value = PropertyValue<f32, [f32; 4]>;

fn tuple(values: Vec<Value>) -> Value {
    PropertyValue::Tuple(values)
}

fn elements(values: Vec<Value>) -> Vec<PropertyElement<Value>> {
    values.into_iter().enumerate().map(|(i, v)| PropertyElement::new(PropertyElementId(i as u64), v)).collect()
}

fn point_type() -> PropertyValueType {
    PropertyValueType::Tuple(vec![ScalarPropertyType::F32, ScalarPropertyType::F32])
}

#[test]
fn numbers_start_from_a_clamped_zero() {
    let r = append_default(&PropertyValueType::Scalar(ScalarPropertyType::I32), &elements(vec![PropertyValue::I32(5)]));
    assert!(matches!(r, AppendDefault::ClampedZero(ScalarPropertyType::I32)));
}

#[test]
fn other_scalars_start_from_their_default() {
    let none: Vec<PropertyElement<Value>> = vec![];
    assert!(matches!(append_default(&PropertyValueType::Scalar(ScalarPropertyType::Bool), &none), AppendDefault::Scalar(ScalarDefault::False)));
    assert!(matches!(append_default(&PropertyValueType::Scalar(ScalarPropertyType::String), &none), AppendDefault::Scalar(ScalarDefault::Empty)));
    assert!(matches!(append_default(&PropertyValueType::Scalar(ScalarPropertyType::Enum(7)), &none), AppendDefault::Scalar(ScalarDefault::FirstValue(7))));
    assert!(matches!(append_default(&PropertyValueType::Scalar(ScalarPropertyType::Color), &none), AppendDefault::Scalar(ScalarDefault::Black)));
}

#[test]
fn numeric_tuples_take_the_midpoint_of_first_and_last() {
    let values = elements(vec![
        tuple(vec![PropertyValue::F32(0.0), PropertyValue::I32(0)]),
        tuple(vec![PropertyValue::F32(5.0), PropertyValue::I32(1)]),
        tuple(vec![PropertyValue::F32(10.0), PropertyValue::I32(4)]),
    ]);
    match append_default(&point_type(), &values) {
        AppendDefault::Midpoint(PropertyValue::Tuple(a), PropertyValue::Tuple(b)) => {
            assert!(matches!(a[0], PropertyValue::F32(x) if x == 0.0));
            assert!(matches!(b[1], PropertyValue::I32(4)));
        }
        _ => panic!("expected a midpoint"),
    }
}

#[test]
fn otherwise_the_last_element_is_copied() {
    let single = elements(vec![tuple(vec![PropertyValue::F32(3.0), PropertyValue::F32(4.0)])]);
    assert!(matches!(append_default(&point_type(), &single), AppendDefault::Last(PropertyValue::Tuple(v)) if v.len() == 2));
    let mixed = elements(vec![
        tuple(vec![PropertyValue::F32(0.0), PropertyValue::Bool(true)]),
        tuple(vec![PropertyValue::F32(1.0), PropertyValue::Bool(false)]),
    ]);
    assert!(matches!(append_default(&point_type(), &mixed), AppendDefault::Last(PropertyValue::Tuple(v)) if matches!(v[1], PropertyValue::Bool(false))));
}

#[test]
fn empty_tuples_start_from_scalar_defaults() {
    let none: Vec<PropertyElement<Value>> = vec![];
    let ty = PropertyValueType::Tuple(vec![ScalarPropertyType::F32, ScalarPropertyType::Bool, ScalarPropertyType::Color]);
    match append_default(&ty, &none) {
        AppendDefault::Tuple(d) => assert_eq!(
            d,
            vec![ScalarDefault::Zero(ScalarPropertyType::F32), ScalarDefault::False, ScalarDefault::Black]
        ),
        _ => panic!("expected a tuple of defaults"),
    }
}

#[test]
fn midpoint_applies_to_numeric_tuples_of_one_length_and_colors() {
    let a = tuple(vec![PropertyValue::F32(0.0)]);
    let b = tuple(vec![PropertyValue::U32(2), PropertyValue::U32(3)]);
    assert!(!element_midpoint_applies(&a, &b));
    assert!(element_midpoint_applies(&a, &a));
    assert!(element_midpoint_applies::<f32, [f32; 4]>(&PropertyValue::Color([0.0; 4]), &PropertyValue::Color([1.0; 4])));
    assert!(!element_midpoint_applies::<f32, [f32; 4]>(&PropertyValue::Color([0.0; 4]), &PropertyValue::Bool(true)));
}
