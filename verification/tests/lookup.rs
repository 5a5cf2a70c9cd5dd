use zerium::control::PropertyTarget;
use zerium::edit::{PropertyElement, PropertyElementId};
use zerium::inspector::{EffectInstance, EffectInstanceId, ItemId, PropertyValues, TimelineItem};
use zerium::lookup::{color_value, target_value};
use zerium::model::PropertyValue;
use zerium::path::InspectorPath;

type Value = PropertyValue<f32, [f32; 4]>;

fn target(effect_id: Option<u64>, property_id: &str, element_id: Option<u64>, scalar_index: Option<usize>) -> PropertyTarget {
    PropertyTarget {
        key: InspectorPath::item_property("p", "i", property_id),
        property_id: property_id.to_string(),
        effect_id: effect_id.map(EffectInstanceId),
        element_id: element_id.map(PropertyElementId),
        scalar_index,
    }
}

fn item() -> TimelineItem<Value> {
    let colors: Value = PropertyValue::Array(vec![
        PropertyElement::new(PropertyElementId(4), PropertyValue::Color([0.0, 0.0, 1.0, 1.0])),
        PropertyElement::new(PropertyElementId(8), PropertyValue::Color([1.0, 0.0, 0.0, 1.0])),
    ]);
    let effect = EffectInstance::new(
        EffectInstanceId(3),
        "fx",
        "tint",
        PropertyValues::new(vec![("tint".to_string(), PropertyValue::Color([0.5, 0.5, 0.5, 1.0]))]),
    );
    TimelineItem::new(
        ItemId(1),
        None,
        None,
        PropertyValues::new(vec![
            ("size".to_string(), PropertyValue::Tuple(vec![PropertyValue::U32(10), PropertyValue::U32(20)])),
            ("colors".to_string(), colors),
            ("fill".to_string(), PropertyValue::Color([0.0, 1.0, 0.0, 1.0])),
        ]),
        vec![effect],
        false,
        None,
    )
}

#[test]
fn values_are_found_by_effect_element_and_scalar() {
    let item = item();
    assert!(matches!(target_value(&item, &target(None, "size", None, Some(1))), Some(PropertyValue::U32(20))));
    assert!(target_value(&item, &target(None, "size", None, None)).is_none());
    assert!(target_value(&item, &target(None, "missing", None, None)).is_none());
    assert!(matches!(target_value(&item, &target(Some(3), "tint", None, None)), Some(PropertyValue::Color(_))));
    assert!(target_value(&item, &target(Some(4), "tint", None, None)).is_none());
    assert!(target_value(&item, &target(None, "fill", Some(1), None)).is_none());
}

#[test]
fn colors_are_read_from_their_fields() {
    let item = item();
    assert_eq!(color_value(&item, &target(None, "fill", None, None)), Some([0.0, 1.0, 0.0, 1.0]));
    assert_eq!(color_value(&item, &target(None, "colors", Some(8), None)), Some([1.0, 0.0, 0.0, 1.0]));
    assert_eq!(color_value(&item, &target(None, "colors", Some(5), None)), None);
    assert_eq!(color_value(&item, &target(Some(3), "tint", None, None)), Some([0.5, 0.5, 0.5, 1.0]));
    assert_eq!(color_value(&item, &target(None, "size", None, Some(0))), None);
}
