use zerium::inspector::{
    animation_selection_is_stale, common_effects, property_is_common, EffectInstance,
    EffectInstanceId, ItemId, ParameterOwner, PropertyOwner, PropertyValues, TimelineItem,
};
use zerium::model::{
    str_equal, ItemSchema, PropertySchema, PropertyType, PropertyValueType, ScalarPropertyType, ScalarSettings,
};
use zerium::numeric::NumericInput;
use zerium::state::ControlState;


fn shown(editable: bool) -> ScalarSettings {
    ScalarSettings {
        visible: true,
        label: None,
        scalar_label: None,
        multiline: false,
        font_family_editor: false,
        enum_options: None,
        editable,
        animatable: true,
        scene_bindable: true,
    }
}

fn scalar(s: ScalarPropertyType) -> PropertyType {
    PropertyType::Value(PropertyValueType::Scalar(s))
}

fn size_type() -> PropertyType {
    PropertyType::Value(PropertyValueType::Tuple(vec![
        ScalarPropertyType::F32,
        ScalarPropertyType::F32,
    ]))
}

fn text_schema(opacity_visible: bool) -> ItemSchema {
    ItemSchema::new(
        "text",
        vec![
            PropertySchema::new("size", "Size", size_type(), true, shown(true), vec![]),
            PropertySchema::new("opacity", "Opacity", scalar(ScalarPropertyType::F32), opacity_visible, shown(true), vec![]),
            PropertySchema::new("content", "Content", scalar(ScalarPropertyType::String), true, shown(true), vec![]),
        ],
        Some("size".to_string()),
        true,
    )
}

fn effect(id: u64, plugin: &str, effect: &str) -> EffectInstance<i32> {
    EffectInstance::new(EffectInstanceId(id), plugin, effect, PropertyValues::new(vec![]))
}

fn item(id: u64, schema: Option<ItemSchema>, effects: Vec<EffectInstance<i32>>) -> TimelineItem<i32> {
    TimelineItem::new(
        ItemId(id),
        Some("zerium.text".to_string()),
        schema,
        PropertyValues::new(vec![("opacity".to_string(), 50), ("opacity".to_string(), 99)]),
        effects,
        false,
        None,
    )
}

#[test]
fn property_values_give_the_first_entry() {
    let values = PropertyValues::new(vec![("a".to_string(), 1), ("b".to_string(), 2), ("a".to_string(), 3)]);
    assert_eq!(values.property("a"), Some(&1));
    assert_eq!(values.property("b"), Some(&2));
    assert_eq!(values.property("c"), None);
}

#[test]
fn schema_lookup_by_id() {
    let schema = text_schema(true);
    assert_eq!(schema.id(), "text");
    assert_eq!(schema.property("opacity").map(|p| p.label()), Some("Opacity"));
    assert!(schema.property("missing").is_none());
    assert_eq!(schema.size_property().map(|p| p.id()), Some("size"));
    assert!(schema.is_size_property("size"));
    assert!(!schema.is_size_property("opacity"));
    assert!(schema.supports_aspect_ratio_lock());
    let no_size = ItemSchema::new("shape", vec![], None, false);
    assert!(no_size.size_property().is_none());
    assert!(!no_size.is_size_property("size"));
}

#[test]
fn property_types_compare_structurally() {
    assert!(size_type().same_as(&size_type()));
    assert!(!size_type().same_as(&scalar(ScalarPropertyType::F32)));
    let array = |max| PropertyType::Array {
        element_type: PropertyValueType::Scalar(ScalarPropertyType::U32),
        min_items: 0,
        max_items: max,
    };
    assert!(array(4).same_as(&array(4)));
    assert!(!array(4).same_as(&array(5)));
    assert!(scalar(ScalarPropertyType::Enum(3)).same_as(&scalar(ScalarPropertyType::Enum(3))));
    assert!(!scalar(ScalarPropertyType::Enum(3)).same_as(&scalar(ScalarPropertyType::Enum(4))));
}

#[test]
fn scalar_at_addresses_tuple_components() {
    let tuple = PropertyValueType::Tuple(vec![ScalarPropertyType::I32, ScalarPropertyType::Bool]);
    assert_eq!(tuple.scalar_at(Some(1)), Some(&ScalarPropertyType::Bool));
    assert_eq!(tuple.scalar_at(Some(2)), None);
    assert_eq!(tuple.scalar_at(None), None);
    let single = PropertyValueType::Scalar(ScalarPropertyType::U32);
    assert_eq!(single.scalar_at(None), Some(&ScalarPropertyType::U32));
    assert_eq!(single.scalar_at(Some(0)), None);
}

#[test]
fn str_equal_compares_characters() {
    assert!(str_equal("size", "size"));
    assert!(!str_equal("size", "Size"));
    assert!(!str_equal("size", "sizes"));
}

#[test]
fn numeric_inputs_exist_for_numbers_only() {
    assert_eq!(NumericInput::new(ScalarPropertyType::F32).map(|n| n.scalar()), Some(ScalarPropertyType::F32));
    assert_eq!(NumericInput::new(ScalarPropertyType::I32).map(|n| n.scalar()), Some(ScalarPropertyType::I32));
    assert_eq!(NumericInput::new(ScalarPropertyType::U32).map(|n| n.scalar()), Some(ScalarPropertyType::U32));
    assert!(NumericInput::new(ScalarPropertyType::Bool).is_none());
    assert!(NumericInput::new(ScalarPropertyType::Enum(1)).is_none());
    let schema = text_schema(true);
    assert!(NumericInput::for_schema(schema.property("opacity").unwrap()).is_some());
    assert!(NumericInput::for_schema(schema.property("size").unwrap()).is_none());
    assert!(NumericInput::for_schema(schema.property("content").unwrap()).is_none());
}

#[test]
fn item_owner_keys_values_and_size() {
    let schema = text_schema(true);
    let item = item(4, Some(text_schema(true)), vec![]);
    let owner: ParameterOwner<'_, i32> = PropertyOwner::Item { item: &item, schema: &schema };
    let opacity = schema.property("opacity").unwrap();
    assert_eq!(owner.key(opacity).to_string(), "zerium.text/text/opacity");
    assert_eq!(owner.value("opacity"), Some(&50));
    assert_eq!(owner.value("size"), None);
    assert_eq!(owner.effect_id(), None);
    assert!(owner.is_size("size"));
    assert!(!owner.is_size("opacity"));
}

#[test]
fn effect_owner_keys_values_and_id() {
    let glow = EffectInstance::new(
        EffectInstanceId(12),
        "zerium.effects",
        "glow",
        PropertyValues::new(vec![("radius".to_string(), 8)]),
    );
    let owner = PropertyOwner::Effect(&glow);
    let radius = PropertySchema::new("radius", "Radius", scalar(ScalarPropertyType::F32), true, shown(true), vec![]);
    assert_eq!(owner.key(&radius).to_string(), "effect/12/radius");
    assert_eq!(owner.value("radius"), Some(&8));
    assert_eq!(owner.effect_id(), Some(EffectInstanceId(12)));
    assert_eq!(glow.id().get(), 12);
    assert!(!owner.is_size("radius"));
}

#[test]
fn item_accessors() {
    let plain = item(1, None, vec![]);
    assert_eq!(plain.id(), ItemId(1));
    assert!(plain.schema().is_none());
    assert_eq!(plain.plugin_id_or_default(), "zerium.text");
    assert!(!plain.aspect_ratio_locked());
    assert_eq!(plain.scene_id(), None);
    let scene: TimelineItem<i32> =
        TimelineItem::new(ItemId(2), None, None, PropertyValues::new(vec![]), vec![], true, Some(7));
    assert_eq!(scene.plugin_id_or_default(), "");
    assert_eq!(scene.scene_id(), Some(7));
    assert!(scene.aspect_ratio_locked());
}

#[test]
fn common_property_needs_every_item_to_show_it() {
    let items = vec![item(1, Some(text_schema(true)), vec![]), item(2, Some(text_schema(true)), vec![])];
    assert!(property_is_common(&items, "opacity"));
    assert!(!property_is_common(&items, "missing"));
    let hidden = vec![item(1, Some(text_schema(true)), vec![]), item(2, Some(text_schema(false)), vec![])];
    assert!(!property_is_common(&hidden, "opacity"));
    let schemaless = vec![item(1, Some(text_schema(true)), vec![]), item(2, None, vec![])];
    assert!(!property_is_common(&schemaless, "opacity"));
    assert!(!property_is_common::<i32>(&vec![], "opacity"));
    let single = vec![item(1, Some(text_schema(false)), vec![])];
    assert!(property_is_common(&single, "opacity"));
}

#[test]
fn common_effects_are_those_at_the_same_position() {
    let first = item(1, None, vec![effect(1, "fx", "blur"), effect(2, "fx", "glow"), effect(3, "fx", "tint")]);
    let second = item(2, None, vec![effect(4, "fx", "blur"), effect(5, "fx", "tint")]);
    let third = item(3, None, vec![effect(6, "fx", "blur"), effect(7, "fx", "glow"), effect(8, "fx", "tint")]);
    assert_eq!(common_effects(&vec![first, second]), vec![0]);
    let first = item(1, None, vec![effect(1, "fx", "blur"), effect(2, "fx", "glow"), effect(3, "fx", "tint")]);
    assert_eq!(common_effects(&vec![first, third]), vec![0, 1, 2]);
    let only = item(1, None, vec![effect(1, "fx", "blur")]);
    assert_eq!(common_effects(&vec![only]), vec![0]);
    assert!(common_effects::<i32>(&vec![]).is_empty());
}

#[test]
fn animation_selection_staleness() {
    let target = ItemId(3);
    assert!(animation_selection_is_stale(false, target, &vec![target], true));
    assert!(!animation_selection_is_stale(true, target, &vec![target], false));
    assert!(animation_selection_is_stale(true, target, &vec![ItemId(4)], true));
    assert!(animation_selection_is_stale(true, target, &vec![target, ItemId(4)], true));
    assert!(!animation_selection_is_stale(true, target, &vec![], true));
    assert!(animation_selection_is_stale(true, target, &vec![], false));
}

#[test]
fn control_state_exposes_its_widget() {
    let text: ControlState<&str, u32> = ControlState::Text("input");
    let number: ControlState<&str, u32> = ControlState::Number("12");
    let color: ControlState<&str, u32> = ControlState::Color(0xff00ff);
    assert_eq!(text.text(), Some(&"input"));
    assert_eq!(number.text(), Some(&"12"));
    assert_eq!(color.text(), None);
    assert_eq!(color.color(), Some(&0xff00ff));
    assert_eq!(text.color(), None);
}
