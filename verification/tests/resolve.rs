use zerium::control::{Control, ControlId, ElementKind, GroupKind, LeafControl};
use zerium::edit::{PropertyElement, PropertyElementId};
use zerium::inspector::{EffectInstance, EffectInstanceId, ItemId, PropertyOwner, PropertyValues, TimelineItem};
use zerium::model::{
    ItemSchema, PropertySchema, PropertyType, PropertyValue, PropertyValueType, ScalarPropertyType,
    ScalarSettings,
};
use zerium::resolve::{
    effect_controls, item_controls, owner_controls, resolve_bindings, scene_argument_value_controls,
    selection_base_controls, NumberField, Resolution, ResolvedControl,
};
use zerium::scene::{SceneArgumentOption, SceneBindingOwner, SceneBindingTarget};

type Value = PropertyValue<f32, [f32; 4]>;
type Resolved = ResolvedControl<f32, [f32; 4], u32>;

fn settings() -> ScalarSettings {
    ScalarSettings {
        visible: true,
        label: None,
        scalar_label: None,
        multiline: false,
        font_family_editor: false,
        enum_options: None,
        editable: true,
        animatable: true,
        scene_bindable: true,
    }
}

fn scalar(s: ScalarPropertyType) -> PropertyType {
    PropertyType::Value(PropertyValueType::Scalar(s))
}

fn size_type() -> PropertyType {
    PropertyType::Value(PropertyValueType::Tuple(vec![ScalarPropertyType::F32, ScalarPropertyType::F32]))
}

fn property(id: &str, label: &str, ty: PropertyType) -> PropertySchema {
    PropertySchema::new(id, label, ty, true, settings(), vec![])
}

fn schema(properties: Vec<PropertySchema>) -> ItemSchema {
    ItemSchema::new("text", properties, Some("size".to_string()), true)
}

fn item(values: Vec<(&str, Value)>, schema: Option<ItemSchema>) -> TimelineItem<Value> {
    TimelineItem::new(
        ItemId(1),
        Some("zerium".to_string()),
        schema,
        PropertyValues::new(values.into_iter().map(|(id, v)| (id.to_string(), v)).collect()),
        vec![],
        false,
        None,
    )
}

fn leaf(control: &Resolved) -> &LeafControl<Value, u32> {
    control.common().expect("a leaf control")
}

fn key_of(control: &Resolved) -> String {
    match control.id() {
        ControlId::Property(path) | ControlId::Group(path) => path.to_string(),
        _ => panic!("a property or group control"),
    }
}

fn controls_of(property: &PropertySchema, values: Vec<(&str, Value)>) -> Vec<Resolved> {
    let schema = schema(vec![]);
    let item = item(values, None);
    let owner = PropertyOwner::Item { item: &item, schema: &schema };
    owner_controls(&owner, property, ItemId(1), &vec![])
}

#[test]
fn a_number_property_gets_one_number_control() {
    let controls = controls_of(&property("opacity", "Opacity", scalar(ScalarPropertyType::F32)), vec![(
        "opacity",
        PropertyValue::F32(0.5),
    )]);
    assert_eq!(controls.len(), 1);
    let control = &controls[0];
    assert!(matches!(control, Control::Number(n) if n.spec == NumberField {
        scalar_type: ScalarPropertyType::F32,
        scalar_index: None,
        is_size: false,
    }));
    let common = leaf(control);
    assert_eq!(common.label, "Opacity");
    assert_eq!(key_of(control), "zerium/text/opacity/scalar/None/None");
    assert_eq!(common.target.key.to_string(), "zerium/text/opacity/scalar/None/None");
    assert_eq!(common.target.property_id, "opacity");
    assert_eq!(common.target.effect_id, None);
    assert_eq!(common.target.scalar_index, None);
    assert!(matches!(common.value, PropertyValue::F32(v) if v == 0.5));
    assert!(common.animatable && common.scene_bindable && !common.read_only && !common.mixed);
    assert!(!common.animation_enabled && common.animation_stops.is_empty() && common.binding.is_none());
}

#[test]
fn a_size_tuple_is_grouped_with_named_scalars() {
    let mut width = settings();
    width.label = Some("W".to_string());
    let mut height = settings();
    height.editable = false;
    let size = PropertySchema::new("size", "Size", size_type(), true, settings(), vec![width, height]);
    let controls = controls_of(
        &size,
        vec![("size", PropertyValue::Tuple(vec![PropertyValue::F32(640.0), PropertyValue::F32(480.0)]))],
    );
    assert_eq!(controls.len(), 1);
    match &controls[0] {
        Control::Group { id, label, children, kind: GroupKind::Tuple { size_key } } => {
            assert!(matches!(id, ControlId::Group(path) if path.to_string() == "zerium/text/size"));
            assert_eq!(label, "Size");
            assert_eq!(size_key.as_ref().map(|k| k.to_string()).as_deref(), Some("zerium/text/size"));
            assert_eq!(children.len(), 2);
            assert_eq!(leaf(&children[0]).label, "Size W");
            assert_eq!(leaf(&children[1]).label, "Size 2");
            assert!(!leaf(&children[0]).read_only);
            assert!(leaf(&children[1]).read_only);
            assert_eq!(key_of(&children[1]), "zerium/text/size/scalar/None/Some(1)");
            assert!(matches!(&children[1], Control::Number(n) if n.spec.is_size && n.spec.scalar_index == Some(1)));
            assert!(matches!(leaf(&children[1]).value, PropertyValue::F32(v) if v == 480.0));
        }
        _ => panic!("expected a tuple group"),
    }
}

#[test]
fn hidden_properties_scalars_and_missing_values_get_no_controls() {
    let hidden = PropertySchema::new("x", "X", scalar(ScalarPropertyType::F32), false, settings(), vec![]);
    assert!(controls_of(&hidden, vec![("x", PropertyValue::F32(1.0))]).is_empty());
    let missing = property("x", "X", scalar(ScalarPropertyType::F32));
    assert!(controls_of(&missing, vec![]).is_empty());
    let hidden_scalar = || {
        let mut s = settings();
        s.visible = false;
        s
    };
    let both_hidden = PropertySchema::new("size", "Size", size_type(), true, settings(), vec![hidden_scalar(), hidden_scalar()]);
    assert!(controls_of(
        &both_hidden,
        vec![("size", PropertyValue::Tuple(vec![PropertyValue::F32(1.0), PropertyValue::F32(2.0)]))],
    )
    .is_empty());
}

#[test]
fn leaf_kinds_follow_type_and_value() {
    let text = controls_of(&property("t", "T", scalar(ScalarPropertyType::String)), vec![(
        "t",
        PropertyValue::String("hi".to_string()),
    )]);
    assert!(matches!(&text[0], Control::Text(t) if !t.multiline));
    let switch = controls_of(&property("b", "B", scalar(ScalarPropertyType::Bool)), vec![("b", PropertyValue::Bool(true))]);
    assert!(matches!(&switch[0], Control::Bool(_)));
    let color = controls_of(&property("c", "C", scalar(ScalarPropertyType::Color)), vec![(
        "c",
        PropertyValue::Color([1.0, 0.0, 0.0, 1.0]),
    )]);
    assert!(matches!(&color[0], Control::Color(_)));
    let wrong = controls_of(&property("b", "B", scalar(ScalarPropertyType::Bool)), vec![(
        "b",
        PropertyValue::String("no".to_string()),
    )]);
    assert!(wrong.is_empty());
}

#[test]
fn enums_need_options() {
    let mut with_options = settings();
    with_options.enum_options = Some(vec![(0, "Left".to_string()), (2, "Right".to_string())]);
    let choice = PropertySchema::new("align", "Align", scalar(ScalarPropertyType::Enum(5)), true, with_options, vec![]);
    let controls = controls_of(&choice, vec![("align", PropertyValue::Enum(2))]);
    match &controls[0] {
        Control::Choice(c) => {
            assert_eq!(c.ty, ScalarPropertyType::Enum(5));
            assert_eq!(c.options, vec![("Left".to_string(), 0), ("Right".to_string(), 2)]);
        }
        _ => panic!("expected a choice"),
    }
    let without = property("align", "Align", scalar(ScalarPropertyType::Enum(5)));
    assert!(controls_of(&without, vec![("align", PropertyValue::Enum(2))]).is_empty());
}

#[test]
fn arrays_get_a_group_of_element_rows() {
    let mut fonts = settings();
    fonts.font_family_editor = true;
    let array = PropertySchema::new(
        "fonts",
        "Fonts",
        PropertyType::Array {
            element_type: PropertyValueType::Scalar(ScalarPropertyType::String),
            min_items: 1,
            max_items: 3,
        },
        true,
        fonts,
        vec![],
    );
    let value: Value = PropertyValue::Array(vec![
        PropertyElement::new(PropertyElementId(7), PropertyValue::String("Serif".to_string())),
        PropertyElement::new(PropertyElementId(9), PropertyValue::String("Mono".to_string())),
    ]);
    let schema = schema(vec![]);
    let item = item(vec![("fonts", value)], None);
    let owner = PropertyOwner::Item { item: &item, schema: &schema };
    let binding = SceneBindingTarget::new(ItemId(1), SceneBindingOwner::Item, "fonts", Some(PropertyElementId(9)), None);
    let arguments = vec![SceneArgumentOption::new(
        3,
        "font",
        "Font",
        property("font", "Font", scalar(ScalarPropertyType::String)),
        vec![binding],
        false,
        false,
    )];
    let controls: Vec<Resolved> = owner_controls(&owner, &array, ItemId(1), &arguments);
    assert_eq!(controls.len(), 1);
    match &controls[0] {
        Control::Group { label, children, kind: GroupKind::Elements(group), .. } => {
            assert_eq!(label, "Fonts");
            assert_eq!(group.element_kind, ElementKind::FontFamily);
            assert_eq!((group.min_items, group.max_items), (1, 3));
            assert!(group.has_scene_binding);
            assert_eq!(group.elements.len(), 2);
            assert_eq!(group.elements[1].element_id(), PropertyElementId(9));
            assert_eq!(group.target.property_id, "fonts");
            assert_eq!(children.len(), 2);
            match &children[1] {
                Control::Group { id, label, children: row, kind: GroupKind::Plain } => {
                    assert!(matches!(id, ControlId::Group(p) if p.to_string() == "zerium/text/fonts/scalar/Some(1)/None"));
                    assert_eq!(label, "要素 2");
                    assert_eq!(row.len(), 1);
                    let common = leaf(&row[0]);
                    assert_eq!(common.label, "Fonts 2");
                    assert_eq!(common.target.element_id, Some(PropertyElementId(9)));
                    assert!(matches!(&common.value, PropertyValue::String(s) if s == "Mono"));
                }
                _ => panic!("expected an element row"),
            }
        }
        _ => panic!("expected an elements group"),
    }
    let other_item: Vec<Resolved> = owner_controls(&owner, &array, ItemId(2), &arguments);
    assert!(matches!(&other_item[0], Control::Group { kind: GroupKind::Elements(g), .. } if !g.has_scene_binding));
}

#[test]
fn item_controls_follow_the_schema_order() {
    let schema = schema(vec![
        property("b", "B", scalar(ScalarPropertyType::Bool)),
        property("missing", "Missing", scalar(ScalarPropertyType::F32)),
        property("a", "A", scalar(ScalarPropertyType::F32)),
    ]);
    let item = item(vec![("a", PropertyValue::F32(1.0)), ("b", PropertyValue::Bool(false))], Some(schema));
    let controls: Vec<Resolved> = item_controls(&item, &vec![]);
    let labels: Vec<&str> = controls.iter().map(|c| leaf(c).label.as_str()).collect();
    assert_eq!(labels, vec!["B", "A"]);
    let schemaless = self::item(vec![("a", PropertyValue::F32(1.0))], None);
    assert!(item_controls::<f32, [f32; 4], u32>(&schemaless, &vec![]).is_empty());
}

#[test]
fn effect_controls_use_the_effect_path() {
    let effect: EffectInstance<Value> = EffectInstance::new(
        EffectInstanceId(12),
        "fx",
        "blur",
        PropertyValues::new(vec![("radius".to_string(), PropertyValue::U32(4))]),
    );
    let controls: Vec<Resolved> = effect_controls(
        &effect,
        &vec![property("radius", "Radius", scalar(ScalarPropertyType::U32))],
        ItemId(1),
        &vec![],
    );
    assert_eq!(controls.len(), 1);
    assert_eq!(key_of(&controls[0]), "effect/12/radius/scalar/None/None");
    assert_eq!(leaf(&controls[0]).target.effect_id, Some(EffectInstanceId(12)));
}

#[test]
fn scene_arguments_show_the_values_the_item_gives_them() {
    let arguments = vec![
        property("speed", "Speed", scalar(ScalarPropertyType::F32)),
        property("unset", "Unset", scalar(ScalarPropertyType::F32)),
        property("offset", "Offset", size_type()),
    ];
    let values = PropertyValues::new(vec![
        ("offset".to_string(), PropertyValue::Tuple(vec![PropertyValue::F32(1.0), PropertyValue::F32(2.0)])),
        ("speed".to_string(), PropertyValue::F32(2.0)),
    ]);
    let controls: Vec<Resolved> = scene_argument_value_controls(4, &arguments, &values);
    assert_eq!(controls.len(), 2);
    assert_eq!(key_of(&controls[0]), "scene/4/speed/scalar/None/None");
    match &controls[1] {
        Control::Group { children, kind: GroupKind::Tuple { size_key: None }, .. } => {
            assert_eq!(children.len(), 2);
            assert_eq!(leaf(&children[1]).label, "Offset 2");
        }
        _ => panic!("expected a tuple group"),
    }
}

#[test]
fn bindings_are_resolved_while_editing_a_scene() {
    let item = item(vec![("opacity", PropertyValue::F32(0.5))], None);
    let mut control = controls_of(&property("opacity", "Opacity", scalar(ScalarPropertyType::F32)), vec![(
        "opacity",
        PropertyValue::F32(0.5),
    )])
    .remove(0);
    let arguments = vec![SceneArgumentOption::new(
        3,
        "alpha",
        "Alpha",
        property("alpha", "Alpha", scalar(ScalarPropertyType::F32)),
        vec![SceneBindingTarget::new(ItemId(1), SceneBindingOwner::Item, "opacity", None, None)],
        false,
        false,
    )];
    let selected = vec![item];
    let resolution = Resolution { item_id: ItemId(1), selected_items: &selected, editing_scene: true, arguments: &arguments };
    resolve_bindings(&mut control, &resolution);
    let binding = leaf(&control).binding.as_ref().expect("a binding");
    assert_eq!(binding.connected, Some(("alpha".to_string(), "Alpha".to_string())));
    assert_eq!(binding.compatible, vec![("alpha".to_string(), "Alpha".to_string())]);

    let mut animated = control;
    if let Control::Number(n) = &mut animated {
        n.common.animation_enabled = true;
    }
    resolve_bindings(&mut animated, &resolution);
    assert!(leaf(&animated).binding.is_none());
}

#[test]
fn switches_are_mixed_when_the_selection_disagrees() {
    let first = item(vec![("visible", PropertyValue::Bool(true))], None);
    let second = item(vec![("visible", PropertyValue::Bool(false))], None);
    let third = item(vec![("visible", PropertyValue::Bool(true))], None);
    let make = || controls_of(&property("visible", "Visible", scalar(ScalarPropertyType::Bool)), vec![(
        "visible",
        PropertyValue::Bool(true),
    )])
    .remove(0);
    let agree = vec![first, third];
    let mut control = make();
    resolve_bindings(&mut control, &Resolution { item_id: ItemId(1), selected_items: &agree, editing_scene: false, arguments: &vec![] });
    assert!(!leaf(&control).mixed);
    assert!(leaf(&control).binding.is_none());
    let disagree = vec![item(vec![("visible", PropertyValue::Bool(true))], None), second];
    let mut control = make();
    resolve_bindings(&mut control, &Resolution { item_id: ItemId(1), selected_items: &disagree, editing_scene: false, arguments: &vec![] });
    assert!(leaf(&control).mixed);
}

#[test]
fn values_are_copied_deeply() {
    let value: Value = PropertyValue::Array(vec![PropertyElement::new(
        PropertyElementId(1),
        PropertyValue::Tuple(vec![PropertyValue::String("a".to_string()), PropertyValue::I32(-3)]),
    )]);
    let copy = value.clone();
    match (&value, &copy) {
        (PropertyValue::Array(a), PropertyValue::Array(b)) => {
            assert_eq!(a[0].element_id(), b[0].element_id());
            assert!(matches!(b[0].value(), PropertyValue::Tuple(t) if matches!(&t[0], PropertyValue::String(s) if s == "a") && matches!(t[1], PropertyValue::I32(-3))));
        }
        _ => panic!("expected arrays"),
    }
    assert!(matches!(value.scalar_at(None), Some(PropertyValue::Array(_))));
    let tuple: Value = PropertyValue::Tuple(vec![PropertyValue::U32(1), PropertyValue::U32(2)]);
    assert!(matches!(tuple.scalar_at(Some(1)), Some(PropertyValue::U32(2))));
    assert!(tuple.scalar_at(None).is_none());
    assert!(tuple.scalar_at(Some(2)).is_none());
}

#[test]
fn only_the_item_size_carries_a_size_key() {
    let offset = property("offset", "Offset", size_type());
    let controls = controls_of(
        &offset,
        vec![("offset", PropertyValue::Tuple(vec![PropertyValue::F32(1.0), PropertyValue::F32(2.0)]))],
    );
    assert!(matches!(&controls[0], Control::Group { kind: GroupKind::Tuple { size_key: None }, .. }));
    let effect: EffectInstance<Value> = EffectInstance::new(
        EffectInstanceId(2),
        "fx",
        "move",
        PropertyValues::new(vec![(
            "size".to_string(),
            PropertyValue::Tuple(vec![PropertyValue::F32(1.0), PropertyValue::F32(2.0)]),
        )]),
    );
    let effect_size: Vec<Resolved> = effect_controls(&effect, &vec![property("size", "Size", size_type())], ItemId(1), &vec![]);
    assert!(matches!(&effect_size[0], Control::Group { kind: GroupKind::Tuple { size_key: None }, .. }));
}

#[test]
fn scalars_of_one_property_have_distinct_ids() {
    let controls = controls_of(
        &property("pos", "Pos", PropertyType::Value(PropertyValueType::Tuple(vec![
            ScalarPropertyType::F32,
            ScalarPropertyType::F32,
            ScalarPropertyType::F32,
        ]))),
        vec![(
            "pos",
            PropertyValue::Tuple(vec![PropertyValue::F32(1.0), PropertyValue::F32(2.0), PropertyValue::F32(3.0)]),
        )],
    );
    match &controls[0] {
        Control::Group { children, .. } => {
            let keys: Vec<String> = children.iter().map(key_of).collect();
            assert_eq!(
                keys,
                vec![
                    "zerium/text/pos/scalar/None/Some(0)",
                    "zerium/text/pos/scalar/None/Some(1)",
                    "zerium/text/pos/scalar/None/Some(2)",
                ]
            );
        }
        _ => panic!("expected a tuple group"),
    }
}

#[test]
fn scene_items_take_their_controls_from_the_scene() {
    let scene_item: TimelineItem<Value> = TimelineItem::new(
        ItemId(5),
        None,
        Some(schema(vec![property("x", "X", scalar(ScalarPropertyType::F32))])),
        PropertyValues::new(vec![("x".to_string(), PropertyValue::F32(1.0))]),
        vec![],
        false,
        Some(8),
    );
    let arguments = vec![property("speed", "Speed", scalar(ScalarPropertyType::F32))];
    let values = PropertyValues::new(vec![("speed".to_string(), PropertyValue::F32(3.0))]);
    let controls: Vec<Resolved> = selection_base_controls(&scene_item, Some((&arguments, &values)), &vec![]);
    assert_eq!(controls.len(), 1);
    assert_eq!(key_of(&controls[0]), "scene/8/speed/scalar/None/None");
    let unknown: Vec<Resolved> = selection_base_controls(&scene_item, None, &vec![]);
    assert!(unknown.is_empty());
    let plain = item(vec![("x", PropertyValue::F32(1.0))], Some(schema(vec![property("x", "X", scalar(ScalarPropertyType::F32))])));
    let controls: Vec<Resolved> = selection_base_controls(&plain, Some((&arguments, &values)), &vec![]);
    assert_eq!(key_of(&controls[0]), "zerium/text/x/scalar/None/None");
}
