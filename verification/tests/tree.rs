use zerium::control::{Control, ControlId, GroupKind, LeafControl, PropertyTarget, TextControl};
use zerium::inspector::{EffectInstance, EffectInstanceId, ItemId, PropertyValues, TimelineItem};
use zerium::model::{ItemSchema, PropertySchema, PropertyType, PropertyValueType, ScalarPropertyType, ScalarSettings};
use zerium::path::InspectorPath;
use zerium::tree::{
    assemble_control_tree, control_tree, effect_group_control, selection_item_controls, shown_effects, tuple_group,
    ControlTree,
};

type Tree = Control<i32, u8, ()>;

fn settings() -> ScalarSettings {
    ScalarSettings {
        visible: true,
        label: None,
        scalar_label: None,
        multiline: false,
        font_family_editor: false,
        enum_options: None,
        editable: true,
        animatable: true,
        scene_bindable: true,
    }
}

fn text_control(property_id: &str) -> Tree {
    let key = InspectorPath::item_property("p", "i", property_id);
    Control::Text(TextControl {
        common: LeafControl {
            id: ControlId::property(&key),
            target: PropertyTarget {
                key,
                property_id: property_id.to_string(),
                effect_id: None,
                element_id: None,
                scalar_index: None,
            },
            label: property_id.to_string(),
            scalar_label: None,
            animatable: true,
            scene_bindable: false,
            read_only: false,
            mixed: false,
            value: 0,
            animation_enabled: true,
            animation_stops: vec![1],
            binding: None,
        },
        multiline: false,
    })
}

fn item(id: u64, visible_props: &[&str], effects: &[(&str, &str)]) -> TimelineItem<i32> {
    let properties = visible_props
        .iter()
        .map(|id| PropertySchema::new(id, id, PropertyType::Value(PropertyValueType::Scalar(ScalarPropertyType::String)), true, settings(), vec![]))
        .collect();
    TimelineItem::new(
        ItemId(id),
        None,
        Some(ItemSchema::new("text", properties, None, false)),
        PropertyValues::new(vec![]),
        effects
            .iter()
            .enumerate()
            .map(|(k, (plugin, effect))| EffectInstance::new(EffectInstanceId(id * 10 + k as u64), plugin, effect, PropertyValues::new(vec![])))
            .collect(),
        false,
        None,
    )
}

fn ids(controls: &[Tree]) -> Vec<String> {
    controls.iter().map(|c| c.property_id().to_string()).collect()
}

#[test]
fn single_item_keeps_its_controls_and_animation() {
    let selected = vec![item(1, &["a"], &[])];
    let controls = selection_item_controls(vec![text_control("a"), text_control("b")], &selected, false);
    assert_eq!(ids(&controls), vec!["a"]);
    assert!(controls[0].common().unwrap().animatable);
    assert_eq!(controls[0].common().unwrap().animation_stops, vec![1]);
}

#[test]
fn several_items_keep_shared_controls_without_animation() {
    let selected = vec![item(1, &["a", "b"], &[]), item(2, &["b"], &[])];
    let controls = selection_item_controls(vec![text_control("a"), text_control("b")], &selected, false);
    assert_eq!(ids(&controls), vec!["b"]);
    let common = controls[0].common().unwrap();
    assert!(!common.animatable && !common.animation_enabled && common.animation_stops.is_empty());
}

#[test]
fn scene_items_keep_all_controls() {
    let selected = vec![item(1, &[], &[]), item(2, &[], &[])];
    let controls = selection_item_controls(vec![text_control("x"), text_control("y")], &selected, true);
    assert_eq!(ids(&controls), vec!["x", "y"]);
    assert!(!controls[1].common().unwrap().animation_enabled);
}

#[test]
fn effects_shown_for_the_selection() {
    let one = vec![item(1, &[], &[("fx", "blur"), ("fx", "glow")])];
    assert_eq!(shown_effects(&one), vec![0, 1]);
    let two = vec![item(1, &[], &[("fx", "blur"), ("fx", "glow")]), item(2, &[], &[("fx", "tint"), ("fx", "glow")])];
    assert_eq!(shown_effects(&two), vec![1]);
    assert!(shown_effects::<i32>(&vec![]).is_empty());
}

#[test]
fn effect_groups_carry_the_effect() {
    let group = effect_group_control(EffectInstanceId(5), "Blur".to_string(), true, vec![text_control("r")], true);
    match &group {
        Control::Group { id, label, children, kind: GroupKind::Effect(effect) } => {
            assert!(matches!(id, ControlId::EffectGroup(EffectInstanceId(5))));
            assert_eq!(label, "Blur");
            assert_eq!(effect.id, EffectInstanceId(5));
            assert_eq!(effect.label, "Blur");
            assert!(effect.hidden);
            assert_eq!(children.len(), 1);
            assert!(!children[0].common().unwrap().animatable);
        }
        _ => panic!("expected an effect group"),
    }
}

#[test]
fn tuple_groups_need_children() {
    let key = InspectorPath::item_property("p", "i", "size");
    assert!(tuple_group::<i32, u8, ()>(ControlId::group(&key), "Size".to_string(), vec![], None).is_empty());
    let group = tuple_group(ControlId::group(&key), "Size".to_string(), vec![text_control("size")], Some(key.clone()));
    assert_eq!(group.len(), 1);
    assert!(matches!(&group[0], Control::Group { kind: GroupKind::Tuple { size_key: Some(k) }, .. } if k.to_string() == "p/i/size"));
}

#[test]
fn tree_roots_are_item_controls_then_effect_groups() {
    let tree = control_tree(vec![text_control("a")], vec![effect_group_control(EffectInstanceId(1), "E".to_string(), false, vec![], false)]);
    assert_eq!(tree.roots.len(), 2);
    assert!(matches!(&tree.roots[1], Control::Group { kind: GroupKind::Effect(_), .. }));
    let empty: ControlTree<i32, u8, ()> = ControlTree::default();
    assert!(empty.roots.is_empty());
}

#[test]
fn assembled_tree_shows_shared_controls_then_effect_groups() {
    let selected = vec![item(1, &["a", "b"], &[("fx", "blur")]), item(2, &["b"], &[("fx", "blur")])];
    let groups = vec![(EffectInstanceId(10), "Blur".to_string(), false, vec![text_control("radius")])];
    let tree = assemble_control_tree(&selected, vec![text_control("a"), text_control("b")], groups);
    assert_eq!(tree.roots.len(), 2);
    assert_eq!(tree.roots[0].property_id(), "b");
    assert!(!tree.roots[0].common().unwrap().animatable);
    match &tree.roots[1] {
        Control::Group { label, children, kind: GroupKind::Effect(effect), .. } => {
            assert_eq!(label, "Blur");
            assert_eq!(effect.id, EffectInstanceId(10));
            assert!(!children[0].common().unwrap().animation_enabled);
        }
        _ => panic!("expected an effect group"),
    }
    let empty = assemble_control_tree::<i32, u8, (), i32>(&vec![], vec![text_control("a")], vec![]);
    assert!(empty.roots.is_empty());
}
