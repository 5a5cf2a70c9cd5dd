use zerium::edit::{PropertyElement, PropertyElementId};
use zerium::inspector::{EffectInstance, EffectInstanceId, ItemId, PropertyValues, TimelineItem};
use zerium::model::PropertyValue;
use zerium::sync::{current_input_structure, same_structure, sync_decision, SyncDecision};

type Value = PropertyValue<f32, [f32; 4]>;

fn array(n: u64) -> Value {
    PropertyValue::Array((0..n).map(|k| PropertyElement::new(PropertyElementId(k), PropertyValue::U32(k as u32))).collect())
}

fn item(id: u64, props: Vec<(&str, Value)>, effects: Vec<EffectInstance<Value>>) -> TimelineItem<Value> {
    TimelineItem::new(
        ItemId(id),
        None,
        None,
        PropertyValues::new(props.into_iter().map(|(k, v)| (k.to_string(), v)).collect()),
        effects,
        false,
        None,
    )
}

fn effect(id: u64, props: Vec<(&str, Value)>) -> EffectInstance<Value> {
    EffectInstance::new(EffectInstanceId(id), "fx", "e", PropertyValues::new(props.into_iter().map(|(k, v)| (k.to_string(), v)).collect()))
}

#[test]
fn structure_lists_sorted_array_lengths() {
    let item = item(
        3,
        vec![("z", array(2)), ("x", PropertyValue::F32(1.0)), ("a", array(0))],
        vec![effect(9, vec![("m", array(1))]), effect(4, vec![("m", array(5)), ("b", array(3))])],
    );
    let structure = current_input_structure(Some(&item), &vec!["s1".to_string()], Some(7), &vec![]);
    assert_eq!(structure.item_id, Some(ItemId(3)));
    assert_eq!(structure.effect_ids, vec![EffectInstanceId(9), EffectInstanceId(4)]);
    assert_eq!(
        structure.array_lengths,
        vec![
            (None, "a".to_string(), 0),
            (None, "z".to_string(), 2),
            (Some(4), "b".to_string(), 3),
            (Some(4), "m".to_string(), 5),
            (Some(9), "m".to_string(), 1),
        ]
    );
    assert_eq!(structure.item_scene_arguments, vec!["s1".to_string()]);
    assert_eq!(structure.active_scene, Some(7));
    assert!(structure.active_scene_arguments.is_empty());
}

#[test]
fn nothing_selected_gives_an_empty_structure() {
    let structure = current_input_structure::<f32, [f32; 4]>(None, &vec![], None, &vec!["a".to_string()]);
    assert_eq!(structure.item_id, None);
    assert!(structure.effect_ids.is_empty() && structure.array_lengths.is_empty());
    assert_eq!(structure.active_scene_arguments, vec!["a".to_string()]);
}

#[test]
fn structures_compare_by_content() {
    let a = item(1, vec![("p", array(2))], vec![]);
    let b = item(1, vec![("p", array(2))], vec![]);
    let c = item(1, vec![("p", array(3))], vec![]);
    let sa = current_input_structure(Some(&a), &vec![], None, &vec![]);
    let sb = current_input_structure(Some(&b), &vec![], None, &vec![]);
    let sc = current_input_structure(Some(&c), &vec![], None, &vec![]);
    assert!(same_structure(&sa, &sb));
    assert!(!same_structure(&sa, &sc));
}

#[test]
fn sync_rebuilds_on_structure_change_and_clears_file_error_on_new_item() {
    let a = item(1, vec![("p", array(2))], vec![]);
    let c = item(1, vec![("p", array(3))], vec![]);
    let d = item(2, vec![("p", array(2))], vec![]);
    let sa = current_input_structure(Some(&a), &vec![], None, &vec![]);
    let sc = current_input_structure(Some(&c), &vec![], None, &vec![]);
    let sd = current_input_structure(Some(&d), &vec![], None, &vec![]);
    assert_eq!(
        sync_decision(None, &sa, 1, true),
        SyncDecision { rebuild_inputs: true, clear_file_error: true, editing_scene: true }
    );
    assert_eq!(
        sync_decision(Some(&sa), &sa, 2, true),
        SyncDecision { rebuild_inputs: false, clear_file_error: false, editing_scene: false }
    );
    assert_eq!(
        sync_decision(Some(&sa), &sc, 1, false),
        SyncDecision { rebuild_inputs: true, clear_file_error: false, editing_scene: false }
    );
    assert_eq!(
        sync_decision(Some(&sa), &sd, 1, false),
        SyncDecision { rebuild_inputs: true, clear_file_error: true, editing_scene: false }
    );
    let none = current_input_structure::<f32, [f32; 4]>(None, &vec![], None, &vec![]);
    assert!(!sync_decision(Some(&none), &none, 0, false).clear_file_error);
}

#[test]
fn array_order_does_not_change_the_structure() {
    let first = item(5, vec![("b", array(1)), ("a", array(2))], vec![effect(1, vec![("x", array(0))])]);
    let second = item(5, vec![("a", array(2)), ("b", array(1))], vec![effect(1, vec![("x", array(0))])]);
    let s1 = current_input_structure(Some(&first), &vec![], None, &vec![]);
    let s2 = current_input_structure(Some(&second), &vec![], None, &vec![]);
    assert_eq!(s1.array_lengths, s2.array_lengths);
    assert!(same_structure(&s1, &s2));
}
