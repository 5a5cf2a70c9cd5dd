use zerium::edit::PropertyElementId;
use zerium::inspector::{EffectInstanceId, ItemId, PropertyValues, TimelineItem};
use zerium::model::{
    ItemSchema, PropertySchema, PropertyType, PropertyValueType, ScalarPropertyType, ScalarSettings,
};
use zerium::scene::{
    aspect_ratio_lock_state, binding_button_label, binding_failure_message, binding_menu,
    scene_field_binding, AspectRatioLockState, BindingAction, BindingMenuItem, SceneArgumentOption,
    SceneBindingOwner, SceneBindingTarget,
};
use zerium::scene_inputs::scene_argument_header;


fn shown(editable: bool) -> ScalarSettings {
    ScalarSettings {
        visible: true,
        label: None,
        scalar_label: None,
        multiline: false,
        font_family_editor: false,
        enum_options: None,
        editable,
        animatable: true,
        scene_bindable: true,
    }
}

fn scalar(s: ScalarPropertyType) -> PropertyType {
    PropertyType::Value(PropertyValueType::Scalar(s))
}

fn size_type() -> PropertyType {
    PropertyType::Value(PropertyValueType::Tuple(vec![ScalarPropertyType::F32, ScalarPropertyType::F32]))
}

fn schema(supports_lock: bool, size_editable: bool) -> ItemSchema {
    ItemSchema::new(
        "image",
        vec![
            PropertySchema::new("size", "Size", size_type(), true, shown(size_editable), vec![]),
            PropertySchema::new("opacity", "Opacity", scalar(ScalarPropertyType::F32), true, shown(true), vec![]),
        ],
        Some("size".to_string()),
        supports_lock,
    )
}

fn item(id: u64, schema: Option<ItemSchema>, locked: bool, scene_id: Option<u64>) -> TimelineItem<()> {
    TimelineItem::new(
        ItemId(id),
        Some("zerium.image".to_string()),
        schema,
        PropertyValues::new(vec![]),
        vec![],
        locked,
        scene_id,
    )
}

fn target(item: u64, property: &str) -> SceneBindingTarget {
    SceneBindingTarget::new(ItemId(item), SceneBindingOwner::Item, property, None, None)
}

fn argument(id: &str, label: &str, ty: PropertyType, bindings: Vec<SceneBindingTarget>) -> SceneArgumentOption {
    SceneArgumentOption::new(1, id, label, PropertySchema::new(id, label, ty, true, shown(true), vec![]), bindings, false, false)
}

#[test]
fn binding_owner_follows_the_effect() {
    assert_eq!(SceneBindingOwner::from_effect(None), SceneBindingOwner::Item);
    assert_eq!(
        SceneBindingOwner::from_effect(Some(EffectInstanceId(3))),
        SceneBindingOwner::Effect(EffectInstanceId(3))
    );
}

#[test]
fn targets_are_the_same_only_field_for_field() {
    let a = target(1, "opacity");
    assert!(a.same_as(&target(1, "opacity")));
    assert!(!a.same_as(&target(2, "opacity")));
    assert!(!a.same_as(&target(1, "size")));
    let element = SceneBindingTarget::new(ItemId(1), SceneBindingOwner::Item, "opacity", Some(PropertyElementId(0)), None);
    assert!(!a.same_as(&element));
    let scalar = SceneBindingTarget::new(ItemId(1), SceneBindingOwner::Item, "opacity", None, Some(1));
    assert!(!a.same_as(&scalar));
    let effect = SceneBindingTarget::new(ItemId(1), SceneBindingOwner::Effect(EffectInstanceId(1)), "opacity", None, None);
    assert!(!a.same_as(&effect));
}

#[test]
fn field_binding_is_absent_outside_scene_editing() {
    let args = vec![argument("alpha", "Alpha", scalar(ScalarPropertyType::F32), vec![])];
    let ty = scalar(ScalarPropertyType::F32);
    assert!(scene_field_binding(false, false, true, target(1, "opacity"), &ty, &args).is_none());
    assert!(scene_field_binding(true, true, true, target(1, "opacity"), &ty, &args).is_none());
    assert!(scene_field_binding(true, false, false, target(1, "opacity"), &ty, &args).is_none());
}

#[test]
fn field_binding_lists_connected_and_compatible_arguments() {
    let args = vec![
        argument("alpha", "Alpha", scalar(ScalarPropertyType::F32), vec![target(2, "opacity")]),
        argument("name", "Name", scalar(ScalarPropertyType::String), vec![]),
        argument("fade", "Fade", scalar(ScalarPropertyType::F32), vec![target(1, "opacity")]),
        argument("fade2", "Fade again", scalar(ScalarPropertyType::F32), vec![target(1, "opacity")]),
    ];
    assert_eq!(args[2].binding_count(), 1);
    let ty = scalar(ScalarPropertyType::F32);
    let binding = scene_field_binding(true, false, true, target(1, "opacity"), &ty, &args).unwrap();
    assert!(binding.target.same_as(&target(1, "opacity")));
    assert_eq!(binding.connected, Some(("fade".to_string(), "Fade".to_string())));
    assert_eq!(
        binding.compatible,
        vec![
            ("alpha".to_string(), "Alpha".to_string()),
            ("fade".to_string(), "Fade".to_string()),
            ("fade2".to_string(), "Fade again".to_string()),
        ]
    );
    let unbound = scene_field_binding(true, false, true, target(3, "opacity"), &ty, &args).unwrap();
    assert_eq!(unbound.connected, None);
    assert_eq!(unbound.compatible.len(), 3);
}

#[test]
fn lock_state_for_a_single_item() {
    let one = item(1, Some(schema(true, true)), true, None);
    let state = aspect_ratio_lock_state(&one, &vec![item(1, Some(schema(true, true)), true, None)], &vec![], false);
    assert_eq!(
        state,
        Some(AspectRatioLockState { value: true, mixed: false, multiple: false, disabled_by_scene_size_argument: false })
    );
    assert!(state.unwrap().checked());
}

#[test]
fn lock_state_is_mixed_when_items_differ() {
    let first = item(1, Some(schema(true, true)), true, None);
    let selected = vec![item(1, Some(schema(true, true)), true, None), item(2, Some(schema(true, true)), false, None)];
    let state = aspect_ratio_lock_state(&first, &selected, &vec![], false).unwrap();
    assert!(state.mixed);
    assert!(state.multiple);
    assert!(!state.checked());
}

#[test]
fn no_lock_for_scene_items_or_items_without_editable_size() {
    let scene_item = item(1, Some(schema(true, true)), false, Some(4));
    assert_eq!(aspect_ratio_lock_state(&scene_item, &vec![], &vec![], false), None);
    let fixed = item(1, Some(schema(true, false)), false, None);
    assert_eq!(aspect_ratio_lock_state(&fixed, &vec![item(1, Some(schema(true, false)), false, None)], &vec![], false), None);
    let schemaless = item(1, None, false, None);
    assert_eq!(aspect_ratio_lock_state(&schemaless, &vec![], &vec![], false), None);
}

#[test]
fn no_lock_when_a_selected_item_does_not_support_it() {
    let first = item(1, Some(schema(true, true)), false, None);
    let selected = vec![item(1, Some(schema(true, true)), false, None), item(2, Some(schema(false, true)), false, None)];
    assert_eq!(aspect_ratio_lock_state(&first, &selected, &vec![], false), None);
}

#[test]
fn lock_is_disabled_when_a_scene_argument_binds_the_size() {
    let first = item(1, Some(schema(true, true)), false, None);
    let selected = vec![item(1, Some(schema(true, true)), false, None)];
    let args = vec![argument("size", "Size", size_type(), vec![target(1, "size")])];
    let editing = aspect_ratio_lock_state(&first, &selected, &args, true).unwrap();
    assert!(editing.disabled_by_scene_size_argument);
    let not_editing = aspect_ratio_lock_state(&first, &selected, &args, false).unwrap();
    assert!(!not_editing.disabled_by_scene_size_argument);
    let scalar_only = vec![argument(
        "width",
        "Width",
        scalar(ScalarPropertyType::F32),
        vec![SceneBindingTarget::new(ItemId(1), SceneBindingOwner::Item, "size", None, Some(0))],
    )];
    let partial = aspect_ratio_lock_state(&first, &selected, &scalar_only, true).unwrap();
    assert!(!partial.disabled_by_scene_size_argument);
}

fn describe_menu(items: &[BindingMenuItem]) -> Vec<String> {
    items
        .iter()
        .map(|item| match &item.action {
            BindingAction::Disconnect(id) => format!("{} -x {}", item.label, id),
            BindingAction::CreateArgument => format!("{} +", item.label),
            BindingAction::Connect(id) => format!("{} -> {}", item.label, id),
        })
        .collect()
}

#[test]
fn connected_field_menu_only_disconnects() {
    let args = vec![
        argument("alpha", "Alpha", scalar(ScalarPropertyType::F32), vec![]),
        argument("fade", "Fade", scalar(ScalarPropertyType::F32), vec![target(1, "opacity")]),
    ];
    let ty = scalar(ScalarPropertyType::F32);
    let binding = scene_field_binding(true, false, true, target(1, "opacity"), &ty, &args).unwrap();
    assert_eq!(binding_button_label(&binding), "→ Fade");
    assert_eq!(describe_menu(&binding_menu(&binding)), vec!["接続を解除 -x fade".to_string()]);
}

#[test]
fn unconnected_field_menu_creates_or_connects() {
    let args = vec![
        argument("alpha", "Alpha", scalar(ScalarPropertyType::F32), vec![]),
        argument("name", "Name", scalar(ScalarPropertyType::String), vec![]),
        argument("fade", "Fade", scalar(ScalarPropertyType::F32), vec![]),
    ];
    let ty = scalar(ScalarPropertyType::F32);
    let binding = scene_field_binding(true, false, true, target(1, "opacity"), &ty, &args).unwrap();
    assert_eq!(binding_button_label(&binding), "引数");
    assert_eq!(
        describe_menu(&binding_menu(&binding)),
        vec![
            "この値から新しい引数を作成 +".to_string(),
            "Alpha -> alpha".to_string(),
            "Fade -> fade".to_string(),
        ]
    );
}

#[test]
fn unconnected_field_without_compatible_arguments_can_still_create_one() {
    let args = vec![argument("name", "Name", scalar(ScalarPropertyType::String), vec![])];
    let ty = scalar(ScalarPropertyType::F32);
    let binding = scene_field_binding(true, false, true, target(1, "opacity"), &ty, &args).unwrap();
    assert_eq!(describe_menu(&binding_menu(&binding)), vec!["この値から新しい引数を作成 +".to_string()]);
}

#[test]
fn refused_menu_actions_are_reported() {
    assert_eq!(
        binding_failure_message(&BindingAction::Disconnect("fade".to_string())),
        "シーン引数の接続を解除できません"
    );
    assert_eq!(binding_failure_message(&BindingAction::CreateArgument), "シーン引数を作成できません");
    assert_eq!(binding_failure_message(&BindingAction::Connect("fade".to_string())), "シーン引数へ接続できません");
}

#[test]
fn argument_header_counts_connections_and_limits_moves() {
    let bound = argument(
        "fade",
        "Fade",
        scalar(ScalarPropertyType::F32),
        vec![target(1, "opacity"), target(2, "opacity")],
    );
    let first = scene_argument_header(0, 3, &bound, false);
    assert_eq!(first.connections, "2件接続");
    assert!(!first.move_up);
    assert!(first.move_down);
    assert_eq!(first.expand_tooltip, "詳細設定を展開");
    assert!(first.remove);
    assert_eq!(first.remove_tooltip, "引数を削除");
    let last = scene_argument_header(2, 3, &bound, true);
    assert!(last.move_up);
    assert!(!last.move_down);
    assert_eq!(last.expand_tooltip, "詳細設定を折り畳む");
    let referenced = SceneArgumentOption::new(
        1,
        "base",
        "Base",
        PropertySchema::new("base", "Base", scalar(ScalarPropertyType::F32), true, shown(true), vec![]),
        vec![],
        false,
        true,
    );
    let header = scene_argument_header(1, 3, &referenced, false);
    assert_eq!(header.connections, "0件接続");
    assert!(!header.remove);
    assert_eq!(header.remove_tooltip, "式から参照されているため削除できません");
}
