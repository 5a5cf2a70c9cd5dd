use zerium::path::{InspectorPath, PropertySlot};

#[test]
fn item_property_path_renders_owner_and_property() {
    let path = InspectorPath::item_property("text", "label", "size");
    assert_eq!(path.to_string(), "text/label/size");
}

#[test]
fn effect_and_scene_paths_render_their_ids() {
    assert_eq!(InspectorPath::effect_property(7, "opacity").to_string(), "effect/7/opacity");
    assert_eq!(InspectorPath::scene_property(120, "x").to_string(), "scene/120/x");
}

#[test]
fn scalar_path_appends_slot() {
    let path = InspectorPath::scene_property(3, "x").scalar(Some(0), None);
    assert_eq!(path.to_string(), "scene/3/x/scalar/Some(0)/None");
    let path = path.scalar(None, Some(12));
    assert_eq!(path.to_string(), "scene/3/x/scalar/None/Some(12)");
}

#[test]
fn with_slot_value_restores_plain_path() {
    let path = InspectorPath::effect_property(1, "p").scalar(Some(2), Some(3));
    assert_eq!(path.with_slot(PropertySlot::Value).to_string(), "effect/1/p");
}
