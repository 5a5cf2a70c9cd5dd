use zerium::control::{
    Control, ControlId, ElementGroup, ElementKind, LeafControl, PropertyTarget, TextControl,
};
use zerium::edit::{PropertyElement, PropertyElementId};
use zerium::elements::{add_element_label, can_add_element, element_row_actions, font_button_label, font_choices, ElementRowActions};
use zerium::model::PropertyValue;
use zerium::path::InspectorPath;
use zerium::scene::{SceneBindingOwner, SceneBindingTarget, SceneFieldBinding};
use zerium::inspector::ItemId;

type Value = PropertyValue<f32, [f32; 4]>;
type Row = Control<Value, u8, ()>;

fn target() -> PropertyTarget {
    PropertyTarget {
        key: InspectorPath::item_property("p", "i", "fonts"),
        property_id: "fonts".to_string(),
        effect_id: None,
        element_id: None,
        scalar_index: None,
    }
}

fn no_rows() -> Vec<Row> {
    vec![]
}

fn group(values: &[&str], min_items: u32, max_items: u32, kind: ElementKind, bound: bool) -> ElementGroup<Value> {
    ElementGroup {
        target: target(),
        elements: values
            .iter()
            .enumerate()
            .map(|(k, v)| PropertyElement::new(PropertyElementId(k as u64), PropertyValue::String(v.to_string())))
            .collect(),
        element_kind: kind,
        min_items,
        max_items,
        has_scene_binding: bound,
    }
}

fn text_row(connected: Option<bool>) -> Row {
    let binding = connected.map(|c| SceneFieldBinding {
        target: SceneBindingTarget::new(ItemId(1), SceneBindingOwner::Item, "fonts", Some(PropertyElementId(0)), None),
        connected: if c { Some(("font".to_string(), "Font".to_string())) } else { None },
        compatible: vec![],
    });
    Control::Text(TextControl {
        common: LeafControl {
            id: ControlId::property(&InspectorPath::item_property("p", "i", "fonts")),
            target: target(),
            label: "Fonts 1".to_string(),
            scalar_label: None,
            animatable: false,
            scene_bindable: true,
            read_only: false,
            mixed: false,
            value: PropertyValue::String("Serif".to_string()),
            animation_enabled: false,
            animation_stops: vec![],
            binding,
        },
        multiline: false,
    })
}

#[test]
fn first_and_last_rows_cannot_move_past_the_ends() {
    let g = group(&["a", "b", "c"], 0, 5, ElementKind::Scalar, false);
    assert_eq!(element_row_actions(&g, 0, &vec![text_row(None)], &vec![true]), ElementRowActions { move_up: false, move_down: true, remove: true });
    assert_eq!(element_row_actions(&g, 1, &no_rows(), &vec![]), ElementRowActions { move_up: true, move_down: true, remove: true });
    assert_eq!(element_row_actions(&g, 2, &no_rows(), &vec![]), ElementRowActions { move_up: true, move_down: false, remove: true });
}

#[test]
fn rows_at_the_minimum_or_bound_cannot_be_removed() {
    let at_min = group(&["a", "b"], 2, 5, ElementKind::Scalar, false);
    assert!(!element_row_actions(&at_min, 0, &no_rows(), &vec![]).remove);
    let g = group(&["a", "b"], 0, 5, ElementKind::Scalar, false);
    assert!(!element_row_actions(&g, 0, &vec![text_row(Some(true))], &vec![true]).remove);
    assert!(element_row_actions(&g, 0, &vec![text_row(Some(false))], &vec![true]).remove);
    let fonts = group(&["a", "b"], 0, 5, ElementKind::FontFamily, false);
    assert!(!element_row_actions(&fonts, 1, &vec![text_row(Some(true))], &vec![false]).remove);
    assert!(element_row_actions(&fonts, 1, &vec![text_row(None), text_row(Some(false))], &vec![true, true]).remove);
    let bound = group(&["a", "b"], 0, 5, ElementKind::Scalar, true);
    assert_eq!(element_row_actions(&bound, 1, &no_rows(), &vec![]), ElementRowActions { move_up: false, move_down: false, remove: false });
}

#[test]
fn bound_control_that_is_not_drawn_does_not_block_removal() {
    let g = group(&["a", "b"], 0, 5, ElementKind::Scalar, false);
    assert!(element_row_actions(&g, 0, &vec![text_row(Some(true))], &vec![false]).remove);
    assert!(element_row_actions(&g, 0, &vec![text_row(Some(true))], &vec![]).remove);
    assert!(!element_row_actions(&g, 0, &vec![text_row(Some(false)), text_row(Some(true))], &vec![false, true]).remove);
    let bound = group(&["a", "b"], 0, 5, ElementKind::Scalar, true);
    assert_eq!(element_row_actions(&bound, 1, &no_rows(), &vec![]), ElementRowActions { move_up: false, move_down: false, remove: false });
}

#[test]
fn elements_can_be_added_below_the_maximum() {
    assert!(can_add_element(&group(&["a"], 0, 2, ElementKind::Scalar, false)));
    assert!(!can_add_element(&group(&["a", "b"], 0, 2, ElementKind::Scalar, false)));
    assert!(!can_add_element(&group(&["a"], 0, 2, ElementKind::Scalar, true)));
}

#[test]
fn font_rows_offer_fonts_no_other_row_uses() {
    let g = group(&["Serif", "Mono", "Sans"], 0, 5, ElementKind::FontFamily, false);
    let fonts = vec!["Mono".to_string(), "Serif".to_string(), "Sans".to_string(), "Hand".to_string()];
    assert_eq!(font_choices(&fonts, &g.elements, 0), vec!["Serif".to_string(), "Hand".to_string()]);
    assert_eq!(font_choices(&fonts, &g.elements, 1), vec!["Mono".to_string(), "Hand".to_string()]);
}

#[test]
fn button_labels() {
    assert_eq!(font_button_label(""), "フォントを選択");
    assert_eq!(font_button_label("Mono"), "Mono");
    assert_eq!(add_element_label("フォント"), "フォントを追加");
}
