use zerium::rows::{aspect_ratio_switch, color_row, group_coordinate_row, group_keyframe_button, tuple_coordinate_row};
use zerium::scene::{AspectRatioLockState, SceneBindingOwner, SceneBindingTarget, SceneFieldBinding};
use zerium::inspector::ItemId;

fn lock(value: bool, mixed: bool, multiple: bool, disabled: bool) -> AspectRatioLockState {
    AspectRatioLockState { value, mixed, multiple, disabled_by_scene_size_argument: disabled }
}

fn binding(connected: bool) -> SceneFieldBinding {
    SceneFieldBinding {
        target: SceneBindingTarget::new(ItemId(1), SceneBindingOwner::Item, "size", None, Some(0)),
        connected: if connected { Some(("w".to_string(), "Width".to_string())) } else { None },
        compatible: vec![],
    }
}

#[test]
fn locked_height_is_computed_from_the_width() {
    let height = tuple_coordinate_row(true, Some(1), true, false, false, true);
    assert!(height.disabled);
    assert!(height.shows_value);
    let button = height.keyframe.unwrap();
    assert!(button.selected);
    assert!(!button.clickable);
    assert_eq!(button.tooltip, "アスペクト比維持中は幅から自動計算");
    let width = tuple_coordinate_row(true, Some(0), true, false, true, true);
    assert!(!width.disabled);
    let button = width.keyframe.unwrap();
    assert!(button.selected && button.clickable);
    assert_eq!(button.tooltip, "この座標のアニメーションを解除");
    let free = tuple_coordinate_row(false, Some(1), true, false, false, false).keyframe.unwrap();
    assert!(!free.selected);
    assert_eq!(free.tooltip, "この座標をアニメーションする");
}

#[test]
fn bound_coordinate_hides_its_value_and_keyframe() {
    let bound = tuple_coordinate_row(false, Some(0), true, true, false, false);
    assert!(!bound.shows_value);
    assert!(bound.keyframe.is_none());
    assert!(tuple_coordinate_row(false, Some(0), false, false, false, false).keyframe.is_none());
}

#[test]
fn grouped_coordinates_follow_the_group_or_their_own_flag() {
    let scalars = vec![true, false];
    let own = group_coordinate_row(None, true, 0, &scalars, false, Some(0), true, false, false);
    assert!(own.keyframe.unwrap().selected);
    let missing = group_coordinate_row(None, true, 5, &scalars, true, Some(0), true, false, false);
    assert!(!missing.keyframe.unwrap().selected);
    let together = group_coordinate_row(None, false, 0, &scalars, true, Some(0), true, false, false);
    assert!(together.keyframe.is_none());
    let locked = group_coordinate_row(Some(lock(true, false, false, false)), true, 1, &scalars, false, Some(1), true, false, true);
    assert!(locked.disabled);
    let mixed = group_coordinate_row(Some(lock(true, true, true, false)), true, 1, &scalars, false, Some(1), true, false, true);
    assert!(!mixed.disabled);
}

#[test]
fn group_keyframe_button_animates_all_coordinates() {
    let unbound = vec![Some(binding(false)), None];
    let button = group_keyframe_button(true, &unbound, false, false).unwrap();
    assert!(!button.selected);
    assert_eq!(button.tooltip, "まとめてアニメーションする");
    assert_eq!(group_keyframe_button(true, &unbound, false, true).unwrap().tooltip, "アニメーションを解除");
    assert!(group_keyframe_button(true, &vec![None, Some(binding(true))], false, false).is_none());
    assert!(group_keyframe_button(true, &unbound, true, false).is_none());
    assert!(group_keyframe_button(false, &unbound, false, false).is_none());
}

#[test]
fn aspect_ratio_switch_tooltips() {
    let s = aspect_ratio_switch(lock(true, false, false, true));
    assert!(s.checked && s.disabled);
    assert_eq!(s.tooltip, "サイズが引数接続されているため一時的に無効");
    let s = aspect_ratio_switch(lock(true, true, true, false));
    assert!(!s.checked);
    assert_eq!(s.tooltip, "ロック状態が混在しています。クリックですべてオン");
    assert_eq!(aspect_ratio_switch(lock(false, false, true, false)).tooltip, "各アイテムの現在の縦横比を個別に固定");
    assert_eq!(aspect_ratio_switch(lock(true, false, false, false)).tooltip, "アスペクト比維持を解除");
    assert_eq!(aspect_ratio_switch(lock(false, false, false, false)).tooltip, "現在のアスペクト比を維持");
}

#[test]
fn color_row_keyframe_animates_the_whole_color() {
    let row = color_row(true, false, false);
    assert!(row.shows_value);
    assert_eq!(row.keyframe.unwrap().tooltip, "色全体をアニメーションする");
    assert_eq!(color_row(true, false, true).keyframe.unwrap().tooltip, "アニメーションを解除");
    let bound = color_row(true, true, false);
    assert!(!bound.shows_value && bound.keyframe.is_none());
    assert!(color_row(false, false, false).keyframe.is_none());
}

#[test]
fn single_field_takes_its_element_label() {
    assert_eq!(zerium::rows::single_field_label("Position", Some("X")), "Position X");
    assert_eq!(zerium::rows::single_field_label("Opacity", None), "Opacity");
}
