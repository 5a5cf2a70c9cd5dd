//! What the rows of numeric tuples and colors show and allow: which
//! coordinate the aspect-ratio lock computes, when a keyframe button is
//! offered, whether it is selected and clickable, and the tooltips.
use vstd::prelude::*;
use crate::scene::{AspectRatioLockState, SceneFieldBinding};
use crate::text::{push_str, string_from_chars};

verus! {

/// The keyframe button of a row: whether it shows animation as on, whether
/// a click toggles it, and its tooltip.
pub struct KeyframeButton {
    pub selected: bool,
    pub clickable: bool,
    pub tooltip: String,
}

/// One coordinate row of a numeric tuple.
pub struct CoordinateRow {
    /// The coordinate is computed from the width under the aspect-ratio lock.
    pub disabled: bool,
    /// The value input is shown (not while the coordinate is bound).
    pub shows_value: bool,
    pub keyframe: Option<KeyframeButton>,
}

/// The tooltip of a coordinate's keyframe button.
pub open spec fn coordinate_tooltip(disabled: bool, animation_enabled: bool) -> Seq<char> {
    if disabled {
        "アスペクト比維持中は幅から自動計算"@
    } else if animation_enabled {
        "この座標のアニメーションを解除"@
    } else {
        "この座標をアニメーションする"@
    }
}

/// `res` is the row of a coordinate (element `tuple_element` of its tuple):
/// disabled when the size is locked and it is the second coordinate; the
/// keyframe button only when `offered` and the coordinate is not bound,
/// selected when animated or when disabled with animation inputs, and
/// clickable unless disabled.
pub open spec fn coordinate_row_matches(
    res: CoordinateRow,
    size_locked: bool,
    tuple_element: Option<usize>,
    offered: bool,
    bound: bool,
    animation_enabled: bool,
    has_animation: bool,
) -> bool {
    let disabled = size_locked && tuple_element == Some(1usize);
    &&& res.disabled == disabled
    &&& res.shows_value == !bound
    &&& match res.keyframe {
        Some(k) => {
            &&& offered && !bound
            &&& k.selected == (animation_enabled || (disabled && has_animation))
            &&& k.clickable == !disabled
            &&& k.tooltip@ == coordinate_tooltip(disabled, animation_enabled)
        },
        None => !(offered && !bound),
    }
}

fn coordinate_row(
    size_locked: bool,
    tuple_element: Option<usize>,
    offered: bool,
    bound: bool,
    animation_enabled: bool,
    has_animation: bool,
) -> (res: CoordinateRow)
    ensures
        coordinate_row_matches(res, size_locked, tuple_element, offered, bound, animation_enabled, has_animation),
{
    let disabled = size_locked && tuple_element == Some(1usize);
    let keyframe = if offered && !bound {
        let tooltip = if disabled {
            "アスペクト比維持中は幅から自動計算".to_owned()
        } else if animation_enabled {
            "この座標のアニメーションを解除".to_owned()
        } else {
            "この座標をアニメーションする".to_owned()
        };
        Some(
            KeyframeButton {
                selected: animation_enabled || (disabled && has_animation),
                clickable: !disabled,
                tooltip,
            },
        )
    } else {
        None
    };
    CoordinateRow { disabled, shows_value: !bound, keyframe }
}

/// The row of one coordinate of a numeric tuple shown on its own (a tuple
/// array element): the keyframe button is offered when the coordinate is
/// animatable.
pub fn tuple_coordinate_row(
    size_locked: bool,
    tuple_element: Option<usize>,
    animatable: bool,
    bound: bool,
    animation_enabled: bool,
    has_animation: bool,
) -> (res: CoordinateRow)
    ensures
        coordinate_row_matches(res, size_locked, tuple_element, animatable, bound, animation_enabled, has_animation),
{
    coordinate_row(size_locked, tuple_element, animatable, bound, animation_enabled, has_animation)
}

/// Whether a coordinate of a grouped tuple is animated: its own flag when
/// the coordinates animate separately (off when there is none), else the
/// group's.
pub open spec fn group_coordinate_animated(
    separate: bool,
    index: int,
    animation_scalars: Seq<bool>,
    group_animation_enabled: bool,
) -> bool {
    if separate {
        0 <= index < animation_scalars.len() && animation_scalars[index]
    } else {
        group_animation_enabled
    }
}

/// The row of the coordinate at `index` of a grouped numeric tuple
/// (position `tuple_element` in its tuple): locked by a checked aspect-ratio
/// lock; a keyframe button of its own only when the coordinates animate
/// separately and it is animatable.
pub fn group_coordinate_row(
    aspect_ratio_lock: Option<AspectRatioLockState>,
    separate: bool,
    index: usize,
    animation_scalars: &Vec<bool>,
    group_animation_enabled: bool,
    tuple_element: Option<usize>,
    animatable: bool,
    bound: bool,
    has_animation: bool,
) -> (res: CoordinateRow)
    ensures
        coordinate_row_matches(
            res,
            match aspect_ratio_lock {
                Some(s) => s.value && !s.mixed,
                None => false,
            },
            tuple_element,
            separate && animatable,
            bound,
            group_coordinate_animated(separate, index as int, animation_scalars@, group_animation_enabled),
            has_animation,
        ),
{
    let locked = match aspect_ratio_lock {
        Some(s) => s.checked(),
        None => false,
    };
    let animated = if separate {
        if index < animation_scalars.len() {
            animation_scalars[index]
        } else {
            false
        }
    } else {
        group_animation_enabled
    };
    coordinate_row(locked, tuple_element, separate && animatable, bound, animated, has_animation)
}

/// The field has a binding, connected to an argument.
pub open spec fn binding_connected(b: Option<SceneFieldBinding>) -> bool {
    match b {
        Some(b) => b.connected is Some,
        None => false,
    }
}

/// Some binding of the list is connected to an argument.
pub open spec fn any_connected(bindings: Seq<Option<SceneFieldBinding>>) -> bool {
    exists|i: int| 0 <= i < bindings.len() && #[trigger] binding_connected(bindings[i])
}

/// The keyframe button of a grouped numeric tuple, which animates all its
/// coordinates together: offered when the first field is animatable, no
/// coordinate is bound and the coordinates do not animate separately.
pub fn group_keyframe_button(
    first_animatable: bool,
    bindings: &Vec<Option<SceneFieldBinding>>,
    separate: bool,
    animation_enabled: bool,
) -> (res: Option<KeyframeButton>)
    ensures
        match res {
            Some(k) => {
                &&& first_animatable && !any_connected(bindings@) && !separate
                &&& k.selected == animation_enabled
                &&& k.clickable
                &&& k.tooltip@ == (if animation_enabled {
                    "アニメーションを解除"@
                } else {
                    "まとめてアニメーションする"@
                })
            },
            None => !(first_animatable && !any_connected(bindings@) && !separate),
        },
{
    let n = bindings.len();
    let mut bound = false;
    for i in 0..n
        invariant
            n == bindings@.len(),
            bound == exists|k: int| 0 <= k < i && #[trigger] binding_connected(bindings@[k]),
    {
        let connected = match &bindings[i] {
            Some(b) => b.connected.is_some(),
            None => false,
        };
        assert(connected == binding_connected(bindings@[i as int]));
        bound = bound || connected;
    }
    if first_animatable && !bound && !separate {
        Some(
            KeyframeButton {
                selected: animation_enabled,
                clickable: true,
                tooltip: if animation_enabled {
                    "アニメーションを解除".to_owned()
                } else {
                    "まとめてアニメーションする".to_owned()
                },
            },
        )
    } else {
        None
    }
}

/// The aspect-ratio switch of a size group: whether it is checked, whether
/// it is disabled, and its tooltip.
pub struct AspectRatioSwitch {
    pub checked: bool,
    pub disabled: bool,
    pub tooltip: String,
}

/// The tooltip of the aspect-ratio switch.
pub open spec fn aspect_ratio_tooltip(state: AspectRatioLockState) -> Seq<char> {
    if state.disabled_by_scene_size_argument {
        "サイズが引数接続されているため一時的に無効"@
    } else if state.mixed {
        "ロック状態が混在しています。クリックですべてオン"@
    } else if state.multiple {
        "各アイテムの現在の縦横比を個別に固定"@
    } else if state.value && !state.mixed {
        "アスペクト比維持を解除"@
    } else {
        "現在のアスペクト比を維持"@
    }
}

/// The aspect-ratio switch for the lock state `state`: checked when locked
/// and not mixed, disabled while a scene argument binds the size.
pub fn aspect_ratio_switch(state: AspectRatioLockState) -> (res: AspectRatioSwitch)
    ensures
        res.checked == (state.value && !state.mixed),
        res.disabled == state.disabled_by_scene_size_argument,
        res.tooltip@ == aspect_ratio_tooltip(state),
{
    let checked = state.checked();
    let tooltip = if state.disabled_by_scene_size_argument {
        "サイズが引数接続されているため一時的に無効".to_owned()
    } else if state.mixed {
        "ロック状態が混在しています。クリックですべてオン".to_owned()
    } else if state.multiple {
        "各アイテムの現在の縦横比を個別に固定".to_owned()
    } else if checked {
        "アスペクト比維持を解除".to_owned()
    } else {
        "現在のアスペクト比を維持".to_owned()
    };
    AspectRatioSwitch { checked, disabled: state.disabled_by_scene_size_argument, tooltip }
}

/// A color row: whether the color picker is shown, and its keyframe button.
pub struct ColorRow {
    pub shows_value: bool,
    pub keyframe: Option<KeyframeButton>,
}

/// The row of a color: the picker hides while the color is bound; the
/// keyframe button, which animates the whole color, is offered when the
/// color is animatable and not bound.
pub fn color_row(animatable: bool, bound: bool, animation_enabled: bool) -> (res: ColorRow)
    ensures
        res.shows_value == !bound,
        match res.keyframe {
            Some(k) => {
                &&& animatable && !bound
                &&& k.selected == animation_enabled
                &&& k.clickable
                &&& k.tooltip@ == (if animation_enabled {
                    "アニメーションを解除"@
                } else {
                    "色全体をアニメーションする"@
                })
            },
            None => !(animatable && !bound),
        },
{
    let keyframe = if animatable && !bound {
        Some(
            KeyframeButton {
                selected: animation_enabled,
                clickable: true,
                tooltip: if animation_enabled {
                    "アニメーションを解除".to_owned()
                } else {
                    "色全体をアニメーションする".to_owned()
                },
            },
        )
    } else {
        None
    };
    ColorRow { shows_value: !bound, keyframe }
}

/// The label of a numeric group with a single field: the field's label,
/// followed by its element label when it has one.
pub fn single_field_label(label: &str, element_label: Option<&str>) -> (res: String)
    ensures
        res@ == match element_label {
            Some(e) => label@ + " "@ + e@,
            None => label@,
        },
{
    match element_label {
        Some(e) => {
            let mut out: Vec<char> = Vec::new();
            push_str(&mut out, label);
            push_str(&mut out, " ");
            push_str(&mut out, e);
            proof {
                reveal_strlit(" ");
            }
            string_from_chars(&out)
        },
        None => label.to_owned(),
    }
}

} // verus!
