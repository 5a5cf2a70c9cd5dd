//! What the inspector's header says about the selection: its title, the
//! kind of item, which sections are shown, and the state of the visibility
//! button.
use vstd::prelude::*;
use crate::text::{decimal, push_decimal, push_str, string_from_chars};

verus! {

/// The icon of the button that hides or shows the selected items.
#[derive(Clone, Copy, Debug, PartialEq, Eq, Structural)]
pub enum VisibilityIcon {
    /// All selected items are hidden.
    EyeOff,
    /// Some selected items are hidden, some are not.
    EyeClosed,
    /// The selected items are shown.
    Eye,
}

/// What the inspector shows of the selection.
pub struct SelectionSummary {
    /// The header's title: the item's label, or the number of items.
    pub title: String,
    /// The kind of item shown in the kind row.
    pub kind_label: String,
    pub multiple: bool,
    /// Whether the scene being edited is edited through the inspector.
    pub editing_scene: bool,
    /// Whether the item has a visual part to show.
    pub has_visual: bool,
    /// Whether the file inputs of the item are shown.
    pub shows_file_inputs: bool,
    pub items_hidden: bool,
    pub visibility_mixed: bool,
}

/// The label shown for an item the editor has no label for.
pub open spec fn unknown_item_label() -> Seq<char> {
    "不明なアイテム"@
}

/// The header's title: the item's label for one item (or the label for an
/// unknown item), the number of items for several.
pub open spec fn title_spec(selected_count: nat, item_label: Option<Seq<char>>) -> Seq<char> {
    if selected_count > 1 {
        decimal(selected_count) + "個のアイテム"@
    } else {
        match item_label {
            Some(l) => l,
            None => unknown_item_label(),
        }
    }
}

/// The kind of the selection: several items, a scene, or the label of the
/// item's schema (empty without a schema).
pub open spec fn kind_label_spec(multiple: bool, scene_item: bool, schema_label: Option<Seq<char>>) -> Seq<char> {
    if multiple {
        "複数"@
    } else if scene_item {
        "シーン"@
    } else {
        match schema_label {
            Some(l) => l,
            None => Seq::empty(),
        }
    }
}

/// The header of the inspector for a selection of `selected_count` items
/// (none when nothing is selected). `item_label` is the editor's label for
/// the first item, `schema` the label of its schema and whether the schema
/// has a visual part, `shown_effects_empty` whether no effect is shown, and
/// `hidden_state` whether all selected items are hidden (none when that is
/// mixed).
pub fn selection_summary(
    selected_count: usize,
    item_label: Option<&str>,
    scene_item: bool,
    schema: Option<(&str, bool)>,
    shown_effects_empty: bool,
    hidden_state: Option<bool>,
    scene_active: bool,
) -> (res: Option<SelectionSummary>)
    ensures
        selected_count == 0 <==> res is None,
        match res {
            Some(s) => {
                let multiple = selected_count > 1;
                &&& s.title@ == title_spec(
                    selected_count as nat,
                    match item_label {
                        Some(l) => Some(l@),
                        None => None,
                    },
                )
                &&& s.kind_label@ == kind_label_spec(
                    multiple,
                    scene_item,
                    match schema {
                        Some(sc) => Some(sc.0@),
                        None => None,
                    },
                )
                &&& s.multiple == multiple
                &&& s.editing_scene == (scene_active && !multiple)
                &&& s.has_visual == ((match schema {
                    Some(sc) => sc.1 && (!multiple || !shown_effects_empty),
                    None => false,
                }) || (scene_item && !multiple))
                &&& s.shows_file_inputs == !multiple
                &&& s.items_hidden == (hidden_state == Some(true))
                &&& s.visibility_mixed == (hidden_state is None && multiple)
            },
            None => true,
        },
{
    if selected_count == 0 {
        return None;
    }
    let multiple = selected_count > 1;
    let title = if multiple {
        let mut out: Vec<char> = Vec::new();
        push_decimal(&mut out, selected_count as u64);
        push_str(&mut out, "個のアイテム");
        string_from_chars(&out)
    } else {
        match item_label {
            Some(l) => l.to_owned(),
            None => "不明なアイテム".to_owned(),
        }
    };
    let kind_label = if multiple {
        "複数".to_owned()
    } else if scene_item {
        "シーン".to_owned()
    } else {
        match schema {
            Some((label, _)) => label.to_owned(),
            None => String::new(),
        }
    };
    let has_visual = match schema {
        Some((_, visual)) => visual && (!multiple || !shown_effects_empty),
        None => false,
    } || (scene_item && !multiple);
    let items_hidden = match hidden_state {
        Some(hidden) => hidden,
        None => false,
    };
    Some(
        SelectionSummary {
            title,
            kind_label,
            multiple,
            editing_scene: scene_active && !multiple,
            has_visual,
            shows_file_inputs: !multiple,
            items_hidden,
            visibility_mixed: hidden_state.is_none() && multiple,
        },
    )
}

/// The icon of the visibility button.
pub open spec fn visibility_icon_spec(items_hidden: bool, mixed: bool) -> VisibilityIcon {
    if items_hidden {
        VisibilityIcon::EyeOff
    } else if mixed {
        VisibilityIcon::EyeClosed
    } else {
        VisibilityIcon::Eye
    }
}

/// The tooltip of the visibility button: what a click does.
pub open spec fn visibility_tooltip_spec(items_hidden: bool, mixed: bool) -> Seq<char> {
    if items_hidden {
        "選択アイテムを表示"@
    } else if mixed {
        "表示状態が混在しています。すべて非表示"@
    } else {
        "選択アイテムを非表示"@
    }
}

/// The icon and tooltip of the button that hides or shows the selection.
pub fn visibility_button(summary: &SelectionSummary) -> (res: (VisibilityIcon, String))
    ensures
        res.0 == visibility_icon_spec(summary.items_hidden, summary.visibility_mixed),
        res.1@ == visibility_tooltip_spec(summary.items_hidden, summary.visibility_mixed),
{
    if summary.items_hidden {
        (VisibilityIcon::EyeOff, "選択アイテムを表示".to_owned())
    } else if summary.visibility_mixed {
        (VisibilityIcon::EyeClosed, "表示状態が混在しています。すべて非表示".to_owned())
    } else {
        (VisibilityIcon::Eye, "選択アイテムを非表示".to_owned())
    }
}

/// What the header of an effect shows and allows.
pub struct EffectHeader {
    pub visibility_icon: VisibilityIcon,
    /// What a click on the visibility button does.
    pub visibility_tooltip: String,
    /// Whether the effect can be removed (only with one item selected).
    pub removable: bool,
}

/// The header of an effect that is `hidden` or not, with several items
/// selected (`multiple`) or one.
pub fn effect_header(hidden: bool, multiple: bool) -> (res: EffectHeader)
    ensures
        res.visibility_icon == (if hidden {
            VisibilityIcon::EyeOff
        } else {
            VisibilityIcon::Eye
        }),
        res.visibility_tooltip@ == (if hidden {
            "エフェクトを有効化"@
        } else {
            "エフェクトを一時的に無効化"@
        }),
        res.removable == !multiple,
{
    if hidden {
        EffectHeader {
            visibility_icon: VisibilityIcon::EyeOff,
            visibility_tooltip: "エフェクトを有効化".to_owned(),
            removable: !multiple,
        }
    } else {
        EffectHeader {
            visibility_icon: VisibilityIcon::Eye,
            visibility_tooltip: "エフェクトを一時的に無効化".to_owned(),
            removable: !multiple,
        }
    }
}

} // verus!
