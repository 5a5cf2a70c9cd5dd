//! The rules of the editor of an array property's elements: which element
//! may move or be removed, whether one may be added, which fonts a
//! font-family row offers, and the labels of its buttons.
use vstd::prelude::*;
use crate::control::{leaf_of, Control, ElementGroup, ElementKind};
use crate::model::{PropertyElement, PropertyValue};
use crate::scene::SceneFieldBinding;
use crate::text::{push_str, string_from_chars};
use crate::model::str_equal;

verus! {

/// The field of the control is connected to a scene argument.
pub open spec fn leaf_connected<V, A, S>(c: Control<V, A, S>) -> bool {
    match leaf_of(c) {
        Some(l) => match l.binding {
            Some(b) => b.connected is Some,
            None => false,
        },
        None => false,
    }
}

/// The binding state of the first control that has one.
pub open spec fn first_binding<V, A, S>(controls: Seq<Control<V, A, S>>) -> Option<SceneFieldBinding>
    decreases controls.len(),
{
    if controls.len() == 0 {
        None
    } else {
        match leaf_of(controls[0]) {
            Some(l) if l.binding is Some => l.binding,
            _ => first_binding(controls.drop_first()),
        }
    }
}

/// A row is bound to a scene argument: for a font-family row, the binding
/// of its font is connected; for other rows, the field of one of its
/// controls that is drawn (`drawn[i]`) is.
pub open spec fn row_bound<V, A, S>(kind: ElementKind, controls: Seq<Control<V, A, S>>, drawn: Seq<bool>) -> bool {
    if kind == ElementKind::FontFamily {
        match first_binding(controls) {
            Some(b) => b.connected is Some,
            None => false,
        }
    } else {
        exists|i: int| 0 <= i < controls.len() && i < drawn.len() && drawn[i] && #[trigger] leaf_connected(controls[i])
    }
}

/// What the user may do with one row of an array property.
#[derive(Clone, Copy, Debug, PartialEq, Eq, Structural)]
pub struct ElementRowActions {
    pub move_up: bool,
    pub move_down: bool,
    pub remove: bool,
}

fn binding_of<V, A, S>(c: &Control<V, A, S>) -> (res: Option<&SceneFieldBinding>)
    ensures
        match res {
            Some(b) => leaf_of(*c) matches Some(l) && l.binding == Some(*b),
            None => !(leaf_of(*c) matches Some(l) && l.binding is Some),
        },
{
    match c.common() {
        Some(common) => match &common.binding {
            Some(b) => Some(b),
            None => None,
        },
        None => None,
    }
}

fn row_is_bound<V, A, S>(kind: ElementKind, controls: &Vec<Control<V, A, S>>, drawn: &Vec<bool>) -> (res: bool)
    ensures
        res == row_bound(kind, controls@, drawn@),
{
    let n = controls.len();
    if kind == ElementKind::FontFamily {
        let ghost all = controls@;
        assert(all.subrange(0, n as int) =~= all);
        for i in 0..n
            invariant
                n == all.len(),
                all == controls@,
                kind == ElementKind::FontFamily,
                first_binding(all) == first_binding(all.subrange(i as int, n as int)),
        {
            let ghost rest = all.subrange(i as int, n as int);
            assert(rest[0] == controls@[i as int]);
            assert(rest.drop_first() =~= all.subrange(i + 1, n as int));
            match binding_of(&controls[i]) {
                Some(b) => {
                    return b.connected.is_some();
                },
                None => {},
            }
        }
        assert(all.subrange(n as int, n as int).len() == 0);
        false
    } else {
        for i in 0..n
            invariant
                n == controls@.len(),
                kind != ElementKind::FontFamily,
                forall|k: int| 0 <= k < i && k < drawn@.len() && drawn@[k] ==> !#[trigger] leaf_connected(controls@[k]),
        {
            let shown = i < drawn.len() && drawn[i];
            let connected = match binding_of(&controls[i]) {
                Some(b) => b.connected.is_some(),
                None => false,
            };
            if shown && connected {
                assert(leaf_connected(controls@[i as int]));
                return true;
            }
        }
        false
    }
}

/// The actions offered for the row `index` of an array property whose rows
/// hold `row_controls`, of which those with `drawn[i]` are drawn (their
/// widget state exists, and a toggle or dropdown holds a value of its
/// kind): moving up but for the first row, moving down but for the last,
/// removing while more than the minimum remain and the row is not bound;
/// none of them while a scene argument binds an element.
pub fn element_row_actions<V, A, S>(
    group: &ElementGroup<V>,
    index: usize,
    row_controls: &Vec<Control<V, A, S>>,
    drawn: &Vec<bool>,
) -> (res: ElementRowActions)
    ensures
        res.move_up == !(index == 0 || group.has_scene_binding),
        res.move_down == !(index + 1 == group.elements@.len() || group.has_scene_binding),
        res.remove == !(group.elements@.len() <= group.min_items || row_bound(group.element_kind, row_controls@, drawn@)
            || group.has_scene_binding),
{
    let n = group.elements.len();
    let bound = row_is_bound(group.element_kind, row_controls, drawn);
    ElementRowActions {
        move_up: !(index == 0 || group.has_scene_binding),
        move_down: !(index as u128 + 1 == n as u128 || group.has_scene_binding),
        remove: !(n as u64 <= group.min_items as u64 || bound || group.has_scene_binding),
    }
}

/// Whether an element may be added: while fewer than the maximum exist and
/// no scene argument binds an element.
pub fn can_add_element<V>(group: &ElementGroup<V>) -> (res: bool)
    ensures
        res == !(group.elements@.len() >= group.max_items || group.has_scene_binding),
{
    !(group.elements.len() as u64 >= group.max_items as u64 || group.has_scene_binding)
}

/// The value is the string `font`.
pub open spec fn holds_font<F, C>(v: PropertyValue<F, C>, font: Seq<char>) -> bool {
    match v {
        PropertyValue::String(s) => s@ == font,
        _ => false,
    }
}

/// Another element than `index` holds the font `font`.
pub open spec fn font_taken<F, C>(
    elements: Seq<PropertyElement<PropertyValue<F, C>>>,
    index: int,
    font: Seq<char>,
) -> bool {
    exists|j: int| 0 <= j < elements.len() && j != index && holds_font((#[trigger] elements[j]).value, font)
}

/// The fonts among `fonts` that no other element holds, in order.
pub open spec fn free_fonts<F, C>(
    fonts: Seq<Seq<char>>,
    elements: Seq<PropertyElement<PropertyValue<F, C>>>,
    index: int,
) -> Seq<Seq<char>>
    decreases fonts.len(),
{
    if fonts.len() == 0 {
        Seq::empty()
    } else {
        let rest = free_fonts(fonts.drop_last(), elements, index);
        if font_taken(elements, index, fonts.last()) {
            rest
        } else {
            rest.push(fonts.last())
        }
    }
}

fn taken_elsewhere<F, C>(elements: &Vec<PropertyElement<PropertyValue<F, C>>>, index: usize, font: &str) -> (res: bool)
    ensures
        res == font_taken(elements@, index as int, font@),
{
    let n = elements.len();
    for j in 0..n
        invariant
            n == elements@.len(),
            forall|k: int| 0 <= k < j && k != index ==> !holds_font((#[trigger] elements@[k]).value, font@),
    {
        if j != index {
            let same = match &elements[j].value {
                PropertyValue::String(s) => str_equal(s.as_str(), font),
                _ => false,
            };
            if same {
                assert(holds_font(elements@[j as int].value, font@));
                return true;
            }
        }
    }
    false
}

/// The fonts a font-family row offers: those that no other row holds.
pub fn font_choices<F, C>(
    fonts: &Vec<String>,
    elements: &Vec<PropertyElement<PropertyValue<F, C>>>,
    index: usize,
) -> (res: Vec<String>)
    ensures
        res@.map_values(|s: String| s@) == free_fonts(
            fonts@.map_values(|s: String| s@),
            elements@,
            index as int,
        ),
{
    let ghost names = fonts@.map_values(|s: String| s@);
    let mut res: Vec<String> = Vec::new();
    let n = fonts.len();
    for i in 0..n
        invariant
            n == names.len(),
            names == fonts@.map_values(|s: String| s@),
            res@.map_values(|s: String| s@) == free_fonts(names.subrange(0, i as int), elements@, index as int),
    {
        let ghost prefix = names.subrange(0, i + 1);
        assert(prefix.drop_last() =~= names.subrange(0, i as int));
        assert(prefix.last() == fonts@[i as int]@);
        let ghost prev = res@;
        if !taken_elsewhere(elements, index, fonts[i].as_str()) {
            res.push(fonts[i].clone());
            assert(res@.map_values(|s: String| s@) =~= prev.map_values(|s: String| s@).push(fonts@[i as int]@));
        }
    }
    assert(names.subrange(0, n as int) =~= names);
    res
}

/// The label of the button that picks a row's font.
pub open spec fn font_button_label_spec(selected: Seq<char>) -> Seq<char> {
    if selected.len() == 0 {
        "フォントを選択"@
    } else {
        selected
    }
}

/// The label of the button that picks a row's font: the font, or an
/// invitation to pick one.
pub fn font_button_label(selected: &str) -> (res: String)
    ensures
        res@ == font_button_label_spec(selected@),
{
    if selected.is_empty() {
        "フォントを選択".to_owned()
    } else {
        selected.to_owned()
    }
}

/// The label of the button that adds an element to the property `label`.
pub fn add_element_label(label: &str) -> (res: String)
    ensures
        res@ == label@ + "を追加"@,
{
    let mut out: Vec<char> = Vec::new();
    push_str(&mut out, label);
    push_str(&mut out, "を追加");
    string_from_chars(&out)
}

} // verus!
