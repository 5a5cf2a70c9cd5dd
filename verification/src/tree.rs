//! Assembling the control tree of the selection: which item controls are
//! shown, which effects get a group, and the groups themselves.
use vstd::prelude::*;
use crate::control::{
    animation_disabled, animation_off, control_property_id, lemma_disabled_tree_has_no_animation,
    Control, ControlId, ControlIdView, EffectGroup, GroupKind,
};
use crate::inspector::{
    common_effect_positions, common_effects, item_views, property_is_common,
    property_is_common_spec, EffectInstanceId, TimelineItem, TimelineItemView,
};
use crate::path::InspectorPath;

verus! {

/// The roots of the inspector's control tree.
pub struct ControlTree<V, A, S> {
    pub roots: Vec<Control<V, A, S>>,
}

impl<V, A, S> Default for ControlTree<V, A, S> {
    fn default() -> (res: Self)
        ensures
            res.roots@.len() == 0,
    {
        ControlTree { roots: Vec::new() }
    }
}

/// The controls among `controls` whose property every selected item shares,
/// in order.
pub open spec fn shared_controls<V, A, S, W>(
    controls: Seq<Control<V, A, S>>,
    selected: Seq<TimelineItemView<W>>,
) -> Seq<Control<V, A, S>>
    decreases controls.len(),
{
    if controls.len() == 0 {
        Seq::empty()
    } else {
        let rest = shared_controls(controls.drop_last(), selected);
        if property_is_common_spec(selected, control_property_id(controls.last())) {
            rest.push(controls.last())
        } else {
            rest
        }
    }
}

/// `b` is the control `a` as shown for a selection: with animation editing
/// switched off when several items are selected, unchanged otherwise.
pub open spec fn shown_as<V, A, S>(a: Control<V, A, S>, b: Control<V, A, S>, multiple: bool) -> bool {
    if multiple {
        animation_disabled(a, b)
    } else {
        b == a
    }
}

/// Each control of `b` is the control of `a` at its position as shown.
pub open spec fn all_shown_as<V, A, S>(
    a: Seq<Control<V, A, S>>,
    b: Seq<Control<V, A, S>>,
    multiple: bool,
) -> bool {
    &&& a.len() == b.len()
    &&& forall|i: int| 0 <= i < a.len() ==> shown_as(#[trigger] a[i], b[i], multiple)
}

/// The item controls kept for the selection: all of them for a scene item,
/// else those whose property all selected items share.
pub open spec fn kept_item_controls<V, A, S, W>(
    controls: Seq<Control<V, A, S>>,
    selected: Seq<TimelineItemView<W>>,
    scene_item: bool,
) -> Seq<Control<V, A, S>> {
    if scene_item {
        controls
    } else {
        shared_controls(controls, selected)
    }
}

/// The controls of the first selected item as shown for the whole selection
/// (`scene_item`: the item instantiates a scene).
pub fn selection_item_controls<V, A, S, W>(
    controls: Vec<Control<V, A, S>>,
    selected: &Vec<TimelineItem<W>>,
    scene_item: bool,
) -> (res: Vec<Control<V, A, S>>)
    ensures
        all_shown_as(
            kept_item_controls(controls@, item_views(selected@), scene_item),
            res@,
            selected@.len() > 1,
        ),
{
    let ghost initial = controls@;
    let ghost views = item_views(selected@);
    let multiple = selected.len() > 1;
    let mut rest = controls;
    let n = rest.len();
    let mut out: Vec<Control<V, A, S>> = Vec::new();
    assert(initial.subrange(0, 0) =~= Seq::<Control<V, A, S>>::empty());
    for i in 0..n
        invariant
            n == initial.len(),
            rest@ == initial.subrange(i as int, n as int),
            multiple == (selected@.len() > 1),
            views == item_views(selected@),
            all_shown_as(kept_item_controls(initial.subrange(0, i as int), views, scene_item), out@, multiple),
    {
        let mut control = rest.remove(0);
        assert(control == initial[i as int]);
        assert(rest@ =~= initial.subrange(i + 1, n as int));
        let ghost prefix = initial.subrange(0, i + 1);
        assert(prefix.drop_last() =~= initial.subrange(0, i as int));
        assert(prefix.last() == control);
        let keep = scene_item || property_is_common(selected, control.property_id());
        if keep {
            let ghost before = control;
            if multiple {
                control.disable_animation();
            }
            let ghost prev = out@;
            out.push(control);
            assert forall|k: int|
                0 <= k < kept_item_controls(prefix, views, scene_item).len() implies shown_as(
                #[trigger] kept_item_controls(prefix, views, scene_item)[k],
                out@[k],
                multiple,
            ) by {
                if k < prev.len() {
                    assert(kept_item_controls(prefix, views, scene_item)[k] == kept_item_controls(
                        initial.subrange(0, i as int),
                        views,
                        scene_item,
                    )[k]);
                }
            }
        }
    }
    assert(initial.subrange(0, n as int) =~= initial);
    out
}

/// The positions, among the effects of the first selected item, of the
/// effects that get a group: all of them for a single item, those shared by
/// all items when several are selected.
pub open spec fn shown_effect_positions<W>(selected: Seq<TimelineItemView<W>>) -> Seq<usize> {
    if selected.len() > 1 {
        common_effect_positions(selected, selected[0].effects.len())
    } else if selected.len() == 1 {
        Seq::new(selected[0].effects.len(), |k: int| k as usize)
    } else {
        Seq::empty()
    }
}

/// The positions of the effects of the first selected item that get a group.
pub fn shown_effects<W>(selected: &Vec<TimelineItem<W>>) -> (res: Vec<usize>)
    ensures
        res@ == shown_effect_positions(item_views(selected@)),
{
    if selected.len() > 1 {
        return common_effects(selected);
    }
    let mut res: Vec<usize> = Vec::new();
    if selected.len() == 0 {
        return res;
    }
    let count = selected[0].effect_count();
    assert(item_views(selected@)[0] == selected@[0]@);
    for k in 0..count
        invariant
            selected@.len() == 1,
            count == item_views(selected@)[0].effects.len(),
            res@ == Seq::new(k as nat, |j: int| j as usize),
    {
        res.push(k);
        assert(res@ =~= Seq::new((k + 1) as nat, |j: int| j as usize));
    }
    res
}

/// `c` is the group of the effect `id`, labelled `label`: the controls
/// `controls` shown for the selection.
pub open spec fn effect_group_is<V, A, S>(
    c: Control<V, A, S>,
    id: EffectInstanceId,
    label: Seq<char>,
    hidden: bool,
    controls: Seq<Control<V, A, S>>,
    multiple: bool,
) -> bool {
    match c {
        Control::Group { id: group_id, label: group_label, children, kind } => {
            &&& group_id@ == ControlIdView::EffectGroup(id)
            &&& group_label@ == label
            &&& kind matches GroupKind::Effect(e) && e.id == id && e.label@ == label && e.hidden == hidden
            &&& all_shown_as(controls, children@, multiple)
        },
        _ => false,
    }
}

/// The group of an effect instance: its controls, shown for the selection,
/// under the effect's label.
pub fn effect_group_control<V, A, S>(
    id: EffectInstanceId,
    label: String,
    hidden: bool,
    controls: Vec<Control<V, A, S>>,
    multiple: bool,
) -> (res: Control<V, A, S>)
    ensures
        effect_group_is(res, id, label@, hidden, controls@, multiple),
{
    let ghost initial = controls@;
    let mut rest = controls;
    let n = rest.len();
    let mut children: Vec<Control<V, A, S>> = Vec::new();
    for i in 0..n
        invariant
            n == initial.len(),
            rest@ == initial.subrange(i as int, n as int),
            children@.len() == i,
            forall|k: int| 0 <= k < i ==> shown_as(#[trigger] initial[k], children@[k], multiple),
    {
        let mut control = rest.remove(0);
        assert(control == initial[i as int]);
        assert(rest@ =~= initial.subrange(i + 1, n as int));
        if multiple {
            control.disable_animation();
        }
        children.push(control);
    }
    Control::Group {
        id: ControlId::effect_group(id),
        label: label.clone(),
        children,
        kind: GroupKind::Effect(EffectGroup { id, label, hidden }),
    }
}

/// The group of the scalars of a tuple property, or nothing when none of
/// its scalars has a control.
pub fn tuple_group<V, A, S>(
    id: ControlId,
    label: String,
    children: Vec<Control<V, A, S>>,
    size_key: Option<InspectorPath>,
) -> (res: Vec<Control<V, A, S>>)
    ensures
        children@.len() == 0 ==> res@.len() == 0,
        children@.len() > 0 ==> res@.len() == 1 && (res@[0] matches Control::Group {
            id: gid,
            label: l,
            children: c,
            kind: GroupKind::Tuple { size_key: k },
        } && gid@ == id@ && l@ == label@ && c@ == children@ && k == size_key),
{
    if children.len() == 0 {
        return Vec::new();
    }
    let mut res: Vec<Control<V, A, S>> = Vec::new();
    res.push(Control::Group { id, label, children, kind: GroupKind::Tuple { size_key } });
    res
}

/// The roots of the control tree: the item's controls, then the effect groups.
pub fn control_tree<V, A, S>(
    item_controls: Vec<Control<V, A, S>>,
    effect_groups: Vec<Control<V, A, S>>,
) -> (res: ControlTree<V, A, S>)
    ensures
        res.roots@ == item_controls@ + effect_groups@,
{
    let mut roots = item_controls;
    let mut groups = effect_groups;
    roots.append(&mut groups);
    ControlTree { roots }
}

/// When several items are selected, no control shown for the selection
/// offers animation editing.
pub proof fn lemma_multiple_selection_has_no_animation<V, A, S>(
    a: Seq<Control<V, A, S>>,
    b: Seq<Control<V, A, S>>,
)
    requires
        all_shown_as(a, b, true),
    ensures
        forall|i: int| 0 <= i < b.len() ==> animation_off(#[trigger] b[i]),
{
    assert forall|i: int| 0 <= i < b.len() implies animation_off(#[trigger] b[i]) by {
        assert(shown_as(a[i], b[i], true));
        lemma_disabled_tree_has_no_animation(a[i], b[i]);
    }
}

/// `roots` are the roots of the tree of the selection `selected`, built from
/// the first item's controls `base` and the effect groups `groups`: the
/// item's controls kept and shown for the selection, then one group per effect.
pub open spec fn assembled_from<V, A, S, W>(
    roots: Seq<Control<V, A, S>>,
    base: Seq<Control<V, A, S>>,
    groups: Seq<(EffectInstanceId, String, bool, Vec<Control<V, A, S>>)>,
    selected: Seq<TimelineItemView<W>>,
) -> bool {
    let multiple = selected.len() > 1;
    let kept = kept_item_controls(base, selected, selected[0].scene_id is Some);
    &&& roots.len() == kept.len() + groups.len()
    &&& all_shown_as(kept, roots.subrange(0, kept.len() as int), multiple)
    &&& forall|k: int|
        0 <= k < groups.len() ==> effect_group_is(
            #[trigger] roots[kept.len() + k],
            groups[k].0,
            groups[k].1@,
            groups[k].2,
            groups[k].3@,
            multiple,
        )
}

/// When several items are selected, no control anywhere in the tree of the
/// selection, item controls and effect groups alike, offers animation editing.
pub proof fn lemma_assembled_tree_has_no_animation<V, A, S, W>(
    roots: Seq<Control<V, A, S>>,
    base: Seq<Control<V, A, S>>,
    groups: Seq<(EffectInstanceId, String, bool, Vec<Control<V, A, S>>)>,
    selected: Seq<TimelineItemView<W>>,
)
    requires
        selected.len() > 1,
        assembled_from(roots, base, groups, selected),
    ensures
        forall|i: int| 0 <= i < roots.len() ==> animation_off(#[trigger] roots[i]),
{
    let kept = kept_item_controls(base, selected, selected[0].scene_id is Some);
    let front = roots.subrange(0, kept.len() as int);
    lemma_multiple_selection_has_no_animation(kept, front);
    assert forall|i: int| 0 <= i < roots.len() implies animation_off(#[trigger] roots[i]) by {
        if i < kept.len() {
            assert(front[i] == roots[i]);
        } else {
            let k = i - kept.len();
            assert(roots[kept.len() + k] == roots[i]);
            assert(effect_group_is(roots[i], groups[k].0, groups[k].1@, groups[k].2, groups[k].3@, true));
            if let Control::Group { children, .. } = roots[i] {
                lemma_multiple_selection_has_no_animation(groups[k].3@, children@);
            }
        }
    }
}

/// The control tree of a selection, from the controls of the first
/// selected item (`base`) and the controls of each effect that gets a group
/// (`groups`: the effect's id, label, whether it is hidden, and its
/// controls): the item's controls as shown for the selection, then the
/// effect groups. Empty when nothing is selected.
pub fn assemble_control_tree<V, A, S, W>(
    selected: &Vec<TimelineItem<W>>,
    base: Vec<Control<V, A, S>>,
    groups: Vec<(EffectInstanceId, String, bool, Vec<Control<V, A, S>>)>,
) -> (res: ControlTree<V, A, S>)
    ensures
        selected@.len() == 0 ==> res.roots@.len() == 0,
        selected@.len() > 0 ==> assembled_from(res.roots@, base@, groups@, item_views(selected@)),
{
    if selected.len() == 0 {
        return ControlTree::default();
    }
    let multiple = selected.len() > 1;
    assert(item_views(selected@)[0] == selected@[0]@);
    let scene_item = selected[0].scene_id().is_some();
    let controls = selection_item_controls(base, selected, scene_item);
    let ghost initial = groups@;
    let mut rest = groups;
    let n = rest.len();
    let mut made: Vec<Control<V, A, S>> = Vec::new();
    for i in 0..n
        invariant
            n == initial.len(),
            rest@ == initial.subrange(i as int, n as int),
            made@.len() == i,
            forall|k: int|
                0 <= k < i ==> effect_group_is(
                    #[trigger] made@[k],
                    initial[k].0,
                    initial[k].1@,
                    initial[k].2,
                    initial[k].3@,
                    multiple,
                ),
    {
        let (id, label, hidden, children) = rest.remove(0);
        assert(rest@ =~= initial.subrange(i + 1, n as int));
        made.push(effect_group_control(id, label, hidden, children, multiple));
    }
    let tree = control_tree(controls, made);
    assert(tree.roots@.subrange(0, controls@.len() as int) =~= controls@);
    tree
}

} // verus!
