//! Resolving the controls of a property from its schema and value: one
//! leaf control per shown scalar, tuple groups, and the groups of the
//! elements of array properties.
use vstd::prelude::*;
use crate::control::{
    leaf_of, BoolControl, ChoiceControl, ColorControl, Control, ControlId, ControlIdView,
    ElementGroup, ElementKind, GroupKind, LeafControl, NumberControl, PropertyTarget, TextControl,
};
use crate::inspector::{
    lookup_value, owner_key, plugin_id_text, EffectInstance, EffectInstanceView, EffectInstanceId, ItemId,
    PropertyOwner, PropertyValues, TimelineItem, TimelineItemView, item_views,
};
use crate::model::{
    clone_elements, opt_string_view, same_elements, same_value, scalar_value_at, settings_at,
    PropertyElement, PropertyElementId, PropertySchema, PropertySchemaView, PropertyType,
    PropertyTypeView, PropertyValue, PropertyValueType, PropertyValueTypeView, ScalarPropertyType,
    ScalarSettingsView, ItemSchemaView, schema_views,
};
use crate::scene::{
    argument_views, array_has_scene_binding, element_is_bound, field_binding_matches,
    scene_field_binding, SceneArgumentOption, SceneArgumentOptionView, SceneBindingOwner,
    SceneBindingTarget, SceneBindingTargetView,
};
use crate::path::{with_slot_view, InspectorPath, InspectorPathView, PathOwnerView, PropertySlot};
use crate::text::{decimal, push_decimal, push_str, string_from_chars};

verus! {

/// What a number control needs to work out its bounds, step and unit: the
/// scalar's type and index, and whether it is part of the item's size.
#[derive(Clone, Copy, Debug, PartialEq, Eq, Structural)]
pub struct NumberField {
    pub scalar_type: ScalarPropertyType,
    pub scalar_index: Option<usize>,
    pub is_size: bool,
}

/// A control made by resolution: leaves hold property values, number
/// controls a [`NumberField`].
pub type ResolvedControl<F, C, A> = Control<PropertyValue<F, C>, A, NumberField>;

/// The kind of leaf control made for a scalar.
pub enum LeafKind {
    Number(ScalarPropertyType),
    Color,
    Bool,
    Text { multiline: bool },
    Choice { ty: ScalarPropertyType, options: Seq<(Seq<char>, u32)> },
}

/// Everything resolution decides about one leaf control.
pub struct LeafPlan<F, C> {
    pub kind: LeafKind,
    pub key: InspectorPathView,
    pub property_id: Seq<char>,
    pub effect_id: Option<EffectInstanceId>,
    pub element_id: Option<PropertyElementId>,
    pub scalar_index: Option<usize>,
    pub label: Seq<char>,
    pub scalar_label: Option<Seq<char>>,
    pub animatable: bool,
    pub scene_bindable: bool,
    pub read_only: bool,
    pub value: PropertyValue<F, C>,
    pub is_size: bool,
}

/// No index, or an index below `bound`.
pub open spec fn index_below(index: Option<usize>, bound: int) -> bool {
    match index {
        Some(i) => i < bound,
        None => true,
    }
}

/// The value type of a property's values, or of its elements for an array.
pub open spec fn value_type_of(ty: PropertyTypeView) -> PropertyValueTypeView {
    match ty {
        PropertyTypeView::Value(vt) => vt,
        PropertyTypeView::Array { element_type, .. } => element_type,
    }
}

/// The scalars of a value type with their indices: the scalar itself
/// (no index), or each scalar of a tuple.
pub open spec fn scalar_list(vt: PropertyValueTypeView) -> Seq<(Option<usize>, ScalarPropertyType)> {
    match vt {
        PropertyValueTypeView::Scalar(s) => seq![(None, s)],
        PropertyValueTypeView::Tuple(t) => Seq::new(t.len(), |i: int| (Some(i as usize), t[i])),
    }
}

/// The label of a property's controls, numbered for an array element.
pub open spec fn base_label(label: Seq<char>, element: Option<(usize, PropertyElementId)>) -> Seq<char> {
    match element {
        None => label,
        Some((index, _)) => label + seq![' '] + decimal(index as nat + 1),
    }
}

/// The label of a scalar's control: a tuple scalar adds its name, or its
/// number when it has no name.
pub open spec fn scalar_label_text(base: Seq<char>, settings: ScalarSettingsView, index: Option<usize>) -> Seq<char> {
    match index {
        None => base,
        Some(i) => base + seq![' '] + match settings.label {
            Some(l) => l,
            None => decimal(i as nat + 1),
        },
    }
}

/// The options of a choice, as (label, value).
pub open spec fn swapped_options(options: Seq<(u32, Seq<char>)>) -> Seq<(Seq<char>, u32)> {
    options.map_values(|o: (u32, Seq<char>)| (o.1, o.0))
}

/// The kind of control for a scalar of type `ty` holding `value`; none when
/// the value does not fit the type or an enum has no options.
pub open spec fn leaf_kind<F, C>(
    ty: ScalarPropertyType,
    value: PropertyValue<F, C>,
    settings: ScalarSettingsView,
) -> Option<LeafKind> {
    match ty {
        ScalarPropertyType::F32 | ScalarPropertyType::I32 | ScalarPropertyType::U32 => Some(
            LeafKind::Number(ty),
        ),
        ScalarPropertyType::Color => if value is Color {
            Some(LeafKind::Color)
        } else {
            None
        },
        ScalarPropertyType::Bool => if value is Bool {
            Some(LeafKind::Bool)
        } else {
            None
        },
        ScalarPropertyType::String => if value is String {
            Some(LeafKind::Text { multiline: settings.multiline })
        } else {
            None
        },
        ScalarPropertyType::Enum(_) => match settings.enum_options {
            Some(options) => if value is Enum {
                Some(LeafKind::Choice { ty, options: swapped_options(options) })
            } else {
                None
            },
            None => None,
        },
    }
}

/// The leaf control for one scalar of a property value, if it is shown.
pub open spec fn scalar_plan<F, C>(
    key: InspectorPathView,
    property: PropertySchemaView,
    value: PropertyValue<F, C>,
    effect_id: Option<EffectInstanceId>,
    element: Option<(usize, PropertyElementId)>,
    is_size: bool,
    entry: (Option<usize>, ScalarPropertyType),
) -> Option<LeafPlan<F, C>> {
    let index = entry.0;
    let settings = settings_at(property, index);
    match scalar_value_at(value, index) {
        None => None,
        Some(v) => if !settings.visible {
            None
        } else {
            match leaf_kind(entry.1, v, settings) {
                None => None,
                Some(kind) => Some(
                    LeafPlan {
                        kind,
                        key: with_slot_view(
                            key,
                            PropertySlot::Scalar {
                                element_index: match element {
                                    Some(e) => Some(e.0),
                                    None => None,
                                },
                                scalar_index: index,
                            },
                        ),
                        property_id: property.id,
                        effect_id,
                        element_id: match element {
                            Some(e) => Some(e.1),
                            None => None,
                        },
                        scalar_index: index,
                        label: scalar_label_text(base_label(property.label, element), settings, index),
                        scalar_label: settings.scalar_label,
                        animatable: settings.animatable,
                        scene_bindable: settings.scene_bindable,
                        read_only: !settings.editable,
                        value: v,
                        is_size,
                    },
                ),
            }
        },
    }
}

/// The leaf controls for the first `n` entries of `entries`.
pub open spec fn plans_upto<F, C>(
    key: InspectorPathView,
    property: PropertySchemaView,
    value: PropertyValue<F, C>,
    effect_id: Option<EffectInstanceId>,
    element: Option<(usize, PropertyElementId)>,
    is_size: bool,
    entries: Seq<(Option<usize>, ScalarPropertyType)>,
    n: nat,
) -> Seq<LeafPlan<F, C>>
    decreases n,
{
    if n == 0 {
        Seq::empty()
    } else {
        let prev = plans_upto(key, property, value, effect_id, element, is_size, entries, (n - 1) as nat);
        match scalar_plan(key, property, value, effect_id, element, is_size, entries[n - 1]) {
            Some(p) => prev.push(p),
            None => prev,
        }
    }
}

/// The leaf controls of a property value: one for each shown scalar whose
/// value fits its type, none when the property is hidden.
pub open spec fn scalar_plans<F, C>(
    key: InspectorPathView,
    property: PropertySchemaView,
    value: PropertyValue<F, C>,
    effect_id: Option<EffectInstanceId>,
    element: Option<(usize, PropertyElementId)>,
    is_size: bool,
) -> Seq<LeafPlan<F, C>> {
    if !property.visible {
        Seq::empty()
    } else {
        let entries = scalar_list(value_type_of(property.ty));
        plans_upto(key, property, value, effect_id, element, is_size, entries, entries.len())
    }
}

proof fn lemma_plans_increasing<F, C>(
    key: InspectorPathView,
    property: PropertySchemaView,
    value: PropertyValue<F, C>,
    effect_id: Option<EffectInstanceId>,
    element: Option<(usize, PropertyElementId)>,
    is_size: bool,
    entries: Seq<(Option<usize>, ScalarPropertyType)>,
    n: nat,
)
    requires
        n <= entries.len(),
        forall|k: int| 0 <= k < entries.len() ==> (#[trigger] entries[k]).0 == Some(k as usize),
        entries.len() <= usize::MAX,
    ensures
        ({
            let plans = plans_upto(key, property, value, effect_id, element, is_size, entries, n);
            &&& forall|i: int| 0 <= i < plans.len() ==> (#[trigger] plans[i]).scalar_index is Some && plans[i].scalar_index->0 < n
            &&& forall|i: int, j: int|
                0 <= i < j < plans.len() ==> (#[trigger] plans[i]).scalar_index->0 < (#[trigger] plans[j]).scalar_index->0
            &&& forall|i: int|
                0 <= i < plans.len() ==> (#[trigger] plans[i]).key.slot == (PropertySlot::Scalar {
                    element_index: match element {
                        Some(e) => Some(e.0),
                        None => None,
                    },
                    scalar_index: plans[i].scalar_index,
                })
        }),
    decreases n,
{
    if n > 0 {
        lemma_plans_increasing(key, property, value, effect_id, element, is_size, entries, (n - 1) as nat);
        let e = entries[n - 1];
        assert(e.0 == Some((n - 1) as usize));
    }
}

/// The leaf controls of one property value have pairwise different paths,
/// and so different ids: the inspector keeps one input state per id.
pub proof fn lemma_scalar_plans_distinct_keys<F, C>(
    key: InspectorPathView,
    property: PropertySchemaView,
    value: PropertyValue<F, C>,
    effect_id: Option<EffectInstanceId>,
    element: Option<(usize, PropertyElementId)>,
    is_size: bool,
)
    requires
        scalar_list(value_type_of(property.ty)).len() <= usize::MAX,
    ensures
        ({
            let plans = scalar_plans(key, property, value, effect_id, element, is_size);
            forall|i: int, j: int| 0 <= i < j < plans.len() ==> (#[trigger] plans[i]).key != (#[trigger] plans[j]).key
        }),
{
    let plans = scalar_plans(key, property, value, effect_id, element, is_size);
    if property.visible {
        let entries = scalar_list(value_type_of(property.ty));
        match value_type_of(property.ty) {
            PropertyValueTypeView::Scalar(_) => {
                assert(entries.len() == 1);
                assert(plans_upto(key, property, value, effect_id, element, is_size, entries, 0).len() == 0);
                assert(plans.len() <= 1);
            },
            PropertyValueTypeView::Tuple(t) => {
                assert forall|k: int| 0 <= k < entries.len() implies (#[trigger] entries[k]).0 == Some(k as usize) by {}
                lemma_plans_increasing(key, property, value, effect_id, element, is_size, entries, entries.len());
                assert forall|i: int, j: int| 0 <= i < j < plans.len() implies (#[trigger] plans[i]).key != (#[trigger] plans[j]).key by {
                    assert(plans[i].scalar_index != plans[j].scalar_index);
                    assert(plans[i].key.slot != plans[j].key.slot) by {
                        let a = plans_upto(key, property, value, effect_id, element, is_size, entries, entries.len());
                        assert(a == plans);
                    }
                }
            },
        }
    }
}

/// The view of a choice's options.
pub open spec fn choice_options_view(v: Seq<(String, u32)>) -> Seq<(Seq<char>, u32)> {
    v.map_values(|o: (String, u32)| (o.0@, o.1))
}

/// The control is a leaf of the planned kind.
pub open spec fn kind_matches<F, C, A>(c: ResolvedControl<F, C, A>, plan: LeafPlan<F, C>) -> bool {
    match (c, plan.kind) {
        (Control::Number(n), LeafKind::Number(ty)) => n.spec == (NumberField {
            scalar_type: ty,
            scalar_index: plan.scalar_index,
            is_size: plan.is_size,
        }),
        (Control::Color(_), LeafKind::Color) => true,
        (Control::Bool(_), LeafKind::Bool) => true,
        (Control::Text(t), LeafKind::Text { multiline }) => t.multiline == multiline,
        (Control::Choice(ch), LeafKind::Choice { ty, options }) => ch.ty == ty && choice_options_view(
            ch.options@,
        ) == options,
        _ => false,
    }
}

/// The leaf state of a freshly resolved control is the plan's: not mixed,
/// not animated, not bound.
pub open spec fn leaf_is_plan<F, C, A>(l: LeafControl<PropertyValue<F, C>, A>, plan: LeafPlan<F, C>) -> bool {
    &&& l.id@ == ControlIdView::Property(plan.key)
    &&& l.target.key@ == plan.key
    &&& l.target.property_id@ == plan.property_id
    &&& l.target.effect_id == plan.effect_id
    &&& l.target.element_id == plan.element_id
    &&& l.target.scalar_index == plan.scalar_index
    &&& l.label@ == plan.label
    &&& opt_string_view(l.scalar_label) == plan.scalar_label
    &&& l.animatable == plan.animatable
    &&& l.scene_bindable == plan.scene_bindable
    &&& l.read_only == plan.read_only
    &&& !l.mixed
    &&& same_value(plan.value, l.value)
    &&& !l.animation_enabled
    &&& l.animation_stops@.len() == 0
    &&& l.binding is None
}

/// The control is the leaf control planned.
pub open spec fn leaf_matches<F, C, A>(c: ResolvedControl<F, C, A>, plan: LeafPlan<F, C>) -> bool {
    &&& kind_matches(c, plan)
    &&& match leaf_of(c) {
        Some(l) => leaf_is_plan(l, plan),
        None => false,
    }
}

/// Each control is the leaf planned at its position.
pub open spec fn leaves_match<F, C, A>(cs: Seq<ResolvedControl<F, C, A>>, plans: Seq<LeafPlan<F, C>>) -> bool {
    &&& cs.len() == plans.len()
    &&& forall|i: int| 0 <= i < cs.len() ==> leaf_matches(#[trigger] cs[i], plans[i])
}

fn scalar_entries(vt: &PropertyValueType) -> (res: Vec<(Option<usize>, ScalarPropertyType)>)
    ensures
        res@ == scalar_list(vt@),
        forall|j: int| 0 <= j < res@.len() ==> index_below((#[trigger] res@[j]).0, usize::MAX as int),
{
    let mut res: Vec<(Option<usize>, ScalarPropertyType)> = Vec::new();
    match vt {
        PropertyValueType::Scalar(s) => {
            res.push((None, *s));
            assert(res@ =~= scalar_list(vt@));
        },
        PropertyValueType::Tuple(t) => {
            let n = t.len();
            for i in 0..n
                invariant
                    n == t@.len(),
                    vt@ == PropertyValueTypeView::Tuple(t@),
                    res@ =~= Seq::new(i as nat, |k: int| (Some(k as usize), t@[k])),
                    forall|j: int| 0 <= j < res@.len() ==> index_below((#[trigger] res@[j]).0, n as int),
            {
                res.push((Some(i), t[i]));
            }
        },
    }
    res
}

fn label_with_number(label: &str, n: usize) -> (res: String)
    requires
        n < usize::MAX,
    ensures
        res@ == label@ + seq![' '] + decimal(n as nat + 1),
{
    let mut out: Vec<char> = Vec::new();
    push_str(&mut out, label);
    out.push(' ');
    push_decimal(&mut out, (n + 1) as u64);
    string_from_chars(&out)
}

fn label_with_name(label: &str, name: &str) -> (res: String)
    ensures
        res@ == label@ + seq![' '] + name@,
{
    let mut out: Vec<char> = Vec::new();
    push_str(&mut out, label);
    out.push(' ');
    push_str(&mut out, name);
    string_from_chars(&out)
}

fn element_label(label: &str, element: Option<(usize, PropertyElementId)>) -> (res: String)
    requires
        element matches Some((i, _)) ==> i < usize::MAX,
    ensures
        res@ == base_label(label@, element),
{
    match element {
        None => label.to_owned(),
        Some((index, _)) => label_with_number(label, index),
    }
}

fn copy_opt_string(s: &Option<String>) -> (res: Option<String>)
    ensures
        opt_string_view(res) == opt_string_view(*s),
{
    match s {
        Some(s) => Some(s.clone()),
        None => None,
    }
}

fn choice_options(options: &Vec<(u32, String)>) -> (res: Vec<(String, u32)>)
    ensures
        choice_options_view(res@) == swapped_options(crate::model::options_view(options@)),
{
    let mut res: Vec<(String, u32)> = Vec::new();
    let n = options.len();
    for i in 0..n
        invariant
            n == options@.len(),
            choice_options_view(res@) =~= swapped_options(crate::model::options_view(options@)).subrange(
                0,
                i as int,
            ),
    {
        let ghost prev = res@;
        res.push((options[i].1.clone(), options[i].0));
        assert(choice_options_view(res@) =~= choice_options_view(prev).push(
            (options@[i as int].1@, options@[i as int].0),
        ));
    }
    assert(swapped_options(crate::model::options_view(options@)).subrange(0, n as int) =~= swapped_options(
        crate::model::options_view(options@),
    ));
    res
}

#[verifier::rlimit(30)]
fn scalar_control<F: Copy, C: Copy, A>(
    key: &InspectorPath,
    property: &PropertySchema,
    value: &PropertyValue<F, C>,
    effect_id: Option<EffectInstanceId>,
    element: Option<(usize, PropertyElementId)>,
    is_size: bool,
    base: &String,
    entry: (Option<usize>, ScalarPropertyType),
) -> (res: Option<ResolvedControl<F, C, A>>)
    requires
        base@ == base_label(property@.label, element),
        index_below(entry.0, usize::MAX as int),
    ensures
        match (res, scalar_plan(key@, property@, *value, effect_id, element, is_size, entry)) {
            (Some(c), Some(p)) => leaf_matches(c, p),
            (None, None) => true,
            _ => false,
        },
{
    let (index, scalar_type) = entry;
    let scalar = match value.scalar_at(index) {
        Some(v) => v,
        None => return None,
    };
    let settings = property.settings(index);
    if !settings.visible {
        return None;
    }
    let label = match index {
        None => base.clone(),
        Some(i) => match &settings.label {
            Some(name) => label_with_name(base.as_str(), name.as_str()),
            None => label_with_number(base.as_str(), i),
        },
    };
    let scalar_key = key.scalar(
        match element {
            Some(e) => Some(e.0),
            None => None,
        },
        index,
    );
    let common = LeafControl {
        id: ControlId::property(&scalar_key),
        target: PropertyTarget {
            key: scalar_key,
            property_id: property.id().to_owned(),
            effect_id,
            element_id: match element {
                Some(e) => Some(e.1),
                None => None,
            },
            scalar_index: index,
        },
        label,
        scalar_label: copy_opt_string(&settings.scalar_label),
        animatable: settings.animatable,
        scene_bindable: settings.scene_bindable,
        read_only: !settings.editable,
        mixed: false,
        value: scalar.clone(),
        animation_enabled: false,
        animation_stops: Vec::new(),
        binding: None,
    };
    match scalar_type {
        ScalarPropertyType::F32 | ScalarPropertyType::I32 | ScalarPropertyType::U32 => Some(
            Control::Number(
                NumberControl { common, spec: NumberField { scalar_type, scalar_index: index, is_size } },
            ),
        ),
        ScalarPropertyType::Color => match scalar {
            PropertyValue::Color(_) => Some(Control::Color(ColorControl { common })),
            _ => None,
        },
        ScalarPropertyType::Bool => match scalar {
            PropertyValue::Bool(_) => Some(Control::Bool(BoolControl { common })),
            _ => None,
        },
        ScalarPropertyType::String => match scalar {
            PropertyValue::String(_) => Some(
                Control::Text(TextControl { common, multiline: settings.multiline }),
            ),
            _ => None,
        },
        ScalarPropertyType::Enum(_) => match &settings.enum_options {
            Some(options) => match scalar {
                PropertyValue::Enum(_) => Some(
                    Control::Choice(
                        ChoiceControl { common, ty: scalar_type, options: choice_options(options) },
                    ),
                ),
                _ => None,
            },
            None => None,
        },
    }
}

/// The leaf controls of a property value (see [`scalar_plans`]); `key` is
/// the path of the property, `element` the index and id of an array element.
pub fn scalar_controls<F: Copy, C: Copy, A>(
    key: &InspectorPath,
    property: &PropertySchema,
    value: &PropertyValue<F, C>,
    effect_id: Option<EffectInstanceId>,
    element: Option<(usize, PropertyElementId)>,
    is_size: bool,
) -> (res: Vec<ResolvedControl<F, C, A>>)
    requires
        element matches Some((i, _)) ==> i < usize::MAX,
    ensures
        leaves_match(res@, scalar_plans(key@, property@, *value, effect_id, element, is_size)),
{
    let mut out: Vec<ResolvedControl<F, C, A>> = Vec::new();
    if !property.is_visible() {
        return out;
    }
    let base = element_label(property.label(), element);
    let value_type = match property.ty() {
        PropertyType::Value(vt) => vt,
        PropertyType::Array { element_type, .. } => element_type,
    };
    let entries = scalar_entries(value_type);
    let ghost list = scalar_list(value_type_of(property@.ty));
    assert(entries@ == list);
    let n = entries.len();
    for k in 0..n
        invariant
            n == list.len(),
            entries@ == list,
            base@ == base_label(property@.label, element),
            forall|j: int| 0 <= j < n ==> index_below((#[trigger] list[j]).0, usize::MAX as int),
            leaves_match(
                out@,
                plans_upto(key@, property@, *value, effect_id, element, is_size, list, k as nat),
            ),
    {
        let entry = entries[k];
        match scalar_control(key, property, value, effect_id, element, is_size, &base, entry) {
            Some(control) => {
                out.push(control);
            },
            None => {},
        }
    }
    out
}

/// The property values of an owner.
pub open spec fn owner_values<V>(owner: PropertyOwner<'_, V>) -> Seq<(Seq<char>, V)> {
    match owner {
        PropertyOwner::Item { item, .. } => item@.properties,
        PropertyOwner::Effect(effect) => effect@.properties,
    }
}

/// The effect owning the properties, if the owner is an effect.
pub open spec fn owner_effect<V>(owner: PropertyOwner<'_, V>) -> Option<EffectInstanceId> {
    match owner {
        PropertyOwner::Item { .. } => None,
        PropertyOwner::Effect(effect) => Some(effect@.id),
    }
}

/// The scene-binding owner of an owner's properties.
pub open spec fn binding_owner_of(effect_id: Option<EffectInstanceId>) -> SceneBindingOwner {
    match effect_id {
        Some(id) => SceneBindingOwner::Effect(id),
        None => SceneBindingOwner::Item,
    }
}

/// The elements of a shown array property whose value is an array.
pub open spec fn array_elements<F, C>(
    value: Option<PropertyValue<F, C>>,
    property: PropertySchemaView,
) -> Option<Seq<PropertyElement<PropertyValue<F, C>>>> {
    if property.visible && property.ty is Array {
        match value {
            Some(PropertyValue::Array(values)) => Some(values@),
            _ => None,
        }
    } else {
        None
    }
}

/// The editor used for the elements of an array property: font families for
/// string arrays whose settings ask for it, else the scalar editor.
pub open spec fn element_kind_of(property: PropertySchemaView) -> ElementKind {
    match property.ty {
        PropertyTypeView::Array { element_type, .. } => if element_type == PropertyValueTypeView::Scalar(
            ScalarPropertyType::String,
        ) && property.whole.font_family_editor {
            ElementKind::FontFamily
        } else {
            ElementKind::Scalar
        },
        _ => ElementKind::Scalar,
    }
}

/// The label of the row of an array element: its number, from one.
pub open spec fn element_row_label(index: int) -> Seq<char> {
    "要素 "@ + decimal((index + 1) as nat)
}

/// `c` is the row of the element `index` of an array property: a plain group
/// of the element's scalar controls.
pub open spec fn element_row_matches<F, C, A>(
    c: ResolvedControl<F, C, A>,
    key: InspectorPathView,
    property: PropertySchemaView,
    element: PropertyElement<PropertyValue<F, C>>,
    index: int,
    effect_id: Option<EffectInstanceId>,
) -> bool {
    &&& c matches Control::Group { id, label, children, kind }
    &&& id@ == ControlIdView::Group(
        with_slot_view(key, PropertySlot::Scalar { element_index: Some(index as usize), scalar_index: None }),
    )
    &&& label@ == element_row_label(index)
    &&& kind is Plain
    &&& leaves_match(
        children@,
        scalar_plans(key, property, element@.1, effect_id, Some((index as usize, element@.0)), false),
    )
}

/// `c` is the group of the elements `values` of an array property.
pub open spec fn elements_group_matches<F, C, A>(
    c: ResolvedControl<F, C, A>,
    key: InspectorPathView,
    property: PropertySchemaView,
    values: Seq<PropertyElement<PropertyValue<F, C>>>,
    effect_id: Option<EffectInstanceId>,
    bound: bool,
) -> bool {
    &&& c matches Control::Group { id, label, children, kind: GroupKind::Elements(group) }
    &&& id@ == ControlIdView::Group(key)
    &&& label@ == property.label
    &&& group.target.key@ == key
    &&& group.target.property_id@ == property.id
    &&& group.target.effect_id == effect_id
    &&& group.target.element_id is None
    &&& group.target.scalar_index is None
    &&& same_elements(values, group.elements@)
    &&& group.element_kind == element_kind_of(property)
    &&& property.ty matches PropertyTypeView::Array { min_items, max_items, .. }
    &&& group.min_items == min_items
    &&& group.max_items == max_items
    &&& group.has_scene_binding == bound
    &&& children@.len() == values.len()
    &&& forall|i: int|
        0 <= i < values.len() ==> element_row_matches(#[trigger] children@[i], key, property, values[i], i, effect_id)
}

proof fn lemma_plan_keys_at_element<F, C>(
    key: InspectorPathView,
    property: PropertySchemaView,
    value: PropertyValue<F, C>,
    effect_id: Option<EffectInstanceId>,
    element: Option<(usize, PropertyElementId)>,
    is_size: bool,
    entries: Seq<(Option<usize>, ScalarPropertyType)>,
    n: nat,
)
    requires
        n <= entries.len(),
    ensures
        ({
            let plans = plans_upto(key, property, value, effect_id, element, is_size, entries, n);
            forall|i: int|
                0 <= i < plans.len() ==> (#[trigger] plans[i]).key == with_slot_view(
                    key,
                    PropertySlot::Scalar {
                        element_index: match element {
                            Some(e) => Some(e.0),
                            None => None,
                        },
                        scalar_index: plans[i].scalar_index,
                    },
                )
        }),
    decreases n,
{
    if n > 0 {
        lemma_plan_keys_at_element(key, property, value, effect_id, element, is_size, entries, (n - 1) as nat);
    }
}

/// The controls of an array property's elements have pairwise different
/// ids: each element row has its own id, different from the group's, and
/// no two leaf controls, in one row or in two, share a path.
pub proof fn lemma_element_controls_distinct<F, C, A>(
    c: ResolvedControl<F, C, A>,
    key: InspectorPathView,
    property: PropertySchemaView,
    values: Seq<PropertyElement<PropertyValue<F, C>>>,
    effect_id: Option<EffectInstanceId>,
    bound: bool,
)
    requires
        elements_group_matches(c, key, property, values, effect_id, bound),
        key.slot == PropertySlot::Value,
        values.len() <= usize::MAX,
        scalar_list(value_type_of(property.ty)).len() <= usize::MAX,
    ensures
        ({
            let rows = c.children_view();
            &&& forall|i: int| 0 <= i < rows.len() ==> (#[trigger] rows[i]).id_view() != c.id_view()
            &&& forall|i: int, j: int| 0 <= i < j < rows.len() ==> (#[trigger] rows[i]).id_view() != (#[trigger] rows[j]).id_view()
            &&& forall|i: int, j: int, a: int, b: int|
                0 <= i < rows.len() && 0 <= j < rows.len() && (i != j || a != b) && 0 <= a < rows[i].children_view().len()
                    && 0 <= b < rows[j].children_view().len() ==> (#[trigger] rows[i].children_view()[a]).id_view()
                    != (#[trigger] rows[j].children_view()[b]).id_view()
        }),
{
    let entries = scalar_list(value_type_of(property.ty));
    let rows = c.children_view();
    assert forall|i: int| 0 <= i < rows.len() implies (#[trigger] rows[i]).id_view() != c.id_view() by {
        assert(element_row_matches(rows[i], key, property, values[i], i, effect_id));
    }
    assert forall|i: int, j: int| 0 <= i < j < rows.len() implies (#[trigger] rows[i]).id_view() != (#[trigger] rows[j]).id_view() by {
        assert(element_row_matches(rows[i], key, property, values[i], i, effect_id));
        assert(element_row_matches(rows[j], key, property, values[j], j, effect_id));
    }
    assert forall|i: int, j: int, a: int, b: int|
        0 <= i < rows.len() && 0 <= j < rows.len() && (i != j || a != b) && 0 <= a < rows[i].children_view().len()
            && 0 <= b < rows[j].children_view().len() implies (#[trigger] rows[i].children_view()[a]).id_view()
            != (#[trigger] rows[j].children_view()[b]).id_view() by {
        assert(element_row_matches(rows[i], key, property, values[i], i, effect_id));
        assert(element_row_matches(rows[j], key, property, values[j], j, effect_id));
        let ri = rows[i].children_view();
        let rj = rows[j].children_view();
        let pi = scalar_plans(key, property, values[i]@.1, effect_id, Some((i as usize, values[i]@.0)), false);
        let pj = scalar_plans(key, property, values[j]@.1, effect_id, Some((j as usize, values[j]@.0)), false);
        assert(leaf_matches(ri[a], pi[a]));
        assert(leaf_matches(rj[b], pj[b]));
        lemma_plan_keys_at_element(
            key,
            property,
            values[i]@.1,
            effect_id,
            Some((i as usize, values[i]@.0)),
            false,
            entries,
            entries.len(),
        );
        lemma_plan_keys_at_element(
            key,
            property,
            values[j]@.1,
            effect_id,
            Some((j as usize, values[j]@.0)),
            false,
            entries,
            entries.len(),
        );
        if i == j {
            lemma_scalar_plans_distinct_keys(key, property, values[i]@.1, effect_id, Some((i as usize, values[i]@.0)), false);
            if a < b {
                assert(pi[a].key != pi[b].key);
            } else {
                assert(pi[b].key != pi[a].key);
            }
        } else {
            assert(pi[a].key.slot != pj[b].key.slot);
        }
    }
}

/// Whether a property type's values are tuples.
pub open spec fn is_tuple_type(ty: PropertyTypeView) -> bool {
    value_type_of(ty) is Tuple
}

/// What resolution reads of the owner of properties: the owner named in
/// paths, its values, its effect (for an effect) and its size property.
pub struct OwnerInfo<V> {
    pub path_owner: PathOwnerView,
    pub values: Seq<(Seq<char>, V)>,
    pub effect_id: Option<EffectInstanceId>,
    pub size_property: Option<Seq<char>>,
}

/// What resolution reads of an item with the schema `schema`.
pub open spec fn item_owner_info<V>(item: TimelineItemView<V>, schema: ItemSchemaView) -> OwnerInfo<V> {
    OwnerInfo {
        path_owner: PathOwnerView::Item { plugin_id: plugin_id_text(item.plugin_id), item_id: schema.id },
        values: item.properties,
        effect_id: None,
        size_property: schema.size_property,
    }
}

/// What resolution reads of an effect instance.
pub open spec fn effect_owner_info<V>(effect: EffectInstanceView<V>) -> OwnerInfo<V> {
    OwnerInfo {
        path_owner: PathOwnerView::Effect { instance_id: effect.id.0 },
        values: effect.properties,
        effect_id: Some(effect.id),
        size_property: None,
    }
}

/// What resolution reads of an owner.
pub open spec fn owner_info<V>(owner: PropertyOwner<'_, V>) -> OwnerInfo<V> {
    match owner {
        PropertyOwner::Item { item, schema } => item_owner_info(item@, schema@),
        PropertyOwner::Effect(effect) => effect_owner_info(effect@),
    }
}

/// The path of a property of an owner, pointing at the whole value.
pub open spec fn info_key<V>(info: OwnerInfo<V>, property: PropertySchemaView) -> InspectorPathView {
    InspectorPathView { owner: info.path_owner, property_id: property.id, slot: PropertySlot::Value }
}

/// `res` are the controls of the scalars of `value`, gathered in a tuple
/// group (with the size key for a size property) when the property's values
/// are tuples; none for a tuple none of whose scalars has a control.
pub open spec fn scalar_controls_grouped<F, C, A>(
    res: Seq<ResolvedControl<F, C, A>>,
    key: InspectorPathView,
    property: PropertySchemaView,
    value: PropertyValue<F, C>,
    effect_id: Option<EffectInstanceId>,
    is_size: bool,
) -> bool {
    let plans = scalar_plans(key, property, value, effect_id, None, is_size);
    if is_tuple_type(property.ty) {
        if plans.len() == 0 {
            res.len() == 0
        } else {
            &&& res.len() == 1
            &&& res[0] matches Control::Group { id, label, children, kind: GroupKind::Tuple { size_key } }
            &&& id@ == ControlIdView::Group(key)
            &&& label@ == property.label
            &&& leaves_match(children@, plans)
            &&& size_key_view(size_key) == (if is_size {
                Some(key)
            } else {
                None
            })
        }
    } else {
        leaves_match(res, plans)
    }
}

/// `res` are the controls of the property `property` of an owner: the group
/// of its elements for a shown array, else the controls of its scalars
/// (see [`scalar_controls_grouped`]); none when the owner has no value.
pub open spec fn owner_controls_match<F, C, A>(
    res: Seq<ResolvedControl<F, C, A>>,
    info: OwnerInfo<PropertyValue<F, C>>,
    property: PropertySchemaView,
    item_id: ItemId,
    args: Seq<SceneArgumentOptionView>,
) -> bool {
    let key = info_key(info, property);
    let value = lookup_value(info.values, property.id);
    match array_elements(value, property) {
        Some(values) => res.len() == 1 && elements_group_matches(
            res[0],
            key,
            property,
            values,
            info.effect_id,
            element_is_bound(args, item_id, binding_owner_of(info.effect_id), property.id),
        ),
        None => match value {
            None => res.len() == 0,
            Some(v) => scalar_controls_grouped(
                res,
                key,
                property,
                v,
                info.effect_id,
                info.size_property == Some(property.id),
            ),
        },
    }
}

/// The blocks, one after another.
pub open spec fn concat_blocks<T>(blocks: Seq<Seq<T>>) -> Seq<T>
    decreases blocks.len(),
{
    if blocks.len() == 0 {
        Seq::empty()
    } else {
        concat_blocks(blocks.drop_last()) + blocks.last()
    }
}

/// `res` are the controls of each of `properties` of an owner, property
/// after property.
pub open spec fn owner_properties_match<F, C, A>(
    res: Seq<ResolvedControl<F, C, A>>,
    info: OwnerInfo<PropertyValue<F, C>>,
    properties: Seq<PropertySchemaView>,
    item_id: ItemId,
    args: Seq<SceneArgumentOptionView>,
) -> bool {
    exists|blocks: Seq<Seq<ResolvedControl<F, C, A>>>|
        {
            &&& blocks.len() == properties.len()
            &&& res == concat_blocks(blocks)
            &&& forall|k: int|
                0 <= k < blocks.len() ==> owner_controls_match(#[trigger] blocks[k], info, properties[k], item_id, args)
        }
}

/// Only the tuple group of an item's size property carries a size key, and
/// that key is the property's path: the controls of other properties (and
/// of every effect property) cannot take on the aspect-ratio lock.
pub proof fn lemma_size_key_only_for_size_property<F, C, A>(
    res: Seq<ResolvedControl<F, C, A>>,
    info: OwnerInfo<PropertyValue<F, C>>,
    property: PropertySchemaView,
    item_id: ItemId,
    args: Seq<SceneArgumentOptionView>,
)
    requires
        owner_controls_match(res, info, property, item_id, args),
    ensures
        forall|i: int|
            0 <= i < res.len() ==> match #[trigger] res[i] {
                Control::Group { kind: GroupKind::Tuple { size_key: Some(k) }, .. } => info.size_property
                    == Some(property.id) && k@ == info_key(info, property),
                _ => true,
            },
{
    let value = lookup_value(info.values, property.id);
    let key = info_key(info, property);
    match array_elements(value, property) {
        Some(_) => {},
        None => match value {
            None => {},
            Some(v) => {
                let plans = scalar_plans(key, property, v, info.effect_id, None, info.size_property == Some(property.id));
                assert forall|i: int| 0 <= i < res.len() implies match #[trigger] res[i] {
                    Control::Group { kind: GroupKind::Tuple { size_key: Some(k) }, .. } => info.size_property
                        == Some(property.id) && k@ == info_key(info, property),
                    _ => true,
                } by {
                    if !is_tuple_type(property.ty) {
                        assert(leaf_matches(res[i], plans[i]));
                    }
                }
            },
        },
    }
}

/// The view of an optional path.
pub open spec fn size_key_view(k: Option<InspectorPath>) -> Option<InspectorPathView> {
    match k {
        Some(k) => Some(k@),
        None => None,
    }
}

fn element_row_text(index: usize) -> (res: String)
    requires
        index < usize::MAX,
    ensures
        res@ == element_row_label(index as int),
{
    let mut out: Vec<char> = Vec::new();
    push_str(&mut out, "要素 ");
    push_decimal(&mut out, (index + 1) as u64);
    string_from_chars(&out)
}

fn elements_group<F: Copy, C: Copy, A>(
    owner: &PropertyOwner<'_, PropertyValue<F, C>>,
    property: &PropertySchema,
    key: &InspectorPath,
    item_id: ItemId,
    arguments: &Vec<SceneArgumentOption>,
) -> (res: Option<ResolvedControl<F, C, A>>)
    requires
        key@ == owner_key(*owner, property@),
    ensures
        match (res, array_elements(lookup_value(owner_values(*owner), property@.id), property@)) {
            (Some(c), Some(values)) => elements_group_matches(
                c,
                key@,
                property@,
                values,
                owner_effect(*owner),
                element_is_bound(
                    argument_views(arguments@),
                    item_id,
                    binding_owner_of(owner_effect(*owner)),
                    property@.id,
                ),
            ),
            (None, None) => true,
            _ => false,
        },
{
    if !property.is_visible() {
        return None;
    }
    let (element_type, min_items, max_items) = match property.ty() {
        PropertyType::Array { element_type, min_items, max_items } => (element_type, *min_items, *max_items),
        PropertyType::Value(_) => return None,
    };
    let values = match owner.value(property.id()) {
        Some(PropertyValue::Array(values)) => values,
        _ => return None,
    };
    let effect_id = owner.effect_id();
    let font_family = match element_type {
        PropertyValueType::Scalar(ScalarPropertyType::String) => property.settings(None).font_family_editor,
        _ => false,
    };
    let element_kind = if font_family {
        ElementKind::FontFamily
    } else {
        ElementKind::Scalar
    };
    let has_scene_binding = array_has_scene_binding(
        item_id,
        SceneBindingOwner::from_effect(effect_id),
        property.id(),
        arguments,
    );
    let ghost vals = values@;
    let n = values.len();
    let mut children: Vec<ResolvedControl<F, C, A>> = Vec::new();
    for i in 0..n
        invariant
            n == vals.len(),
            vals == values@,
            key@ == owner_key(*owner, property@),
            effect_id == owner_effect(*owner),
            children@.len() == i,
            forall|k: int|
                0 <= k < i ==> element_row_matches(#[trigger] children@[k], key@, property@, vals[k], k, effect_id),
    {
        let element = &values[i];
        let rows = scalar_controls(key, property, element.value(), effect_id, Some((i, element.element_id())), false);
        let row = Control::Group {
            id: ControlId::group(&key.scalar(Some(i), None)),
            label: element_row_text(i),
            children: rows,
            kind: GroupKind::Plain,
        };
        children.push(row);
    }
    let target = PropertyTarget {
        key: key.clone(),
        property_id: property.id().to_owned(),
        effect_id,
        element_id: None,
        scalar_index: None,
    };
    Some(
        Control::Group {
            id: ControlId::group(key),
            label: property.label().to_owned(),
            children,
            kind: GroupKind::Elements(
                Box::new(
                    ElementGroup {
                        target,
                        elements: clone_elements(values),
                        element_kind,
                        min_items,
                        max_items,
                        has_scene_binding,
                    },
                ),
            ),
        },
    )
}

/// The controls of the property `property` of `owner` (see
/// [`owner_controls_match`]); `item_id` and `arguments` tell whether a scene
/// argument binds an element of an array property.
pub fn owner_controls<F: Copy, C: Copy, A>(
    owner: &PropertyOwner<'_, PropertyValue<F, C>>,
    property: &PropertySchema,
    item_id: ItemId,
    arguments: &Vec<SceneArgumentOption>,
) -> (res: Vec<ResolvedControl<F, C, A>>)
    ensures
        owner_controls_match(res@, owner_info(*owner), property@, item_id, argument_views(arguments@)),
{
    let key = owner.key(property);
    match elements_group(owner, property, &key, item_id, arguments) {
        Some(group) => {
            let mut res: Vec<ResolvedControl<F, C, A>> = Vec::new();
            res.push(group);
            return res;
        },
        None => {},
    }
    let value = match owner.value(property.id()) {
        Some(value) => value,
        None => return Vec::new(),
    };
    let is_size = owner.is_size(property.id());
    let controls = scalar_controls(&key, property, value, owner.effect_id(), None, is_size);
    let tuple = match property.ty() {
        PropertyType::Value(PropertyValueType::Tuple(_)) => true,
        PropertyType::Array { element_type: PropertyValueType::Tuple(_), .. } => true,
        _ => false,
    };
    if !tuple {
        return controls;
    }
    if controls.len() == 0 {
        return controls;
    }
    let size_key = if is_size {
        Some(key.clone())
    } else {
        None
    };
    let mut res: Vec<ResolvedControl<F, C, A>> = Vec::new();
    res.push(
        Control::Group {
            id: ControlId::group(&key),
            label: property.label().to_owned(),
            children: controls,
            kind: GroupKind::Tuple { size_key },
        },
    );
    res
}

fn owner_properties_controls<F: Copy, C: Copy, A>(
    owner: &PropertyOwner<'_, PropertyValue<F, C>>,
    properties: &Vec<PropertySchema>,
    item_id: ItemId,
    arguments: &Vec<SceneArgumentOption>,
) -> (res: Vec<ResolvedControl<F, C, A>>)
    ensures
        owner_properties_match(
            res@,
            owner_info(*owner),
            schema_views(properties@),
            item_id,
            argument_views(arguments@),
        ),
{
    let ghost info = owner_info(*owner);
    let ghost props = schema_views(properties@);
    let ghost args = argument_views(arguments@);
    let ghost mut blocks: Seq<Seq<ResolvedControl<F, C, A>>> = Seq::empty();
    let mut out: Vec<ResolvedControl<F, C, A>> = Vec::new();
    let n = properties.len();
    for k in 0..n
        invariant
            n == props.len(),
            props == schema_views(properties@),
            info == owner_info(*owner),
            args == argument_views(arguments@),
            blocks.len() == k,
            out@ == concat_blocks(blocks),
            forall|j: int| 0 <= j < k ==> owner_controls_match(#[trigger] blocks[j], info, props[j], item_id, args),
    {
        let mut block = owner_controls(owner, &properties[k], item_id, arguments);
        proof {
            let next = blocks.push(block@);
            assert(next.drop_last() =~= blocks);
            assert(props[k as int] == properties@[k as int]@);
            blocks = next;
        }
        out.append(&mut block);
    }
    assert(out@ == concat_blocks(blocks));
    out
}

/// `res` are the controls of the properties of an item, in the order of its
/// schema's properties; none for an item without a schema.
pub open spec fn item_controls_match<F, C, A>(
    res: Seq<ResolvedControl<F, C, A>>,
    item: TimelineItemView<PropertyValue<F, C>>,
    args: Seq<SceneArgumentOptionView>,
) -> bool {
    match item.schema {
        None => res.len() == 0,
        Some(schema) => owner_properties_match(res, item_owner_info(item, schema), schema.properties, item.id, args),
    }
}

/// The controls of the properties of an item, in the order of its schema's
/// properties; none for an item without a schema.
pub fn item_controls<F: Copy, C: Copy, A>(
    item: &TimelineItem<PropertyValue<F, C>>,
    arguments: &Vec<SceneArgumentOption>,
) -> (res: Vec<ResolvedControl<F, C, A>>)
    ensures
        item_controls_match(res@, item@, argument_views(arguments@)),
{
    let schema = match item.schema() {
        Some(schema) => schema,
        None => return Vec::new(),
    };
    let owner = PropertyOwner::Item { item, schema };
    owner_properties_controls(&owner, schema.properties(), item.id(), arguments)
}

/// The controls of the properties of an effect instance of the item
/// `item_id`, given the schemas of the effect's properties.
pub fn effect_controls<F: Copy, C: Copy, A>(
    effect: &EffectInstance<PropertyValue<F, C>>,
    properties: &Vec<PropertySchema>,
    item_id: ItemId,
    arguments: &Vec<SceneArgumentOption>,
) -> (res: Vec<ResolvedControl<F, C, A>>)
    ensures
        owner_properties_match(
            res@,
            effect_owner_info(effect@),
            schema_views(properties@),
            item_id,
            argument_views(arguments@),
        ),
{
    let owner = PropertyOwner::Effect(effect);
    owner_properties_controls(&owner, properties, item_id, arguments)
}

/// The path of a scene argument's value control.
pub open spec fn scene_key(scene_id: u64, property: PropertySchemaView) -> InspectorPathView {
    InspectorPathView {
        owner: PathOwnerView::Scene { scene_id },
        property_id: property.id,
        slot: PropertySlot::Value,
    }
}

/// The controls of the value of a scene argument, whose schema is `property`.
pub fn scene_value_controls<F: Copy, C: Copy, A>(
    scene_id: u64,
    property: &PropertySchema,
    value: &PropertyValue<F, C>,
) -> (res: Vec<ResolvedControl<F, C, A>>)
    ensures
        scalar_controls_grouped(res@, scene_key(scene_id, property@), property@, *value, None, false),
{
    let key = InspectorPath::scene_property(scene_id, property.id());
    let controls = scalar_controls(&key, property, value, None, None, false);
    let tuple = match property.ty() {
        PropertyType::Value(PropertyValueType::Tuple(_)) => true,
        PropertyType::Array { element_type: PropertyValueType::Tuple(_), .. } => true,
        _ => false,
    };
    if !tuple || controls.len() == 0 {
        return controls;
    }
    let mut res: Vec<ResolvedControl<F, C, A>> = Vec::new();
    res.push(
        Control::Group {
            id: ControlId::group(&key),
            label: property.label().to_owned(),
            children: controls,
            kind: GroupKind::Tuple { size_key: None },
        },
    );
    res
}

/// `block` are the controls of a scene argument: those of its value, none
/// when the scene gives it no value.
pub open spec fn scene_argument_block<F, C, A>(
    block: Seq<ResolvedControl<F, C, A>>,
    scene_id: u64,
    argument: PropertySchemaView,
    values: Seq<(Seq<char>, PropertyValue<F, C>)>,
) -> bool {
    match lookup_value(values, argument.id) {
        Some(v) => scalar_controls_grouped(block, scene_key(scene_id, argument), argument, v, None, false),
        None => block.len() == 0,
    }
}

/// `res` are the controls of the arguments `args` of the scene `scene_id`,
/// argument after argument (see [`scene_argument_block`]).
pub open spec fn scene_arguments_match<F, C, A>(
    res: Seq<ResolvedControl<F, C, A>>,
    scene_id: u64,
    args: Seq<PropertySchemaView>,
    values: Seq<(Seq<char>, PropertyValue<F, C>)>,
) -> bool {
    exists|blocks: Seq<Seq<ResolvedControl<F, C, A>>>|
        {
            &&& blocks.len() == args.len()
            &&& res == concat_blocks(blocks)
            &&& forall|k: int| 0 <= k < blocks.len() ==> scene_argument_block(#[trigger] blocks[k], scene_id, args[k], values)
        }
}

/// The controls of the arguments of the scene `scene_id` that a scene item
/// shows: for each argument, given by the schema of its value, the controls
/// of the value the item gives it.
pub fn scene_argument_value_controls<F: Copy, C: Copy, A>(
    scene_id: u64,
    arguments: &Vec<PropertySchema>,
    values: &PropertyValues<PropertyValue<F, C>>,
) -> (res: Vec<ResolvedControl<F, C, A>>)
    ensures
        scene_arguments_match(res@, scene_id, schema_views(arguments@), values@),
{
    let ghost mut blocks: Seq<Seq<ResolvedControl<F, C, A>>> = Seq::empty();
    let mut out: Vec<ResolvedControl<F, C, A>> = Vec::new();
    let n = arguments.len();
    for k in 0..n
        invariant
            n == arguments@.len(),
            blocks.len() == k,
            out@ == concat_blocks(blocks),
            forall|j: int|
                0 <= j < k ==> scene_argument_block(#[trigger] blocks[j], scene_id, schema_views(arguments@)[j], values@),
    {
        let argument = &arguments[k];
        let mut block: Vec<ResolvedControl<F, C, A>> = match values.property(argument.id()) {
            Some(value) => scene_value_controls(scene_id, argument, value),
            None => Vec::new(),
        };
        proof {
            let next = blocks.push(block@);
            assert(next.drop_last() =~= blocks);
            blocks = next;
        }
        out.append(&mut block);
    }
    assert(out@ == concat_blocks(blocks));
    out
}

/// The controls of the first selected item before they are shown for the
/// selection: for a scene item, those of the arguments of its scene (none
/// when the scene is unknown), given with the values the item gives them;
/// else those of the item's properties.
pub fn selection_base_controls<F: Copy, C: Copy, A>(
    item: &TimelineItem<PropertyValue<F, C>>,
    scene: Option<(&Vec<PropertySchema>, &PropertyValues<PropertyValue<F, C>>)>,
    arguments: &Vec<SceneArgumentOption>,
) -> (res: Vec<ResolvedControl<F, C, A>>)
    ensures
        match item@.scene_id {
            Some(scene_id) => match scene {
                Some(sc) => scene_arguments_match(res@, scene_id, schema_views(sc.0@), sc.1@),
                None => res@.len() == 0,
            },
            None => item_controls_match(res@, item@, argument_views(arguments@)),
        },
{
    match item.scene_id() {
        Some(scene_id) => match scene {
            Some((scene_arguments, values)) => scene_argument_value_controls(scene_id, scene_arguments, values),
            None => Vec::new(),
        },
        None => item_controls(item, arguments),
    }
}

/// What the binding state of leaf controls depends on: the resolved item,
/// the selection, whether a scene is being edited and the scene's arguments.
pub struct Resolution<'a, F, C> {
    pub item_id: ItemId,
    pub selected_items: &'a Vec<TimelineItem<PropertyValue<F, C>>>,
    pub editing_scene: bool,
    pub arguments: &'a Vec<SceneArgumentOption>,
}

/// A selected item's value of the switch `index` of `property_id` differs
/// from `b` (an item without such a switch differs).
pub open spec fn bool_differs<F, C>(
    item: TimelineItemView<PropertyValue<F, C>>,
    property_id: Seq<char>,
    index: Option<usize>,
    b: bool,
) -> bool {
    match lookup_value(item.properties, property_id) {
        Some(v) => match scalar_value_at(v, index) {
            Some(PropertyValue::Bool(x)) => x != b,
            _ => true,
        },
        None => true,
    }
}

/// A switch whose value is `b` for the first selected item shows as mixed:
/// some other selected item differs.
pub open spec fn bool_mixed<F, C>(
    selected: Seq<TimelineItemView<PropertyValue<F, C>>>,
    property_id: Seq<char>,
    index: Option<usize>,
    b: bool,
) -> bool {
    exists|i: int| 1 <= i < selected.len() && #[trigger] bool_differs(selected[i], property_id, index, b)
}

/// The field a leaf control edits, as a binding target of the item `item_id`.
pub open spec fn leaf_binding_target<V, A>(l: LeafControl<V, A>, item_id: ItemId) -> SceneBindingTargetView {
    SceneBindingTargetView {
        item_id,
        owner: binding_owner_of(l.target.effect_id),
        property_id: l.target.property_id@,
        element_id: l.target.element_id,
        scalar_index: l.target.scalar_index,
    }
}

/// `b` is the leaf `a` with its binding state and mixed flag resolved: the
/// binding of its field, with `animation_visible` telling whether the field
/// shows its animation; for a switch of the item itself, whether the
/// selection disagrees. Nothing else changes.
pub open spec fn leaf_resolved<F, C, A>(
    a: LeafControl<PropertyValue<F, C>, A>,
    b: LeafControl<PropertyValue<F, C>, A>,
    ty: ScalarPropertyType,
    animation_visible: bool,
    r: Resolution<'_, F, C>,
) -> bool {
    &&& b == LeafControl { binding: b.binding, mixed: b.mixed, ..a }
    &&& field_binding_matches(
        b.binding,
        r.editing_scene,
        animation_visible,
        a.scene_bindable,
        leaf_binding_target(a, r.item_id),
        PropertyTypeView::Value(PropertyValueTypeView::Scalar(ty)),
        argument_views(r.arguments@),
    )
    &&& b.mixed == match a.value {
        PropertyValue::Bool(x) => if a.target.effect_id is None {
            bool_mixed(item_views(r.selected_items@), a.target.property_id@, a.target.scalar_index, x)
        } else {
            a.mixed
        },
        _ => a.mixed,
    }
}

/// `b` is the tree `a` with every leaf's binding state resolved (see
/// [`leaf_resolved`]): number and color controls show their animation when it
/// is enabled, the others never.
pub open spec fn bindings_resolved<F, C, A>(
    a: ResolvedControl<F, C, A>,
    b: ResolvedControl<F, C, A>,
    r: Resolution<'_, F, C>,
) -> bool
    decreases a,
{
    match (a, b) {
        (
            Control::Group { id: ia, label: la, children: ca, kind: ka },
            Control::Group { id: ib, label: lb, children: cb, kind: kb },
        ) => {
            &&& ia == ib
            &&& la == lb
            &&& ka == kb
            &&& ca@.len() == cb@.len()
            &&& forall|i: int| 0 <= i < ca@.len() ==> bindings_resolved(#[trigger] ca@[i], cb@[i], r)
        },
        (Control::Number(x), Control::Number(y)) => x.spec == y.spec && leaf_resolved(
            x.common,
            y.common,
            x.spec.scalar_type,
            x.common.animation_enabled,
            r,
        ),
        (Control::Text(x), Control::Text(y)) => x.multiline == y.multiline && leaf_resolved(
            x.common,
            y.common,
            ScalarPropertyType::String,
            false,
            r,
        ),
        (Control::Bool(x), Control::Bool(y)) => leaf_resolved(x.common, y.common, ScalarPropertyType::Bool, false, r),
        (Control::Choice(x), Control::Choice(y)) => x.ty == y.ty && x.options == y.options && leaf_resolved(
            x.common,
            y.common,
            x.ty,
            false,
            r,
        ),
        (Control::Color(x), Control::Color(y)) => leaf_resolved(
            x.common,
            y.common,
            ScalarPropertyType::Color,
            x.common.animation_enabled,
            r,
        ),
        _ => false,
    }
}

/// A resolved leaf is bound to a scene argument only while a scene is
/// edited, when its field can be bound, and when it does not show its
/// animation.
pub proof fn lemma_bindings_only_while_editing<F, C, A>(
    a: LeafControl<PropertyValue<F, C>, A>,
    b: LeafControl<PropertyValue<F, C>, A>,
    ty: ScalarPropertyType,
    animation_visible: bool,
    r: Resolution<'_, F, C>,
)
    requires
        leaf_resolved(a, b, ty, animation_visible, r),
        b.binding is Some,
    ensures
        r.editing_scene,
        b.scene_bindable,
        !animation_visible,
{
}

/// No number or color field of the tree whose animation is enabled is
/// bound to a scene argument.
pub open spec fn animated_fields_unbound<F, C, A>(c: ResolvedControl<F, C, A>) -> bool
    decreases c,
{
    match c {
        Control::Group { children, .. } => forall|i: int|
            0 <= i < children@.len() ==> animated_fields_unbound(#[trigger] children@[i]),
        Control::Number(x) => x.common.animation_enabled ==> x.common.binding is None,
        Control::Color(x) => x.common.animation_enabled ==> x.common.binding is None,
        _ => true,
    }
}

/// After resolving, an animated field has no scene binding: a number or
/// color control whose animation is enabled, anywhere in the tree, is not
/// offered a binding to a scene argument.
pub proof fn lemma_animated_fields_have_no_binding<F, C, A>(
    a: ResolvedControl<F, C, A>,
    b: ResolvedControl<F, C, A>,
    r: Resolution<'_, F, C>,
)
    requires
        bindings_resolved(a, b, r),
    ensures
        animated_fields_unbound(b),
    decreases a,
{
    match (a, b) {
        (Control::Group { children: ca, .. }, Control::Group { children: cb, .. }) => {
            assert forall|i: int| 0 <= i < cb@.len() implies animated_fields_unbound(#[trigger] cb@[i]) by {
                assert(bindings_resolved(ca@[i], cb@[i], r));
                assert(decreases_to!(a => ca@[i])) by {
                    assert(decreases_to!(a => ca));
                    assert(decreases_to!(ca => ca@));
                    assert(decreases_to!(ca@ => ca@[i]));
                }
                lemma_animated_fields_have_no_binding(ca@[i], cb@[i], r);
            }
        },
        _ => {},
    }
}

fn switch_is_mixed<F, C>(
    selected: &Vec<TimelineItem<PropertyValue<F, C>>>,
    property_id: &str,
    index: Option<usize>,
    b: bool,
) -> (res: bool)
    ensures
        res == bool_mixed(item_views(selected@), property_id@, index, b),
{
    let ghost views = item_views(selected@);
    let n = selected.len();
    let mut i: usize = 1;
    while i < n
        invariant
            n == views.len(),
            views == item_views(selected@),
            1 <= i,
            forall|k: int| 1 <= k < i ==> !#[trigger] bool_differs(views[k], property_id@, index, b),
        decreases n - i,
    {
        assert(views[i as int] == selected@[i as int]@);
        let differs = match selected[i].properties().property(property_id) {
            Some(v) => match v.scalar_at(index) {
                Some(PropertyValue::Bool(x)) => *x != b,
                _ => true,
            },
            None => true,
        };
        if differs {
            assert(bool_differs(views[i as int], property_id@, index, b));
            return true;
        }
        i = i + 1;
    }
    false
}

fn resolve_leaf_state<F, C, A>(
    common: &mut LeafControl<PropertyValue<F, C>, A>,
    ty: ScalarPropertyType,
    animation_visible: bool,
    r: &Resolution<'_, F, C>,
)
    ensures
        leaf_resolved(*old(common), *final(common), ty, animation_visible, *r),
{
    let target = SceneBindingTarget::new(
        r.item_id,
        SceneBindingOwner::from_effect(common.target.effect_id),
        common.target.property_id.as_str(),
        common.target.element_id,
        common.target.scalar_index,
    );
    let scalar_type = PropertyType::Value(PropertyValueType::Scalar(ty));
    common.binding = scene_field_binding(
        r.editing_scene,
        animation_visible,
        common.scene_bindable,
        target,
        &scalar_type,
        r.arguments,
    );
    let switch = match &common.value {
        PropertyValue::Bool(x) => Some(*x),
        _ => None,
    };
    match switch {
        Some(x) => if common.target.effect_id.is_none() {
            common.mixed = switch_is_mixed(
                r.selected_items,
                common.target.property_id.as_str(),
                common.target.scalar_index,
                x,
            );
        },
        None => {},
    }
}

/// Resolves the binding state of every leaf of the tree (see
/// [`bindings_resolved`]), once the leaves' animation state is known.
pub fn resolve_bindings<F, C, A>(control: &mut ResolvedControl<F, C, A>, r: &Resolution<'_, F, C>)
    ensures
        bindings_resolved(*old(control), *final(control), *r),
    decreases *old(control),
{
    match control {
        Control::Group { children, .. } => {
            let ghost initial = children@;
            proof {
                assert forall|k: int| 0 <= k < initial.len() implies decreases_to!(*old(control) => #[trigger] initial[k]) by {
                    assert(decreases_to!(*old(control) => *children));
                    assert(decreases_to!(*children => children@));
                    assert(decreases_to!(children@ => initial[k]));
                }
            }
            let mut rest: Vec<ResolvedControl<F, C, A>> = Vec::new();
            std::mem::swap(children, &mut rest);
            let n = rest.len();
            let mut done: Vec<ResolvedControl<F, C, A>> = Vec::new();
            for i in 0..n
                invariant
                    n == initial.len(),
                    rest@ == initial.subrange(i as int, n as int),
                    done@.len() == i,
                    forall|k: int| 0 <= k < i ==> bindings_resolved(initial[k], #[trigger] done@[k], *r),
                    forall|k: int| 0 <= k < initial.len() ==> decreases_to!(*old(control) => #[trigger] initial[k]),
            {
                let mut child = rest.remove(0);
                assert(child == initial[i as int]);
                assert(rest@ =~= initial.subrange(i + 1, n as int));
                assert(decreases_to!(*old(control) => initial[i as int]));
                resolve_bindings(&mut child, r);
                done.push(child);
            }
            std::mem::swap(children, &mut done);
        },
        Control::Number(number) => {
            let ty = number.spec.scalar_type;
            let visible = number.common.animation_enabled;
            resolve_leaf_state(&mut number.common, ty, visible, r);
        },
        Control::Text(text) => resolve_leaf_state(&mut text.common, ScalarPropertyType::String, false, r),
        Control::Bool(switch) => resolve_leaf_state(&mut switch.common, ScalarPropertyType::Bool, false, r),
        Control::Choice(choice) => {
            let ty = choice.ty;
            resolve_leaf_state(&mut choice.common, ty, false, r);
        },
        Control::Color(color) => {
            let visible = color.common.animation_enabled;
            resolve_leaf_state(&mut color.common, ScalarPropertyType::Color, visible, r);
        },
    }
}

} // verus!
