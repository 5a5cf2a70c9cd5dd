//! Finding the current value of the field a control edits: in the item or
//! one of its effects, in an element of an array, at a scalar of a tuple.
use vstd::prelude::*;
use crate::control::PropertyTarget;
use crate::inspector::{
    effect_views, lookup_value, EffectInstance, EffectInstanceId, EffectInstanceView, TimelineItem,
    TimelineItemView,
};
use crate::model::{scalar_value_at, PropertyElement, PropertyElementId, PropertyValue};

verus! {

/// The first effect with id `id`.
pub open spec fn find_effect<V>(effects: Seq<EffectInstanceView<V>>, id: EffectInstanceId) -> Option<EffectInstanceView<V>>
    decreases effects.len(),
{
    if effects.len() == 0 {
        None
    } else if effects[0].id == id {
        Some(effects[0])
    } else {
        find_effect(effects.drop_first(), id)
    }
}

/// The value of the first element with id `id`.
pub open spec fn find_element<V>(elements: Seq<PropertyElement<V>>, id: PropertyElementId) -> Option<V>
    decreases elements.len(),
{
    if elements.len() == 0 {
        None
    } else if elements[0]@.0 == id {
        Some(elements[0]@.1)
    } else {
        find_element(elements.drop_first(), id)
    }
}

/// The value of the field: the property of the item (or of its effect
/// `effect_id`), the element `element_id` of an array value, and in it the
/// scalar `scalar_index`.
pub open spec fn field_value<F, C>(
    item: TimelineItemView<PropertyValue<F, C>>,
    effect_id: Option<EffectInstanceId>,
    property_id: Seq<char>,
    element_id: Option<PropertyElementId>,
    scalar_index: Option<usize>,
) -> Option<PropertyValue<F, C>> {
    let values = match effect_id {
        Some(e) => match find_effect(item.effects, e) {
            Some(effect) => Some(effect.properties),
            None => None,
        },
        None => Some(item.properties),
    };
    match values {
        None => None,
        Some(vs) => match lookup_value(vs, property_id) {
            None => None,
            Some(v) => match element_id {
                Some(id) => match v {
                    PropertyValue::Array(elements) => match find_element(elements@, id) {
                        Some(ev) => scalar_value_at(ev, scalar_index),
                        None => None,
                    },
                    _ => None,
                },
                None => scalar_value_at(v, scalar_index),
            },
        },
    }
}

/// The value of the field a control edits.
pub open spec fn target_value_spec<F, C>(
    item: TimelineItemView<PropertyValue<F, C>>,
    target: PropertyTarget,
) -> Option<PropertyValue<F, C>> {
    field_value(item, target.effect_id, target.property_id@, target.element_id, target.scalar_index)
}

fn effect_with_id<'a, V>(effects: &'a Vec<EffectInstance<V>>, id: EffectInstanceId) -> (res: Option<&'a EffectInstance<V>>)
    ensures
        match res {
            Some(e) => find_effect(effect_views(effects@), id) == Some(e@),
            None => find_effect(effect_views(effects@), id) is None,
        },
{
    let ghost all = effect_views(effects@);
    let n = effects.len();
    assert(all.subrange(0, n as int) =~= all);
    for i in 0..n
        invariant
            n == all.len(),
            all == effect_views(effects@),
            find_effect(all, id) == find_effect(all.subrange(i as int, n as int), id),
    {
        let ghost rest = all.subrange(i as int, n as int);
        assert(rest[0] == effects@[i as int]@);
        assert(rest.drop_first() =~= all.subrange(i + 1, n as int));
        if effects[i].id() == id {
            return Some(&effects[i]);
        }
    }
    None
}

fn element_with_id<'a, V>(elements: &'a Vec<PropertyElement<V>>, id: PropertyElementId) -> (res: Option<&'a V>)
    ensures
        match res {
            Some(v) => find_element(elements@, id) == Some(*v),
            None => find_element(elements@, id) is None,
        },
{
    let ghost all = elements@;
    let n = elements.len();
    assert(all.subrange(0, n as int) =~= all);
    for i in 0..n
        invariant
            n == all.len(),
            all == elements@,
            find_element(all, id) == find_element(all.subrange(i as int, n as int), id),
    {
        let ghost rest = all.subrange(i as int, n as int);
        assert(rest[0] == elements@[i as int]);
        assert(rest.drop_first() =~= all.subrange(i + 1, n as int));
        if elements[i].element_id() == id {
            return Some(elements[i].value());
        }
    }
    None
}

/// The current value of the field a control edits, if the item has it.
pub fn target_value<'a, F, C>(
    item: &'a TimelineItem<PropertyValue<F, C>>,
    target: &PropertyTarget,
) -> (res: Option<&'a PropertyValue<F, C>>)
    ensures
        match res {
            Some(v) => target_value_spec(item@, *target) == Some(*v),
            None => target_value_spec(item@, *target) is None,
        },
{
    let value = match target.effect_id {
        Some(effect_id) => match effect_with_id(item.effects(), effect_id) {
            Some(effect) => effect.properties().property(target.property_id.as_str()),
            None => return None,
        },
        None => item.properties().property(target.property_id.as_str()),
    };
    let value = match value {
        Some(v) => v,
        None => return None,
    };
    match target.element_id {
        Some(id) => match value {
            PropertyValue::Array(elements) => match element_with_id(elements, id) {
                Some(element) => element.scalar_at(target.scalar_index),
                None => None,
            },
            _ => None,
        },
        None => value.scalar_at(target.scalar_index),
    }
}

/// The color of the field a control edits, if it holds one.
pub fn color_value<F, C: Copy>(item: &TimelineItem<PropertyValue<F, C>>, target: &PropertyTarget) -> (res: Option<C>)
    ensures
        res == (match target_value_spec(item@, *target) {
            Some(PropertyValue::Color(c)) => Some(c),
            _ => None,
        }),
{
    match target_value(item, target) {
        Some(PropertyValue::Color(c)) => Some(*c),
        _ => None,
    }
}

} // verus!
