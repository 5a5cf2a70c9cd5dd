//! What the inspector reads from the selection: property values of items
//! and effects, the owner of a property, the properties and effects that
//! all selected items share.
use vstd::prelude::*;
use crate::model::{
    find_schema, opt_string_view, str_equal, ItemSchema, ItemSchemaView, PropertySchema,
    PropertySchemaView,
};
use crate::path::{InspectorPath, InspectorPathView, PathOwnerView, PropertySlot};

verus! {

/// The values of the properties of an item or an effect, by property id.
pub struct PropertyValues<V> {
    entries: Vec<(String, V)>,
}

/// The views of a sequence of id/value pairs.
pub open spec fn value_entry_views<V>(v: Seq<(String, V)>) -> Seq<(Seq<char>, V)> {
    v.map_values(|e: (String, V)| (e.0@, e.1))
}

impl<V> View for PropertyValues<V> {
    type V = Seq<(Seq<char>, V)>;

    closed spec fn view(&self) -> Seq<(Seq<char>, V)> {
        value_entry_views(self.entries@)
    }
}

/// The value of the first entry with id `id`.
pub open spec fn lookup_value<V>(entries: Seq<(Seq<char>, V)>, id: Seq<char>) -> Option<V>
    decreases entries.len(),
{
    if entries.len() == 0 {
        None
    } else if entries[0].0 == id {
        Some(entries[0].1)
    } else {
        lookup_value(entries.drop_first(), id)
    }
}

impl<V> PropertyValues<V> {
    /// The id/value pairs, in order.
    pub fn entries(&self) -> (res: &Vec<(String, V)>)
        ensures
            value_entry_views(res@) == self@,
    {
        &self.entries
    }

    /// Values from id/value pairs.
    pub fn new(entries: Vec<(String, V)>) -> (res: Self)
        ensures
            res@ == value_entry_views(entries@),
    {
        PropertyValues { entries }
    }

    /// The value of the property `id`.
    pub fn property(&self, id: &str) -> (res: Option<&V>)
        ensures
            match res {
                Some(v) => lookup_value(self@, id@) == Some(*v),
                None => lookup_value(self@, id@) == None::<V>,
            },
    {
        let n = self.entries.len();
        let ghost all = self@;
        assert(all.subrange(0, n as int) =~= all);
        for i in 0..n
            invariant
                n == all.len(),
                all == value_entry_views(self.entries@),
                lookup_value(all, id@) == lookup_value(all.subrange(i as int, n as int), id@),
        {
            let ghost rest = all.subrange(i as int, n as int);
            assert(rest[0] == (self.entries@[i as int].0@, self.entries@[i as int].1));
            assert(rest.drop_first() =~= all.subrange(i + 1, n as int));
            if str_equal(self.entries[i].0.as_str(), id) {
                return Some(&self.entries[i].1);
            }
        }
        None
    }
}

/// The identity of an effect instance.
#[derive(Clone, Copy, Debug, PartialEq, Eq, Hash, Structural)]
pub struct EffectInstanceId(pub u64);

impl EffectInstanceId {
    /// The numeric id.
    pub fn get(self) -> (res: u64)
        ensures
            res == self.0,
    {
        self.0
    }
}

/// The identity of a timeline item.
#[derive(Clone, Copy, Debug, PartialEq, Eq, Hash, Structural)]
pub struct ItemId(pub u64);

/// An effect applied to an item.
pub struct EffectInstance<V> {
    id: EffectInstanceId,
    plugin_id: String,
    effect_id: String,
    properties: PropertyValues<V>,
}

/// The mathematical value of an [`EffectInstance`].
pub struct EffectInstanceView<V> {
    pub id: EffectInstanceId,
    pub plugin_id: Seq<char>,
    pub effect_id: Seq<char>,
    pub properties: Seq<(Seq<char>, V)>,
}

impl<V> View for EffectInstance<V> {
    type V = EffectInstanceView<V>;

    closed spec fn view(&self) -> EffectInstanceView<V> {
        EffectInstanceView {
            id: self.id,
            plugin_id: self.plugin_id@,
            effect_id: self.effect_id@,
            properties: self.properties@,
        }
    }
}

impl<V> EffectInstance<V> {
    /// An effect instance of the effect `effect_id` of the plugin `plugin_id`.
    pub fn new(id: EffectInstanceId, plugin_id: &str, effect_id: &str, properties: PropertyValues<V>) -> (res: Self)
        ensures
            res@ == (EffectInstanceView {
                id,
                plugin_id: plugin_id@,
                effect_id: effect_id@,
                properties: properties@,
            }),
    {
        EffectInstance { id, plugin_id: plugin_id.to_owned(), effect_id: effect_id.to_owned(), properties }
    }

    /// The values of the instance's properties.
    pub fn properties(&self) -> (res: &PropertyValues<V>)
        ensures
            res@ == self@.properties,
    {
        &self.properties
    }

    /// The instance's id.
    pub fn id(&self) -> (res: EffectInstanceId)
        ensures
            res == self@.id,
    {
        self.id
    }
}

/// The views of a sequence of effect instances.
pub open spec fn effect_views<V>(v: Seq<EffectInstance<V>>) -> Seq<EffectInstanceView<V>> {
    v.map_values(|e: EffectInstance<V>| e@)
}

/// An item on the timeline.
pub struct TimelineItem<V> {
    id: ItemId,
    plugin_id: Option<String>,
    schema: Option<ItemSchema>,
    properties: PropertyValues<V>,
    effects: Vec<EffectInstance<V>>,
    aspect_ratio_locked: bool,
    scene_id: Option<u64>,
}

/// The mathematical value of a [`TimelineItem`].
pub struct TimelineItemView<V> {
    pub id: ItemId,
    pub plugin_id: Option<Seq<char>>,
    pub schema: Option<ItemSchemaView>,
    pub properties: Seq<(Seq<char>, V)>,
    pub effects: Seq<EffectInstanceView<V>>,
    pub aspect_ratio_locked: bool,
    pub scene_id: Option<u64>,
}

/// The view of an optional item schema.
pub open spec fn opt_schema_view(s: Option<ItemSchema>) -> Option<ItemSchemaView> {
    match s {
        Some(s) => Some(s@),
        None => None,
    }
}

impl<V> View for TimelineItem<V> {
    type V = TimelineItemView<V>;

    closed spec fn view(&self) -> TimelineItemView<V> {
        TimelineItemView {
            id: self.id,
            plugin_id: opt_string_view(self.plugin_id),
            schema: opt_schema_view(self.schema),
            properties: self.properties@,
            effects: effect_views(self.effects@),
            aspect_ratio_locked: self.aspect_ratio_locked,
            scene_id: self.scene_id,
        }
    }
}

impl<V> TimelineItem<V> {
    /// An item of a plugin, or an instance of a scene (`scene_id`).
    pub fn new(
        id: ItemId,
        plugin_id: Option<String>,
        schema: Option<ItemSchema>,
        properties: PropertyValues<V>,
        effects: Vec<EffectInstance<V>>,
        aspect_ratio_locked: bool,
        scene_id: Option<u64>,
    ) -> (res: Self)
        ensures
            res@ == (TimelineItemView {
                id,
                plugin_id: opt_string_view(plugin_id),
                schema: opt_schema_view(schema),
                properties: properties@,
                effects: effect_views(effects@),
                aspect_ratio_locked,
                scene_id,
            }),
    {
        TimelineItem { id, plugin_id, schema, properties, effects, aspect_ratio_locked, scene_id }
    }

    /// The values of the item's properties.
    pub fn properties(&self) -> (res: &PropertyValues<V>)
        ensures
            res@ == self@.properties,
    {
        &self.properties
    }

    /// The effects applied to the item, in order.
    pub fn effects(&self) -> (res: &Vec<EffectInstance<V>>)
        ensures
            effect_views(res@) == self@.effects,
    {
        &self.effects
    }

    /// The number of effects applied to the item.
    pub fn effect_count(&self) -> (res: usize)
        ensures
            res == self@.effects.len(),
    {
        self.effects.len()
    }

    /// The item's id.
    pub fn id(&self) -> (res: ItemId)
        ensures
            res == self@.id,
    {
        self.id
    }

    /// The scene the item instantiates, if it is a scene item.
    pub fn scene_id(&self) -> (res: Option<u64>)
        ensures
            res == self@.scene_id,
    {
        self.scene_id
    }

    /// Whether the item's width and height are locked together.
    pub fn aspect_ratio_locked(&self) -> (res: bool)
        ensures
            res == self@.aspect_ratio_locked,
    {
        self.aspect_ratio_locked
    }

    /// The item's schema, if its plugin has one.
    pub fn schema(&self) -> (res: Option<&ItemSchema>)
        ensures
            match res {
                Some(s) => self@.schema == Some(s@),
                None => self@.schema == None::<ItemSchemaView>,
            },
    {
        match &self.schema {
            Some(s) => Some(s),
            None => None,
        }
    }

    /// The id of the item's plugin, or the empty string.
    pub fn plugin_id_or_default(&self) -> (res: &str)
        ensures
            res@ == plugin_id_text(self@.plugin_id),
    {
        match &self.plugin_id {
            Some(p) => p.as_str(),
            None => {
                proof {
                    reveal_strlit("");
                }
                ""
            },
        }
    }
}

/// The plugin id of an item, or the empty string.
pub open spec fn plugin_id_text(p: Option<Seq<char>>) -> Seq<char> {
    match p {
        Some(p) => p,
        None => Seq::empty(),
    }
}

/// The owner of a property shown in the inspector: an item (with its
/// schema) or one of its effects.
pub enum PropertyOwner<'a, V> {
    Item { item: &'a TimelineItem<V>, schema: &'a ItemSchema },
    Effect(&'a EffectInstance<V>),
}

/// The owner of a parameter; the same as [`PropertyOwner`].
pub type ParameterOwner<'a, V> = PropertyOwner<'a, V>;

/// The inspector path of a property of an owner.
pub open spec fn owner_key<V>(owner: PropertyOwner<'_, V>, property: PropertySchemaView) -> InspectorPathView {
    match owner {
        PropertyOwner::Item { item, schema } => InspectorPathView {
            owner: PathOwnerView::Item { plugin_id: plugin_id_text(item@.plugin_id), item_id: schema@.id },
            property_id: property.id,
            slot: PropertySlot::Value,
        },
        PropertyOwner::Effect(effect) => InspectorPathView {
            owner: PathOwnerView::Effect { instance_id: effect@.id.0 },
            property_id: property.id,
            slot: PropertySlot::Value,
        },
    }
}

impl<'a, V> PropertyOwner<'a, V> {
    /// The inspector path of `property` of this owner.
    pub fn key(&self, property: &PropertySchema) -> (res: InspectorPath)
        ensures
            res@ == owner_key(*self, property@),
    {
        match self {
            PropertyOwner::Item { item, schema } => InspectorPath::item_property(
                item.plugin_id_or_default(),
                schema.id(),
                property.id(),
            ),
            PropertyOwner::Effect(effect) => InspectorPath::effect_property(effect.id.get(), property.id()),
        }
    }

    /// The owner's value of the property `property_id`.
    pub fn value(&self, property_id: &str) -> (res: Option<&'a V>)
        ensures
            ({
                let values = match *self {
                    PropertyOwner::Item { item, .. } => item@.properties,
                    PropertyOwner::Effect(effect) => effect@.properties,
                };
                match res {
                    Some(v) => lookup_value(values, property_id@) == Some(*v),
                    None => lookup_value(values, property_id@) == None::<V>,
                }
            }),
    {
        match self {
            PropertyOwner::Item { item, .. } => item.properties.property(property_id),
            PropertyOwner::Effect(effect) => effect.properties.property(property_id),
        }
    }

    /// The effect instance owning the property, if the owner is an effect.
    pub fn effect_id(&self) -> (res: Option<EffectInstanceId>)
        ensures
            res == (match *self {
                PropertyOwner::Item { .. } => None,
                PropertyOwner::Effect(effect) => Some(effect@.id),
            }),
    {
        match self {
            PropertyOwner::Item { .. } => None,
            PropertyOwner::Effect(effect) => Some(effect.id),
        }
    }

    /// Whether `property_id` is the size property of the owner (effects
    /// have none).
    pub fn is_size(&self, property_id: &str) -> (res: bool)
        ensures
            res == (match *self {
                PropertyOwner::Item { schema, .. } => schema@.size_property == Some(property_id@),
                PropertyOwner::Effect(_) => false,
            }),
    {
        match self {
            PropertyOwner::Item { schema, .. } => schema.is_size_property(property_id),
            PropertyOwner::Effect(_) => false,
        }
    }
}

/// The views of a sequence of items.
pub open spec fn item_views<V>(v: Seq<TimelineItem<V>>) -> Seq<TimelineItemView<V>> {
    v.map_values(|i: TimelineItem<V>| i@)
}

/// The schema of the property `id` in an item, if the item has a schema with it.
pub open spec fn item_property_schema<V>(item: TimelineItemView<V>, id: Seq<char>) -> Option<PropertySchemaView> {
    match item.schema {
        Some(s) => find_schema(s.properties, id),
        None => None,
    }
}

/// The property `id` can be edited for all selected items at once: the
/// first item has it, and every other item has it visible with the same type.
pub open spec fn property_is_common_spec<V>(items: Seq<TimelineItemView<V>>, id: Seq<char>) -> bool {
    &&& items.len() > 0
    &&& item_property_schema(items[0], id) is Some
    &&& forall|i: int| 1 <= i < items.len() ==> match item_property_schema(#[trigger] items[i], id) {
        Some(p) => p.visible && p.ty == item_property_schema(items[0], id)->0.ty,
        None => false,
    }
}

fn property_schema_of<'a, V>(item: &'a TimelineItem<V>, id: &str) -> (res: Option<&'a PropertySchema>)
    ensures
        match res {
            Some(p) => item_property_schema(item@, id@) == Some(p@),
            None => item_property_schema(item@, id@) == None::<PropertySchemaView>,
        },
{
    match item.schema() {
        Some(schema) => schema.property(id),
        None => None,
    }
}

/// Whether the property `property_id` is shared by all selected items.
pub fn property_is_common<V>(items: &Vec<TimelineItem<V>>, property_id: &str) -> (res: bool)
    ensures
        res == property_is_common_spec(item_views(items@), property_id@),
{
    let ghost views = item_views(items@);
    if items.len() == 0 {
        return false;
    }
    assert(views[0] == items@[0]@);
    let primary = match property_schema_of(&items[0], property_id) {
        Some(p) => p,
        None => return false,
    };
    let n = items.len();
    for i in 1..n
        invariant
            n == items@.len(),
            views == item_views(items@),
            n > 0,
            item_property_schema(views[0], property_id@) == Some(primary@),
            forall|k: int| 1 <= k < i ==> match item_property_schema(#[trigger] views[k], property_id@) {
                Some(p) => p.visible && p.ty == primary@.ty,
                None => false,
            },
    {
        assert(views[i as int] == items@[i as int]@);
        match property_schema_of(&items[i], property_id) {
            Some(p) => {
                if !(p.is_visible() && p.ty().same_as(primary.ty())) {
                    return false;
                }
            },
            None => return false,
        }
    }
    true
}

/// A property is edited for the whole selection exactly when the first
/// item has it and every other selected item has it too, visible and of
/// the same type as in the first item.
pub proof fn lemma_common_property_same_type<V>(items: Seq<TimelineItemView<V>>, id: Seq<char>)
    ensures
        property_is_common_spec(items, id) <==> (items.len() > 0 && item_property_schema(items[0], id) is Some
            && forall|i: int|
            1 <= i < items.len() ==> {
                &&& item_property_schema(#[trigger] items[i], id) is Some
                &&& item_property_schema(items[i], id)->0.visible
                &&& item_property_schema(items[i], id)->0.ty == item_property_schema(items[0], id)->0.ty
            }),
{
}

/// The effect at position `k` of the first item is shared by every other
/// item: each has an effect of the same plugin and effect id at `k`.
pub open spec fn effect_is_common<V>(items: Seq<TimelineItemView<V>>, k: int) -> bool {
    forall|i: int| 1 <= i < items.len() ==> k < (#[trigger] items[i]).effects.len()
        && items[i].effects[k].plugin_id == items[0].effects[k].plugin_id
        && items[i].effects[k].effect_id == items[0].effects[k].effect_id
}

/// The positions among the first item's effects of the effects shared by all
/// items, in increasing order.
pub open spec fn common_effect_positions<V>(items: Seq<TimelineItemView<V>>, n: nat) -> Seq<usize>
    decreases n,
{
    if n == 0 {
        Seq::empty()
    } else {
        let prev = common_effect_positions(items, (n - 1) as nat);
        if effect_is_common(items, n - 1) {
            prev.push((n - 1) as usize)
        } else {
            prev
        }
    }
}

/// The positions, among the effects of the first selected item, of the
/// effects that every selected item has at the same position (same plugin,
/// same effect). Empty when nothing is selected.
pub fn common_effects<V>(items: &Vec<TimelineItem<V>>) -> (res: Vec<usize>)
    ensures
        items@.len() == 0 ==> res@.len() == 0,
        items@.len() > 0 ==> res@ == common_effect_positions(
            item_views(items@),
            item_views(items@)[0].effects.len(),
        ),
{
    let ghost views = item_views(items@);
    let mut res: Vec<usize> = Vec::new();
    if items.len() == 0 {
        return res;
    }
    let primary = &items[0];
    assert(views[0] == primary@);
    let count = primary.effects.len();
    let n = items.len();
    for k in 0..count
        invariant
            n == items@.len(),
            n > 0,
            views == item_views(items@),
            views[0] == primary@,
            count == primary.effects@.len(),
            res@ == common_effect_positions(views, k as nat),
    {
        let effect = &primary.effects[k];
        assert(views[0].effects[k as int] == effect@);
        let mut shared = true;
        let mut i: usize = 1;
        while i < n
            invariant
                1 <= i <= n,
                n == items@.len(),
                views == item_views(items@),
                views[0].effects[k as int] == effect@,
                shared == (forall|j: int| 1 <= j < i ==> k < (#[trigger] views[j]).effects.len()
                    && views[j].effects[k as int].plugin_id == views[0].effects[k as int].plugin_id
                    && views[j].effects[k as int].effect_id == views[0].effects[k as int].effect_id),
            decreases n - i,
        {
            let other = &items[i];
            assert(views[i as int] == other@);
            let same = if k < other.effects.len() {
                let candidate = &other.effects[k];
                assert(other@.effects[k as int] == candidate@);
                str_equal(candidate.plugin_id.as_str(), effect.plugin_id.as_str()) && str_equal(
                    candidate.effect_id.as_str(),
                    effect.effect_id.as_str(),
                )
            } else {
                false
            };
            shared = shared && same;
            i = i + 1;
        }
        if shared {
            res.push(k);
        }
    }
    res
}


/// The shared effect positions among the first `n`: each is below `n` and
/// the first item's effect there is matched, at the same position, by an
/// effect with the same plugin and effect id in every other selected item;
/// every such position is listed; and they increase.
pub proof fn lemma_common_effects_shared_by_all<V>(items: Seq<TimelineItemView<V>>, n: nat)
    requires
        n <= usize::MAX,
    ensures
        forall|j: int| 0 <= j < common_effect_positions(items, n).len() ==> (#[trigger] common_effect_positions(items, n)[j]) < n,
        forall|j: int, i: int|
            0 <= j < common_effect_positions(items, n).len() && 1 <= i < items.len() ==> {
                let k = #[trigger] common_effect_positions(items, n)[j] as int;
                &&& k < (#[trigger] items[i]).effects.len()
                &&& items[i].effects[k].plugin_id == items[0].effects[k].plugin_id
                &&& items[i].effects[k].effect_id == items[0].effects[k].effect_id
            },
        forall|k: int|
            0 <= k < n && (forall|i: int|
                1 <= i < items.len() ==> k < (#[trigger] items[i]).effects.len()
                    && items[i].effects[k].plugin_id == items[0].effects[k].plugin_id
                    && items[i].effects[k].effect_id == items[0].effects[k].effect_id)
                ==> #[trigger] common_effect_positions(items, n).contains(k as usize),
        forall|a: int, b: int|
            0 <= a < b < common_effect_positions(items, n).len() ==> common_effect_positions(items, n)[a]
                < common_effect_positions(items, n)[b],
    decreases n,
{
    if n > 0 {
        lemma_common_effects_shared_by_all(items, (n - 1) as nat);
        let prev = common_effect_positions(items, (n - 1) as nat);
        let pos = common_effect_positions(items, n);
        if effect_is_common(items, n - 1) {
            assert(pos == prev.push((n - 1) as usize));
            assert(((n - 1) as usize) as int == n - 1);
            assert forall|a: int, b: int| 0 <= a < b < pos.len() implies pos[a] < pos[b] by {
                if b == prev.len() {
                    assert(pos[a] == prev[a]);
                    assert(prev[a] < n - 1);
                } else {
                    assert(pos[a] == prev[a] && pos[b] == prev[b]);
                }
            }
            assert forall|j: int, i: int|
                0 <= j < pos.len() && 1 <= i < items.len() implies {
                    let k = #[trigger] pos[j] as int;
                    &&& k < (#[trigger] items[i]).effects.len()
                    &&& items[i].effects[k].plugin_id == items[0].effects[k].plugin_id
                    &&& items[i].effects[k].effect_id == items[0].effects[k].effect_id
                } by {
                if j < prev.len() {
                    assert(pos[j] == prev[j]);
                } else {
                    assert(pos[j] as int == n - 1);
                    assert(effect_is_common(items, n - 1));
                    assert(items[i] == items[i]);
                }
            }
            assert forall|k: int|
                0 <= k < n && (forall|i: int|
                    1 <= i < items.len() ==> k < (#[trigger] items[i]).effects.len()
                        && items[i].effects[k].plugin_id == items[0].effects[k].plugin_id
                        && items[i].effects[k].effect_id == items[0].effects[k].effect_id)
                    implies #[trigger] pos.contains(k as usize) by {
                if k < n - 1 {
                    assert(prev.contains(k as usize));
                    let w = choose|w: int| 0 <= w < prev.len() && prev[w] == k as usize;
                    assert(pos[w] == k as usize);
                } else {
                    assert(pos[prev.len() as int] == k as usize);
                }
            }
        } else {
            assert(pos == prev);
            assert forall|k: int|
                0 <= k < n && (forall|i: int|
                    1 <= i < items.len() ==> k < (#[trigger] items[i]).effects.len()
                        && items[i].effects[k].plugin_id == items[0].effects[k].plugin_id
                        && items[i].effects[k].effect_id == items[0].effects[k].effect_id)
                    implies #[trigger] pos.contains(k as usize) by {
                if k == n - 1 {
                    assert(effect_is_common(items, n - 1));
                }
            }
        }
    }
}

/// Whether the selected animation curve must be cleared after the editor
/// changed: its track is gone, or the selection moved to other items (with
/// nothing selected, unless the editor still remembers the curve's item).
pub fn animation_selection_is_stale(
    target_exists: bool,
    target_item: ItemId,
    selected_items: &Vec<ItemId>,
    remembers_target_item: bool,
) -> (res: bool)
    ensures
        res == (!target_exists || (if selected_items@.len() == 0 {
            !remembers_target_item
        } else if selected_items@.len() == 1 {
            selected_items@[0] != target_item
        } else {
            true
        })),
{
    let selected_another_item = if selected_items.len() == 0 {
        !remembers_target_item
    } else if selected_items.len() == 1 {
        selected_items[0] != target_item
    } else {
        true
    };
    !target_exists || selected_another_item
}

} // verus!
