//! Inspector paths: the identity of an inspector row or widget.
//!
//! A path names the owner of a property (an item of a plugin, an effect
//! instance or a scene), the property's id and the slot inside the property
//! (the whole value, or one scalar of one element).
use vstd::prelude::*;
use crate::text::{decimal, push_decimal, push_str, string_from_chars};

verus! {

/// Who owns the property a path points into.
pub enum PathOwner {
    Item { plugin_id: String, item_id: String },
    Effect { instance_id: u64 },
    Scene { scene_id: u64 },
}

/// The mathematical value of a [`PathOwner`].
pub enum PathOwnerView {
    Item { plugin_id: Seq<char>, item_id: Seq<char> },
    Effect { instance_id: u64 },
    Scene { scene_id: u64 },
}

impl View for PathOwner {
    type V = PathOwnerView;

    open spec fn view(&self) -> PathOwnerView {
        match self {
            PathOwner::Item { plugin_id, item_id } => PathOwnerView::Item {
                plugin_id: plugin_id@,
                item_id: item_id@,
            },
            PathOwner::Effect { instance_id } => PathOwnerView::Effect { instance_id: *instance_id },
            PathOwner::Scene { scene_id } => PathOwnerView::Scene { scene_id: *scene_id },
        }
    }
}

impl Clone for PathOwner {
    fn clone(&self) -> (res: Self)
        ensures
            res@ == self@,
    {
        match self {
            PathOwner::Item { plugin_id, item_id } => PathOwner::Item {
                plugin_id: plugin_id.clone(),
                item_id: item_id.clone(),
            },
            PathOwner::Effect { instance_id } => PathOwner::Effect { instance_id: *instance_id },
            PathOwner::Scene { scene_id } => PathOwner::Scene { scene_id: *scene_id },
        }
    }
}

/// Which part of a property a path points at.
#[derive(Clone, Copy, Debug, PartialEq, Eq, Hash, Structural)]
pub enum PropertySlot {
    Scalar { element_index: Option<usize>, scalar_index: Option<usize> },
    Value,
}

/// Identifies an inspector row or widget.
pub struct InspectorPath {
    owner: PathOwner,
    property_id: String,
    slot: PropertySlot,
}

/// The mathematical value of an [`InspectorPath`].
pub struct InspectorPathView {
    pub owner: PathOwnerView,
    pub property_id: Seq<char>,
    pub slot: PropertySlot,
}

impl View for InspectorPath {
    type V = InspectorPathView;

    closed spec fn view(&self) -> InspectorPathView {
        InspectorPathView { owner: self.owner@, property_id: self.property_id@, slot: self.slot }
    }
}

impl Clone for InspectorPath {
    fn clone(&self) -> (res: Self)
        ensures
            res@ == self@,
    {
        InspectorPath {
            owner: self.owner.clone(),
            property_id: self.property_id.clone(),
            slot: self.slot,
        }
    }
}

/// The path `v` with its slot replaced by `slot`.
pub open spec fn with_slot_view(v: InspectorPathView, slot: PropertySlot) -> InspectorPathView {
    InspectorPathView { owner: v.owner, property_id: v.property_id, slot }
}

/// How an optional index is written: `None` or `Some(n)`.
pub open spec fn optional_index_text(index: Option<usize>) -> Seq<char> {
    match index {
        None => "None"@,
        Some(n) => "Some("@ + decimal(n as nat) + ")"@,
    }
}

/// The text of the owner and property part of a path.
pub open spec fn owner_text(owner: PathOwnerView, property_id: Seq<char>) -> Seq<char> {
    match owner {
        PathOwnerView::Item { plugin_id, item_id } =>
            plugin_id + "/"@ + item_id + "/"@ + property_id,
        PathOwnerView::Effect { instance_id } =>
            "effect/"@ + decimal(instance_id as nat) + "/"@ + property_id,
        PathOwnerView::Scene { scene_id } =>
            "scene/"@ + decimal(scene_id as nat) + "/"@ + property_id,
    }
}

/// The text of a slot, appended after the owner and property part.
pub open spec fn slot_text(slot: PropertySlot) -> Seq<char> {
    match slot {
        PropertySlot::Value => Seq::empty(),
        PropertySlot::Scalar { element_index, scalar_index } =>
            "/scalar/"@ + optional_index_text(element_index) + "/"@ + optional_index_text(scalar_index),
    }
}

/// The rendered text of a path, for example `plugin/item/size`,
/// `effect/7/opacity` or `scene/3/x/scalar/Some(0)/None`.
pub open spec fn path_text(v: InspectorPathView) -> Seq<char> {
    owner_text(v.owner, v.property_id) + slot_text(v.slot)
}

fn push_optional_index(out: &mut Vec<char>, index: Option<usize>)
    ensures
        final(out)@ == old(out)@ + optional_index_text(index),
{
    match index {
        None => push_str(out, "None"),
        Some(n) => {
            push_str(out, "Some(");
            push_decimal(out, n as u64);
            push_str(out, ")");
            assert(out@ =~= old(out)@ + optional_index_text(index));
        },
    }
}

impl InspectorPath {
    /// The path of a property of an item of a plugin, pointing at the whole value.
    pub fn item_property(plugin_id: &str, item_id: &str, property_id: &str) -> (res: Self)
        ensures
            res@ == (InspectorPathView {
                owner: PathOwnerView::Item { plugin_id: plugin_id@, item_id: item_id@ },
                property_id: property_id@,
                slot: PropertySlot::Value,
            }),
    {
        InspectorPath {
            owner: PathOwner::Item { plugin_id: plugin_id.to_owned(), item_id: item_id.to_owned() },
            property_id: property_id.to_owned(),
            slot: PropertySlot::Value,
        }
    }

    /// The path of a property of an effect instance, pointing at the whole value.
    pub fn effect_property(instance_id: u64, property_id: &str) -> (res: Self)
        ensures
            res@ == (InspectorPathView {
                owner: PathOwnerView::Effect { instance_id },
                property_id: property_id@,
                slot: PropertySlot::Value,
            }),
    {
        InspectorPath {
            owner: PathOwner::Effect { instance_id },
            property_id: property_id.to_owned(),
            slot: PropertySlot::Value,
        }
    }

    /// The path of a property of a scene, pointing at the whole value.
    pub fn scene_property(scene_id: u64, property_id: &str) -> (res: Self)
        ensures
            res@ == (InspectorPathView {
                owner: PathOwnerView::Scene { scene_id },
                property_id: property_id@,
                slot: PropertySlot::Value,
            }),
    {
        InspectorPath {
            owner: PathOwner::Scene { scene_id },
            property_id: property_id.to_owned(),
            slot: PropertySlot::Value,
        }
    }

    /// The same owner and property, pointing at one scalar of one element.
    pub fn scalar(&self, element_index: Option<usize>, scalar_index: Option<usize>) -> (res: Self)
        ensures
            res@ == with_slot_view(self@, PropertySlot::Scalar { element_index, scalar_index }),
    {
        self.with_slot(PropertySlot::Scalar { element_index, scalar_index })
    }

    /// The same owner and property, pointing at `slot`.
    pub fn with_slot(&self, slot: PropertySlot) -> (res: Self)
        ensures
            res@ == with_slot_view(self@, slot),
    {
        InspectorPath { owner: self.owner.clone(), property_id: self.property_id.clone(), slot }
    }

    /// The rendered text of the path.
    pub fn to_string(&self) -> (res: String)
        ensures
            res@ == path_text(self@),
    {
        let mut out: Vec<char> = Vec::new();
        match &self.owner {
            PathOwner::Item { plugin_id, item_id } => {
                push_str(&mut out, plugin_id.as_str());
                push_str(&mut out, "/");
                push_str(&mut out, item_id.as_str());
                push_str(&mut out, "/");
            },
            PathOwner::Effect { instance_id } => {
                push_str(&mut out, "effect/");
                push_decimal(&mut out, *instance_id);
                push_str(&mut out, "/");
            },
            PathOwner::Scene { scene_id } => {
                push_str(&mut out, "scene/");
                push_decimal(&mut out, *scene_id);
                push_str(&mut out, "/");
            },
        }
        push_str(&mut out, self.property_id.as_str());
        assert(out@ =~= owner_text(self@.owner, self@.property_id));
        match self.slot {
            PropertySlot::Value => {},
            PropertySlot::Scalar { element_index, scalar_index } => {
                push_str(&mut out, "/scalar/");
                push_optional_index(&mut out, element_index);
                push_str(&mut out, "/");
                push_optional_index(&mut out, scalar_index);
            },
        }
        assert(out@ =~= path_text(self@));
        string_from_chars(&out)
    }
}

} // verus!
