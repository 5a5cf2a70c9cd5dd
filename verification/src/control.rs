//! The resolved control tree of the inspector: identities of controls, the
//! property a control edits, and the leaves and groups of the tree.
use vstd::prelude::*;
use crate::edit::{PropertyElement, PropertyElementId};
use crate::inspector::EffectInstanceId;
use crate::model::ScalarPropertyType;
use crate::path::{InspectorPath, InspectorPathView};
use crate::scene::SceneFieldBinding;

verus! {

/// Which setting of a numeric scene argument a control edits.
#[derive(Clone, Copy, Debug, PartialEq, Eq, Hash, Structural)]
pub enum SceneArgumentSetting {
    Default,
    Min,
    Max,
}

/// The identity of a control of the inspector.
pub enum ControlId {
    Property(InspectorPath),
    Group(InspectorPath),
    EffectGroup(EffectInstanceId),
    SceneName(u64),
    SceneArgumentName { scene_id: u64, argument_id: String },
    SceneArgumentExpression { scene_id: u64, argument_id: String },
    SceneArgumentDefault { scene_id: u64, argument_id: String },
    SceneArgumentSetting { scene_id: u64, argument_id: String, setting: SceneArgumentSetting },
    SceneArgumentColor { scene_id: u64, argument_id: String },
}

/// The mathematical value of a [`ControlId`].
pub enum ControlIdView {
    Property(InspectorPathView),
    Group(InspectorPathView),
    EffectGroup(EffectInstanceId),
    SceneName(u64),
    SceneArgumentName { scene_id: u64, argument_id: Seq<char> },
    SceneArgumentExpression { scene_id: u64, argument_id: Seq<char> },
    SceneArgumentDefault { scene_id: u64, argument_id: Seq<char> },
    SceneArgumentSetting { scene_id: u64, argument_id: Seq<char>, setting: SceneArgumentSetting },
    SceneArgumentColor { scene_id: u64, argument_id: Seq<char> },
}

impl View for ControlId {
    type V = ControlIdView;

    open spec fn view(&self) -> ControlIdView {
        match self {
            ControlId::Property(p) => ControlIdView::Property(p@),
            ControlId::Group(p) => ControlIdView::Group(p@),
            ControlId::EffectGroup(e) => ControlIdView::EffectGroup(*e),
            ControlId::SceneName(s) => ControlIdView::SceneName(*s),
            ControlId::SceneArgumentName { scene_id, argument_id } => ControlIdView::SceneArgumentName {
                scene_id: *scene_id,
                argument_id: argument_id@,
            },
            ControlId::SceneArgumentExpression { scene_id, argument_id } =>
                ControlIdView::SceneArgumentExpression { scene_id: *scene_id, argument_id: argument_id@ },
            ControlId::SceneArgumentDefault { scene_id, argument_id } => ControlIdView::SceneArgumentDefault {
                scene_id: *scene_id,
                argument_id: argument_id@,
            },
            ControlId::SceneArgumentSetting { scene_id, argument_id, setting } =>
                ControlIdView::SceneArgumentSetting {
                    scene_id: *scene_id,
                    argument_id: argument_id@,
                    setting: *setting,
                },
            ControlId::SceneArgumentColor { scene_id, argument_id } => ControlIdView::SceneArgumentColor {
                scene_id: *scene_id,
                argument_id: argument_id@,
            },
        }
    }
}

impl ControlId {
    /// The control of a property.
    pub fn property(path: &InspectorPath) -> (res: Self)
        ensures
            res@ == ControlIdView::Property(path@),
    {
        Self::Property(path.clone())
    }

    /// The control of a group of properties.
    pub fn group(path: &InspectorPath) -> (res: Self)
        ensures
            res@ == ControlIdView::Group(path@),
    {
        Self::Group(path.clone())
    }

    /// The name input of a scene.
    pub fn scene_name(scene_id: u64) -> (res: Self)
        ensures
            res@ == ControlIdView::SceneName(scene_id),
    {
        Self::SceneName(scene_id)
    }

    /// The group of an effect instance.
    pub fn effect_group(effect_id: EffectInstanceId) -> (res: Self)
        ensures
            res@ == ControlIdView::EffectGroup(effect_id),
    {
        Self::EffectGroup(effect_id)
    }

    /// The name input of a scene argument.
    pub fn scene_argument_name(scene_id: u64, argument_id: &str) -> (res: Self)
        ensures
            res@ == (ControlIdView::SceneArgumentName { scene_id, argument_id: argument_id@ }),
    {
        Self::SceneArgumentName { scene_id, argument_id: argument_id.to_owned() }
    }

    /// The expression input of a scene argument.
    pub fn scene_argument_expression(scene_id: u64, argument_id: &str) -> (res: Self)
        ensures
            res@ == (ControlIdView::SceneArgumentExpression { scene_id, argument_id: argument_id@ }),
    {
        Self::SceneArgumentExpression { scene_id, argument_id: argument_id.to_owned() }
    }

    /// The default-value input of a scene argument.
    pub fn scene_argument_default(scene_id: u64, argument_id: &str) -> (res: Self)
        ensures
            res@ == (ControlIdView::SceneArgumentDefault { scene_id, argument_id: argument_id@ }),
    {
        Self::SceneArgumentDefault { scene_id, argument_id: argument_id.to_owned() }
    }

    /// The input of one numeric setting of a scene argument.
    pub fn scene_argument_setting(scene_id: u64, argument_id: &str, setting: SceneArgumentSetting) -> (res: Self)
        ensures
            res@ == (ControlIdView::SceneArgumentSetting { scene_id, argument_id: argument_id@, setting }),
    {
        Self::SceneArgumentSetting { scene_id, argument_id: argument_id.to_owned(), setting }
    }

    /// The color picker of a scene argument.
    pub fn scene_argument_color(scene_id: u64, argument_id: &str) -> (res: Self)
        ensures
            res@ == (ControlIdView::SceneArgumentColor { scene_id, argument_id: argument_id@ }),
    {
        Self::SceneArgumentColor { scene_id, argument_id: argument_id.to_owned() }
    }
}

/// The property coordinates a control edits.
pub struct PropertyTarget {
    pub key: InspectorPath,
    pub property_id: String,
    pub effect_id: Option<EffectInstanceId>,
    pub element_id: Option<PropertyElementId>,
    pub scalar_index: Option<usize>,
}

/// The state shared by every leaf control. `V` is the property value type,
/// `A` the type of the animation stop controls.
pub struct LeafControl<V, A> {
    pub id: ControlId,
    pub target: PropertyTarget,
    pub label: String,
    pub scalar_label: Option<String>,
    pub animatable: bool,
    pub scene_bindable: bool,
    pub read_only: bool,
    pub mixed: bool,
    pub value: V,
    pub animation_enabled: bool,
    pub animation_stops: Vec<A>,
    pub binding: Option<SceneFieldBinding>,
}

/// A number control; `S` carries the number's display rules.
pub struct NumberControl<V, A, S> {
    pub common: LeafControl<V, A>,
    pub spec: S,
}

/// A text control.
pub struct TextControl<V, A> {
    pub common: LeafControl<V, A>,
    pub multiline: bool,
}

/// A switch.
pub struct BoolControl<V, A> {
    pub common: LeafControl<V, A>,
}

/// A dropdown of enum values, each with its label.
pub struct ChoiceControl<V, A> {
    pub common: LeafControl<V, A>,
    pub ty: ScalarPropertyType,
    pub options: Vec<(String, u32)>,
}

/// A color picker.
pub struct ColorControl<V, A> {
    pub common: LeafControl<V, A>,
}

/// The editor used for the elements of an array property.
#[derive(Clone, Copy, Debug, PartialEq, Eq, Structural)]
pub enum ElementKind {
    Scalar,
    FontFamily,
}

/// The elements of an array property, with the bounds on their number.
pub struct ElementGroup<V> {
    pub target: PropertyTarget,
    pub elements: Vec<PropertyElement<V>>,
    pub element_kind: ElementKind,
    pub min_items: u32,
    pub max_items: u32,
    pub has_scene_binding: bool,
}

/// The header of an effect's group.
pub struct EffectGroup {
    pub id: EffectInstanceId,
    pub label: String,
    pub hidden: bool,
}

/// What a group of controls shows.
pub enum GroupKind<V> {
    Plain,
    Tuple { size_key: Option<InspectorPath> },
    Elements(Box<ElementGroup<V>>),
    Effect(EffectGroup),
}

/// A node of the control tree.
pub enum Control<V, A, S> {
    Group { id: ControlId, label: String, children: Vec<Control<V, A, S>>, kind: GroupKind<V> },
    Number(NumberControl<V, A, S>),
    Text(TextControl<V, A>),
    Bool(BoolControl<V, A>),
    Choice(ChoiceControl<V, A>),
    Color(ColorControl<V, A>),
}

/// The shared leaf state of a control, if it is a leaf.
pub open spec fn leaf_of<V, A, S>(c: Control<V, A, S>) -> Option<LeafControl<V, A>> {
    match c {
        Control::Group { .. } => None,
        Control::Number(n) => Some(n.common),
        Control::Text(t) => Some(t.common),
        Control::Bool(b) => Some(b.common),
        Control::Choice(c) => Some(c.common),
        Control::Color(c) => Some(c.common),
    }
}

/// The identity of a control.
pub open spec fn control_id<V, A, S>(c: Control<V, A, S>) -> ControlIdView {
    match c {
        Control::Group { id, .. } => id@,
        Control::Number(n) => n.common.id@,
        Control::Text(t) => t.common.id@,
        Control::Bool(b) => b.common.id@,
        Control::Choice(c) => c.common.id@,
        Control::Color(c) => c.common.id@,
    }
}

/// The property a control edits: a leaf's target, an element group's
/// target, or else the property of a group's first child (empty when there is none).
pub open spec fn control_property_id<V, A, S>(c: Control<V, A, S>) -> Seq<char>
    decreases c,
{
    match c {
        Control::Group { children, kind, .. } => match kind {
            GroupKind::Elements(g) => g.target.property_id@,
            _ => if children@.len() > 0 {
                control_property_id(children@[0])
            } else {
                Seq::empty()
            },
        },
        Control::Number(n) => n.common.target.property_id@,
        Control::Text(t) => t.common.target.property_id@,
        Control::Bool(b) => b.common.target.property_id@,
        Control::Choice(c) => c.common.target.property_id@,
        Control::Color(c) => c.common.target.property_id@,
    }
}

impl<V, A, S> Control<V, A, S> {
    /// The identity of the control, as a value.
    pub open spec fn id_view(self) -> ControlIdView {
        control_id(self)
    }

    /// The children of a group; none for a leaf.
    pub open spec fn children_view(self) -> Seq<Control<V, A, S>> {
        match self {
            Control::Group { children, .. } => children@,
            _ => Seq::empty(),
        }
    }
}

impl<V, A, S> Control<V, A, S> {
    /// The control's identity.
    pub fn id(&self) -> (res: &ControlId)
        ensures
            res@ == control_id(*self),
    {
        match self {
            Self::Group { id, .. } => id,
            Self::Number(control) => &control.common.id,
            Self::Text(control) => &control.common.id,
            Self::Bool(control) => &control.common.id,
            Self::Choice(control) => &control.common.id,
            Self::Color(control) => &control.common.id,
        }
    }

    /// The shared state of a leaf control.
    pub fn common(&self) -> (res: Option<&LeafControl<V, A>>)
        ensures
            match res {
                Some(l) => leaf_of(*self) == Some(*l),
                None => leaf_of(*self) is None,
            },
    {
        match self {
            Self::Number(control) => Some(&control.common),
            Self::Text(control) => Some(&control.common),
            Self::Bool(control) => Some(&control.common),
            Self::Choice(control) => Some(&control.common),
            Self::Color(control) => Some(&control.common),
            Self::Group { .. } => None,
        }
    }

    /// The property the control edits.
    pub fn property_id(&self) -> (res: &str)
        ensures
            res@ == control_property_id(*self),
        decreases self,
    {
        match self.common() {
            Some(common) => return common.target.property_id.as_str(),
            None => {},
        }
        match self {
            Self::Group { kind: GroupKind::Elements(group), .. } => group.target.property_id.as_str(),
            Self::Group { children, .. } => {
                if children.len() > 0 {
                    children[0].property_id()
                } else {
                    proof {
                        reveal_strlit("");
                    }
                    ""
                }
            },
            _ => {
                proof {
                    reveal_strlit("");
                }
                ""
            },
        }
    }
}


/// The control `c` with its leaf state replaced by `l` (groups unchanged).
pub open spec fn with_leaf<V, A, S>(c: Control<V, A, S>, l: LeafControl<V, A>) -> Control<V, A, S> {
    match c {
        Control::Group { .. } => c,
        Control::Number(n) => Control::Number(NumberControl { common: l, ..n }),
        Control::Text(t) => Control::Text(TextControl { common: l, ..t }),
        Control::Bool(_) => Control::Bool(BoolControl { common: l }),
        Control::Choice(ch) => Control::Choice(ChoiceControl { common: l, ..ch }),
        Control::Color(_) => Control::Color(ColorControl { common: l }),
    }
}

impl<V, A, S> Control<V, A, S> {
    /// The shared state of a leaf control, to change it.
    pub fn common_mut(&mut self) -> (res: Option<&mut LeafControl<V, A>>)
        ensures
            match res {
                Some(l) => leaf_of(*old(self)) == Some(*l) && *final(self) == with_leaf(*old(self), *final(l)),
                None => leaf_of(*old(self)) is None && *final(self) == *old(self),
            },
    {
        match self {
            Self::Number(control) => Some(&mut control.common),
            Self::Text(control) => Some(&mut control.common),
            Self::Bool(control) => Some(&mut control.common),
            Self::Choice(control) => Some(&mut control.common),
            Self::Color(control) => Some(&mut control.common),
            Self::Group { .. } => None,
        }
    }
}

/// `b` is the leaf `a` with animation editing switched off: not animatable,
/// no animation, no animation stops; everything else unchanged.
pub open spec fn leaf_animation_disabled<V, A>(a: LeafControl<V, A>, b: LeafControl<V, A>) -> bool {
    &&& b == LeafControl {
        animatable: false,
        animation_enabled: false,
        animation_stops: b.animation_stops,
        ..a
    }
    &&& b.animation_stops@.len() == 0
}

/// `b` is the tree `a` with animation editing switched off in every leaf;
/// groups, labels, ids and everything else are unchanged.
pub open spec fn animation_disabled<V, A, S>(a: Control<V, A, S>, b: Control<V, A, S>) -> bool
    decreases a,
{
    match (a, b) {
        (
            Control::Group { id: ia, label: la, children: ca, kind: ka },
            Control::Group { id: ib, label: lb, children: cb, kind: kb },
        ) => {
            &&& ia == ib
            &&& la == lb
            &&& ka == kb
            &&& ca@.len() == cb@.len()
            &&& forall|i: int| 0 <= i < ca@.len() ==> animation_disabled(#[trigger] ca@[i], cb@[i])
        },
        (Control::Number(x), Control::Number(y)) => x.spec == y.spec && leaf_animation_disabled(
            x.common,
            y.common,
        ),
        (Control::Text(x), Control::Text(y)) => x.multiline == y.multiline && leaf_animation_disabled(
            x.common,
            y.common,
        ),
        (Control::Bool(x), Control::Bool(y)) => leaf_animation_disabled(x.common, y.common),
        (Control::Choice(x), Control::Choice(y)) => x.ty == y.ty && x.options == y.options
            && leaf_animation_disabled(x.common, y.common),
        (Control::Color(x), Control::Color(y)) => leaf_animation_disabled(x.common, y.common),
        _ => false,
    }
}

/// No control of the tree offers animation editing.
pub open spec fn animation_off<V, A, S>(c: Control<V, A, S>) -> bool
    decreases c,
{
    match c {
        Control::Group { children, .. } => forall|i: int|
            0 <= i < children@.len() ==> animation_off(#[trigger] children@[i]),
        _ => match leaf_of(c) {
            Some(l) => !l.animatable && !l.animation_enabled && l.animation_stops@.len() == 0,
            None => true,
        },
    }
}

fn disable_leaf<V, A>(common: &mut LeafControl<V, A>)
    ensures
        leaf_animation_disabled(*old(common), *final(common)),
{
    common.animatable = false;
    common.animation_enabled = false;
    common.animation_stops.clear();
}

impl<V, A, S> Control<V, A, S> {
    /// Switches off animation editing in every control of the tree (used
    /// when several items are selected).
    pub fn disable_animation(&mut self)
        ensures
            animation_disabled(*old(self), *final(self)),
        decreases *old(self),
    {
        match self {
            Self::Group { children, .. } => {
                let ghost initial = children@;
                proof {
                    assert forall|k: int| 0 <= k < initial.len() implies decreases_to!(*old(self) => #[trigger] initial[k]) by {
                        assert(decreases_to!(*old(self) => *children));
                        assert(decreases_to!(*children => children@));
                        assert(decreases_to!(children@ => initial[k]));
                    }
                }
                let mut rest: Vec<Control<V, A, S>> = Vec::new();
                std::mem::swap(children, &mut rest);
                let n = rest.len();
                let mut done: Vec<Control<V, A, S>> = Vec::new();
                for i in 0..n
                    invariant
                        n == initial.len(),
                        rest@ == initial.subrange(i as int, n as int),
                        done@.len() == i,
                        forall|k: int| 0 <= k < i ==> animation_disabled(initial[k], #[trigger] done@[k]),
                        forall|k: int| 0 <= k < initial.len() ==> decreases_to!(*old(self) => #[trigger] initial[k]),
                {
                    let mut child = rest.remove(0);
                    assert(child == initial[i as int]);
                    assert(rest@ =~= initial.subrange(i + 1, n as int));
                    assert(decreases_to!(*old(self) => initial[i as int]));
                    child.disable_animation();
                    done.push(child);
                }
                std::mem::swap(children, &mut done);
            },
            Self::Number(control) => disable_leaf(&mut control.common),
            Self::Text(control) => disable_leaf(&mut control.common),
            Self::Bool(control) => disable_leaf(&mut control.common),
            Self::Choice(control) => disable_leaf(&mut control.common),
            Self::Color(control) => disable_leaf(&mut control.common),
        }
    }
}


/// After animation editing is switched off, no control of the tree offers it.
pub proof fn lemma_disabled_tree_has_no_animation<V, A, S>(a: Control<V, A, S>, b: Control<V, A, S>)
    requires
        animation_disabled(a, b),
    ensures
        animation_off(b),
    decreases a,
{
    match (a, b) {
        (Control::Group { children: ca, .. }, Control::Group { children: cb, .. }) => {
            assert forall|i: int| 0 <= i < cb@.len() implies animation_off(#[trigger] cb@[i]) by {
                assert(animation_disabled(ca@[i], cb@[i]));
                assert(decreases_to!(a => ca@[i])) by {
                    assert(decreases_to!(a => ca));
                    assert(decreases_to!(ca => ca@));
                    assert(decreases_to!(ca@ => ca@[i]));
                }
                lemma_disabled_tree_has_no_animation(ca@[i], cb@[i]);
            }
        },
        _ => {},
    }
}

/// Switching off animation editing keeps every control's identity and the
/// property it edits.
pub proof fn lemma_disabled_keeps_identity<V, A, S>(a: Control<V, A, S>, b: Control<V, A, S>)
    requires
        animation_disabled(a, b),
    ensures
        control_id(b) == control_id(a),
        control_property_id(b) == control_property_id(a),
    decreases a,
{
    match (a, b) {
        (Control::Group { children: ca, kind: ka, .. }, Control::Group { children: cb, .. }) => {
            match ka {
                GroupKind::Elements(_) => {},
                _ => {
                    if ca@.len() > 0 {
                        assert(decreases_to!(a => ca@[0])) by {
                            assert(decreases_to!(a => ca));
                            assert(decreases_to!(ca => ca@));
                            assert(decreases_to!(ca@ => ca@[0]));
                        }
                        lemma_disabled_keeps_identity(ca@[0], cb@[0]);
                    }
                },
            }
        },
        _ => {},
    }
}

/// Switching off animation editing a second time changes nothing: the
/// result is still the original tree with animation switched off, and the
/// two results are each other's disabled form, so they agree in every field
/// (their animation stops are empty in both).
pub proof fn lemma_disable_twice_changes_nothing<V, A, S>(
    a: Control<V, A, S>,
    b: Control<V, A, S>,
    c: Control<V, A, S>,
)
    requires
        animation_disabled(a, b),
        animation_disabled(b, c),
    ensures
        animation_disabled(a, c),
        animation_disabled(c, b),
    decreases a,
{
    match (a, b, c) {
        (
            Control::Group { children: ca, .. },
            Control::Group { children: cb, .. },
            Control::Group { children: cc, .. },
        ) => {
            assert forall|i: int| 0 <= i < ca@.len() implies animation_disabled(#[trigger] ca@[i], cc@[i])
                && animation_disabled(cc@[i], cb@[i]) by {
                assert(animation_disabled(ca@[i], cb@[i]));
                assert(animation_disabled(cb@[i], cc@[i]));
                assert(decreases_to!(a => ca@[i])) by {
                    assert(decreases_to!(a => ca));
                    assert(decreases_to!(ca => ca@));
                    assert(decreases_to!(ca@ => ca@[i]));
                }
                lemma_disable_twice_changes_nothing(ca@[i], cb@[i], cc@[i]);
            }
            assert forall|i: int| 0 <= i < cc@.len() implies animation_disabled(#[trigger] cc@[i], cb@[i]) by {
                assert(animation_disabled(ca@[i], cc@[i]) && animation_disabled(cc@[i], cb@[i]));
            }
        },
        _ => {},
    }
}

} // verus!
