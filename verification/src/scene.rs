//! Scene arguments as the inspector sees them: which property fields are
//! bound to an argument, which arguments a field could be bound to, and the
//! aspect-ratio lock of the selection.
use vstd::prelude::*;
use crate::edit::PropertyElementId;
use crate::inspector::{
    item_property_schema, item_views, property_is_common, property_is_common_spec, EffectInstanceId,
    ItemId, TimelineItem, TimelineItemView,
};
use crate::text::{push_str, string_from_chars};
use crate::model::{
    size_property_schema, str_equal, ItemSchemaView, PropertySchema, PropertySchemaView, PropertyType,
    PropertyTypeView,
};

verus! {

/// Whether a binding targets an item's own property or one of its effects.
#[derive(Clone, Copy, Debug, PartialEq, Eq, Hash, Structural)]
pub enum SceneBindingOwner {
    Item,
    Effect(EffectInstanceId),
}

impl SceneBindingOwner {
    /// The owner of a property of the effect `effect_id`, or of the item itself.
    pub fn from_effect(effect_id: Option<EffectInstanceId>) -> (res: Self)
        ensures
            res == (match effect_id {
                Some(id) => SceneBindingOwner::Effect(id),
                None => SceneBindingOwner::Item,
            }),
    {
        match effect_id {
            Some(id) => SceneBindingOwner::Effect(id),
            None => SceneBindingOwner::Item,
        }
    }
}

/// A property field that can be bound to a scene argument.
pub struct SceneBindingTarget {
    item_id: ItemId,
    owner: SceneBindingOwner,
    property_id: String,
    element_id: Option<PropertyElementId>,
    scalar_index: Option<usize>,
}

/// The mathematical value of a [`SceneBindingTarget`].
pub struct SceneBindingTargetView {
    pub item_id: ItemId,
    pub owner: SceneBindingOwner,
    pub property_id: Seq<char>,
    pub element_id: Option<PropertyElementId>,
    pub scalar_index: Option<usize>,
}

impl View for SceneBindingTarget {
    type V = SceneBindingTargetView;

    closed spec fn view(&self) -> SceneBindingTargetView {
        SceneBindingTargetView {
            item_id: self.item_id,
            owner: self.owner,
            property_id: self.property_id@,
            element_id: self.element_id,
            scalar_index: self.scalar_index,
        }
    }
}

impl SceneBindingTarget {
    /// A field of a property of an item or of one of its effects.
    pub fn new(
        item_id: ItemId,
        owner: SceneBindingOwner,
        property_id: &str,
        element_id: Option<PropertyElementId>,
        scalar_index: Option<usize>,
    ) -> (res: Self)
        ensures
            res@ == (SceneBindingTargetView {
                item_id,
                owner,
                property_id: property_id@,
                element_id,
                scalar_index,
            }),
    {
        SceneBindingTarget { item_id, owner, property_id: property_id.to_owned(), element_id, scalar_index }
    }

    /// Whether two targets name the same field.
    pub fn same_as(&self, other: &Self) -> (res: bool)
        ensures
            res == (self@ == other@),
    {
        self.item_id == other.item_id && self.owner == other.owner && self.element_id == other.element_id
            && self.scalar_index == other.scalar_index && str_equal(
            self.property_id.as_str(),
            other.property_id.as_str(),
        )
    }
}

/// The views of a sequence of binding targets.
pub open spec fn target_views(v: Seq<SceneBindingTarget>) -> Seq<SceneBindingTargetView> {
    v.map_values(|t: SceneBindingTarget| t@)
}

/// An argument of the scene being edited, with the fields bound to it.
pub struct SceneArgumentOption {
    scene_id: u64,
    id: String,
    label: String,
    schema: PropertySchema,
    bindings: Vec<SceneBindingTarget>,
    derived: bool,
    referenced_by_derived: bool,
}

/// The mathematical value of a [`SceneArgumentOption`].
pub struct SceneArgumentOptionView {
    pub scene_id: u64,
    pub id: Seq<char>,
    pub label: Seq<char>,
    pub schema: PropertySchemaView,
    pub bindings: Seq<SceneBindingTargetView>,
    pub derived: bool,
    pub referenced_by_derived: bool,
}

impl View for SceneArgumentOption {
    type V = SceneArgumentOptionView;

    closed spec fn view(&self) -> SceneArgumentOptionView {
        SceneArgumentOptionView {
            scene_id: self.scene_id,
            id: self.id@,
            label: self.label@,
            schema: self.schema@,
            bindings: target_views(self.bindings@),
            derived: self.derived,
            referenced_by_derived: self.referenced_by_derived,
        }
    }
}

impl SceneArgumentOption {
    /// An argument of the scene `scene_id`.
    pub fn new(
        scene_id: u64,
        id: &str,
        label: &str,
        schema: PropertySchema,
        bindings: Vec<SceneBindingTarget>,
        derived: bool,
        referenced_by_derived: bool,
    ) -> (res: Self)
        ensures
            res@ == (SceneArgumentOptionView {
                scene_id,
                id: id@,
                label: label@,
                schema: schema@,
                bindings: target_views(bindings@),
                derived,
                referenced_by_derived,
            }),
    {
        SceneArgumentOption {
            scene_id,
            id: id.to_owned(),
            label: label.to_owned(),
            schema,
            bindings,
            derived,
            referenced_by_derived,
        }
    }

    /// The number of fields bound to the argument.
    pub fn binding_count(&self) -> (res: usize)
        ensures
            res == self@.bindings.len(),
    {
        self.bindings.len()
    }

    /// Whether the expression of a derived argument refers to this one.
    pub fn referenced_by_derived(&self) -> (res: bool)
        ensures
            res == self@.referenced_by_derived,
    {
        self.referenced_by_derived
    }
}

/// The views of a sequence of arguments.
pub open spec fn argument_views(v: Seq<SceneArgumentOption>) -> Seq<SceneArgumentOptionView> {
    v.map_values(|a: SceneArgumentOption| a@)
}

/// The binding state of a field: the argument it is bound to, and the
/// arguments of a compatible type, each as (id, label).
pub struct SceneFieldBinding {
    pub target: SceneBindingTarget,
    pub connected: Option<(String, String)>,
    pub compatible: Vec<(String, String)>,
}

/// The view of an (id, label) pair.
pub open spec fn pair_view(p: (String, String)) -> (Seq<char>, Seq<char>) {
    (p.0@, p.1@)
}

/// The first argument whose bindings include `target`, as (id, label).
pub open spec fn connected_spec(args: Seq<SceneArgumentOptionView>, target: SceneBindingTargetView) -> Option<(Seq<char>, Seq<char>)>
    decreases args.len(),
{
    if args.len() == 0 {
        None
    } else if args[0].bindings.contains(target) {
        Some((args[0].id, args[0].label))
    } else {
        connected_spec(args.drop_first(), target)
    }
}

/// The arguments whose type is `ty`, as (id, label), in order.
pub open spec fn compatible_spec(args: Seq<SceneArgumentOptionView>, ty: PropertyTypeView) -> Seq<(Seq<char>, Seq<char>)>
    decreases args.len(),
{
    if args.len() == 0 {
        Seq::empty()
    } else {
        let rest = compatible_spec(args.drop_last(), ty);
        if args.last().schema.ty == ty {
            rest.push((args.last().id, args.last().label))
        } else {
            rest
        }
    }
}

/// `res` is the binding state of a field (see [`scene_field_binding`]): none
/// outside scene editing, for animated fields and for fields that cannot be
/// bound; else the target, the argument it is bound to and the compatible
/// arguments.
pub open spec fn field_binding_matches(
    res: Option<SceneFieldBinding>,
    editing_scene: bool,
    animation_enabled: bool,
    scene_bindable: bool,
    target: SceneBindingTargetView,
    ty: PropertyTypeView,
    args: Seq<SceneArgumentOptionView>,
) -> bool {
    match res {
        None => !editing_scene || animation_enabled || !scene_bindable,
        Some(b) => {
            &&& editing_scene && !animation_enabled && scene_bindable
            &&& b.target@ == target
            &&& match b.connected {
                Some(c) => connected_spec(args, target) == Some(pair_view(c)),
                None => connected_spec(args, target) is None,
            }
            &&& b.compatible@.map_values(|p: (String, String)| pair_view(p)) == compatible_spec(args, ty)
        },
    }
}

fn bindings_contain(bindings: &Vec<SceneBindingTarget>, target: &SceneBindingTarget) -> (res: bool)
    ensures
        res == target_views(bindings@).contains(target@),
{
    let n = bindings.len();
    for i in 0..n
        invariant
            n == bindings@.len(),
            forall|k: int| 0 <= k < i ==> target_views(bindings@)[k] != target@,
    {
        if bindings[i].same_as(target) {
            assert(target_views(bindings@)[i as int] == target@);
            return true;
        }
    }
    false
}

/// The binding state of a field while a scene is edited; `None` outside
/// scene editing, for animated fields and for fields that cannot be bound.
pub fn scene_field_binding(
    editing_scene: bool,
    animation_enabled: bool,
    scene_bindable: bool,
    target: SceneBindingTarget,
    ty: &PropertyType,
    arguments: &Vec<SceneArgumentOption>,
) -> (res: Option<SceneFieldBinding>)
    ensures
        field_binding_matches(
            res,
            editing_scene,
            animation_enabled,
            scene_bindable,
            target@,
            ty@,
            argument_views(arguments@),
        ),
{
    if !editing_scene || animation_enabled || !scene_bindable {
        return None;
    }
    let ghost args = argument_views(arguments@);
    let n = arguments.len();
    let mut connected: Option<(String, String)> = None;
    let mut i: usize = 0;
    assert(args.subrange(0, n as int) =~= args);
    while i < n
        invariant_except_break
            connected is None,
        invariant
            n == args.len(),
            args == argument_views(arguments@),
            i <= n,
            connected_spec(args, target@) == connected_spec(args.subrange(i as int, n as int), target@),
        ensures
            match connected {
                Some(c) => connected_spec(args, target@) == Some(pair_view(c)),
                None => connected_spec(args, target@) is None,
            },
        decreases n - i,
    {
        let argument = &arguments[i];
        let ghost rest = args.subrange(i as int, n as int);
        assert(rest[0] == argument@);
        assert(rest.drop_first() =~= args.subrange(i + 1, n as int));
        if bindings_contain(&argument.bindings, &target) {
            connected = Some((argument.id.clone(), argument.label.clone()));
            break;
        }
        i = i + 1;
    }
    let mut compatible: Vec<(String, String)> = Vec::new();
    for k in 0..n
        invariant
            n == args.len(),
            args == argument_views(arguments@),
            compatible@.map_values(|p: (String, String)| pair_view(p)) == compatible_spec(
                args.subrange(0, k as int),
                ty@,
            ),
    {
        let argument = &arguments[k];
        assert(args[k as int] == argument@);
        assert(args.subrange(0, k + 1).drop_last() =~= args.subrange(0, k as int));
        let ghost prev = compatible@;
        if argument.schema.ty().same_as(ty) {
            compatible.push((argument.id.clone(), argument.label.clone()));
            assert(compatible@.map_values(|p: (String, String)| pair_view(p)) =~= prev.map_values(
                |p: (String, String)| pair_view(p),
            ).push((argument@.id, argument@.label)));
        }
    }
    assert(args.subrange(0, n as int) =~= args);
    Some(SceneFieldBinding { target, connected, compatible })
}


/// Some argument binds an element of the array property `property_id` of
/// the owner `owner` of the item `item_id`.
pub open spec fn element_is_bound(
    args: Seq<SceneArgumentOptionView>,
    item_id: ItemId,
    owner: SceneBindingOwner,
    property_id: Seq<char>,
) -> bool {
    exists|a: int, b: int|
        0 <= a < args.len() && 0 <= b < args[a].bindings.len() && {
            let binding = #[trigger] args[a].bindings[b];
            &&& binding.item_id == item_id
            &&& binding.owner == owner
            &&& binding.property_id == property_id
            &&& binding.element_id is Some
        }
}

/// Whether some argument binds an element of an array property.
pub fn array_has_scene_binding(
    item_id: ItemId,
    owner: SceneBindingOwner,
    property_id: &str,
    arguments: &Vec<SceneArgumentOption>,
) -> (res: bool)
    ensures
        res == element_is_bound(argument_views(arguments@), item_id, owner, property_id@),
{
    let ghost args = argument_views(arguments@);
    let n = arguments.len();
    for a in 0..n
        invariant
            n == args.len(),
            args == argument_views(arguments@),
            forall|x: int, y: int|
                0 <= x < a && 0 <= y < args[x].bindings.len() ==> !({
                    let binding = #[trigger] args[x].bindings[y];
                    &&& binding.item_id == item_id
                    &&& binding.owner == owner
                    &&& binding.property_id == property_id@
                    &&& binding.element_id is Some
                }),
    {
        let argument = &arguments[a];
        assert(args[a as int] == argument@);
        let m = argument.bindings.len();
        for b in 0..m
            invariant
                n == args.len(),
                a < n,
                args == argument_views(arguments@),
                args[a as int] == argument@,
                m == argument.bindings@.len(),
                forall|x: int, y: int|
                    0 <= x < a && 0 <= y < args[x].bindings.len() ==> !({
                        let binding = #[trigger] args[x].bindings[y];
                        &&& binding.item_id == item_id
                        &&& binding.owner == owner
                        &&& binding.property_id == property_id@
                        &&& binding.element_id is Some
                    }),
                forall|y: int|
                    0 <= y < b ==> !({
                        let binding = #[trigger] args[a as int].bindings[y];
                        &&& binding.item_id == item_id
                        &&& binding.owner == owner
                        &&& binding.property_id == property_id@
                        &&& binding.element_id is Some
                    }),
        {
            let binding = &argument.bindings[b];
            assert(args[a as int].bindings[b as int] == binding@);
            if binding.item_id == item_id && binding.owner == owner && binding.element_id.is_some()
                && str_equal(binding.property_id.as_str(), property_id) {
                return true;
            }
        }
    }
    false
}


/// What an entry of a field's binding menu does.
pub enum BindingAction {
    /// Disconnects the field from the argument with this id.
    Disconnect(String),
    /// Makes a new argument from the field's value.
    CreateArgument,
    /// Connects the field to the argument with this id.
    Connect(String),
}

/// An entry of a field's binding menu: its label and what it does.
pub struct BindingMenuItem {
    pub label: String,
    pub action: BindingAction,
}

/// The view of a menu entry: its label, and the action with its argument id.
pub open spec fn menu_item_view(i: BindingMenuItem) -> (Seq<char>, u8, Seq<char>) {
    (
        i.label@,
        match i.action {
            BindingAction::Disconnect(_) => 0u8,
            BindingAction::CreateArgument => 1u8,
            BindingAction::Connect(_) => 2u8,
        },
        match i.action {
            BindingAction::Disconnect(id) => id@,
            BindingAction::CreateArgument => Seq::empty(),
            BindingAction::Connect(id) => id@,
        },
    )
}

/// The views of menu entries.
pub open spec fn menu_views(v: Seq<BindingMenuItem>) -> Seq<(Seq<char>, u8, Seq<char>)> {
    v.map_values(|i: BindingMenuItem| menu_item_view(i))
}

/// The binding menu of a field: only disconnecting it when it is connected;
/// else making a new argument from its value, then connecting it to each
/// compatible argument, labelled with the argument's label.
pub open spec fn binding_menu_spec(
    connected: Option<(Seq<char>, Seq<char>)>,
    compatible: Seq<(Seq<char>, Seq<char>)>,
) -> Seq<(Seq<char>, u8, Seq<char>)> {
    match connected {
        Some(c) => seq![("接続を解除"@, 0u8, c.0)],
        None => seq![("この値から新しい引数を作成"@, 1u8, Seq::<char>::empty())] + compatible.map_values(
            |c: (Seq<char>, Seq<char>)| (c.1, 2u8, c.0),
        ),
    }
}

/// The label of a field's binding button: the connected argument, or a
/// generic label.
pub open spec fn binding_button_label_spec(connected: Option<(Seq<char>, Seq<char>)>) -> Seq<char> {
    match connected {
        Some(c) => "→ "@ + c.1,
        None => "引数"@,
    }
}

/// The label of a field's binding button.
pub fn binding_button_label(binding: &SceneFieldBinding) -> (res: String)
    ensures
        res@ == binding_button_label_spec(
            match binding.connected {
                Some(c) => Some(pair_view(c)),
                None => None,
            },
        ),
{
    match &binding.connected {
        Some((_, label)) => {
            let mut out: Vec<char> = Vec::new();
            push_str(&mut out, "→ ");
            push_str(&mut out, label.as_str());
            string_from_chars(&out)
        },
        None => "引数".to_owned(),
    }
}

/// The entries of a field's binding menu (see [`binding_menu_spec`]).
pub fn binding_menu(binding: &SceneFieldBinding) -> (res: Vec<BindingMenuItem>)
    ensures
        menu_views(res@) == binding_menu_spec(
            match binding.connected {
                Some(c) => Some(pair_view(c)),
                None => None,
            },
            binding.compatible@.map_values(|p: (String, String)| pair_view(p)),
        ),
{
    let mut items: Vec<BindingMenuItem> = Vec::new();
    match &binding.connected {
        Some((id, _)) => {
            items.push(BindingMenuItem { label: "接続を解除".to_owned(), action: BindingAction::Disconnect(id.clone()) });
            assert(menu_views(items@) =~= seq![("接続を解除"@, 0u8, id@)]);
            return items;
        },
        None => {},
    }
    items.push(BindingMenuItem { label: "この値から新しい引数を作成".to_owned(), action: BindingAction::CreateArgument });
    let ghost head = menu_views(items@);
    let ghost compatible = binding.compatible@.map_values(|p: (String, String)| pair_view(p));
    let n = binding.compatible.len();
    for k in 0..n
        invariant
            n == binding.compatible@.len(),
            compatible == binding.compatible@.map_values(|p: (String, String)| pair_view(p)),
            menu_views(items@) == head + compatible.subrange(0, k as int).map_values(
                |c: (Seq<char>, Seq<char>)| (c.1, 2u8, c.0),
            ),
    {
        let (id, label) = &binding.compatible[k];
        let ghost prev = items@;
        items.push(BindingMenuItem { label: label.clone(), action: BindingAction::Connect(id.clone()) });
        assert(menu_views(items@) =~= menu_views(prev).push((label@, 2u8, id@)));
        assert(compatible.subrange(0, k + 1).map_values(|c: (Seq<char>, Seq<char>)| (c.1, 2u8, c.0)) =~= compatible.subrange(
            0,
            k as int,
        ).map_values(|c: (Seq<char>, Seq<char>)| (c.1, 2u8, c.0)).push((label@, 2u8, id@)));
    }
    assert(compatible.subrange(0, n as int) =~= compatible);
    assert(menu_views(items@) =~= binding_menu_spec(None, compatible));
    items
}

/// The notification shown when a menu action fails.
pub open spec fn binding_failure_spec(action: BindingAction) -> Seq<char> {
    match action {
        BindingAction::Disconnect(_) => "シーン引数の接続を解除できません"@,
        BindingAction::CreateArgument => "シーン引数を作成できません"@,
        BindingAction::Connect(_) => "シーン引数へ接続できません"@,
    }
}

/// The notification shown when the editor refuses a menu action.
pub fn binding_failure_message(action: &BindingAction) -> (res: String)
    ensures
        res@ == binding_failure_spec(*action),
{
    match action {
        BindingAction::Disconnect(_) => "シーン引数の接続を解除できません".to_owned(),
        BindingAction::CreateArgument => "シーン引数を作成できません".to_owned(),
        BindingAction::Connect(_) => "シーン引数へ接続できません".to_owned(),
    }
}


/// The state of the aspect-ratio lock of the selection.
#[derive(Clone, Copy, Debug, PartialEq, Eq, Structural)]
pub struct AspectRatioLockState {
    pub value: bool,
    pub mixed: bool,
    pub multiple: bool,
    pub disabled_by_scene_size_argument: bool,
}

impl AspectRatioLockState {
    /// Whether the lock is shown checked: locked, and not mixed.
    pub fn checked(self) -> (res: bool)
        ensures
            res == (self.value && !self.mixed),
    {
        self.value && !self.mixed
    }
}

/// Some argument binds the whole size property `size_id` of the item `item_id`.
pub open spec fn size_is_bound(args: Seq<SceneArgumentOptionView>, item_id: ItemId, size_id: Seq<char>) -> bool {
    exists|a: int, b: int|
        0 <= a < args.len() && 0 <= b < args[a].bindings.len() && {
            let binding = #[trigger] args[a].bindings[b];
            &&& binding.item_id == item_id
            &&& binding.owner == SceneBindingOwner::Item
            &&& binding.property_id == size_id
            &&& binding.element_id is None
            &&& binding.scalar_index is None
        }
}

/// A selected item does not allow the lock: it has no schema, its schema
/// does not support the lock, or it has no editable size property.
pub open spec fn blocks_aspect_lock<V>(item: TimelineItemView<V>) -> bool {
    match item.schema {
        None => true,
        Some(schema) => !schema.supports_aspect_ratio_lock || match size_property_schema(schema) {
            Some(size) => !size.whole.editable,
            None => true,
        },
    }
}

/// The aspect-ratio lock shown for `item` within the selection: none for
/// scene items, for items without an editable size property, and when the
/// size property is not shared or some selected item does not allow the lock.
pub open spec fn aspect_ratio_lock_spec<V>(
    item: TimelineItemView<V>,
    selected: Seq<TimelineItemView<V>>,
    args: Seq<SceneArgumentOptionView>,
    editing_scene: bool,
) -> Option<AspectRatioLockState> {
    if item.scene_id is Some {
        None
    } else {
        match item.schema {
            None => None,
            Some(schema) => match size_property_schema(schema) {
                None => None,
                Some(size) => if !size.whole.editable {
                    None
                } else if !property_is_common_spec(selected, size.id) || exists|i: int|
                    0 <= i < selected.len() && blocks_aspect_lock(#[trigger] selected[i]) {
                    None
                } else {
                    Some(AspectRatioLockState {
                        value: item.aspect_ratio_locked,
                        mixed: exists|i: int|
                            1 <= i < selected.len() && (#[trigger] selected[i]).aspect_ratio_locked
                                != item.aspect_ratio_locked,
                        multiple: selected.len() > 1,
                        disabled_by_scene_size_argument: editing_scene && size_is_bound(args, item.id, size.id),
                    })
                },
            },
        }
    }
}

/// When the selection shows an aspect-ratio lock, it shows the item's own
/// lock value; it is mixed exactly when some selected item after the first
/// (any of them) is locked differently from the item; it is shown checked
/// only when locked and not mixed; and it counts several items exactly when
/// more than one is selected.
pub proof fn lemma_lock_mixed_when_any_differs<V>(
    item: TimelineItemView<V>,
    selected: Seq<TimelineItemView<V>>,
    args: Seq<SceneArgumentOptionView>,
    editing_scene: bool,
)
    requires
        aspect_ratio_lock_spec(item, selected, args, editing_scene) is Some,
    ensures
        ({
            let s = aspect_ratio_lock_spec(item, selected, args, editing_scene)->0;
            &&& s.value == item.aspect_ratio_locked
            &&& (forall|i: int|
                1 <= i < selected.len() && (#[trigger] selected[i]).aspect_ratio_locked != item.aspect_ratio_locked
                    ==> s.mixed && !(s.value && !s.mixed))
            &&& ((forall|i: int| 1 <= i < selected.len() ==> (#[trigger] selected[i]).aspect_ratio_locked
                == item.aspect_ratio_locked) ==> !s.mixed)
            &&& s.multiple == (selected.len() > 1)
        }),
{
}

/// No aspect-ratio lock is shown for a scene item, for an item without a
/// schema, or when some selected item has no schema; the lock is disabled
/// by a scene argument only while a scene is edited.
pub proof fn lemma_lock_absent_cases<V>(
    item: TimelineItemView<V>,
    selected: Seq<TimelineItemView<V>>,
    args: Seq<SceneArgumentOptionView>,
    editing_scene: bool,
)
    ensures
        item.scene_id is Some ==> aspect_ratio_lock_spec(item, selected, args, editing_scene) is None,
        item.schema is None ==> aspect_ratio_lock_spec(item, selected, args, editing_scene) is None,
        (exists|i: int| 0 <= i < selected.len() && (#[trigger] selected[i]).schema is None)
            ==> aspect_ratio_lock_spec(item, selected, args, editing_scene) is None,
        !editing_scene && aspect_ratio_lock_spec(item, selected, args, editing_scene) is Some
            ==> !aspect_ratio_lock_spec(item, selected, args, editing_scene)->0.disabled_by_scene_size_argument,
{
    if exists|i: int| 0 <= i < selected.len() && (#[trigger] selected[i]).schema is None {
        let i = choose|i: int| 0 <= i < selected.len() && (#[trigger] selected[i]).schema is None;
        assert(blocks_aspect_lock(selected[i]));
    }
}

fn item_blocks_aspect_lock<V>(item: &TimelineItem<V>) -> (res: bool)
    ensures
        res == blocks_aspect_lock(item@),
{
    match item.schema() {
        None => true,
        Some(schema) => !schema.supports_aspect_ratio_lock() || match schema.size_property() {
            Some(size) => !size.is_editable(),
            None => true,
        },
    }
}

fn binds_size(binding: &SceneBindingTarget, item_id: ItemId, size_id: &str) -> (res: bool)
    ensures
        res == ({
            &&& binding@.item_id == item_id
            &&& binding@.owner == SceneBindingOwner::Item
            &&& binding@.property_id == size_id@
            &&& binding@.element_id is None
            &&& binding@.scalar_index is None
        }),
{
    binding.item_id == item_id && binding.owner == SceneBindingOwner::Item && binding.element_id.is_none()
        && binding.scalar_index.is_none() && str_equal(binding.property_id.as_str(), size_id)
}

fn size_bound(arguments: &Vec<SceneArgumentOption>, item_id: ItemId, size_id: &str) -> (res: bool)
    ensures
        res == size_is_bound(argument_views(arguments@), item_id, size_id@),
{
    let ghost args = argument_views(arguments@);
    let n = arguments.len();
    for a in 0..n
        invariant
            n == args.len(),
            args == argument_views(arguments@),
            forall|x: int, y: int|
                0 <= x < a && 0 <= y < args[x].bindings.len() ==> !({
                    let binding = #[trigger] args[x].bindings[y];
                    &&& binding.item_id == item_id
                    &&& binding.owner == SceneBindingOwner::Item
                    &&& binding.property_id == size_id@
                    &&& binding.element_id is None
                    &&& binding.scalar_index is None
                }),
    {
        let argument = &arguments[a];
        assert(args[a as int] == argument@);
        let m = argument.bindings.len();
        for b in 0..m
            invariant
                n == args.len(),
                a < n,
                args == argument_views(arguments@),
                args[a as int] == argument@,
                m == argument.bindings@.len(),
                forall|x: int, y: int|
                    0 <= x < a && 0 <= y < args[x].bindings.len() ==> !({
                        let binding = #[trigger] args[x].bindings[y];
                        &&& binding.item_id == item_id
                        &&& binding.owner == SceneBindingOwner::Item
                        &&& binding.property_id == size_id@
                        &&& binding.element_id is None
                        &&& binding.scalar_index is None
                    }),
                forall|y: int|
                    0 <= y < b ==> !({
                        let binding = #[trigger] args[a as int].bindings[y];
                        &&& binding.item_id == item_id
                        &&& binding.owner == SceneBindingOwner::Item
                        &&& binding.property_id == size_id@
                        &&& binding.element_id is None
                        &&& binding.scalar_index is None
                    }),
        {
            assert(args[a as int].bindings[b as int] == argument.bindings@[b as int]@);
            if binds_size(&argument.bindings[b], item_id, size_id) {
                assert(args[a as int].bindings[b as int] == argument.bindings@[b as int]@);
                return true;
            }
        }
    }
    false
}

/// The aspect-ratio lock shown for `item` within the selection (see
/// [`aspect_ratio_lock_spec`]).
pub fn aspect_ratio_lock_state<V>(
    item: &TimelineItem<V>,
    selected_items: &Vec<TimelineItem<V>>,
    scene_arguments: &Vec<SceneArgumentOption>,
    editing_scene: bool,
) -> (res: Option<AspectRatioLockState>)
    ensures
        res == aspect_ratio_lock_spec(
            item@,
            item_views(selected_items@),
            argument_views(scene_arguments@),
            editing_scene,
        ),
{
    let ghost selected = item_views(selected_items@);
    if item.scene_id().is_some() {
        return None;
    }
    let schema = match item.schema() {
        Some(schema) => schema,
        None => return None,
    };
    let size = match schema.size_property() {
        Some(size) => size,
        None => return None,
    };
    if !size.is_editable() {
        return None;
    }
    if !property_is_common(selected_items, size.id()) {
        return None;
    }
    let n = selected_items.len();
    for i in 0..n
        invariant
            n == selected.len(),
            selected == item_views(selected_items@),
            forall|k: int| 0 <= k < i ==> !blocks_aspect_lock(#[trigger] selected[k]),
    {
        assert(selected[i as int] == selected_items@[i as int]@);
        if item_blocks_aspect_lock(&selected_items[i]) {
            return None;
        }
    }
    let mut mixed = false;
    let locked = item.aspect_ratio_locked();
    for i in 1..n
        invariant
            n == selected.len(),
            selected == item_views(selected_items@),
            locked == item@.aspect_ratio_locked,
            mixed == exists|k: int| 1 <= k < i && (#[trigger] selected[k]).aspect_ratio_locked != locked,
    {
        assert(selected[i as int] == selected_items@[i as int]@);
        if selected_items[i].aspect_ratio_locked() != locked {
            mixed = true;
        }
    }
    let bound = editing_scene && size_bound(scene_arguments, item.id(), size.id());
    Some(AspectRatioLockState {
        value: locked,
        mixed,
        multiple: n > 1,
        disabled_by_scene_size_argument: bound,
    })
}

} // verus!
