//! The part of the editor's data model that the inspector reads: property
//! values and the elements of array values, property types, property and
//! item schemas with the settings of each scalar.
use vstd::prelude::*;

verus! {

/// The stable identity of an element of an array property.
#[derive(Clone, Copy, Debug, PartialEq, Eq, Hash, Structural)]
pub struct PropertyElementId(pub u64);

/// One element of an array property.
pub struct PropertyElement<V> {
    pub element_id: PropertyElementId,
    pub value: V,
}

impl<V> View for PropertyElement<V> {
    type V = (PropertyElementId, V);

    open spec fn view(&self) -> (PropertyElementId, V) {
        (self.element_id, self.value)
    }
}

impl<V> PropertyElement<V> {
    /// An element with the given id and value.
    pub fn new(element_id: PropertyElementId, value: V) -> (res: Self)
        ensures
            res@ == (element_id, value),
    {
        PropertyElement { element_id, value }
    }

    /// The element's id.
    pub fn element_id(&self) -> (res: PropertyElementId)
        ensures
            res == self@.0,
    {
        self.element_id
    }

    /// The element's value.
    pub fn value(&self) -> (res: &V)
        ensures
            *res == self@.1,
    {
        &self.value
    }
}

/// The value of a property. `F` stands for a 32-bit float and `C` for a
/// color; the library does not look inside either.
pub enum PropertyValue<F, C> {
    F32(F),
    I32(i32),
    U32(u32),
    Bool(bool),
    Color(C),
    String(String),
    Enum(u32),
    Tuple(Vec<PropertyValue<F, C>>),
    Array(Vec<PropertyElement<PropertyValue<F, C>>>),
}

/// `b` holds the same value as `a`: the same variant with the same
/// numbers, characters and elements.
pub open spec fn same_value<F, C>(a: PropertyValue<F, C>, b: PropertyValue<F, C>) -> bool
    decreases a,
{
    match (a, b) {
        (PropertyValue::String(x), PropertyValue::String(y)) => x@ == y@,
        (PropertyValue::Tuple(x), PropertyValue::Tuple(y)) => {
            &&& x@.len() == y@.len()
            &&& forall|i: int| 0 <= i < x@.len() ==> same_value(#[trigger] x@[i], y@[i])
        },
        (PropertyValue::Array(x), PropertyValue::Array(y)) => {
            &&& x@.len() == y@.len()
            &&& forall|i: int|
                0 <= i < x@.len() ==> (#[trigger] x@[i]).element_id == y@[i].element_id && same_value(
                    x@[i].value,
                    y@[i].value,
                )
        },
        (PropertyValue::String(_), _) => false,
        (PropertyValue::Tuple(_), _) => false,
        (PropertyValue::Array(_), _) => false,
        _ => a == b,
    }
}

impl<F: Copy, C: Copy> Clone for PropertyValue<F, C> {
    fn clone(&self) -> (res: Self)
        ensures
            same_value(*self, res),
        decreases self,
    {
        match self {
            PropertyValue::F32(x) => PropertyValue::F32(*x),
            PropertyValue::I32(x) => PropertyValue::I32(*x),
            PropertyValue::U32(x) => PropertyValue::U32(*x),
            PropertyValue::Bool(x) => PropertyValue::Bool(*x),
            PropertyValue::Color(x) => PropertyValue::Color(*x),
            PropertyValue::String(x) => PropertyValue::String(x.clone()),
            PropertyValue::Enum(x) => PropertyValue::Enum(*x),
            PropertyValue::Tuple(items) => {
                let mut out: Vec<PropertyValue<F, C>> = Vec::new();
                let n = items.len();
                for i in 0..n
                    invariant
                        n == items@.len(),
                        out@.len() == i,
                        forall|k: int| 0 <= k < i ==> same_value(#[trigger] items@[k], out@[k]),
                        forall|k: int| 0 <= k < n ==> decreases_to!(*self => #[trigger] items@[k]),
                {
                    out.push(items[i].clone());
                }
                PropertyValue::Tuple(out)
            },
            PropertyValue::Array(elements) => {
                let mut out: Vec<PropertyElement<PropertyValue<F, C>>> = Vec::new();
                let n = elements.len();
                for i in 0..n
                    invariant
                        n == elements@.len(),
                        out@.len() == i,
                        forall|k: int|
                            0 <= k < i ==> (#[trigger] elements@[k]).element_id == out@[k].element_id
                                && same_value(elements@[k].value, out@[k].value),
                        forall|k: int| 0 <= k < n ==> decreases_to!(*self => #[trigger] elements@[k].value),
                {
                    let element = &elements[i];
                    out.push(PropertyElement { element_id: element.element_id, value: element.value.clone() });
                }
                PropertyValue::Array(out)
            },
        }
    }
}

/// `b` holds the same elements as `a`: the same ids, with the same values.
pub open spec fn same_elements<F, C>(
    a: Seq<PropertyElement<PropertyValue<F, C>>>,
    b: Seq<PropertyElement<PropertyValue<F, C>>>,
) -> bool {
    &&& a.len() == b.len()
    &&& forall|i: int| 0 <= i < a.len() ==> (#[trigger] a[i])@.0 == b[i]@.0 && same_value(a[i]@.1, b[i]@.1)
}

/// A copy of the elements of an array value.
pub fn clone_elements<F: Copy, C: Copy>(v: &Vec<PropertyElement<PropertyValue<F, C>>>) -> (res: Vec<
    PropertyElement<PropertyValue<F, C>>,
>)
    ensures
        same_elements(v@, res@),
{
    let mut out: Vec<PropertyElement<PropertyValue<F, C>>> = Vec::new();
    let n = v.len();
    for i in 0..n
        invariant
            n == v@.len(),
            out@.len() == i,
            forall|k: int| 0 <= k < i ==> (#[trigger] v@[k])@.0 == out@[k]@.0 && same_value(v@[k]@.1, out@[k]@.1),
    {
        let element = &v[i];
        out.push(PropertyElement { element_id: element.element_id, value: element.value.clone() });
    }
    out
}

/// The scalar of a value at `index`: the value itself when it is not a
/// tuple and no index is given, the `index`-th item of a tuple.
pub open spec fn scalar_value_at<F, C>(v: PropertyValue<F, C>, index: Option<usize>) -> Option<PropertyValue<F, C>> {
    match (v, index) {
        (PropertyValue::Tuple(t), Some(i)) => if i < t@.len() {
            Some(t@[i as int])
        } else {
            None
        },
        (PropertyValue::Tuple(_), None) => None,
        (_, None) => Some(v),
        (_, Some(_)) => None,
    }
}

impl<F, C> PropertyValue<F, C> {
    /// The scalar at `index` (see [`scalar_value_at`]).
    pub fn scalar_at(&self, index: Option<usize>) -> (res: Option<&Self>)
        ensures
            match res {
                Some(s) => scalar_value_at(*self, index) == Some(*s),
                None => scalar_value_at(*self, index) is None,
            },
    {
        match (self, index) {
            (PropertyValue::Tuple(t), Some(i)) => if i < t.len() {
                Some(&t[i])
            } else {
                None
            },
            (PropertyValue::Tuple(_), None) => None,
            (_, None) => Some(self),
            (_, Some(_)) => None,
        }
    }
}

/// The type of one scalar of a property.
#[derive(Clone, Copy, Debug, PartialEq, Eq, Hash, Structural)]
pub enum ScalarPropertyType {
    F32,
    I32,
    U32,
    Bool,
    Color,
    String,
    /// A choice among the values of the enum type with this id.
    Enum(u64),
}

/// The type of a property value: one scalar, or a tuple of scalars.
pub enum PropertyValueType {
    Scalar(ScalarPropertyType),
    Tuple(Vec<ScalarPropertyType>),
}

/// The mathematical value of a [`PropertyValueType`].
pub enum PropertyValueTypeView {
    Scalar(ScalarPropertyType),
    Tuple(Seq<ScalarPropertyType>),
}

impl View for PropertyValueType {
    type V = PropertyValueTypeView;

    open spec fn view(&self) -> PropertyValueTypeView {
        match self {
            PropertyValueType::Scalar(s) => PropertyValueTypeView::Scalar(*s),
            PropertyValueType::Tuple(t) => PropertyValueTypeView::Tuple(t@),
        }
    }
}

/// The scalar at `index`: the scalar itself for a scalar type addressed
/// without an index, the `index`-th scalar of a tuple type.
pub open spec fn scalar_at_spec(ty: PropertyValueTypeView, index: Option<usize>) -> Option<ScalarPropertyType> {
    match (ty, index) {
        (PropertyValueTypeView::Scalar(s), None) => Some(s),
        (PropertyValueTypeView::Tuple(t), Some(i)) => if i < t.len() {
            Some(t[i as int])
        } else {
            None
        },
        _ => None,
    }
}

impl PropertyValueType {
    /// The scalar at `index` (see [`scalar_at_spec`]).
    pub fn scalar_at(&self, index: Option<usize>) -> (res: Option<&ScalarPropertyType>)
        ensures
            match res {
                Some(s) => scalar_at_spec(self@, index) == Some(*s),
                None => scalar_at_spec(self@, index) == None::<ScalarPropertyType>,
            },
    {
        match (self, index) {
            (PropertyValueType::Scalar(s), None) => Some(s),
            (PropertyValueType::Tuple(t), Some(i)) => if i < t.len() {
                Some(&t[i])
            } else {
                None
            },
            _ => None,
        }
    }

    /// Whether two value types are the same.
    pub fn same_as(&self, other: &Self) -> (res: bool)
        ensures
            res == (self@ == other@),
    {
        match (self, other) {
            (PropertyValueType::Scalar(a), PropertyValueType::Scalar(b)) => *a == *b,
            (PropertyValueType::Tuple(a), PropertyValueType::Tuple(b)) => {
                if a.len() != b.len() {
                    return false;
                }
                let n = a.len();
                for i in 0..n
                    invariant
                        n == a@.len(),
                        n == b@.len(),
                        self@ == PropertyValueTypeView::Tuple(a@),
                        other@ == PropertyValueTypeView::Tuple(b@),
                        forall|k: int| 0 <= k < i ==> a@[k] == b@[k],
                {
                    if a[i] != b[i] {
                        assert(a@[i as int] != b@[i as int]);
                        assert(a@ != b@);
                        return false;
                    }
                }
                assert(a@ =~= b@);
                true
            },
            _ => false,
        }
    }
}

/// The type of a property: a single value, or an array of values with
/// bounds on its length.
pub enum PropertyType {
    Value(PropertyValueType),
    Array { element_type: PropertyValueType, min_items: u32, max_items: u32 },
}

/// The mathematical value of a [`PropertyType`].
pub enum PropertyTypeView {
    Value(PropertyValueTypeView),
    Array { element_type: PropertyValueTypeView, min_items: u32, max_items: u32 },
}

impl View for PropertyType {
    type V = PropertyTypeView;

    open spec fn view(&self) -> PropertyTypeView {
        match self {
            PropertyType::Value(v) => PropertyTypeView::Value(v@),
            PropertyType::Array { element_type, min_items, max_items } => PropertyTypeView::Array {
                element_type: element_type@,
                min_items: *min_items,
                max_items: *max_items,
            },
        }
    }
}

impl PropertyType {
    /// Whether two property types are the same.
    pub fn same_as(&self, other: &Self) -> (res: bool)
        ensures
            res == (self@ == other@),
    {
        match (self, other) {
            (PropertyType::Value(a), PropertyType::Value(b)) => a.same_as(b),
            (
                PropertyType::Array { element_type: a, min_items: amin, max_items: amax },
                PropertyType::Array { element_type: b, min_items: bmin, max_items: bmax },
            ) => *amin == *bmin && *amax == *bmax && a.same_as(b),
            _ => false,
        }
    }
}

/// What a property's configuration says of one of its scalars, or of the
/// property as a whole: how the scalar's input is shown and what the user
/// may do with it.
pub struct ScalarSettings {
    /// Whether the input is shown.
    pub visible: bool,
    /// The name of a tuple scalar, shown after the property's label.
    pub label: Option<String>,
    /// The label shown beside the input.
    pub scalar_label: Option<String>,
    /// Whether a text input spans several lines.
    pub multiline: bool,
    /// Whether the elements of a string array are edited as font families.
    pub font_family_editor: bool,
    /// The values of an enum scalar, each with its label.
    pub enum_options: Option<Vec<(u32, String)>>,
    /// Whether the user may edit the value.
    pub editable: bool,
    /// Whether the value can be animated.
    pub animatable: bool,
    /// Whether the value can be bound to a scene argument.
    pub scene_bindable: bool,
}

/// The mathematical value of [`ScalarSettings`].
pub struct ScalarSettingsView {
    pub visible: bool,
    pub label: Option<Seq<char>>,
    pub scalar_label: Option<Seq<char>>,
    pub multiline: bool,
    pub font_family_editor: bool,
    pub enum_options: Option<Seq<(u32, Seq<char>)>>,
    pub editable: bool,
    pub animatable: bool,
    pub scene_bindable: bool,
}

/// The view of a list of enum options.
pub open spec fn options_view(v: Seq<(u32, String)>) -> Seq<(u32, Seq<char>)> {
    v.map_values(|o: (u32, String)| (o.0, o.1@))
}

impl View for ScalarSettings {
    type V = ScalarSettingsView;

    open spec fn view(&self) -> ScalarSettingsView {
        ScalarSettingsView {
            visible: self.visible,
            label: opt_string_view(self.label),
            scalar_label: opt_string_view(self.scalar_label),
            multiline: self.multiline,
            font_family_editor: self.font_family_editor,
            enum_options: match self.enum_options {
                Some(o) => Some(options_view(o@)),
                None => None,
            },
            editable: self.editable,
            animatable: self.animatable,
            scene_bindable: self.scene_bindable,
        }
    }
}

/// The views of a sequence of settings.
pub open spec fn settings_views(v: Seq<ScalarSettings>) -> Seq<ScalarSettingsView> {
    v.map_values(|s: ScalarSettings| s@)
}

/// The schema of one property: its id, label and type, whether it is shown,
/// and the settings of the property as a whole and of each tuple scalar.
pub struct PropertySchema {
    id: String,
    label: String,
    ty: PropertyType,
    visible: bool,
    whole: ScalarSettings,
    scalars: Vec<ScalarSettings>,
}

/// The mathematical value of a [`PropertySchema`].
pub struct PropertySchemaView {
    pub id: Seq<char>,
    pub label: Seq<char>,
    pub ty: PropertyTypeView,
    pub visible: bool,
    pub whole: ScalarSettingsView,
    pub scalars: Seq<ScalarSettingsView>,
}

impl View for PropertySchema {
    type V = PropertySchemaView;

    closed spec fn view(&self) -> PropertySchemaView {
        PropertySchemaView {
            id: self.id@,
            label: self.label@,
            ty: self.ty@,
            visible: self.visible,
            whole: self.whole@,
            scalars: settings_views(self.scalars@),
        }
    }
}

/// The settings of the scalar `index` of a property: those of the tuple
/// scalar when the property has settings for it, else those of the whole
/// property.
pub open spec fn settings_at(p: PropertySchemaView, index: Option<usize>) -> ScalarSettingsView {
    match index {
        Some(i) => if i < p.scalars.len() {
            p.scalars[i as int]
        } else {
            p.whole
        },
        None => p.whole,
    }
}

impl PropertySchema {
    /// A property schema.
    pub fn new(
        id: &str,
        label: &str,
        ty: PropertyType,
        visible: bool,
        whole: ScalarSettings,
        scalars: Vec<ScalarSettings>,
    ) -> (res: Self)
        ensures
            res@ == (PropertySchemaView {
                id: id@,
                label: label@,
                ty: ty@,
                visible,
                whole: whole@,
                scalars: settings_views(scalars@),
            }),
    {
        PropertySchema { id: id.to_owned(), label: label.to_owned(), ty, visible, whole, scalars }
    }

    /// The property's id.
    pub fn id(&self) -> (res: &str)
        ensures
            res@ == self@.id,
    {
        self.id.as_str()
    }

    /// The property's label.
    pub fn label(&self) -> (res: &str)
        ensures
            res@ == self@.label,
    {
        self.label.as_str()
    }

    /// The property's type.
    pub fn ty(&self) -> (res: &PropertyType)
        ensures
            res@ == self@.ty,
    {
        &self.ty
    }

    /// Whether the inspector shows the property.
    pub fn is_visible(&self) -> (res: bool)
        ensures
            res == self@.visible,
    {
        self.visible
    }

    /// Whether the user may edit the property as a whole.
    pub fn is_editable(&self) -> (res: bool)
        ensures
            res == self@.whole.editable,
    {
        self.whole.editable
    }

    /// The settings of the scalar `index` (see [`settings_at`]).
    pub fn settings(&self, index: Option<usize>) -> (res: &ScalarSettings)
        ensures
            res@ == settings_at(self@, index),
    {
        match index {
            Some(i) => if i < self.scalars.len() {
                &self.scalars[i]
            } else {
                &self.whole
            },
            None => &self.whole,
        }
    }
}

/// Whether two character sequences are equal.
pub fn str_equal(a: &str, b: &str) -> (res: bool)
    ensures
        res == (a@ == b@),
{
    let x = crate::text::str_chars(a);
    let y = crate::text::str_chars(b);
    if x.len() != y.len() {
        return false;
    }
    let n = x.len();
    for i in 0..n
        invariant
            n == x@.len(),
            n == y@.len(),
            x@ == a@,
            y@ == b@,
            forall|k: int| 0 <= k < i ==> x@[k] == y@[k],
    {
        if x[i] != y[i] {
            assert(x@[i as int] != y@[i as int]);
            assert(a@ != b@);
            return false;
        }
    }
    assert(x@ =~= y@);
    true
}

/// The schema of an item of a plugin.
pub struct ItemSchema {
    id: String,
    properties: Vec<PropertySchema>,
    size_property: Option<String>,
    supports_aspect_ratio_lock: bool,
}

/// The mathematical value of an [`ItemSchema`].
pub struct ItemSchemaView {
    pub id: Seq<char>,
    pub properties: Seq<PropertySchemaView>,
    pub size_property: Option<Seq<char>>,
    pub supports_aspect_ratio_lock: bool,
}

/// The views of a sequence of property schemas.
pub open spec fn schema_views(v: Seq<PropertySchema>) -> Seq<PropertySchemaView> {
    v.map_values(|p: PropertySchema| p@)
}

/// The view of an optional string.
pub open spec fn opt_string_view(s: Option<String>) -> Option<Seq<char>> {
    match s {
        Some(s) => Some(s@),
        None => None,
    }
}

impl View for ItemSchema {
    type V = ItemSchemaView;

    closed spec fn view(&self) -> ItemSchemaView {
        ItemSchemaView {
            id: self.id@,
            properties: schema_views(self.properties@),
            size_property: opt_string_view(self.size_property),
            supports_aspect_ratio_lock: self.supports_aspect_ratio_lock,
        }
    }
}

/// The first property schema with id `id`, if any.
pub open spec fn find_schema(properties: Seq<PropertySchemaView>, id: Seq<char>) -> Option<PropertySchemaView>
    decreases properties.len(),
{
    if properties.len() == 0 {
        None
    } else if properties[0].id == id {
        Some(properties[0])
    } else {
        find_schema(properties.drop_first(), id)
    }
}

/// The schema of an item's size property, if it has one.
pub open spec fn size_property_schema(s: ItemSchemaView) -> Option<PropertySchemaView> {
    match s.size_property {
        Some(name) => find_schema(s.properties, name),
        None => None,
    }
}

impl ItemSchema {
    /// An item schema; `size_property` names the property holding the
    /// item's size, if it has one.
    pub fn new(
        id: &str,
        properties: Vec<PropertySchema>,
        size_property: Option<String>,
        supports_aspect_ratio_lock: bool,
    ) -> (res: Self)
        ensures
            res@ == (ItemSchemaView {
                id: id@,
                properties: schema_views(properties@),
                size_property: opt_string_view(size_property),
                supports_aspect_ratio_lock,
            }),
    {
        ItemSchema { id: id.to_owned(), properties, size_property, supports_aspect_ratio_lock }
    }

    /// The schemas of the item's properties, in order.
    pub fn properties(&self) -> (res: &Vec<PropertySchema>)
        ensures
            schema_views(res@) == self@.properties,
    {
        &self.properties
    }

    /// Whether the item's width and height can be locked together.
    pub fn supports_aspect_ratio_lock(&self) -> (res: bool)
        ensures
            res == self@.supports_aspect_ratio_lock,
    {
        self.supports_aspect_ratio_lock
    }

    /// The schema of the item's size property, if it has one.
    pub fn size_property(&self) -> (res: Option<&PropertySchema>)
        ensures
            match res {
                Some(p) => size_property_schema(self@) == Some(p@),
                None => size_property_schema(self@) == None::<PropertySchemaView>,
            },
    {
        match &self.size_property {
            Some(name) => self.property(name.as_str()),
            None => None,
        }
    }

    /// The schema's id.
    pub fn id(&self) -> (res: &str)
        ensures
            res@ == self@.id,
    {
        self.id.as_str()
    }

    /// Whether `property_id` names the item's size property.
    pub fn is_size_property(&self, property_id: &str) -> (res: bool)
        ensures
            res == (self@.size_property == Some(property_id@)),
    {
        match &self.size_property {
            Some(size) => str_equal(size.as_str(), property_id),
            None => false,
        }
    }

    /// The schema of the property `property_id`.
    pub fn property(&self, property_id: &str) -> (res: Option<&PropertySchema>)
        ensures
            match res {
                Some(p) => find_schema(self@.properties, property_id@) == Some(p@),
                None => find_schema(self@.properties, property_id@) == None::<PropertySchemaView>,
            },
    {
        let n = self.properties.len();
        let ghost all = self@.properties;
        assert(all.subrange(0, n as int) =~= all);
        for i in 0..n
            invariant
                n == all.len(),
                all == schema_views(self.properties@),
                find_schema(all, property_id@) == find_schema(all.subrange(i as int, n as int), property_id@),
        {
            let ghost rest = all.subrange(i as int, n as int);
            assert(rest[0] == self.properties@[i as int]@);
            assert(rest.drop_first() =~= all.subrange(i + 1, n as int));
            if str_equal(self.properties[i].id(), property_id) {
                return Some(&self.properties[i]);
            }
        }
        assert(all.subrange(n as int, n as int).len() == 0);
        None
    }
}

} // verus!
