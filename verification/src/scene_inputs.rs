//! The inputs of the scene being edited: its name, and for each argument
//! its name and the input of its value (its expression, its numeric
//! settings, its text default or its color).
use vstd::prelude::*;
use crate::control::{ControlId, ControlIdView, SceneArgumentSetting};
use crate::model::{
    opt_string_view, PropertySchema, PropertySchemaView, PropertyType, PropertyTypeView,
    PropertyValueType, PropertyValueTypeView, ScalarPropertyType,
};
use crate::numeric::{numeric_input_for, NumericInput};
use crate::model::str_equal;
use crate::scene::SceneArgumentOption;
use crate::text::{decimal, push_decimal, push_str, string_from_chars};

verus! {

/// An argument of the scene being edited, with what its inputs show.
pub struct SceneArgumentEntry {
    /// The schema of the argument's value.
    pub schema: PropertySchema,
    /// The argument's expression as it is displayed, if it has one.
    pub expression: Option<String>,
    /// The default, minimum and maximum of a numeric argument, as texts.
    pub numeric_settings: Option<(String, String, String)>,
    /// The default of the argument, if it is a string.
    pub text_default: Option<String>,
}

/// The mathematical value of a [`SceneArgumentEntry`].
pub struct SceneArgumentEntryView {
    pub schema: PropertySchemaView,
    pub expression: Option<Seq<char>>,
    pub numeric_settings: Option<(Seq<char>, Seq<char>, Seq<char>)>,
    pub text_default: Option<Seq<char>>,
}

impl View for SceneArgumentEntry {
    type V = SceneArgumentEntryView;

    open spec fn view(&self) -> SceneArgumentEntryView {
        SceneArgumentEntryView {
            schema: self.schema@,
            expression: opt_string_view(self.expression),
            numeric_settings: match self.numeric_settings {
                Some(t) => Some((t.0@, t.1@, t.2@)),
                None => None,
            },
            text_default: opt_string_view(self.text_default),
        }
    }
}

/// What an input of the scene shows: a text, or a color picker.
pub enum SceneInputValue {
    Text(String),
    Color,
}

/// An input of the scene being edited.
pub struct SceneInput {
    pub id: ControlId,
    pub value: SceneInputValue,
}

/// The view of an input: its control and its text (none for a color picker).
pub open spec fn input_view(i: SceneInput) -> (ControlIdView, Option<Seq<char>>) {
    (
        i.id@,
        match i.value {
            SceneInputValue::Text(t) => Some(t@),
            SceneInputValue::Color => None,
        },
    )
}

/// The views of a sequence of inputs.
pub open spec fn input_views(v: Seq<SceneInput>) -> Seq<(ControlIdView, Option<Seq<char>>)> {
    v.map_values(|i: SceneInput| input_view(i))
}

/// The name shown for an argument: its label, or its id when the label is empty.
pub open spec fn argument_display_name(schema: PropertySchemaView) -> Seq<char> {
    if schema.label.len() == 0 {
        schema.id
    } else {
        schema.label
    }
}

/// The inputs of one argument of the scene `scene_id`: its name, then the
/// input of its expression if it has one; else, for a number, its three
/// settings (none when they cannot be shown); for a string, its default;
/// for a color, a color picker.
pub open spec fn argument_inputs(scene_id: u64, a: SceneArgumentEntryView) -> Seq<(ControlIdView, Option<Seq<char>>)> {
    let id = a.schema.id;
    let name = (
        ControlIdView::SceneArgumentName { scene_id, argument_id: id },
        Some(argument_display_name(a.schema)),
    );
    match a.expression {
        Some(e) => seq![name, (ControlIdView::SceneArgumentExpression { scene_id, argument_id: id }, Some(e))],
        None => if numeric_input_for(a.schema.ty) is Some {
            match a.numeric_settings {
                Some((d, lo, hi)) => seq![
                    name,
                    (
                        ControlIdView::SceneArgumentSetting {
                            scene_id,
                            argument_id: id,
                            setting: SceneArgumentSetting::Default,
                        },
                        Some(d),
                    ),
                    (
                        ControlIdView::SceneArgumentSetting {
                            scene_id,
                            argument_id: id,
                            setting: SceneArgumentSetting::Min,
                        },
                        Some(lo),
                    ),
                    (
                        ControlIdView::SceneArgumentSetting {
                            scene_id,
                            argument_id: id,
                            setting: SceneArgumentSetting::Max,
                        },
                        Some(hi),
                    ),
                ],
                None => seq![name],
            }
        } else if a.schema.ty == PropertyTypeView::Value(PropertyValueTypeView::Scalar(ScalarPropertyType::String)) {
            seq![
                name,
                (
                    ControlIdView::SceneArgumentDefault { scene_id, argument_id: id },
                    Some(
                        match a.text_default {
                            Some(t) => t,
                            None => Seq::empty(),
                        },
                    ),
                ),
            ]
        } else if a.schema.ty == PropertyTypeView::Value(PropertyValueTypeView::Scalar(ScalarPropertyType::Color)) {
            seq![name, (ControlIdView::SceneArgumentColor { scene_id, argument_id: id }, None)]
        } else {
            seq![name]
        },
    }
}

/// The inputs of the first `n` arguments, argument after argument.
pub open spec fn arguments_inputs_upto(
    scene_id: u64,
    args: Seq<SceneArgumentEntryView>,
    n: nat,
) -> Seq<(ControlIdView, Option<Seq<char>>)>
    decreases n,
{
    if n == 0 {
        Seq::empty()
    } else {
        arguments_inputs_upto(scene_id, args, (n - 1) as nat) + argument_inputs(scene_id, args[n - 1])
    }
}

/// The inputs of the scene being edited: its name, then the inputs of each argument.
pub open spec fn scene_inputs_spec(
    scene_id: u64,
    name: Seq<char>,
    args: Seq<SceneArgumentEntryView>,
) -> Seq<(ControlIdView, Option<Seq<char>>)> {
    seq![(ControlIdView::SceneName(scene_id), Some(name))] + arguments_inputs_upto(scene_id, args, args.len())
}

/// The views of a sequence of argument entries.
pub open spec fn entry_views(v: Seq<SceneArgumentEntry>) -> Seq<SceneArgumentEntryView> {
    v.map_values(|e: SceneArgumentEntry| e@)
}

fn text_input(id: ControlId, text: &String) -> (res: SceneInput)
    ensures
        input_view(res) == (id@, Some(text@)),
{
    SceneInput { id, value: SceneInputValue::Text(text.clone()) }
}

fn push_argument_inputs(out: &mut Vec<SceneInput>, scene_id: u64, argument: &SceneArgumentEntry)
    ensures
        input_views(final(out)@) == input_views(old(out)@) + argument_inputs(scene_id, argument@),
{
    let ghost before = input_views(out@);
    let id = argument.schema.id();
    let name = if argument.schema.label().is_empty() {
        id.to_owned()
    } else {
        argument.schema.label().to_owned()
    };
    out.push(text_input(ControlId::scene_argument_name(scene_id, id), &name));
    match &argument.expression {
        Some(expression) => {
            out.push(text_input(ControlId::scene_argument_expression(scene_id, id), expression));
            assert(input_views(out@) =~= before + argument_inputs(scene_id, argument@));
            return;
        },
        None => {},
    }
    let numeric = NumericInput::for_schema(&argument.schema).is_some();
    if numeric {
        match &argument.numeric_settings {
            Some((default, min, max)) => {
                out.push(
                    text_input(
                        ControlId::scene_argument_setting(scene_id, id, SceneArgumentSetting::Default),
                        default,
                    ),
                );
                out.push(
                    text_input(ControlId::scene_argument_setting(scene_id, id, SceneArgumentSetting::Min), min),
                );
                out.push(
                    text_input(ControlId::scene_argument_setting(scene_id, id, SceneArgumentSetting::Max), max),
                );
            },
            None => {},
        }
        assert(input_views(out@) =~= before + argument_inputs(scene_id, argument@));
        return;
    }
    match argument.schema.ty() {
        PropertyType::Value(PropertyValueType::Scalar(ScalarPropertyType::String)) => {
            let text = match &argument.text_default {
                Some(t) => t.clone(),
                None => String::new(),
            };
            out.push(text_input(ControlId::scene_argument_default(scene_id, id), &text));
        },
        PropertyType::Value(PropertyValueType::Scalar(ScalarPropertyType::Color)) => {
            out.push(SceneInput { id: ControlId::scene_argument_color(scene_id, id), value: SceneInputValue::Color });
        },
        _ => {},
    }
    assert(input_views(out@) =~= before + argument_inputs(scene_id, argument@));
}

/// The inputs the inspector keeps for the scene `scene_id` being edited,
/// named `name`, with its arguments (see [`scene_inputs_spec`]).
pub fn scene_inputs(scene_id: u64, name: &str, arguments: &Vec<SceneArgumentEntry>) -> (res: Vec<SceneInput>)
    ensures
        input_views(res@) == scene_inputs_spec(scene_id, name@, entry_views(arguments@)),
{
    let mut out: Vec<SceneInput> = Vec::new();
    out.push(SceneInput { id: ControlId::scene_name(scene_id), value: SceneInputValue::Text(name.to_owned()) });
    let ghost args = entry_views(arguments@);
    let n = arguments.len();
    assert(input_views(out@) =~= seq![(ControlIdView::SceneName(scene_id), Some(name@))]);
    for k in 0..n
        invariant
            n == args.len(),
            args == entry_views(arguments@),
            input_views(out@) == seq![(ControlIdView::SceneName(scene_id), Some(name@))]
                + arguments_inputs_upto(scene_id, args, k as nat),
    {
        push_argument_inputs(&mut out, scene_id, &arguments[k]);
        assert(args[k as int] == arguments@[k as int]@);
        assert(input_views(out@) =~= seq![(ControlIdView::SceneName(scene_id), Some(name@))]
            + arguments_inputs_upto(scene_id, args, (k + 1) as nat));
    }
    out
}

/// The arguments whose details are unfolded in the scene view, each named
/// by its scene and id; no argument is listed twice.
pub struct ExpandedSceneArguments {
    keys: Vec<(u64, String)>,
}

/// The views of a list of argument keys.
pub open spec fn key_views(v: Seq<(u64, String)>) -> Seq<(u64, Seq<char>)> {
    v.map_values(|k: (u64, String)| (k.0, k.1@))
}

impl View for ExpandedSceneArguments {
    type V = Set<(u64, Seq<char>)>;

    closed spec fn view(&self) -> Set<(u64, Seq<char>)> {
        key_views(self.keys@).to_set()
    }
}

impl ExpandedSceneArguments {
    /// No key appears twice.
    #[verifier::type_invariant]
    spec fn keys_distinct(self) -> bool {
        key_views(self.keys@).no_duplicates()
    }

    /// Nothing unfolded.
    pub fn new() -> (res: Self)
        ensures
            res@ == Set::<(u64, Seq<char>)>::empty(),
    {
        let res = ExpandedSceneArguments { keys: Vec::new() };
        assert(key_views(res.keys@) =~= Seq::<(u64, Seq<char>)>::empty());
        assert(res@ =~= Set::<(u64, Seq<char>)>::empty());
        res
    }

    fn position(&self, scene_id: u64, argument_id: &str) -> (res: Option<usize>)
        ensures
            match res {
                Some(i) => i < self.keys@.len() && key_views(self.keys@)[i as int] == (scene_id, argument_id@),
                None => !key_views(self.keys@).contains((scene_id, argument_id@)),
            },
    {
        let n = self.keys.len();
        for i in 0..n
            invariant
                n == self.keys@.len(),
                forall|k: int| 0 <= k < i ==> key_views(self.keys@)[k] != (scene_id, argument_id@),
        {
            if self.keys[i].0 == scene_id && str_equal(self.keys[i].1.as_str(), argument_id) {
                return Some(i);
            }
        }
        None
    }

    /// Whether the argument is unfolded.
    pub fn is_expanded(&self, scene_id: u64, argument_id: &str) -> (res: bool)
        ensures
            res == self@.contains((scene_id, argument_id@)),
    {
        let found = self.position(scene_id, argument_id);
        proof {
            if self@.contains((scene_id, argument_id@)) {
                assert(key_views(self.keys@).contains((scene_id, argument_id@)));
            }
        }
        found.is_some()
    }

    /// Unfolds the argument if it is folded, folds it if it is unfolded.
    pub fn toggle(&mut self, scene_id: u64, argument_id: &str)
        ensures
            final(self)@ == (if old(self)@.contains((scene_id, argument_id@)) {
                old(self)@.remove((scene_id, argument_id@))
            } else {
                old(self)@.insert((scene_id, argument_id@))
            }),
    {
        proof {
            use_type_invariant(&*self);
        }
        let ghost before = key_views(self.keys@);
        let ghost key = (scene_id, argument_id@);
        let found = self.position(scene_id, argument_id);
        let mut keys: Vec<(u64, String)> = Vec::new();
        std::mem::swap(&mut keys, &mut self.keys);
        assert(key_views(keys@) == before);
        match found {
            Some(i) => {
                keys.remove(i);
                let ghost after = key_views(keys@);
                assert(after =~= before.remove(i as int));
                assert(after.to_set() =~= before.to_set().remove(key)) by {
                    assert forall|x: (u64, Seq<char>)| after.contains(x) <==> before.contains(x) && x != key by {
                        if after.contains(x) {
                            let j = choose|j: int| 0 <= j < after.len() && after[j] == x;
                            if j < i {
                                assert(before[j] == x);
                            } else {
                                assert(before[j + 1] == x);
                            }
                        }
                        if before.contains(x) && x != key {
                            let j = choose|j: int| 0 <= j < before.len() && before[j] == x;
                            if j < i {
                                assert(after[j] == x);
                            } else {
                                assert(j != i);
                                assert(after[j - 1] == x);
                            }
                        }
                    }
                }
            },
            None => {
                keys.push((scene_id, argument_id.to_owned()));
                let ghost after = key_views(keys@);
                assert(after =~= before.push(key));
                assert(after.to_set() =~= before.to_set().insert(key)) by {
                    assert forall|x: (u64, Seq<char>)| after.contains(x) <==> before.contains(x) || x == key by {
                        if after.contains(x) {
                            let j = choose|j: int| 0 <= j < after.len() && after[j] == x;
                            if j < before.len() {
                                assert(before[j] == x);
                            }
                        }
                        if before.contains(x) {
                            let j = choose|j: int| 0 <= j < before.len() && before[j] == x;
                            assert(after[j] == x);
                        }
                        if x == key {
                            assert(after[before.len() as int] == x);
                        }
                    }
                }
            },
        }
        self.keys = keys;
    }
}

/// Toggling an argument twice leaves the unfolded arguments as they were.
pub proof fn lemma_toggle_twice_restores(s: Set<(u64, Seq<char>)>, key: (u64, Seq<char>))
    ensures
        ({
            let once = if s.contains(key) {
                s.remove(key)
            } else {
                s.insert(key)
            };
            let twice = if once.contains(key) {
                once.remove(key)
            } else {
                once.insert(key)
            };
            twice == s
        }),
{
    let once = if s.contains(key) {
        s.remove(key)
    } else {
        s.insert(key)
    };
    let twice = if once.contains(key) {
        once.remove(key)
    } else {
        once.insert(key)
    };
    assert(twice =~= s);
}

/// What the header of an argument of the scene being edited shows and allows.
pub struct SceneArgumentHeader {
    /// How many fields are bound to the argument.
    pub connections: String,
    pub move_up: bool,
    pub move_down: bool,
    /// The tooltip of the button that folds or unfolds the details.
    pub expand_tooltip: String,
    pub remove: bool,
    pub remove_tooltip: String,
}

/// The header of the argument at `index` of `count` arguments: it moves up
/// but for the first, down but for the last, and can be removed unless a
/// derived argument's expression refers to it.
pub fn scene_argument_header(
    index: usize,
    count: usize,
    argument: &SceneArgumentOption,
    expanded: bool,
) -> (res: SceneArgumentHeader)
    ensures
        res.connections@ == decimal(argument@.bindings.len()) + "件接続"@,
        res.move_up == (index != 0),
        res.move_down == (index + 1 != count),
        res.expand_tooltip@ == (if expanded {
            "詳細設定を折り畳む"@
        } else {
            "詳細設定を展開"@
        }),
        res.remove == !argument@.referenced_by_derived,
        res.remove_tooltip@ == (if argument@.referenced_by_derived {
            "式から参照されているため削除できません"@
        } else {
            "引数を削除"@
        }),
{
    let mut out: Vec<char> = Vec::new();
    push_decimal(&mut out, argument.binding_count() as u64);
    push_str(&mut out, "件接続");
    let referenced = argument.referenced_by_derived();
    SceneArgumentHeader {
        connections: string_from_chars(&out),
        move_up: index != 0,
        move_down: index as u128 + 1 != count as u128,
        expand_tooltip: if expanded {
            "詳細設定を折り畳む".to_owned()
        } else {
            "詳細設定を展開".to_owned()
        },
        remove: !referenced,
        remove_tooltip: if referenced {
            "式から参照されているため削除できません".to_owned()
        } else {
            "引数を削除".to_owned()
        },
    }
}

} // verus!
