//! Keeping the inspector in step with the editor: the structure of the
//! inputs (which item, which effects, how long each array, which scene
//! arguments), whose change means the inputs are built anew, and what else
//! a change of the selection resets.
use vstd::prelude::*;
use crate::inspector::{
    effect_views, value_entry_views, EffectInstanceId, EffectInstanceView, ItemId, TimelineItem,
    TimelineItemView,
};
use crate::model::{str_equal, PropertyValue};
use crate::text::{lemma_lex_irreflexive, lemma_lex_total, lemma_lex_transitive, lex_less, lex_less_chars, str_chars};

verus! {

broadcast use vstd::seq_lib::group_to_multiset_ensures;

/// The length of an array property: the effect owning it (none for the
/// item's own property), the property's id, and the number of elements.
pub type ArrayLength = (Option<u64>, String, usize);

/// The view of an [`ArrayLength`].
pub type ArrayLengthView = (Option<u64>, Seq<char>, usize);

/// What decides whether the inspector's inputs are built anew: the selected
/// item, its effects, the lengths of its arrays, and the arguments of its
/// scene and of the scene being edited.
pub struct InspectorInputStructure {
    pub item_id: Option<ItemId>,
    pub effect_ids: Vec<EffectInstanceId>,
    pub array_lengths: Vec<ArrayLength>,
    pub item_scene_arguments: Vec<String>,
    pub active_scene: Option<u64>,
    pub active_scene_arguments: Vec<String>,
}

/// The mathematical value of an [`InspectorInputStructure`].
pub struct InputStructureView {
    pub item_id: Option<ItemId>,
    pub effect_ids: Seq<EffectInstanceId>,
    pub array_lengths: Seq<ArrayLengthView>,
    pub item_scene_arguments: Seq<Seq<char>>,
    pub active_scene: Option<u64>,
    pub active_scene_arguments: Seq<Seq<char>>,
}

/// The views of a sequence of strings.
pub open spec fn strings_view(v: Seq<String>) -> Seq<Seq<char>> {
    v.map_values(|s: String| s@)
}

/// The views of a sequence of array lengths.
pub open spec fn lengths_view(v: Seq<ArrayLength>) -> Seq<ArrayLengthView> {
    v.map_values(|l: ArrayLength| (l.0, l.1@, l.2))
}

impl View for InspectorInputStructure {
    type V = InputStructureView;

    open spec fn view(&self) -> InputStructureView {
        InputStructureView {
            item_id: self.item_id,
            effect_ids: self.effect_ids@,
            array_lengths: lengths_view(self.array_lengths@),
            item_scene_arguments: strings_view(self.item_scene_arguments@),
            active_scene: self.active_scene,
            active_scene_arguments: strings_view(self.active_scene_arguments@),
        }
    }
}

/// The order of array lengths: by owner (the item's own properties first,
/// then effects by id), then by property id, then by length.
pub open spec fn length_less(a: ArrayLengthView, b: ArrayLengthView) -> bool {
    let owner_less = match (a.0, b.0) {
        (None, Some(_)) => true,
        (Some(x), Some(y)) => x < y,
        _ => false,
    };
    owner_less || (a.0 == b.0 && (lex_less(a.1, b.1) || (a.1 == b.1 && a.2 < b.2)))
}

/// No two array lengths are out of order.
pub open spec fn lengths_sorted(s: Seq<ArrayLengthView>) -> bool {
    forall|i: int, j: int| 0 <= i < j < s.len() ==> !length_less(#[trigger] s[j], #[trigger] s[i])
}

proof fn lemma_length_irreflexive(a: ArrayLengthView)
    ensures
        !length_less(a, a),
{
    lemma_lex_irreflexive(a.1);
}

proof fn lemma_length_transitive(a: ArrayLengthView, b: ArrayLengthView, c: ArrayLengthView)
    requires
        length_less(a, b),
        length_less(b, c),
    ensures
        length_less(a, c),
{
    if a.0 == b.0 && b.0 == c.0 && a.1 != c.1 {
        if lex_less(a.1, b.1) && lex_less(b.1, c.1) {
            lemma_lex_transitive(a.1, b.1, c.1);
        }
    }
    if a.0 == c.0 && a.1 == c.1 && a.0 == b.0 {
        if lex_less(a.1, b.1) && lex_less(b.1, c.1) {
            lemma_lex_transitive(a.1, b.1, c.1);
            lemma_lex_irreflexive(a.1);
        }
        if lex_less(a.1, b.1) && b.1 == c.1 {
            lemma_lex_irreflexive(a.1);
        }
        if a.1 == b.1 && lex_less(b.1, c.1) {
            lemma_lex_irreflexive(a.1);
        }
    }
}

proof fn lemma_length_total(a: ArrayLengthView, b: ArrayLengthView)
    requires
        a != b,
    ensures
        length_less(a, b) || length_less(b, a),
{
    if a.0 == b.0 && a.1 != b.1 {
        lemma_lex_total(a.1, b.1);
    }
}

/// Array lengths in order are fixed by which lengths there are: two sorted
/// lists of the same lengths are equal. So the structure does not depend on
/// the order in which an item lists its arrays.
pub proof fn lemma_sorted_lengths_unique(a: Seq<ArrayLengthView>, b: Seq<ArrayLengthView>)
    requires
        lengths_sorted(a),
        lengths_sorted(b),
        a.to_multiset() == b.to_multiset(),
    ensures
        a == b,
    decreases a.len(),
{
    broadcast use vstd::seq_lib::group_to_multiset_ensures;
    broadcast use vstd::multiset::group_multiset_axioms;

    vstd::seq_lib::to_multiset_len(a);
    vstd::seq_lib::to_multiset_len(b);
    if a.len() == 0 {
        assert(a =~= b);
        return;
    }
    // The first of each list is the other's first as well.
    assert(a.to_multiset().count(a[0]) > 0);
    assert(b.contains(a[0]));
    let j = choose|j: int| 0 <= j < b.len() && b[j] == a[0];
    assert(b.to_multiset().count(b[0]) > 0);
    assert(a.contains(b[0]));
    let i = choose|i: int| 0 <= i < a.len() && a[i] == b[0];
    if a[0] != b[0] {
        lemma_length_total(a[0], b[0]);
        if length_less(a[0], b[0]) {
            // b[j] == a[0] comes before b[0]
            assert(j != 0);
            assert(!length_less(b[j], b[0]));
        } else {
            assert(i != 0);
            assert(!length_less(a[i], a[0]));
        }
    }
    assert(a[0] == b[0]);
    vstd::seq_lib::to_multiset_remove(a, 0);
    vstd::seq_lib::to_multiset_remove(b, 0);
    assert(a.remove(0) =~= a.drop_first());
    assert(b.remove(0) =~= b.drop_first());
    let ra = a.drop_first();
    let rb = b.drop_first();
    assert forall|x: int, y: int| 0 <= x < y < ra.len() implies !length_less(#[trigger] ra[y], #[trigger] ra[x]) by {
        assert(ra[x] == a[x + 1] && ra[y] == a[y + 1]);
    }
    assert forall|x: int, y: int| 0 <= x < y < rb.len() implies !length_less(#[trigger] rb[y], #[trigger] rb[x]) by {
        assert(rb[x] == b[x + 1] && rb[y] == b[y + 1]);
    }
    lemma_sorted_lengths_unique(ra, rb);
    assert(a =~= seq![a[0]] + ra);
    assert(b =~= seq![b[0]] + rb);
}

/// The array lengths of the properties `values` of one owner, in order.
pub open spec fn owner_lengths<F, C>(
    owner: Option<u64>,
    values: Seq<(Seq<char>, PropertyValue<F, C>)>,
) -> Seq<ArrayLengthView>
    decreases values.len(),
{
    if values.len() == 0 {
        Seq::empty()
    } else {
        let rest = owner_lengths(owner, values.drop_last());
        match values.last().1 {
            PropertyValue::Array(elements) => rest.push((owner, values.last().0, elements.len())),
            _ => rest,
        }
    }
}

/// The array lengths of the first `n` effects, effect after effect.
pub open spec fn effects_lengths<F, C>(effects: Seq<EffectInstanceView<PropertyValue<F, C>>>, n: nat) -> Seq<
    ArrayLengthView,
>
    decreases n,
{
    if n == 0 {
        Seq::empty()
    } else {
        effects_lengths(effects, (n - 1) as nat) + owner_lengths(
            Some(effects[n - 1].id.0),
            effects[n - 1].properties,
        )
    }
}

/// The array lengths of an item: those of its own properties, then those of
/// each effect.
pub open spec fn item_lengths<F, C>(item: TimelineItemView<PropertyValue<F, C>>) -> Seq<ArrayLengthView> {
    owner_lengths(None, item.properties) + effects_lengths(item.effects, item.effects.len())
}

fn length_less_exec(a: &ArrayLength, b: &ArrayLength) -> (res: bool)
    ensures
        res == length_less((a.0, a.1@, a.2), (b.0, b.1@, b.2)),
{
    match (a.0, b.0) {
        (None, Some(_)) => return true,
        (Some(x), Some(y)) => {
            if x < y {
                return true;
            }
            if x != y {
                return false;
            }
        },
        (Some(_), None) => return false,
        (None, None) => {},
    }
    let x = str_chars(a.1.as_str());
    let y = str_chars(b.1.as_str());
    if lex_less_chars(&x, &y) {
        return true;
    }
    str_equal(a.1.as_str(), b.1.as_str()) && a.2 < b.2
}

fn insert_sorted(sorted: &mut Vec<ArrayLength>, x: ArrayLength)
    requires
        lengths_sorted(lengths_view(old(sorted)@)),
    ensures
        lengths_sorted(lengths_view(final(sorted)@)),
        lengths_view(final(sorted)@).to_multiset() == lengths_view(old(sorted)@).to_multiset().insert(
            (x.0, x.1@, x.2),
        ),
{
    let ghost s = lengths_view(sorted@);
    let ghost xv = (x.0, x.1@, x.2);
    let n = sorted.len();
    let mut p: usize = 0;
    while p < n
        invariant
            p <= n,
            n == s.len(),
            s == lengths_view(sorted@),
            xv == (x.0, x.1@, x.2),
            forall|k: int| 0 <= k < p ==> !length_less(xv, #[trigger] s[k]),
        ensures
            p <= n,
            forall|k: int| 0 <= k < p ==> !length_less(xv, #[trigger] s[k]),
            p < n ==> length_less(xv, s[p as int]),
        decreases n - p,
    {
        let less = length_less_exec(&x, &sorted[p]);
        assert(s[p as int] == (sorted@[p as int].0, sorted@[p as int].1@, sorted@[p as int].2));
        assert(less == length_less(xv, s[p as int]));
        if less {
            break;
        }
        p = p + 1;
    }
    sorted.insert(p, x);
    let ghost t = lengths_view(sorted@);
    assert(t =~= s.insert(p as int, xv));
    assert forall|i: int, j: int| 0 <= i < j < t.len() implies !length_less(#[trigger] t[j], #[trigger] t[i]) by {
        if j < p {
            assert(t[i] == s[i] && t[j] == s[j]);
        } else if i > p {
            assert(t[i] == s[i - 1] && t[j] == s[j - 1]);
        } else if i == p {
            assert(t[i] == xv);
            assert(t[j] == s[j - 1]);
            if length_less(s[j - 1], xv) {
                if j - 1 == p {
                    lemma_length_transitive(xv, s[p as int], xv);
                    lemma_length_irreflexive(xv);
                } else {
                    lemma_length_transitive(s[j - 1], xv, s[p as int]);
                    assert(!length_less(s[j - 1], s[p as int]));
                }
            }
        } else if j == p {
            assert(t[i] == s[i]);
            assert(t[j] == xv);
        } else {
            assert(t[i] == s[i] && t[j] == s[j - 1]);
        }
    }
}

fn push_owner_lengths<F, C>(
    out: &mut Vec<ArrayLength>,
    owner: Option<u64>,
    values: &Vec<(String, PropertyValue<F, C>)>,
)
    ensures
        lengths_view(final(out)@) == lengths_view(old(out)@) + owner_lengths(owner, value_entry_views(values@)),
{
    let ghost vs = value_entry_views(values@);
    let ghost start = lengths_view(out@);
    let n = values.len();
    for i in 0..n
        invariant
            n == vs.len(),
            vs == value_entry_views(values@),
            lengths_view(out@) == start + owner_lengths(owner, vs.subrange(0, i as int)),
    {
        let ghost prefix = vs.subrange(0, i + 1);
        assert(prefix.drop_last() =~= vs.subrange(0, i as int));
        assert(prefix.last() == (values@[i as int].0@, values@[i as int].1));
        match &values[i].1 {
            PropertyValue::Array(elements) => {
                let ghost prev = out@;
                out.push((owner, values[i].0.clone(), elements.len()));
                assert(lengths_view(out@) =~= lengths_view(prev).push((owner, values@[i as int].0@, elements.len())));
                assert(lengths_view(out@) =~= start + owner_lengths(owner, prefix));
            },
            _ => {
                assert(lengths_view(out@) =~= start + owner_lengths(owner, prefix));
            },
        }
    }
    assert(vs.subrange(0, n as int) =~= vs);
}

/// The ids of effects, in order.
pub open spec fn effect_ids_of<V>(effects: Seq<EffectInstanceView<V>>) -> Seq<EffectInstanceId> {
    effects.map_values(|e: EffectInstanceView<V>| e.id)
}

fn copy_strings(v: &Vec<String>) -> (res: Vec<String>)
    ensures
        strings_view(res@) == strings_view(v@),
{
    let mut res: Vec<String> = Vec::new();
    let n = v.len();
    for i in 0..n
        invariant
            n == v@.len(),
            strings_view(res@) =~= strings_view(v@).subrange(0, i as int),
    {
        let ghost prev = res@;
        res.push(v[i].clone());
        assert(strings_view(res@) =~= strings_view(prev).push(v@[i as int]@));
    }
    assert(strings_view(v@).subrange(0, n as int) =~= strings_view(v@));
    res
}

fn sorted_lengths(raw: &Vec<ArrayLength>) -> (res: Vec<ArrayLength>)
    ensures
        lengths_sorted(lengths_view(res@)),
        lengths_view(res@).to_multiset() == lengths_view(raw@).to_multiset(),
{
    let ghost rv = lengths_view(raw@);
    let mut sorted: Vec<ArrayLength> = Vec::new();
    let n = raw.len();
    assert(lengths_view(sorted@) =~= Seq::<ArrayLengthView>::empty());
    for i in 0..n
        invariant
            n == rv.len(),
            rv == lengths_view(raw@),
            lengths_sorted(lengths_view(sorted@)),
            lengths_view(sorted@).to_multiset() == rv.subrange(0, i as int).to_multiset(),
    {
        let x = (raw[i].0, raw[i].1.clone(), raw[i].2);
        assert(rv[i as int] == (x.0, x.1@, x.2));
        insert_sorted(&mut sorted, x);
        assert(rv.subrange(0, i + 1) =~= rv.subrange(0, i as int).push(rv[i as int]));
    }
    assert(rv.subrange(0, n as int) =~= rv);
    sorted
}

/// The structure of the inspector's inputs for the selected item `item`
/// (none when nothing is selected): its id, the ids of its effects, the
/// lengths of its arrays and of its effects' arrays in order, the arguments
/// of its scene, and the scene being edited with its arguments.
pub fn current_input_structure<F, C>(
    item: Option<&TimelineItem<PropertyValue<F, C>>>,
    item_scene_arguments: &Vec<String>,
    active_scene: Option<u64>,
    active_scene_arguments: &Vec<String>,
) -> (res: InspectorInputStructure)
    ensures
        res@.item_id == (match item {
            Some(i) => Some(i@.id),
            None => None,
        }),
        res@.effect_ids == (match item {
            Some(i) => effect_ids_of(i@.effects),
            None => Seq::empty(),
        }),
        lengths_sorted(res@.array_lengths),
        res@.array_lengths.to_multiset() == (match item {
            Some(i) => item_lengths(i@),
            None => Seq::empty(),
        }).to_multiset(),
        res@.item_scene_arguments == strings_view(item_scene_arguments@),
        res@.active_scene == active_scene,
        res@.active_scene_arguments == strings_view(active_scene_arguments@),
{
    let mut raw: Vec<ArrayLength> = Vec::new();
    let mut effect_ids: Vec<EffectInstanceId> = Vec::new();
    let item_id = match item {
        Some(item) => {
            push_owner_lengths(&mut raw, None, item.properties().entries());
            let effects = item.effects();
            let ghost views = effect_views(effects@);
            let n = effects.len();
            assert(lengths_view(raw@) =~= owner_lengths(None, item@.properties) + effects_lengths(views, 0));
            for k in 0..n
                invariant
                    n == views.len(),
                    views == effect_views(effects@),
                    views == item@.effects,
                    lengths_view(raw@) == owner_lengths(None, item@.properties) + effects_lengths(views, k as nat),
                    effect_ids@ == effect_ids_of(views).subrange(0, k as int),
            {
                let effect = &effects[k];
                assert(views[k as int] == effect@);
                push_owner_lengths(&mut raw, Some(effect.id().get()), effect.properties().entries());
                effect_ids.push(effect.id());
                assert(effect_ids_of(views).subrange(0, k + 1) =~= effect_ids_of(views).subrange(
                    0,
                    k as int,
                ).push(effect@.id));
            }
            assert(effect_ids_of(views).subrange(0, n as int) =~= effect_ids_of(views));
            Some(item.id())
        },
        None => {
            assert(lengths_view(raw@) =~= Seq::<ArrayLengthView>::empty());
            assert(effect_ids@ =~= Seq::<EffectInstanceId>::empty());
            None
        },
    };
    let array_lengths = sorted_lengths(&raw);
    InspectorInputStructure {
        item_id,
        effect_ids,
        array_lengths,
        item_scene_arguments: copy_strings(item_scene_arguments),
        active_scene,
        active_scene_arguments: copy_strings(active_scene_arguments),
    }
}

fn same_strings(a: &Vec<String>, b: &Vec<String>) -> (res: bool)
    ensures
        res == (strings_view(a@) == strings_view(b@)),
{
    if a.len() != b.len() {
        assert(strings_view(a@).len() != strings_view(b@).len());
        return false;
    }
    let n = a.len();
    for i in 0..n
        invariant
            n == a@.len(),
            n == b@.len(),
            forall|k: int| 0 <= k < i ==> #[trigger] strings_view(a@)[k] == strings_view(b@)[k],
    {
        if !str_equal(a[i].as_str(), b[i].as_str()) {
            assert(strings_view(a@)[i as int] != strings_view(b@)[i as int]);
            return false;
        }
    }
    assert(strings_view(a@) =~= strings_view(b@));
    true
}

fn same_lengths(a: &Vec<ArrayLength>, b: &Vec<ArrayLength>) -> (res: bool)
    ensures
        res == (lengths_view(a@) == lengths_view(b@)),
{
    if a.len() != b.len() {
        assert(lengths_view(a@).len() != lengths_view(b@).len());
        return false;
    }
    let n = a.len();
    for i in 0..n
        invariant
            n == a@.len(),
            n == b@.len(),
            forall|k: int| 0 <= k < i ==> #[trigger] lengths_view(a@)[k] == lengths_view(b@)[k],
    {
        if !(a[i].0 == b[i].0 && a[i].2 == b[i].2 && str_equal(a[i].1.as_str(), b[i].1.as_str())) {
            assert(lengths_view(a@)[i as int] != lengths_view(b@)[i as int]);
            return false;
        }
    }
    assert(lengths_view(a@) =~= lengths_view(b@));
    true
}

fn same_effect_ids(a: &Vec<EffectInstanceId>, b: &Vec<EffectInstanceId>) -> (res: bool)
    ensures
        res == (a@ == b@),
{
    if a.len() != b.len() {
        return false;
    }
    let n = a.len();
    for i in 0..n
        invariant
            n == a@.len(),
            n == b@.len(),
            forall|k: int| 0 <= k < i ==> a@[k] == b@[k],
    {
        if a[i] != b[i] {
            return false;
        }
    }
    assert(a@ =~= b@);
    true
}

/// Whether two input structures are the same.
pub fn same_structure(a: &InspectorInputStructure, b: &InspectorInputStructure) -> (res: bool)
    ensures
        res == (a@ == b@),
{
    a.item_id == b.item_id && a.active_scene == b.active_scene && same_effect_ids(&a.effect_ids, &b.effect_ids)
        && same_lengths(&a.array_lengths, &b.array_lengths) && same_strings(
        &a.item_scene_arguments,
        &b.item_scene_arguments,
    ) && same_strings(&a.active_scene_arguments, &b.active_scene_arguments)
}

/// What a sync with the editor does besides resolving the controls again:
/// whether the inputs are built anew, whether the file error is cleared, and
/// whether the inspector edits a scene.
#[derive(Clone, Copy, Debug, PartialEq, Eq, Structural)]
pub struct SyncDecision {
    pub rebuild_inputs: bool,
    pub clear_file_error: bool,
    pub editing_scene: bool,
}

/// Decides a sync: the inputs are built anew when their structure changed
/// (or there was none), the file error is cleared when another item is
/// selected, and a scene is edited when one is active and exactly one item
/// is selected.
pub fn sync_decision(
    previous: Option<&InspectorInputStructure>,
    current: &InspectorInputStructure,
    selected_count: usize,
    scene_active: bool,
) -> (res: SyncDecision)
    ensures
        res.rebuild_inputs == (match previous {
            Some(p) => p@ != current@,
            None => true,
        }),
        res.clear_file_error == ((match previous {
            Some(p) => p@.item_id,
            None => None,
        }) != current@.item_id),
        res.editing_scene == (scene_active && selected_count == 1),
{
    let (rebuild_inputs, previous_item) = match previous {
        Some(p) => (!same_structure(p, current), p.item_id),
        None => (true, None),
    };
    SyncDecision {
        rebuild_inputs,
        clear_file_error: previous_item != current.item_id,
        editing_scene: scene_active && selected_count == 1,
    }
}

} // verus!
