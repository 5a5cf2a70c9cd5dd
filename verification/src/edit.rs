//! Structural edits of array properties: moving an element up or down and
//! removing it, each addressed by the element's stable id.
use vstd::prelude::*;
pub use crate::model::{PropertyElement, PropertyElementId};
use crate::model::PropertyValue;

verus! {

/// The views of a sequence of elements.
pub open spec fn element_views<V>(v: Seq<PropertyElement<V>>) -> Seq<(PropertyElementId, V)> {
    v.map_values(|e: PropertyElement<V>| e@)
}

/// An edit of an array property, addressed by element id.
#[derive(Clone, Copy, Debug, PartialEq, Eq, Hash, Structural)]
pub enum ArrayEdit {
    MoveUp(PropertyElementId),
    MoveDown(PropertyElementId),
    Remove(PropertyElementId),
}

/// The element an edit addresses.
pub open spec fn edit_target(edit: ArrayEdit) -> PropertyElementId {
    match edit {
        ArrayEdit::MoveUp(id) => id,
        ArrayEdit::MoveDown(id) => id,
        ArrayEdit::Remove(id) => id,
    }
}

impl ArrayEdit {
    /// The element the edit addresses.
    pub fn element_id(self) -> (res: PropertyElementId)
        ensures
            res == edit_target(self),
    {
        match self {
            Self::MoveUp(id) | Self::MoveDown(id) | Self::Remove(id) => id,
        }
    }
}

/// `i` is the first position of an element with id `id`.
pub open spec fn is_first_position<V>(s: Seq<(PropertyElementId, V)>, id: PropertyElementId, i: int) -> bool {
    &&& 0 <= i < s.len()
    &&& s[i].0 == id
    &&& forall|j: int| 0 <= j < i ==> #[trigger] s[j].0 != id
}

/// Some element has id `id`.
pub open spec fn has_element<V>(s: Seq<(PropertyElementId, V)>, id: PropertyElementId) -> bool {
    exists|i: int| 0 <= i < s.len() && #[trigger] s[i].0 == id
}

/// The first position of an element with id `id` (meaningful when there is one).
pub open spec fn first_position<V>(s: Seq<(PropertyElementId, V)>, id: PropertyElementId) -> int {
    choose|i: int| is_first_position(s, id, i)
}

/// `s` with the elements at `a` and `b` exchanged.
pub open spec fn swap_spec<A>(s: Seq<A>, a: int, b: int) -> Seq<A> {
    s.update(a, s[b]).update(b, s[a])
}

/// The elements after `edit`, or `None` when the edit does not apply: the
/// id is missing, the first element cannot move up, the last cannot move down.
pub open spec fn apply_edit_spec<V>(s: Seq<(PropertyElementId, V)>, edit: ArrayEdit) -> Option<Seq<(PropertyElementId, V)>> {
    if !has_element(s, edit_target(edit)) {
        None
    } else {
        let i = first_position(s, edit_target(edit));
        match edit {
            ArrayEdit::MoveUp(_) => if i > 0 {
                Some(swap_spec(s, i, i - 1))
            } else {
                None
            },
            ArrayEdit::MoveDown(_) => if i + 1 < s.len() {
                Some(swap_spec(s, i, i + 1))
            } else {
                None
            },
            ArrayEdit::Remove(_) => Some(s.remove(i)),
        }
    }
}

proof fn lemma_first_position_unique<V>(s: Seq<(PropertyElementId, V)>, id: PropertyElementId, i: int)
    requires
        is_first_position(s, id, i),
    ensures
        has_element(s, id),
        first_position(s, id) == i,
{
    assert(s[i].0 == id);
    let k = first_position(s, id);
    assert(is_first_position(s, id, k));
    if k < i {
        assert(s[k].0 != id);
    } else if k > i {
        assert(s[i].0 != id);
    }
}

/// Applies `edit` to the elements; returns whether anything changed.
pub fn apply_array_edit<V>(elements: &mut Vec<PropertyElement<V>>, edit: ArrayEdit) -> (changed: bool)
    ensures
        match apply_edit_spec(element_views(old(elements)@), edit) {
            Some(next) => changed && element_views(final(elements)@) == next,
            None => !changed && final(elements)@ == old(elements)@,
        },
{
    let ghost s = element_views(elements@);
    let id = edit.element_id();
    let n = elements.len();
    let mut index: usize = 0;
    while index < n
        invariant
            n == elements@.len(),
            s == element_views(elements@),
            index <= n,
            forall|j: int| 0 <= j < index ==> #[trigger] s[j].0 != id,
        ensures
            index <= n,
            forall|j: int| 0 <= j < index ==> #[trigger] s[j].0 != id,
            index < n ==> s[index as int].0 == id,
        decreases n - index,
    {
        assert(s[index as int] == elements@[index as int]@);
        if elements[index].element_id() == id {
            break;
        }
        index = index + 1;
    }
    if index == n {
        assert(!has_element(s, id)) by {
            if has_element(s, id) {
                let k = choose|k: int| 0 <= k < s.len() && #[trigger] s[k].0 == id;
                assert(s[k].0 != id);
            }
        }
        return false;
    }
    assert(s[index as int] == elements@[index as int]@);
    proof {
        lemma_first_position_unique(s, id, index as int);
    }
    match edit {
        ArrayEdit::MoveUp(_) => {
            if index > 0 {
                let element = elements.remove(index);
                elements.insert(index - 1, element);
                assert(element_views(elements@) =~= swap_spec(s, index as int, index - 1));
                true
            } else {
                false
            }
        },
        ArrayEdit::MoveDown(_) => {
            if index + 1 < n {
                let element = elements.remove(index);
                elements.insert(index + 1, element);
                assert(element_views(elements@) =~= swap_spec(s, index as int, index + 1));
                true
            } else {
                false
            }
        },
        ArrayEdit::Remove(_) => {
            elements.remove(index);
            assert(element_views(elements@) =~= s.remove(index as int));
            true
        },
    }
}


proof fn lemma_first_position_exists<V>(s: Seq<(PropertyElementId, V)>, id: PropertyElementId)
    requires
        has_element(s, id),
    ensures
        is_first_position(s, id, first_position(s, id)),
    decreases s.len(),
{
    let prefix = s.drop_last();
    if has_element(prefix, id) {
        lemma_first_position_exists(prefix, id);
        let i = first_position(prefix, id);
        assert(prefix[i] == s[i]);
        assert forall|j: int| 0 <= j < i implies #[trigger] s[j].0 != id by {
            assert(prefix[j] == s[j]);
            assert(prefix[j].0 != id);
        }
        assert(is_first_position(s, id, i));
    } else {
        let i = s.len() - 1;
        assert forall|j: int| 0 <= j < i implies #[trigger] s[j].0 != id by {
            assert(prefix[j] == s[j]);
        }
        if s[i].0 != id {
            let k = choose|k: int| 0 <= k < s.len() && #[trigger] s[k].0 == id;
            assert(prefix[k] == s[k]);
        }
        assert(is_first_position(s, id, i));
    }
}

/// Moving an element up and then down again restores the array.
pub proof fn lemma_move_up_then_down_restores<V>(s: Seq<(PropertyElementId, V)>, id: PropertyElementId)
    requires
        apply_edit_spec(s, ArrayEdit::MoveUp(id)) is Some,
    ensures
        apply_edit_spec(apply_edit_spec(s, ArrayEdit::MoveUp(id)).unwrap(), ArrayEdit::MoveDown(id))
            == Some(s),
{
    lemma_first_position_exists(s, id);
    let i = first_position(s, id);
    let t = swap_spec(s, i, i - 1);
    assert(is_first_position(t, id, i - 1)) by {
        assert forall|j: int| 0 <= j < i - 1 implies #[trigger] t[j].0 != id by {
            assert(t[j] == s[j]);
        }
    }
    lemma_first_position_unique(t, id, i - 1);
    assert(swap_spec(t, i - 1, i) =~= s);
}

/// When element ids are unique, moving an element down and then up again
/// restores the array.
pub proof fn lemma_move_down_then_up_restores<V>(s: Seq<(PropertyElementId, V)>, id: PropertyElementId)
    requires
        ids_unique(s),
        apply_edit_spec(s, ArrayEdit::MoveDown(id)) is Some,
    ensures
        apply_edit_spec(apply_edit_spec(s, ArrayEdit::MoveDown(id)).unwrap(), ArrayEdit::MoveUp(id))
            == Some(s),
{
    lemma_first_position_exists(s, id);
    let i = first_position(s, id);
    let t = swap_spec(s, i, i + 1);
    assert(is_first_position(t, id, i + 1)) by {
        assert forall|j: int| 0 <= j < i + 1 implies #[trigger] t[j].0 != id by {
            if j < i {
                assert(t[j] == s[j]);
            } else {
                assert(t[j] == s[i + 1]);
                assert(s[i].0 != s[i + 1].0);
            }
        }
    }
    lemma_first_position_unique(t, id, i + 1);
    assert(swap_spec(t, i + 1, i) =~= s);
}

/// All element ids differ.
pub open spec fn ids_unique<V>(s: Seq<(PropertyElementId, V)>) -> bool {
    forall|a: int, b: int| 0 <= a < b < s.len() ==> #[trigger] s[a].0 != #[trigger] s[b].0
}

/// When ids are unique, removing an element leaves no element with its id,
/// keeps the other elements in order and keeps ids unique.
pub proof fn lemma_remove_deletes_element<V>(s: Seq<(PropertyElementId, V)>, id: PropertyElementId)
    requires
        ids_unique(s),
        has_element(s, id),
    ensures
        apply_edit_spec(s, ArrayEdit::Remove(id)) == Some(s.remove(first_position(s, id))),
        !has_element(s.remove(first_position(s, id)), id),
        ids_unique(s.remove(first_position(s, id))),
        s.remove(first_position(s, id)).len() == s.len() - 1,
{
    let k = choose|k: int| 0 <= k < s.len() && #[trigger] s[k].0 == id;
    assert forall|j: int| 0 <= j < k implies #[trigger] s[j].0 != id by {
        assert(s[j].0 != s[k].0);
    }
    assert(is_first_position(s, id, k));
    lemma_first_position_unique(s, id, k);
    let t = s.remove(k);
    assert forall|j: int| 0 <= j < t.len() implies #[trigger] t[j].0 != id by {
        if j < k {
            assert(t[j] == s[j]);
        } else {
            assert(t[j] == s[j + 1]);
            assert(s[k].0 != s[j + 1].0);
        }
    }
    assert forall|a: int, b: int| 0 <= a < b < t.len() implies #[trigger] t[a].0 != #[trigger] t[b].0 by {
        let oa = if a < k { a } else { a + 1 };
        let ob = if b < k { b } else { b + 1 };
        assert(t[a] == s[oa] && t[b] == s[ob]);
    }
}

/// Applies `edit` to an array value; any other value is left alone.
/// Returns whether anything changed.
pub fn edit_array_value<F, C>(value: &mut PropertyValue<F, C>, edit: ArrayEdit) -> (changed: bool)
    ensures
        match *old(value) {
            PropertyValue::Array(elements) => match apply_edit_spec(element_views(elements@), edit) {
                Some(next) => changed && (*final(value) matches PropertyValue::Array(after) && element_views(
                    after@,
                ) == next),
                None => !changed && (*final(value) matches PropertyValue::Array(after) && after@ == elements@),
            },
            _ => !changed && *final(value) == *old(value),
        },
{
    match value {
        PropertyValue::Array(elements) => apply_array_edit(elements, edit),
        _ => false,
    }
}

} // verus!
