//! The search picker: entries with lower-cased search text, matching of
//! whitespace-separated queries, stable ordering by category and label, and
//! grouping of the visible entries into category sections.
use vstd::prelude::*;
use crate::text::{
    all_ascii, ascii_lower, ascii_lower_char, ascii_split_prefix, ascii_tokens, ascii_upper, ascii_upper_char,
    ascii_whitespace, is_ascii_char, lemma_ascii_tokens_ascii, char_views, contains_chars, contains_seq, is_whitespace, lemma_lex_irreflexive, lemma_lex_total,
    lemma_lex_transitive, lex_less, lex_less_chars, lowercase, push_str, split_whitespace,
    split_prefix, str_chars, string_from_chars, to_lowercase, whitespace_tokens,
};

verus! {

/// One selectable entry of a search picker.
pub struct SearchPickerEntry<T> {
    label: String,
    category: String,
    searchable_text: String,
    value: T,
}

/// The mathematical value of a [`SearchPickerEntry`].
pub struct SearchPickerEntryView<T> {
    pub label: Seq<char>,
    pub category: Seq<char>,
    pub searchable_text: Seq<char>,
    pub value: T,
}

impl<T> View for SearchPickerEntry<T> {
    type V = SearchPickerEntryView<T>;

    closed spec fn view(&self) -> SearchPickerEntryView<T> {
        SearchPickerEntryView {
            label: self.label@,
            category: self.category@,
            searchable_text: self.searchable_text@,
            value: self.value,
        }
    }
}

/// The views of a sequence of strings.
pub open spec fn string_views(v: Seq<String>) -> Seq<Seq<char>> {
    v.map_values(|s: String| s@)
}

/// The search text contributed by extra search terms: each term, lower-cased,
/// on a line of its own.
pub open spec fn search_terms_text(terms: Seq<Seq<char>>) -> Seq<char>
    decreases terms.len(),
{
    if terms.len() == 0 {
        Seq::empty()
    } else {
        search_terms_text(terms.drop_last()) + seq!['\n'] + lowercase(terms.last())
    }
}

/// The lower-cased tokens of a query.
pub open spec fn lowered_tokens(query: Seq<char>) -> Seq<Seq<char>> {
    whitespace_tokens(query).map_values(|t: Seq<char>| lowercase(t))
}

/// Every token occurs in `text`.
pub open spec fn matches_tokens(text: Seq<char>, tokens: Seq<Seq<char>>) -> bool {
    forall|i: int| 0 <= i < tokens.len() ==> contains_seq(text, #[trigger] tokens[i])
}

/// An entry with search text `text` matches `query` when every
/// whitespace-separated token of the query, lower-cased, occurs in the text.
pub open spec fn entry_matches(text: Seq<char>, query: Seq<char>) -> bool {
    matches_tokens(text, lowered_tokens(query))
}

/// The tokens of an ASCII query, with their ASCII letters in lower case.
pub open spec fn ascii_lowered_tokens(query: Seq<char>) -> Seq<Seq<char>> {
    ascii_tokens(query).map_values(|t: Seq<char>| ascii_lower(t))
}

/// Whether an entry with search text `text` matches an ASCII query.
pub open spec fn ascii_entry_matches(text: Seq<char>, query: Seq<char>) -> bool {
    matches_tokens(text, ascii_lowered_tokens(query))
}

/// The lower-cased tokens of `query`; for an ASCII query, its tokens with
/// `A`-`Z` turned into `a`-`z`.
pub fn query_tokens(query: &str) -> (tokens: Vec<Vec<char>>)
    ensures
        char_views(tokens@) == lowered_tokens(query@),
        all_ascii(query@) ==> char_views(tokens@) == ascii_lowered_tokens(query@),
{
    let raw = split_whitespace(query);
    proof {
        if all_ascii(query@) {
            lemma_ascii_tokens_ascii(query@);
        }
    }
    let mut tokens: Vec<Vec<char>> = Vec::new();
    let n = raw.len();
    for i in 0..n
        invariant
            n == raw@.len(),
            char_views(raw@) == whitespace_tokens(query@),
            char_views(tokens@) == lowered_tokens(query@).subrange(0, i as int),
            all_ascii(query@) ==> whitespace_tokens(query@) == ascii_tokens(query@),
            all_ascii(query@) ==> forall|j: int| 0 <= j < ascii_tokens(query@).len() ==> all_ascii(#[trigger] ascii_tokens(query@)[j]),
            all_ascii(query@) ==> char_views(tokens@) == ascii_lowered_tokens(query@).subrange(0, i as int),
    {
        let word = string_from_chars(&raw[i]);
        let lower = to_lowercase(word.as_str());
        let ghost prev = tokens@;
        tokens.push(str_chars(lower.as_str()));
        assert(char_views(raw@)[i as int] == raw@[i as int]@);
        assert(char_views(tokens@) =~= char_views(prev).push(lower@));
        assert(lowered_tokens(query@).subrange(0, i + 1) =~= lowered_tokens(query@).subrange(
            0,
            i as int,
        ).push(lowered_tokens(query@)[i as int]));
        proof {
            if all_ascii(query@) {
                assert(all_ascii(ascii_tokens(query@)[i as int]));
                assert(ascii_lowered_tokens(query@).subrange(0, i + 1) =~= ascii_lowered_tokens(query@).subrange(
                    0,
                    i as int,
                ).push(ascii_lower(word@)));
            }
        }
    }
    assert(lowered_tokens(query@).subrange(0, n as int) =~= lowered_tokens(query@));
    proof {
        if all_ascii(query@) {
            assert(ascii_lowered_tokens(query@).subrange(0, n as int) =~= ascii_lowered_tokens(query@));
        }
    }
    tokens
}

/// Whether every token occurs in `text`.
pub fn matches_lowered(text: &Vec<char>, tokens: &Vec<Vec<char>>) -> (res: bool)
    ensures
        res == matches_tokens(text@, char_views(tokens@)),
{
    let n = tokens.len();
    for i in 0..n
        invariant
            n == tokens@.len(),
            forall|k: int| 0 <= k < i ==> contains_seq(text@, #[trigger] char_views(tokens@)[k]),
    {
        if !contains_chars(text, &tokens[i]) {
            assert(char_views(tokens@)[i as int] == tokens@[i as int]@);
            return false;
        }
    }
    true
}

impl<T> SearchPickerEntry<T> {
    /// An entry whose search text is its label and category, lower-cased,
    /// on two lines.
    pub fn new(label: &str, category: &str, value: T) -> (res: Self)
        ensures
            res@ == (SearchPickerEntryView {
                label: label@,
                category: category@,
                searchable_text: lowercase(label@ + seq!['\n'] + category@),
                value,
            }),
    {
        let mut text: Vec<char> = Vec::new();
        push_str(&mut text, label);
        text.push('\n');
        push_str(&mut text, category);
        assert(text@ =~= label@ + seq!['\n'] + category@);
        let joined = string_from_chars(&text);
        SearchPickerEntry {
            label: label.to_owned(),
            category: category.to_owned(),
            searchable_text: to_lowercase(joined.as_str()),
            value,
        }
    }

    /// Adds search terms: each term, lower-cased, is appended to the search
    /// text on a line of its own.
    pub fn search_terms(self, terms: &Vec<String>) -> (res: Self)
        ensures
            res@ == (SearchPickerEntryView {
                searchable_text: self@.searchable_text + search_terms_text(string_views(terms@)),
                ..self@
            }),
    {
        let mut text = str_chars(self.searchable_text.as_str());
        let n = terms.len();
        for i in 0..n
            invariant
                n == terms@.len(),
                text@ == self@.searchable_text + search_terms_text(
                    string_views(terms@).subrange(0, i as int),
                ),
        {
            text.push('\n');
            let lower = to_lowercase(terms[i].as_str());
            push_str(&mut text, lower.as_str());
            assert(string_views(terms@).subrange(0, i + 1).drop_last() =~= string_views(
                terms@,
            ).subrange(0, i as int));
            assert(text@ =~= self@.searchable_text + search_terms_text(
                string_views(terms@).subrange(0, i + 1),
            ));
        }
        assert(string_views(terms@).subrange(0, n as int) =~= string_views(terms@));
        SearchPickerEntry {
            label: self.label,
            category: self.category,
            searchable_text: string_from_chars(&text),
            value: self.value,
        }
    }

    /// The entry of a plugin in the catalog: searchable by its label and
    /// category, and also by the plugin's id, the entry's id and its tags.
    pub fn from_plugin_schema(
        plugin_id: &str,
        schema_id: &str,
        label: &str,
        category: &str,
        tags: &Vec<String>,
        value: T,
    ) -> (res: Self)
        ensures
            res@ == (SearchPickerEntryView {
                label: label@,
                category: category@,
                searchable_text: lowercase(label@ + seq!['\n'] + category@) + search_terms_text(
                    seq![plugin_id@, schema_id@] + string_views(tags@),
                ),
                value,
            }),
    {
        let mut terms: Vec<String> = Vec::new();
        terms.push(plugin_id.to_owned());
        terms.push(schema_id.to_owned());
        let n = tags.len();
        for i in 0..n
            invariant
                n == tags@.len(),
                string_views(terms@) == seq![plugin_id@, schema_id@] + string_views(tags@).subrange(
                    0,
                    i as int,
                ),
        {
            let ghost prev = terms@;
            terms.push(tags[i].clone());
            assert(string_views(terms@) =~= string_views(prev).push(tags@[i as int]@));
            assert(string_views(terms@) =~= seq![plugin_id@, schema_id@] + string_views(
                tags@,
            ).subrange(0, i + 1));
        }
        assert(string_views(tags@).subrange(0, n as int) =~= string_views(tags@));
        Self::new(label, category, value).search_terms(&terms)
    }

    /// Whether the entry matches `query`.
    pub fn matches(&self, query: &str) -> (res: bool)
        ensures
            res == entry_matches(self@.searchable_text, query@),
            all_ascii(query@) ==> res == ascii_entry_matches(self@.searchable_text, query@),
    {
        let text = str_chars(self.searchable_text.as_str());
        let tokens = query_tokens(query);
        matches_lowered(&text, &tokens)
    }

    /// The label shown for the entry.
    pub fn label(&self) -> (res: &str)
        ensures
            res@ == self@.label,
    {
        self.label.as_str()
    }

    /// The category the entry is listed under.
    pub fn category(&self) -> (res: &str)
        ensures
            res@ == self@.category,
    {
        self.category.as_str()
    }

    /// The value the entry selects.
    pub fn value(&self) -> (res: &T)
        ensures
            *res == self@.value,
    {
        &self.value
    }
}


/// The views of a sequence of entries.
pub open spec fn entry_views<T>(v: Seq<SearchPickerEntry<T>>) -> Seq<SearchPickerEntryView<T>> {
    v.map_values(|e: SearchPickerEntry<T>| e@)
}

/// A run of visible entries that share a category.
pub struct SearchPickerSection {
    category: String,
    entry_indices: Vec<usize>,
}

/// The mathematical value of a [`SearchPickerSection`].
pub struct SearchPickerSectionView {
    pub category: Seq<char>,
    pub entry_indices: Seq<usize>,
}

impl View for SearchPickerSection {
    type V = SearchPickerSectionView;

    closed spec fn view(&self) -> SearchPickerSectionView {
        SearchPickerSectionView { category: self.category@, entry_indices: self.entry_indices@ }
    }
}

/// The views of a sequence of sections.
pub open spec fn section_views(v: Seq<SearchPickerSection>) -> Seq<SearchPickerSectionView> {
    v.map_values(|s: SearchPickerSection| s@)
}

/// The sections made of the first `n` entries, given the entries'
/// categories and which of them match: each matching entry joins the last
/// section when that section has its category, and starts a new section
/// otherwise.
pub open spec fn sections_upto(
    categories: Seq<Seq<char>>,
    matched: Seq<bool>,
    n: nat,
) -> Seq<SearchPickerSectionView>
    decreases n,
{
    if n == 0 {
        Seq::empty()
    } else {
        let prev = sections_upto(categories, matched, (n - 1) as nat);
        let i = n - 1;
        if !matched[i] {
            prev
        } else if prev.len() > 0 && prev.last().category == categories[i] {
            prev.update(
                prev.len() - 1,
                SearchPickerSectionView {
                    category: prev.last().category,
                    entry_indices: prev.last().entry_indices.push(i as usize),
                },
            )
        } else {
            prev.push(SearchPickerSectionView { category: categories[i], entry_indices: seq![i as usize] })
        }
    }
}

/// The categories of the entries.
pub open spec fn entry_categories<T>(entries: Seq<SearchPickerEntryView<T>>) -> Seq<Seq<char>> {
    entries.map_values(|e: SearchPickerEntryView<T>| e.category)
}

/// Which entries match the (lower-cased) tokens.
pub open spec fn match_mask<T>(entries: Seq<SearchPickerEntryView<T>>, tokens: Seq<Seq<char>>) -> Seq<bool> {
    entries.map_values(|e: SearchPickerEntryView<T>| matches_tokens(e.searchable_text, tokens))
}

/// The sections of the entries that match the tokens.
pub open spec fn sections_for<T>(
    entries: Seq<SearchPickerEntryView<T>>,
    tokens: Seq<Seq<char>>,
) -> Seq<SearchPickerSectionView> {
    sections_upto(entry_categories(entries), match_mask(entries, tokens), entries.len())
}

/// Groups the entries that match the tokens into sections.
pub fn sections_for_tokens<T>(entries: &Vec<SearchPickerEntry<T>>, tokens: &Vec<Vec<char>>) -> (res: Vec<SearchPickerSection>)
    ensures
        section_views(res@) == sections_for(entry_views(entries@), char_views(tokens@)),
{
    let ghost cats = entry_categories(entry_views(entries@));
    let ghost mask = match_mask(entry_views(entries@), char_views(tokens@));
    let mut sections: Vec<SearchPickerSection> = Vec::new();
    let n = entries.len();
    for index in 0..n
        invariant
            n == entries@.len(),
            cats == entry_categories(entry_views(entries@)),
            mask == match_mask(entry_views(entries@), char_views(tokens@)),
            section_views(sections@) == sections_upto(cats, mask, index as nat),
    {
        let entry = &entries[index];
        let text = str_chars(entry.searchable_text.as_str());
        let ghost prev = section_views(sections@);
        assert(entry_views(entries@)[index as int] == entry@);
        assert(cats[index as int] == entry@.category);
        assert(mask[index as int] == matches_tokens(entry@.searchable_text, char_views(tokens@)));
        if matches_lowered(&text, tokens) {
            let len = sections.len();
            let start_new = len == 0 || sections[len - 1].category != entry.category;
            if start_new {
                sections.push(
                    SearchPickerSection { category: entry.category.clone(), entry_indices: Vec::new() },
                );
            }
            let mut last = sections.pop().unwrap();
            last.entry_indices.push(index);
            sections.push(last);
            if start_new {
                assert(section_views(sections@) =~= prev.push(
                    SearchPickerSectionView { category: cats[index as int], entry_indices: seq![index] },
                ));
            } else {
                assert(section_views(sections@) =~= prev.update(
                    prev.len() - 1,
                    SearchPickerSectionView {
                        category: prev.last().category,
                        entry_indices: prev.last().entry_indices.push(index),
                    },
                ));
            }
        } else {
        }
    }
    sections
}


/// The key entries are ordered by: the lower-cased category, then the
/// lower-cased label.
pub open spec fn entry_key<T>(e: SearchPickerEntryView<T>) -> (Seq<char>, Seq<char>) {
    (lowercase(e.category), lowercase(e.label))
}

/// Strict order on keys: by the first component, then by the second.
pub open spec fn key_less(a: (Seq<char>, Seq<char>), b: (Seq<char>, Seq<char>)) -> bool {
    lex_less(a.0, b.0) || (a.0 == b.0 && lex_less(a.1, b.1))
}

proof fn lemma_key_irreflexive(a: (Seq<char>, Seq<char>))
    ensures
        !key_less(a, a),
{
    lemma_lex_irreflexive(a.0);
    lemma_lex_irreflexive(a.1);
}

proof fn lemma_key_transitive(a: (Seq<char>, Seq<char>), b: (Seq<char>, Seq<char>), c: (Seq<char>, Seq<char>))
    requires
        key_less(a, b),
        key_less(b, c),
    ensures
        key_less(a, c),
{
    if lex_less(a.0, b.0) && lex_less(b.0, c.0) {
        lemma_lex_transitive(a.0, b.0, c.0);
    } else if lex_less(a.1, b.1) && lex_less(b.1, c.1) && a.0 == b.0 && b.0 == c.0 {
        lemma_lex_transitive(a.1, b.1, c.1);
    }
}

proof fn lemma_key_total(a: (Seq<char>, Seq<char>), b: (Seq<char>, Seq<char>))
    requires
        a != b,
    ensures
        key_less(a, b) || key_less(b, a),
{
    if a.0 != b.0 {
        lemma_lex_total(a.0, b.0);
    } else {
        if a.1 == b.1 {
            assert(a == b);
        }
        lemma_lex_total(a.1, b.1);
    }
}

/// `perm` shows that `output` is `input` ordered by [`entry_key`], with
/// entries of equal keys in their initial order.
pub open spec fn stable_sort_witness<T>(
    input: Seq<SearchPickerEntryView<T>>,
    output: Seq<SearchPickerEntryView<T>>,
    perm: Seq<int>,
) -> bool {
    &&& output.len() == input.len()
    &&& perm.len() == input.len()
    &&& forall|i: int| 0 <= i < perm.len() ==> 0 <= #[trigger] perm[i] < input.len()
    &&& forall|i: int| 0 <= i < perm.len() ==> output[i] == input[#[trigger] perm[i]]
    &&& forall|i: int, j: int| 0 <= i < j < perm.len() ==> #[trigger] perm[i] != #[trigger] perm[j]
    &&& forall|i: int, j: int|
        0 <= i < j < output.len() ==> !key_less(
            entry_key(#[trigger] output[j]),
            entry_key(#[trigger] output[i]),
        )
    &&& forall|i: int, j: int|
        0 <= i < j < output.len() && entry_key(#[trigger] output[i]) == entry_key(
            #[trigger] output[j],
        ) ==> perm[i] < perm[j]
}

/// `output` is `input` stably sorted by [`entry_key`].
pub open spec fn is_stable_sort_of<T>(
    input: Seq<SearchPickerEntryView<T>>,
    output: Seq<SearchPickerEntryView<T>>,
) -> bool {
    exists|perm: Seq<int>| stable_sort_witness(input, output, perm)
}

proof fn lemma_insert_keeps_stable_sort<T>(
    input: Seq<SearchPickerEntryView<T>>,
    i: int,
    out: Seq<SearchPickerEntryView<T>>,
    perm: Seq<int>,
    pos: int,
)
    requires
        0 <= i < input.len(),
        stable_sort_witness(input.subrange(0, i), out, perm),
        0 <= pos <= out.len(),
        forall|j: int| 0 <= j < pos ==> !key_less(entry_key(input[i]), entry_key(#[trigger] out[j])),
        pos < out.len() ==> key_less(entry_key(input[i]), entry_key(out[pos])),
    ensures
        stable_sort_witness(input.subrange(0, i + 1), out.insert(pos, input[i]), perm.insert(pos, i)),
{
    let x = input[i];
    let k = entry_key(x);
    let pre = input.subrange(0, i);
    let inp = input.subrange(0, i + 1);
    let o = out.insert(pos, x);
    let p = perm.insert(pos, i);
    // Every entry after the insertion point has a larger key.
    assert forall|j: int| pos <= j < out.len() implies key_less(k, entry_key(#[trigger] out[j])) by {
        if j > pos {
            assert(!key_less(entry_key(out[j]), entry_key(out[pos])));
            if entry_key(out[j]) != entry_key(out[pos]) {
                lemma_key_total(entry_key(out[j]), entry_key(out[pos]));
                lemma_key_transitive(k, entry_key(out[pos]), entry_key(out[j]));
            }
        }
    }
    assert forall|j: int| 0 <= j < o.len() implies 0 <= #[trigger] p[j] < inp.len() && o[j] == inp[p[j]] by {
        if j < pos {
            assert(p[j] == perm[j] && o[j] == out[j]);
        } else if j > pos {
            assert(p[j] == perm[j - 1] && o[j] == out[j - 1]);
        }
    }
    assert forall|a: int, b: int| 0 <= a < b < p.len() implies #[trigger] p[a] != #[trigger] p[b] by {
        if a != pos && b != pos {
            let oa = if a < pos { a } else { a - 1 };
            let ob = if b < pos { b } else { b - 1 };
            assert(p[a] == perm[oa] && p[b] == perm[ob]);
        } else if a == pos {
            assert(p[b] == perm[b - 1]);
        } else {
            assert(p[a] == perm[a]);
        }
    }
    assert forall|a: int, b: int| 0 <= a < b < o.len() implies !key_less(
        entry_key(#[trigger] o[b]),
        entry_key(#[trigger] o[a]),
    ) by {
        if a != pos && b != pos {
            let oa = if a < pos { a } else { a - 1 };
            let ob = if b < pos { b } else { b - 1 };
            assert(o[a] == out[oa] && o[b] == out[ob]);
        } else if a == pos {
            assert(o[b] == out[b - 1]);
            if key_less(entry_key(out[b - 1]), k) {
                lemma_key_transitive(k, entry_key(out[b - 1]), k);
                lemma_key_irreflexive(k);
            }
        } else {
            assert(o[a] == out[a]);
        }
    }
    assert forall|a: int, b: int|
        0 <= a < b < o.len() && entry_key(#[trigger] o[a]) == entry_key(#[trigger] o[b]) implies p[a]
        < p[b] by {
        if a != pos && b != pos {
            let oa = if a < pos { a } else { a - 1 };
            let ob = if b < pos { b } else { b - 1 };
            assert(o[a] == out[oa] && o[b] == out[ob]);
            assert(p[a] == perm[oa] && p[b] == perm[ob]);
        } else if a == pos {
            assert(o[b] == out[b - 1]);
            lemma_key_irreflexive(k);
        } else {
            assert(o[a] == out[a] && p[a] == perm[a]);
        }
    }
}

/// Orders the entries by lower-cased category, then lower-cased label,
/// keeping the initial order of entries with equal keys.
pub fn sort_entries<T>(entries: Vec<SearchPickerEntry<T>>) -> (res: Vec<SearchPickerEntry<T>>)
    ensures
        is_stable_sort_of(entry_views(entries@), entry_views(res@)),
{
    let ghost input = entry_views(entries@);
    let n = entries.len();
    let mut rest = entries;
    let mut out: Vec<SearchPickerEntry<T>> = Vec::new();
    let mut category_keys: Vec<Vec<char>> = Vec::new();
    let mut label_keys: Vec<Vec<char>> = Vec::new();
    let ghost mut perm: Seq<int> = Seq::empty();
    assert(stable_sort_witness(input.subrange(0, 0), entry_views(out@), perm));
    for i in 0..n
        invariant
            n == input.len(),
            entry_views(rest@) == input.subrange(i as int, n as int),
            out@.len() == category_keys@.len(),
            out@.len() == label_keys@.len(),
            forall|j: int|
                0 <= j < out@.len() ==> (category_keys@[j]@, label_keys@[j]@) == entry_key(
                    #[trigger] entry_views(out@)[j],
                ),
            stable_sort_witness(input.subrange(0, i as int), entry_views(out@), perm),
    {
        let ghost before = rest@;
        assert(entry_views(before).len() == before.len());
        assert(entry_views(before)[0] == before[0]@);
        let entry = rest.remove(0);
        assert(entry@ == input[i as int]);
        assert(entry_views(rest@) =~= input.subrange(i + 1, n as int)) by {
            assert(rest@ =~= before.subrange(1, before.len() as int));
            assert forall|j: int| 0 <= j < rest@.len() implies entry_views(rest@)[j]
                == input.subrange(i + 1, n as int)[j] by {
                assert(entry_views(before)[j + 1] == before[j + 1]@);
            }
        }
        let lower_category = to_lowercase(entry.category.as_str());
        let lower_label = to_lowercase(entry.label.as_str());
        let category_key = str_chars(lower_category.as_str());
        let label_key = str_chars(lower_label.as_str());
        let ghost k = entry_key(entry@);
        assert((category_key@, label_key@) == k);
        let len = out.len();
        let mut pos: usize = 0;
        while pos < len
            invariant
                pos <= len,
                k == (category_key@, label_key@),
                len == out@.len(),
                len == category_keys@.len(),
                len == label_keys@.len(),
                forall|j: int|
                    0 <= j < out@.len() ==> (category_keys@[j]@, label_keys@[j]@) == entry_key(
                        #[trigger] entry_views(out@)[j],
                    ),
                forall|j: int|
                    0 <= j < pos ==> !key_less(k, entry_key(#[trigger] entry_views(out@)[j])),
            ensures
                pos <= len,
                forall|j: int|
                    0 <= j < pos ==> !key_less(k, entry_key(#[trigger] entry_views(out@)[j])),
                pos < len ==> key_less(k, entry_key(entry_views(out@)[pos as int])),
            decreases len - pos,
        {
            let c_less = lex_less_chars(&category_key, &category_keys[pos]);
            let c_greater = lex_less_chars(&category_keys[pos], &category_key);
            let l_less = lex_less_chars(&label_key, &label_keys[pos]);
            assert((category_keys@[pos as int]@, label_keys@[pos as int]@) == entry_key(
                entry_views(out@)[pos as int],
            ));
            proof {
                lemma_lex_irreflexive(category_keys@[pos as int]@);
                if !c_less && !c_greater && category_key@ != category_keys@[pos as int]@ {
                    lemma_lex_total(category_key@, category_keys@[pos as int]@);
                }
            }
            if c_less || (!c_greater && l_less) {
                break;
            }
            pos = pos + 1;
        }
        proof {
            lemma_insert_keeps_stable_sort(input, i as int, entry_views(out@), perm, pos as int);
        }
        let ghost old_out = out@;
        out.insert(pos, entry);
        category_keys.insert(pos, category_key);
        label_keys.insert(pos, label_key);
        proof {
            assert(entry_views(out@) =~= entry_views(old_out).insert(pos as int, input[i as int]));
            perm = perm.insert(pos as int, i as int);
            assert forall|j: int|
                0 <= j < out@.len() implies (category_keys@[j]@, label_keys@[j]@) == entry_key(
                #[trigger] entry_views(out@)[j],
            ) by {
                if j < pos {
                    assert(entry_views(out@)[j] == entry_views(old_out)[j]);
                } else if j > pos {
                    assert(entry_views(out@)[j] == entry_views(old_out)[j - 1]);
                }
            }
        }
    }
    assert(input.subrange(0, n as int) =~= input);
    out
}

/// The position of an item in a sectioned list.
#[derive(Clone, Copy, Debug, PartialEq, Eq, Hash, Structural)]
pub struct IndexPath {
    pub section: usize,
    pub row: usize,
}

impl Default for IndexPath {
    fn default() -> (res: Self)
        ensures
            res == (IndexPath { section: 0, row: 0 }),
    {
        IndexPath { section: 0, row: 0 }
    }
}

/// The entries, their visible sections and the selected item of a search picker.
pub struct SearchPickerDelegate<T> {
    entries: Vec<SearchPickerEntry<T>>,
    visible_sections: Vec<SearchPickerSection>,
    selected_index: Option<IndexPath>,
}

/// The mathematical value of a [`SearchPickerDelegate`].
pub struct SearchPickerDelegateView<T> {
    pub entries: Seq<SearchPickerEntryView<T>>,
    pub sections: Seq<SearchPickerSectionView>,
    pub selected_index: Option<IndexPath>,
}

impl<T> View for SearchPickerDelegate<T> {
    type V = SearchPickerDelegateView<T>;

    closed spec fn view(&self) -> SearchPickerDelegateView<T> {
        SearchPickerDelegateView {
            entries: entry_views(self.entries@),
            sections: section_views(self.visible_sections@),
            selected_index: self.selected_index,
        }
    }
}

/// Some section holds an entry.
pub open spec fn has_visible_spec(sections: Seq<SearchPickerSectionView>) -> bool {
    exists|i: int| 0 <= i < sections.len() && #[trigger] sections[i].entry_indices.len() > 0
}

/// The index of the entry shown at `ix`, if there is an item there.
pub open spec fn entry_index_at(sections: Seq<SearchPickerSectionView>, ix: IndexPath) -> Option<usize> {
    if ix.section < sections.len() && ix.row < sections[ix.section as int].entry_indices.len() {
        Some(sections[ix.section as int].entry_indices[ix.row as int])
    } else {
        None
    }
}

/// The entry shown at `ix`, if there is one.
pub open spec fn entry_at<T>(v: SearchPickerDelegateView<T>, ix: IndexPath) -> Option<SearchPickerEntryView<T>> {
    match entry_index_at(v.sections, ix) {
        Some(i) => if i < v.entries.len() {
            Some(v.entries[i as int])
        } else {
            None
        },
        None => None,
    }
}

/// The value of the selected entry, if any.
pub open spec fn selected_value_spec<T>(v: SearchPickerDelegateView<T>) -> Option<T> {
    match v.selected_index {
        None => None,
        Some(ix) => match entry_at(v, ix) {
            Some(e) => Some(e.value),
            None => None,
        },
    }
}

/// The selection after a search: the first item when anything is visible.
pub open spec fn initial_selection(sections: Seq<SearchPickerSectionView>) -> Option<IndexPath> {
    if has_visible_spec(sections) {
        Some(IndexPath { section: 0, row: 0 })
    } else {
        None
    }
}

impl<T> SearchPickerDelegate<T> {
    /// Orders the entries and shows all of them, with nothing selected.
    pub fn new(entries: Vec<SearchPickerEntry<T>>) -> (res: Self)
        ensures
            is_stable_sort_of(entry_views(entries@), res@.entries),
            res@.sections == sections_for(res@.entries, Seq::empty()),
            res@.selected_index == None::<IndexPath>,
    {
        let entries = sort_entries(entries);
        let no_tokens: Vec<Vec<char>> = Vec::new();
        assert(char_views(no_tokens@) =~= Seq::<Seq<char>>::empty());
        let visible_sections = sections_for_tokens(&entries, &no_tokens);
        SearchPickerDelegate { entries, visible_sections, selected_index: None }
    }

    /// The entries matching `query`, grouped into sections.
    pub fn matching_sections(entries: &Vec<SearchPickerEntry<T>>, query: &str) -> (res: Vec<SearchPickerSection>)
        ensures
            section_views(res@) == sections_for(entry_views(entries@), lowered_tokens(query@)),
    {
        let tokens = query_tokens(query);
        sections_for_tokens(entries, &tokens)
    }

    /// Whether any entry is visible.
    pub fn has_visible_entries(&self) -> (res: bool)
        ensures
            res == has_visible_spec(self@.sections),
    {
        let n = self.visible_sections.len();
        for i in 0..n
            invariant
                n == self@.sections.len(),
                forall|k: int| 0 <= k < i ==> #[trigger] self@.sections[k].entry_indices.len() == 0,
        {
            assert(self@.sections[i as int] == self.visible_sections@[i as int]@);
            if self.visible_sections[i].entry_indices.len() > 0 {
                assert(self@.sections[i as int].entry_indices.len() > 0);
                return true;
            }
        }
        false
    }

    fn entry_index(&self, ix: IndexPath) -> (res: Option<usize>)
        ensures
            res == entry_index_at(self@.sections, ix),
    {
        if ix.section < self.visible_sections.len() {
            let section = &self.visible_sections[ix.section];
            assert(self@.sections[ix.section as int] == section@);
            if ix.row < section.entry_indices.len() {
                return Some(section.entry_indices[ix.row]);
            }
        }
        None
    }

    /// The entry shown at `ix`.
    pub fn item_entry(&self, ix: IndexPath) -> (res: Option<&SearchPickerEntry<T>>)
        ensures
            match res {
                Some(e) => entry_at(self@, ix) == Some(e@),
                None => entry_at(self@, ix) == None::<SearchPickerEntryView<T>>,
            },
    {
        match self.entry_index(ix) {
            Some(i) => if i < self.entries.len() {
                assert(self@.entries[i as int] == self.entries@[i as int]@);
                Some(&self.entries[i])
            } else {
                None
            },
            None => None,
        }
    }

    /// The value of the selected entry.
    pub fn selected_value(&self) -> (res: Option<&T>)
        ensures
            match res {
                Some(v) => selected_value_spec(self@) == Some(*v),
                None => selected_value_spec(self@) == None::<T>,
            },
    {
        let ix = match self.selected_index {
            Some(ix) => ix,
            None => return None,
        };
        match self.item_entry(ix) {
            Some(entry) => Some(&entry.value),
            None => None,
        }
    }

    /// The number of visible sections.
    pub fn sections_count(&self) -> (res: usize)
        ensures
            res == self@.sections.len(),
    {
        self.visible_sections.len()
    }

    /// The number of items in a section (none outside the visible sections).
    pub fn items_count(&self, section: usize) -> (res: usize)
        ensures
            res == (if section < self@.sections.len() {
                self@.sections[section as int].entry_indices.len()
            } else {
                0
            }),
    {
        if section < self.visible_sections.len() {
            assert(self@.sections[section as int] == self.visible_sections@[section as int]@);
            self.visible_sections[section].entry_indices.len()
        } else {
            0
        }
    }

    /// The heading of a section: its category, unless the category is empty.
    pub fn section_header(&self, section: usize) -> (res: Option<&str>)
        ensures
            match res {
                Some(h) => section < self@.sections.len() && h@ == self@.sections[section as int].category
                    && h@.len() > 0,
                None => section >= self@.sections.len() || self@.sections[section as int].category.len() == 0,
            },
    {
        if section < self.visible_sections.len() {
            let category = &self.visible_sections[section].category;
            assert(self@.sections[section as int] == self.visible_sections@[section as int]@);
            if category.as_str().is_empty() {
                None
            } else {
                Some(category.as_str())
            }
        } else {
            None
        }
    }

    /// Shows the entries matching `query` and selects the first of them.
    pub fn perform_search(&mut self, query: &str)
        ensures
            final(self)@.entries == old(self)@.entries,
            final(self)@.sections == sections_for(old(self)@.entries, lowered_tokens(query@)),
            final(self)@.selected_index == initial_selection(final(self)@.sections),
    {
        self.visible_sections = Self::matching_sections(&self.entries, query);
        self.selected_index = if self.has_visible_entries() {
            Some(IndexPath::default())
        } else {
            None
        };
    }

    /// Selects `ix` (or nothing).
    pub fn set_selected_index(&mut self, ix: Option<IndexPath>)
        ensures
            final(self)@.entries == old(self)@.entries,
            final(self)@.sections == old(self)@.sections,
            final(self)@.selected_index == ix,
    {
        self.selected_index = ix;
    }
}

/// Claims the one confirmation a picker may make: true the first time,
/// false ever after.
pub fn claim_confirmation(confirmed: &mut bool) -> (res: bool)
    ensures
        res == !*old(confirmed),
        *final(confirmed),
{
    if *confirmed {
        return false;
    }
    *confirmed = true;
    true
}


/// The indices below `n` of the entries that match, in increasing order.
pub open spec fn matching_indices(matched: Seq<bool>, n: nat) -> Seq<usize>
    decreases n,
{
    if n == 0 {
        Seq::empty()
    } else {
        let prev = matching_indices(matched, (n - 1) as nat);
        if matched[n - 1] {
            prev.push((n - 1) as usize)
        } else {
            prev
        }
    }
}

/// The entry indices of all sections, section after section.
pub open spec fn flatten_indices(sections: Seq<SearchPickerSectionView>) -> Seq<usize>
    decreases sections.len(),
{
    if sections.len() == 0 {
        Seq::empty()
    } else {
        flatten_indices(sections.drop_last()) + sections.last().entry_indices
    }
}

/// No section is empty, every entry of a section has the section's category,
/// and neighbouring sections have different categories.
pub open spec fn sections_structured(
    categories: Seq<Seq<char>>,
    sections: Seq<SearchPickerSectionView>,
) -> bool {
    &&& forall|s: int| 0 <= s < sections.len() ==> #[trigger] sections[s].entry_indices.len() > 0
    &&& forall|s: int, r: int|
        0 <= s < sections.len() && 0 <= r < sections[s].entry_indices.len() ==> categories[#[trigger] sections[s].entry_indices[r] as int]
            == sections[s].category
    &&& forall|s: int| 0 < s < sections.len() ==> sections[s - 1].category != #[trigger] sections[s].category
}

/// The matching indices are exactly the positions of matching entries, in
/// increasing order; the first of them is the first match.
pub proof fn lemma_matching_indices(matched: Seq<bool>, n: nat)
    requires
        n <= matched.len(),
        n <= usize::MAX,
    ensures
        forall|k: int|
            0 <= k < matching_indices(matched, n).len() ==> #[trigger] matching_indices(matched, n)[k] < n
                && matched[matching_indices(matched, n)[k] as int],
        forall|a: int, b: int|
            0 <= a < b < matching_indices(matched, n).len() ==> #[trigger] matching_indices(matched, n)[a]
                < #[trigger] matching_indices(matched, n)[b],
        forall|j: int|
            0 <= j < n && #[trigger] matched[j] ==> exists|k: int|
                0 <= k < matching_indices(matched, n).len() && matching_indices(matched, n)[k] == j,
        matching_indices(matched, n).len() > 0 ==> forall|j: int|
            0 <= j < matching_indices(matched, n)[0] ==> !#[trigger] matched[j],
    decreases n,
{
    if n > 0 {
        lemma_matching_indices(matched, (n - 1) as nat);
        let prev = matching_indices(matched, (n - 1) as nat);
        let cur = matching_indices(matched, n);
        assert forall|j: int| 0 <= j < n && #[trigger] matched[j] implies exists|k: int|
            0 <= k < cur.len() && cur[k] == j by {
            if j < n - 1 {
                let k = choose|k: int| 0 <= k < prev.len() && prev[k] == j;
                assert(cur[k] == j);
            } else {
                assert(cur[cur.len() - 1] == j);
            }
        }
        if cur.len() > 0 {
            assert forall|j: int| 0 <= j < cur[0] implies !#[trigger] matched[j] by {
                if matched[j] {
                    let k = choose|k: int| 0 <= k < cur.len() && cur[k] == j;
                    if k > 0 {
                        assert(cur[0] < cur[k]);
                    }
                }
            }
        }
    }
}

proof fn lemma_flatten_first(sections: Seq<SearchPickerSectionView>)
    requires
        sections.len() > 0,
        sections[0].entry_indices.len() > 0,
    ensures
        flatten_indices(sections).len() > 0,
        flatten_indices(sections)[0] == sections[0].entry_indices[0],
    decreases sections.len(),
{
    if sections.len() > 1 {
        lemma_flatten_first(sections.drop_last());
        assert(sections.drop_last()[0] == sections[0]);
    } else {
        assert(flatten_indices(sections.drop_last()) =~= Seq::<usize>::empty());
    }
}

/// The sections list exactly the matching entries, in order, grouped into
/// runs that share a category.
pub proof fn lemma_sections_group_matches(categories: Seq<Seq<char>>, matched: Seq<bool>, n: nat)
    requires
        n <= categories.len(),
        n <= matched.len(),
        n <= usize::MAX,
    ensures
        flatten_indices(sections_upto(categories, matched, n)) == matching_indices(matched, n),
        sections_structured(categories, sections_upto(categories, matched, n)),
    decreases n,
{
    if n > 0 {
        lemma_sections_group_matches(categories, matched, (n - 1) as nat);
        let prev = sections_upto(categories, matched, (n - 1) as nat);
        let cur = sections_upto(categories, matched, n);
        let i = n - 1;
        if matched[i] {
            if prev.len() > 0 && prev.last().category == categories[i] {
                assert(cur.drop_last() =~= prev.drop_last());
                assert(flatten_indices(cur) =~= flatten_indices(prev).push(i as usize));
            } else {
                assert(cur.drop_last() =~= prev);
                assert(flatten_indices(cur) =~= flatten_indices(prev).push(i as usize));
            }
            assert forall|s: int, r: int|
                0 <= s < cur.len() && 0 <= r < cur[s].entry_indices.len() implies categories[#[trigger] cur[s].entry_indices[r] as int]
                == cur[s].category by {
                if s < cur.len() - 1 {
                    assert(cur[s] == prev[s]);
                } else if r < cur[s].entry_indices.len() - 1 {
                    assert(cur[s].entry_indices[r] == prev[s].entry_indices[r]);
                }
            }
        }
    }
}

/// A search shows something exactly when some entry matches, and it
/// selects the first matching entry in the picker's order.
pub proof fn lemma_search_selects_first_match<T>(
    entries: Seq<SearchPickerEntryView<T>>,
    tokens: Seq<Seq<char>>,
)
    requires
        entries.len() <= usize::MAX,
    ensures
        ({
            let sections = sections_for(entries, tokens);
            let firsts = matching_indices(match_mask(entries, tokens), entries.len());
            let v = SearchPickerDelegateView {
                entries,
                sections,
                selected_index: initial_selection(sections),
            };
            &&& has_visible_spec(sections) == (firsts.len() > 0)
            &&& selected_value_spec(v) == (if firsts.len() > 0 {
                Some(entries[firsts[0] as int].value)
            } else {
                None
            })
        }),
{
    let cats = entry_categories(entries);
    let mask = match_mask(entries, tokens);
    let sections = sections_for(entries, tokens);
    let firsts = matching_indices(mask, entries.len());
    lemma_sections_group_matches(cats, mask, entries.len());
    lemma_matching_indices(mask, entries.len());
    if sections.len() > 0 {
        assert(sections[0].entry_indices.len() > 0);
        lemma_flatten_first(sections);
        assert(has_visible_spec(sections));
    } else {
        assert(flatten_indices(sections) =~= Seq::<usize>::empty());
        assert(!has_visible_spec(sections));
    }
}

proof fn lemma_blank_prefix(query: Seq<char>, n: nat)
    requires
        n <= query.len(),
        forall|i: int| 0 <= i < query.len() ==> is_whitespace(#[trigger] query[i]),
    ensures
        split_prefix(query, n).0 =~= Seq::<Seq<char>>::empty(),
        split_prefix(query, n).1 =~= Seq::<char>::empty(),
    decreases n,
{
    if n > 0 {
        lemma_blank_prefix(query, (n - 1) as nat);
        assert(is_whitespace(query[n - 1]));
    }
}

/// A query made only of whitespace (the empty query among them) matches
/// every entry.
pub proof fn lemma_blank_query_matches_everything(query: Seq<char>, text: Seq<char>)
    requires
        forall|i: int| 0 <= i < query.len() ==> is_whitespace(#[trigger] query[i]),
    ensures
        entry_matches(text, query),
{
    lemma_blank_prefix(query, query.len());
    assert(whitespace_tokens(query).len() == 0);
}


/// Splitting `a`, a whitespace character and then `b` agrees with splitting
/// `a` alone on the first `n` characters.
proof fn lemma_split_prefix_of_joined(a: Seq<char>, sep: char, b: Seq<char>, n: nat)
    requires
        n <= a.len(),
    ensures
        split_prefix(a + seq![sep] + b, n) == split_prefix(a, n),
    decreases n,
{
    if n > 0 {
        lemma_split_prefix_of_joined(a, sep, b, (n - 1) as nat);
        assert((a + seq![sep] + b)[n - 1] == a[n - 1]);
    }
}

/// After `a` and a whitespace character, splitting the next `k` characters
/// of `b` adds the tokens of those characters to the tokens of `a`.
proof fn lemma_split_after_separator(a: Seq<char>, sep: char, b: Seq<char>, k: nat)
    requires
        is_whitespace(sep),
        k <= b.len(),
    ensures
        split_prefix(a + seq![sep] + b, a.len() + 1 + k) == (
            whitespace_tokens(a) + split_prefix(b, k).0,
            split_prefix(b, k).1,
        ),
    decreases k,
{
    let c = a + seq![sep] + b;
    if k == 0 {
        lemma_split_prefix_of_joined(a, sep, b, a.len());
        assert(c[a.len() as int] == sep);
        assert(whitespace_tokens(a) + Seq::<Seq<char>>::empty() =~= whitespace_tokens(a));
        let st = split_prefix(a, a.len());
        if st.1.len() > 0 {
            assert(split_prefix(c, a.len() + 1) == (st.0.push(st.1), Seq::<char>::empty()));
        }
    } else {
        lemma_split_after_separator(a, sep, b, (k - 1) as nat);
        assert(c[a.len() + 1 + k - 1] == b[k - 1]);
        let p = split_prefix(b, (k - 1) as nat);
        let t = whitespace_tokens(a);
        assert((t + p.0).push(p.1) =~= t + p.0.push(p.1));
    }
}

/// Splitting two parts joined by a whitespace character gives the tokens of
/// the first part followed by those of the second.
pub proof fn lemma_tokens_of_joined(a: Seq<char>, sep: char, b: Seq<char>)
    requires
        is_whitespace(sep),
    ensures
        whitespace_tokens(a + seq![sep] + b) == whitespace_tokens(a) + whitespace_tokens(b),
{
    let c = a + seq![sep] + b;
    lemma_split_after_separator(a, sep, b, b.len());
    assert(c.len() == a.len() + 1 + b.len());
    let p = split_prefix(b, b.len());
    let t = whitespace_tokens(a);
    if p.1.len() > 0 {
        assert((t + p.0).push(p.1) =~= t + p.0.push(p.1));
    }
}

/// A query made of two parts joined by whitespace (such as a space, which
/// `char::is_whitespace` holds of) matches an entry exactly when each part
/// does: the query is the conjunction of its tokens.
pub proof fn lemma_joined_query_matches_both(text: Seq<char>, q1: Seq<char>, sep: char, q2: Seq<char>)
    requires
        is_whitespace(sep),
    ensures
        entry_matches(text, q1 + seq![sep] + q2) == (entry_matches(text, q1) && entry_matches(text, q2)),
{
    lemma_tokens_of_joined(q1, sep, q2);
    let l1 = lowered_tokens(q1);
    let l2 = lowered_tokens(q2);
    let l = lowered_tokens(q1 + seq![sep] + q2);
    assert(l =~= l1 + l2);
    if matches_tokens(text, l) {
        assert forall|i: int| 0 <= i < l1.len() implies contains_seq(text, #[trigger] l1[i]) by {
            assert(l[i] == l1[i]);
        }
        assert forall|i: int| 0 <= i < l2.len() implies contains_seq(text, #[trigger] l2[i]) by {
            assert(l[l1.len() + i] == l2[i]);
        }
    }
    if matches_tokens(text, l1) && matches_tokens(text, l2) {
        assert forall|i: int| 0 <= i < l.len() implies contains_seq(text, #[trigger] l[i]) by {
            if i < l1.len() {
                assert(l[i] == l1[i]);
            } else {
                assert(l[i] == l2[i - l1.len()]);
            }
        }
    }
}

proof fn lemma_upper_char(c: char)
    ensures
        ascii_lower_char(ascii_upper_char(c)) == ascii_lower_char(c),
        ascii_whitespace(ascii_upper_char(c)) == ascii_whitespace(c),
        is_ascii_char(c) ==> is_ascii_char(ascii_upper_char(c)),
{
    if 'a' <= c && c <= 'z' {
        let u = ascii_upper_char(c);
        assert(u as int == (c as int) - 32);
        assert('A' <= u && u <= 'Z');
        assert(ascii_lower_char(u) as int == c as int);
    }
}

/// Splitting a text with its letters in upper case gives its tokens with
/// their letters in upper case.
proof fn lemma_upper_split(s: Seq<char>, n: nat)
    requires
        n <= s.len(),
    ensures
        ascii_split_prefix(ascii_upper(s), n) == (
            ascii_split_prefix(s, n).0.map_values(|t: Seq<char>| ascii_upper(t)),
            ascii_upper(ascii_split_prefix(s, n).1),
        ),
    decreases n,
{
    if n == 0 {
        assert(Seq::<Seq<char>>::empty().map_values(|t: Seq<char>| ascii_upper(t)) =~= Seq::<Seq<char>>::empty());
        assert(ascii_upper(Seq::<char>::empty()) =~= Seq::<char>::empty());
    } else {
        lemma_upper_split(s, (n - 1) as nat);
        let c = s[n - 1];
        lemma_upper_char(c);
        assert(ascii_upper(s)[n - 1] == ascii_upper_char(c));
        let p = ascii_split_prefix(s, (n - 1) as nat);
        assert(ascii_upper(p.1.push(c)) =~= ascii_upper(p.1).push(ascii_upper_char(c)));
        assert(p.0.push(p.1).map_values(|t: Seq<char>| ascii_upper(t)) =~= p.0.map_values(
            |t: Seq<char>| ascii_upper(t),
        ).push(ascii_upper(p.1)));
        assert(ascii_upper(Seq::<char>::empty()) =~= Seq::<char>::empty());
    }
}

/// Searching with an ASCII query in upper case matches the same entries as
/// the query itself: matching ignores the case of ASCII letters.
pub proof fn lemma_ascii_case_ignored(text: Seq<char>, query: Seq<char>)
    requires
        all_ascii(query),
    ensures
        all_ascii(ascii_upper(query)),
        ascii_entry_matches(text, ascii_upper(query)) == ascii_entry_matches(text, query),
{
    assert forall|i: int| 0 <= i < ascii_upper(query).len() implies is_ascii_char(#[trigger] ascii_upper(query)[i]) by {
        assert(is_ascii_char(query[i]));
        lemma_upper_char(query[i]);
    }
    lemma_upper_split(query, query.len());
    let toks = ascii_tokens(query);
    let up = ascii_tokens(ascii_upper(query));
    assert(up =~= toks.map_values(|t: Seq<char>| ascii_upper(t))) by {
        let p = ascii_split_prefix(query, query.len());
        if p.1.len() > 0 {
            assert(p.0.push(p.1).map_values(|t: Seq<char>| ascii_upper(t)) =~= p.0.map_values(
                |t: Seq<char>| ascii_upper(t),
            ).push(ascii_upper(p.1)));
        }
    }
    assert forall|j: int| 0 <= j < toks.len() implies ascii_lower(ascii_upper(#[trigger] toks[j])) == ascii_lower(toks[j]) by {
        let t = toks[j];
        assert forall|k: int| 0 <= k < t.len() implies ascii_lower(ascii_upper(t))[k] == ascii_lower(t)[k] by {
            lemma_upper_char(t[k]);
        }
        assert(ascii_lower(ascii_upper(t)) =~= ascii_lower(t));
    }
    assert(ascii_lowered_tokens(ascii_upper(query)) =~= ascii_lowered_tokens(query)) by {
        assert forall|j: int| 0 <= j < toks.len() implies ascii_lowered_tokens(ascii_upper(query))[j]
            == #[trigger] ascii_lowered_tokens(query)[j] by {
            assert(up[j] == ascii_upper(toks[j]));
            assert(ascii_lower(ascii_upper(toks[j])) == ascii_lower(toks[j]));
        }
    }
}

} // verus!
