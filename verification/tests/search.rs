use zerium::search::{
    claim_confirmation, matches_lowered, query_tokens, IndexPath, SearchPickerDelegate,
    SearchPickerEntry,
};

fn label_at(delegate: &SearchPickerDelegate<u32>, section: usize, row: usize) -> Option<String> {
    delegate
        .item_entry(IndexPath { section, row })
        .map(|entry| entry.label().to_string())
}

#[test]
fn entry_matches_label_and_category_case_insensitively() {
    let entry = SearchPickerEntry::new("Gaussian Blur", "Effects", 1u32);
    assert!(entry.matches("blur"));
    assert!(entry.matches("GAUSS"));
    assert!(entry.matches("effects blur"));
    assert!(!entry.matches("sharpen"));
    assert!(!entry.matches("blur sharpen"));
}

#[test]
fn blank_query_matches_every_entry() {
    let entry = SearchPickerEntry::new("Text", "Items", 0u32);
    assert!(entry.matches(""));
    assert!(entry.matches("   \t "));
}

#[test]
fn query_tokens_are_split_on_whitespace_and_lowered() {
    let tokens = query_tokens("  Foo\tBAR  baz ");
    assert_eq!(
        tokens,
        vec![vec!['f', 'o', 'o'], vec!['b', 'a', 'r'], vec!['b', 'a', 'z']]
    );
    assert!(query_tokens(" \n ").is_empty());
}

#[test]
fn matches_lowered_requires_every_token() {
    let text: Vec<char> = "hello world".chars().collect();
    let both = vec![vec!['w', 'o'], vec!['l', 'l']];
    let missing = vec![vec!['w', 'o'], vec!['x']];
    assert!(matches_lowered(&text, &both));
    assert!(!matches_lowered(&text, &missing));
    assert!(matches_lowered(&text, &Vec::new()));
}

#[test]
fn search_terms_extend_the_searchable_text() {
    let plain = SearchPickerEntry::new("Text", "Items", 0u32);
    assert!(!plain.matches("caption"));
    let terms = vec!["Caption".to_string(), "Subtitle".to_string()];
    let extended = SearchPickerEntry::new("Text", "Items", 0u32).search_terms(&terms);
    assert!(extended.matches("caption"));
    assert!(extended.matches("SUBTITLE text"));
    assert_eq!(extended.label(), "Text");
    assert_eq!(extended.category(), "Items");
}

#[test]
fn plugin_entries_are_found_by_ids_and_tags() {
    let tags = vec!["Glow".to_string()];
    let entry = SearchPickerEntry::from_plugin_schema(
        "zerium.effects",
        "bloom",
        "Bloom",
        "Light",
        &tags,
        9u32,
    );
    assert!(entry.matches("zerium.effects"));
    assert!(entry.matches("bloom"));
    assert!(entry.matches("glow light"));
    assert!(!entry.matches("shadow"));
    assert_eq!(*entry.value(), 9);
}

#[test]
fn new_delegate_orders_by_category_then_label() {
    let entries = vec![
        SearchPickerEntry::new("b", "Z", 0u32),
        SearchPickerEntry::new("a", "Z", 1),
        SearchPickerEntry::new("c", "A", 2),
    ];
    let delegate = SearchPickerDelegate::new(entries);
    assert_eq!(delegate.sections_count(), 2);
    assert_eq!(delegate.section_header(0), Some("A"));
    assert_eq!(delegate.section_header(1), Some("Z"));
    assert_eq!(delegate.items_count(0), 1);
    assert_eq!(delegate.items_count(1), 2);
    assert_eq!(delegate.items_count(2), 0);
    assert_eq!(label_at(&delegate, 0, 0).as_deref(), Some("c"));
    assert_eq!(label_at(&delegate, 1, 0).as_deref(), Some("a"));
    assert_eq!(label_at(&delegate, 1, 1).as_deref(), Some("b"));
    assert_eq!(label_at(&delegate, 1, 2), None);
    assert_eq!(delegate.selected_value(), None);
}

#[test]
fn ordering_ignores_case() {
    let entries = vec![
        SearchPickerEntry::new("Banana", "fruit", 0u32),
        SearchPickerEntry::new("apple", "Fruit", 1),
    ];
    let delegate = SearchPickerDelegate::new(entries);
    assert_eq!(delegate.sections_count(), 2);
    assert_eq!(label_at(&delegate, 0, 0).as_deref(), Some("apple"));
    assert_eq!(label_at(&delegate, 1, 0).as_deref(), Some("Banana"));
}

#[test]
fn equal_keys_keep_their_original_order() {
    let entries = vec![
        SearchPickerEntry::new("Same", "Cat", 10u32),
        SearchPickerEntry::new("same", "cat", 20),
        SearchPickerEntry::new("Other", "Cat", 30),
        SearchPickerEntry::new("SAME", "CAT", 40),
    ];
    let delegate = SearchPickerDelegate::new(entries);
    let values: Vec<u32> = (0..delegate.sections_count())
        .flat_map(|section| {
            (0..delegate.items_count(section))
                .map(move |row| (section, row))
                .collect::<Vec<_>>()
        })
        .map(|(section, row)| *delegate.item_entry(IndexPath { section, row }).unwrap().value())
        .collect();
    assert_eq!(values, vec![30, 10, 20, 40]);
}

#[test]
fn search_selects_the_first_match() {
    let entries = vec![
        SearchPickerEntry::new("Blur", "Effects", 1u32),
        SearchPickerEntry::new("Text", "Items", 2),
        SearchPickerEntry::new("Sharpen", "Effects", 3),
    ];
    let mut delegate = SearchPickerDelegate::new(entries);
    delegate.perform_search("en");
    assert!(delegate.has_visible_entries());
    assert_eq!(delegate.sections_count(), 1);
    assert_eq!(delegate.section_header(0), Some("Effects"));
    assert_eq!(delegate.items_count(0), 1);
    assert_eq!(delegate.selected_value(), Some(&3));

    delegate.perform_search("items");
    assert_eq!(delegate.selected_value(), Some(&2));
}

#[test]
fn search_without_matches_selects_nothing() {
    let entries = vec![SearchPickerEntry::new("Blur", "Effects", 1u32)];
    let mut delegate = SearchPickerDelegate::new(entries);
    delegate.perform_search("zzz");
    assert!(!delegate.has_visible_entries());
    assert_eq!(delegate.sections_count(), 0);
    assert_eq!(delegate.selected_value(), None);
    assert_eq!(delegate.section_header(0), None);
}

#[test]
fn empty_category_has_no_header() {
    let entries = vec![SearchPickerEntry::new("Loose", "", 5u32)];
    let delegate = SearchPickerDelegate::new(entries);
    assert_eq!(delegate.sections_count(), 1);
    assert_eq!(delegate.section_header(0), None);
    assert_eq!(delegate.items_count(0), 1);
}

#[test]
fn selection_can_be_moved_and_cleared() {
    let entries = vec![
        SearchPickerEntry::new("One", "A", 1u32),
        SearchPickerEntry::new("Two", "B", 2),
    ];
    let mut delegate = SearchPickerDelegate::new(entries);
    delegate.set_selected_index(Some(IndexPath { section: 1, row: 0 }));
    assert_eq!(delegate.selected_value(), Some(&2));
    delegate.set_selected_index(Some(IndexPath { section: 4, row: 0 }));
    assert_eq!(delegate.selected_value(), None);
    delegate.set_selected_index(None);
    assert_eq!(delegate.selected_value(), None);
    assert_eq!(IndexPath::default(), IndexPath { section: 0, row: 0 });
}

#[test]
fn matching_sections_group_visible_entries() {
    let entries = vec![
        SearchPickerEntry::new("Blur", "Effects", 1u32),
        SearchPickerEntry::new("Glow", "Effects", 2),
        SearchPickerEntry::new("Text", "Items", 3),
    ];
    assert_eq!(SearchPickerDelegate::matching_sections(&entries, "").len(), 2);
    assert_eq!(SearchPickerDelegate::matching_sections(&entries, "l").len(), 1);
    assert_eq!(SearchPickerDelegate::matching_sections(&entries, "x").len(), 1);
    assert_eq!(SearchPickerDelegate::matching_sections(&entries, "q").len(), 0);
}

#[test]
fn confirmation_is_claimed_once() {
    let mut confirmed = false;
    assert!(claim_confirmation(&mut confirmed));
    assert!(confirmed);
    assert!(!claim_confirmation(&mut confirmed));
    assert!(confirmed);
}

#[test]
fn joined_query_matches_when_both_parts_match() {
    let entry = SearchPickerEntry::new("Gaussian Blur", "Effects", 1u32);
    for (a, b) in [("blur", "eff"), ("blur", "sharpen"), ("zoom", "eff"), ("", "gauss"), ("BLUR", "EFF")] {
        let joined = format!("{a} {b}");
        assert_eq!(entry.matches(&joined), entry.matches(a) && entry.matches(b), "{joined}");
    }
    assert!(entry.matches("BLUR eff"));
}

#[test]
fn ascii_queries_match_regardless_of_case() {
    let entry = SearchPickerEntry::new("Gaussian Blur", "Effects", 1u32);
    for q in ["blur", "gauss eff", "sharpen", "Blur\tEFFECTS", "", "bl ur"] {
        assert!(q.is_ascii());
        assert_eq!(entry.matches(&q.to_ascii_uppercase()), entry.matches(q), "{q}");
    }
}
