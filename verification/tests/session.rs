use zerium::session::{UiNotifications, MAX_MESSAGES};

fn texts(unseen: &[(String, bool)]) -> Vec<&str> {
    unseen.iter().map(|(message, _)| message.as_str()).collect()
}

#[test]
fn new_queue_has_nothing_unseen() {
    let queue = UiNotifications::new();
    let (unseen, total) = queue.unseen_since(0);
    assert!(unseen.is_empty());
    assert_eq!(total, 0);
}

#[test]
fn reader_receives_messages_with_their_kind() {
    let mut queue = UiNotifications::new();
    queue.push("failed".to_string());
    queue.push_success("saved".to_string());
    let (unseen, total) = queue.unseen_since(0);
    assert_eq!(total, 2);
    assert_eq!(
        unseen,
        vec![("failed".to_string(), false), ("saved".to_string(), true)]
    );
}

#[test]
fn reader_sees_only_messages_after_its_last_poll() {
    let mut queue = UiNotifications::new();
    queue.push("one".to_string());
    let (first, seen) = queue.unseen_since(0);
    assert_eq!(texts(&first), vec!["one"]);
    queue.push("two".to_string());
    queue.push_success("three".to_string());
    let (second, seen) = queue.unseen_since(seen);
    assert_eq!(texts(&second), vec!["two", "three"]);
    assert_eq!(seen, 3);
    let (third, _) = queue.unseen_since(seen);
    assert!(third.is_empty());
}

#[test]
fn queue_keeps_only_the_newest_messages() {
    let mut queue = UiNotifications::new();
    for index in 0..20 {
        queue.push(format!("m{index}"));
    }
    let (unseen, total) = queue.unseen_since(0);
    assert_eq!(total, 20);
    assert_eq!(unseen.len(), MAX_MESSAGES);
    assert_eq!(unseen.first().unwrap().0, "m4");
    assert_eq!(unseen.last().unwrap().0, "m19");
}

#[test]
fn reader_that_fell_behind_gets_what_is_still_held() {
    let mut queue = UiNotifications::new();
    for index in 0..18 {
        queue.push(format!("m{index}"));
    }
    let (unseen, total) = queue.unseen_since(1);
    assert_eq!(total, 18);
    assert_eq!(unseen.len(), 16);
    assert_eq!(unseen[0].0, "m2");
    let (unseen, _) = queue.unseen_since(17);
    assert_eq!(texts(&unseen), vec!["m17"]);
}

#[test]
fn reader_ahead_of_the_queue_gets_nothing() {
    let mut queue = UiNotifications::new();
    queue.push("only".to_string());
    let (unseen, total) = queue.unseen_since(5);
    assert!(unseen.is_empty());
    assert_eq!(total, 1);
}

#[test]
fn default_queue_is_empty() {
    let queue = UiNotifications::default();
    let (unseen, total) = queue.unseen_since(0);
    assert!(unseen.is_empty());
    assert_eq!(total, 0);
}
