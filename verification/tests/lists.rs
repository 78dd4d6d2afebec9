use ccm::{CollectionsModel, Delta};

fn list_of(uris: &[&str]) -> CollectionsModel {
    let mut list = CollectionsModel::new();
    for uri in uris {
        list.append(uri);
    }
    list
}

fn items(list: &CollectionsModel) -> Vec<String> {
    (0..list.n_items()).map(|i| list.item(i).unwrap().to_string()).collect()
}

#[test]
fn new_list_is_empty() {
    let list = CollectionsModel::new();
    assert_eq!(list.n_items(), 0);
    assert_eq!(list.item(0), None);
    assert_eq!(CollectionsModel::default().n_items(), 0);
}

#[test]
fn append_reports_the_last_position() {
    let mut list = CollectionsModel::new();
    assert_eq!(list.append("a"), Delta { position: 0, removed: 0, added: 1 });
    assert_eq!(list.append("b"), Delta { position: 1, removed: 0, added: 1 });
    assert_eq!(list.append("a"), Delta { position: 2, removed: 0, added: 1 });
    assert_eq!(items(&list), vec!["a", "b", "a"]);
    assert_eq!(list.n_items(), 3);
}

#[test]
fn item_ends_with_the_list() {
    let list = list_of(&["a", "b"]);
    assert_eq!(list.item(0), Some("a"));
    assert_eq!(list.item(1), Some("b"));
    assert_eq!(list.item(2), None);
    assert_eq!(list.item(usize::MAX), None);
}

#[test]
fn find_gives_the_first_position() {
    let list = list_of(&["a", "b", "a", "c"]);
    assert_eq!(list.find("a"), Some(0));
    assert_eq!(list.find("b"), Some(1));
    assert_eq!(list.find("c"), Some(3));
    assert_eq!(list.find("d"), None);
    assert_eq!(list.find(""), None);
    assert!(list.contains("c"));
    assert!(!list.contains("C"));
}

#[test]
fn find_tells_texts_apart_by_every_byte() {
    let list = list_of(&["urn:cal:é", "urn:cal:e", "urn:cal"]);
    assert_eq!(list.find("urn:cal:e"), Some(1));
    assert_eq!(list.find("urn:cal"), Some(2));
    assert_eq!(list.find("urn:cal:é"), Some(0));
    assert_eq!(list.find("urn:cal:è"), None);
}

#[test]
fn splice_in_the_middle() {
    let mut list = list_of(&["a", "d"]);
    let delta = list.splice(&["b".to_string(), "c".to_string()], 1);
    assert_eq!(delta, Some(Delta { position: 1, removed: 0, added: 2 }));
    assert_eq!(items(&list), vec!["a", "b", "c", "d"]);
}

#[test]
fn splice_at_both_ends() {
    let mut list = list_of(&["b"]);
    assert_eq!(
        list.splice(&["a".to_string()], 0),
        Some(Delta { position: 0, removed: 0, added: 1 })
    );
    assert_eq!(
        list.splice(&["c".to_string(), "d".to_string()], 2),
        Some(Delta { position: 2, removed: 0, added: 2 })
    );
    assert_eq!(items(&list), vec!["a", "b", "c", "d"]);
}

#[test]
fn splice_of_nothing_changes_nothing() {
    let mut list = list_of(&["a"]);
    assert_eq!(list.splice(&[], 1), Some(Delta { position: 1, removed: 0, added: 0 }));
    assert_eq!(items(&list), vec!["a"]);
}

#[test]
fn splice_beyond_the_end_is_refused() {
    let mut list = list_of(&["a"]);
    assert_eq!(list.splice(&["b".to_string()], 2), None);
    assert_eq!(items(&list), vec!["a"]);
}

#[test]
fn remove_takes_the_first_occurrence() {
    let mut list = list_of(&["a", "b", "a"]);
    assert_eq!(list.remove("a"), Delta { position: 0, removed: 1, added: 0 });
    assert_eq!(items(&list), vec!["b", "a"]);
    assert_eq!(list.remove("a"), Delta { position: 1, removed: 1, added: 0 });
    assert_eq!(items(&list), vec!["b"]);
    assert_eq!(list.remove("b"), Delta { position: 0, removed: 1, added: 0 });
    assert_eq!(list.n_items(), 0);
}
