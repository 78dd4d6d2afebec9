use ccm::{
    CollectionsModel, Color, Failure, Manager, Notice, PreCalendar, PreCollection, PreEvent,
    PreProvider,
};

fn items(list: &CollectionsModel) -> Vec<String> {
    (0..list.n_items()).map(|i| list.item(i).unwrap().to_string()).collect()
}

fn loaded() -> Manager {
    let mut manager = Manager::new();
    let event = |uri: &str| PreEvent {
        uri: uri.to_string(),
        calendar_uri: "Cal1".to_string(),
        name: uri.to_string(),
        description: String::new(),
    };
    manager.retrieve_resources(
        &vec![PreProvider { uri: "Prov1".to_string(), name: "p".to_string() }],
        &vec![PreCollection {
            uri: "C1".to_string(),
            provider_uri: "Prov1".to_string(),
            name: "c".to_string(),
        }],
        &vec![PreCalendar {
            uri: "Cal1".to_string(),
            collection_uri: "C1".to_string(),
            name: "k".to_string(),
            color: Color::from_bits(0, 0, 0, 0),
        }],
        &vec![event("E1"), event("E2"), event("E3")],
    );
    manager
}

fn uris(list: &[&str]) -> Vec<String> {
    list.iter().map(|uri| uri.to_string()).collect()
}

#[test]
fn a_search_for_nothing_does_not_ask_the_store() {
    assert!(!Manager::wants_search(""));
    assert!(Manager::wants_search("abc"));
    assert!(Manager::wants_search(" "));
}

#[test]
fn a_search_for_nothing_shows_nothing() {
    let manager = loaded();
    let (list, notices) = manager.search_events("", None);
    assert_eq!(list.n_items(), 0);
    assert!(notices.is_empty());
    // Even if the store was asked and matched something.
    let matches = uris(&["E1", "nowhere"]);
    let (list, notices) = manager.search_events("", Some(&matches));
    assert_eq!(list.n_items(), 0);
    assert!(notices.is_empty());
}

#[test]
fn a_search_shows_the_matched_events_of_the_pool() {
    let manager = loaded();
    let matches = uris(&["E3", "gone", "E1", "Cal1", "E3"]);
    let (list, notices) = manager.search_events("abc", Some(&matches));
    assert_eq!(items(&list), vec!["E3", "E1", "E3"]);
    assert_eq!(
        notices,
        vec![
            Notice::Skipped { uri: "gone".to_string(), failure: Failure::NotInPool },
            Notice::Skipped { uri: "Cal1".to_string(), failure: Failure::NotInPool },
        ]
    );
    // The mirror is as it was.
    assert_eq!(manager.resource_pool().len(), 6);
}

#[test]
fn a_search_without_matches_shows_nothing() {
    let manager = loaded();
    let (list, notices) = manager.search_events("abc", Some(&Vec::new()));
    assert_eq!(list.n_items(), 0);
    assert!(notices.is_empty());
}

#[test]
fn a_search_that_the_store_could_not_carry_out_shows_nothing() {
    let manager = loaded();
    let (list, notices) = manager.search_events("abc", None);
    assert_eq!(list.n_items(), 0);
    assert!(notices.is_empty());
}
