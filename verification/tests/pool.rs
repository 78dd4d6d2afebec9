use ccm::{Color, Event, Kind, Provider, Resource, ResourcePool};
use ccm::{Calendar, Collection};

#[test]
fn new_pool_is_empty() {
    let pool = ResourcePool::new();
    assert_eq!(pool.len(), 0);
    assert!(!pool.contains("Prov1"));
    assert!(pool.get("Prov1").is_none());
    assert_eq!(ResourcePool::default().len(), 0);
}

#[test]
fn insert_then_get() {
    let mut pool = ResourcePool::new();
    let previous = pool.insert("Prov1".to_string(), Resource::Provider(Provider::new("Prov1", "Local")));
    assert!(previous.is_none());
    assert_eq!(pool.len(), 1);
    assert!(pool.contains("Prov1"));
    match pool.get("Prov1") {
        Some(Resource::Provider(provider)) => {
            assert_eq!(provider.uri(), "Prov1");
            assert_eq!(provider.name(), "Local");
            assert_eq!(provider.collections().n_items(), 0);
        }
        other => panic!("Prov1 is {:?}", other),
    }
    assert!(pool.get("Prov2").is_none());
}

#[test]
fn insert_on_a_held_uri_replaces() {
    let mut pool = ResourcePool::new();
    pool.insert("X".to_string(), Resource::Provider(Provider::new("X", "first")));
    pool.insert("Y".to_string(), Resource::Event(Event::new("Cal", "Y", "e", "")));
    let previous = pool.insert("X".to_string(), Resource::Provider(Provider::new("X", "second")));
    match previous {
        Some(Resource::Provider(provider)) => assert_eq!(provider.name(), "first"),
        other => panic!("previous is {:?}", other),
    }
    assert_eq!(pool.len(), 2);
    match pool.get("X") {
        Some(Resource::Provider(provider)) => assert_eq!(provider.name(), "second"),
        other => panic!("X is {:?}", other),
    }
    assert_eq!(pool.get("Y").map(|r| r.kind()), Some(Kind::Event));
}

#[test]
fn remove_gives_the_resource_back() {
    let mut pool = ResourcePool::new();
    pool.insert("A".to_string(), Resource::Provider(Provider::new("A", "a")));
    pool.insert("B".to_string(), Resource::Collection(Collection::new("A", "B", "b")));
    pool.insert(
        "C".to_string(),
        Resource::Calendar(Calendar::new("B", "C", "c", Color::from_bits(1, 2, 3, 4))),
    );
    match pool.remove("B") {
        Some(Resource::Collection(collection)) => {
            assert_eq!(collection.uri(), "B");
            assert_eq!(collection.provider_uri(), "A");
        }
        other => panic!("removed {:?}", other),
    }
    assert_eq!(pool.len(), 2);
    assert!(!pool.contains("B"));
    assert!(pool.contains("A"));
    assert!(pool.contains("C"));
    assert!(pool.remove("B").is_none());
    assert_eq!(pool.len(), 2);
}

#[test]
fn get_mut_changes_the_resource_where_it_is() {
    let mut pool = ResourcePool::new();
    pool.insert(
        "C".to_string(),
        Resource::Calendar(Calendar::new("B", "C", "old", Color::from_bits(0, 0, 0, 0))),
    );
    match pool.get_mut("C") {
        Some(Resource::Calendar(calendar)) => {
            calendar.emit_updated("new", Color::from_bits(9, 8, 7, 6));
        }
        other => panic!("C is {:?}", other),
    }
    match pool.get("C") {
        Some(Resource::Calendar(calendar)) => {
            assert_eq!(calendar.name(), "new");
            assert_eq!(calendar.color(), Color { red: 9, green: 8, blue: 7, alpha: 6 });
            assert_eq!(calendar.uri(), "C");
            assert_eq!(calendar.collection_uri(), "B");
        }
        other => panic!("C is {:?}", other),
    }
    assert!(pool.get_mut("D").is_none());
    assert_eq!(pool.len(), 1);
}

#[test]
fn resources_know_their_uri_and_kind() {
    let provider = Resource::Provider(Provider::new("P", "p"));
    let collection = Resource::Collection(Collection::new("P", "C", "c"));
    let calendar = Resource::Calendar(Calendar::new("C", "K", "k", Color::from_bits(0, 0, 0, 0)));
    let event = Resource::Event(Event::new("K", "E", "e", "about"));
    assert_eq!((provider.uri(), provider.kind()), ("P", Kind::Provider));
    assert_eq!((collection.uri(), collection.kind()), ("C", Kind::Collection));
    assert_eq!((calendar.uri(), calendar.kind()), ("K", Kind::Calendar));
    assert_eq!((event.uri(), event.kind()), ("E", Kind::Event));
    match &event {
        Resource::Event(event) => {
            assert_eq!(event.calendar_uri(), "K");
            assert_eq!(event.name(), "e");
            assert_eq!(event.description(), "about");
        }
        other => panic!("event is {:?}", other),
    }
}
