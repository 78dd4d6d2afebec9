use std::collections::HashSet;

use ccm::{
    Change, CollectionsModel, Color, Kind, Lookup, Manager, Notice, Notification, Resource,
};

/// A small generator of numbers, the same on every run.
struct Numbers(u64);

impl Numbers {
    fn next(&mut self, below: u64) -> u64 {
        self.0 = self.0.wrapping_mul(6364136223846793005).wrapping_add(1442695040888963407);
        (self.0 >> 33) % below
    }
}

fn items(list: &CollectionsModel) -> Vec<String> {
    (0..list.n_items()).map(|i| list.item(i).unwrap().to_string()).collect()
}

fn uri(kind: u64, n: u64) -> String {
    let prefix = ["prov", "coll", "cal", "ev"][kind as usize];
    format!("{}{}", prefix, n)
}

fn answer(numbers: &mut Numbers, kind: u64) -> Lookup {
    let parent = if kind == 0 { String::new() } else { uri(kind - 1, numbers.next(4)) };
    match numbers.next(8) {
        0 => Lookup::Missing,
        1 => Lookup::Failed,
        _ => match kind {
            0 => Lookup::Provider { name: "p".to_string() },
            1 => Lookup::Collection { provider_uri: parent, name: "c".to_string() },
            2 => Lookup::Calendar {
                collection_uri: parent,
                name: format!("k{}", numbers.next(100)),
                color: if numbers.next(6) == 0 {
                    None
                } else {
                    Some(Color::from_bits(numbers.next(9) as u32, 0, 0, 0))
                },
            },
            _ => Lookup::Event {
                calendar_uri: parent,
                name: "e".to_string(),
                description: String::new(),
            },
        },
    }
}

fn children(resource: &Resource) -> Vec<String> {
    match resource {
        Resource::Provider(provider) => items(provider.collections()),
        Resource::Collection(collection) => items(collection.calendars()),
        Resource::Calendar(calendar) => items(calendar.events()),
        Resource::Event(_) => Vec::new(),
    }
}

fn parent_of(resource: &Resource) -> Option<String> {
    match resource {
        Resource::Provider(_) => None,
        Resource::Collection(collection) => Some(collection.provider_uri().to_string()),
        Resource::Calendar(calendar) => Some(calendar.collection_uri().to_string()),
        Resource::Event(event) => Some(event.calendar_uri().to_string()),
    }
}

fn below(kind: Kind) -> Option<Kind> {
    match kind {
        Kind::Provider => Some(Kind::Collection),
        Kind::Collection => Some(Kind::Calendar),
        Kind::Calendar => Some(Kind::Event),
        Kind::Event => None,
    }
}

/// Holds the mirror to what it promises of every state.
fn assert_in_order(manager: &Manager, known: &[String]) -> usize {
    let mut held = 0;
    for uri in known {
        let Some(resource) = manager.find_resource(uri) else { continue };
        held += 1;
        assert_eq!(resource.uri(), uri);
        let listed = children(resource);
        let distinct: HashSet<&String> = listed.iter().collect();
        assert_eq!(distinct.len(), listed.len(), "{} lists a resource twice", uri);
        for child in &listed {
            let found = manager.find_resource(child).expect("a listed resource is in the pool");
            assert_eq!(Some(found.kind()), below(resource.kind()));
            assert_eq!(parent_of(found).as_deref(), Some(uri.as_str()));
        }
        if matches!(resource.kind(), Kind::Collection | Kind::Calendar) {
            let parent = parent_of(resource).unwrap();
            let owner = manager.find_resource(&parent).expect("the parent is in the pool");
            assert_eq!(below(owner.kind()), Some(resource.kind()));
            assert!(children(owner).contains(uri));
        }
    }
    let listed = items(manager.collections_model());
    let distinct: HashSet<&String> = listed.iter().collect();
    assert_eq!(distinct.len(), listed.len());
    for uri in &listed {
        assert_eq!(manager.find_resource(uri).map(|r| r.kind()), Some(Kind::Collection));
    }
    held
}

#[test]
fn any_batches_leave_the_mirror_in_order() {
    let mut numbers = Numbers(7);
    let known: Vec<String> =
        (0..4).flat_map(|kind| (0..4).map(move |n| uri(kind, n))).collect();
    let mut manager = Manager::new();
    for _ in 0..300 {
        let mut batch = Vec::new();
        for _ in 0..numbers.next(7) {
            let kind = numbers.next(4);
            let uri = uri(kind, numbers.next(4));
            let change = match numbers.next(4) {
                0 => Change::Delete,
                1 => Change::Update,
                _ => Change::Create,
            };
            // The answer may well be of another kind than the URI suggests.
            let answered = if numbers.next(10) == 0 { numbers.next(4) } else { kind };
            batch.push(Notification::new(change, &uri, answer(&mut numbers, answered)));
        }
        let before = manager.resource_pool().len();
        let notices = manager.handle_notifier_events(&batch);
        let created = notices.iter().filter(|n| matches!(n, Notice::Created { .. })).count();
        let deleted = notices.iter().filter(|n| matches!(n, Notice::Deleted { .. })).count();
        assert_eq!(manager.resource_pool().len(), before + created - deleted);
        assert!(notices.len() >= batch.len());
        let held = assert_in_order(&manager, &known);
        assert_eq!(held, manager.resource_pool().len());
    }
    assert!(manager.resource_pool().len() > 0);
}
