use ccm::{Calendar, Collection, Color, Delta, Manager, Notice, Provider, WriteCommand};

#[test]
fn provider_lists_its_collections() {
    let mut provider = Provider::new("Prov1", "Local");
    assert_eq!(provider.add_collection("C1"), Delta { position: 0, removed: 0, added: 1 });
    assert_eq!(provider.add_collection("C2"), Delta { position: 1, removed: 0, added: 1 });
    assert_eq!(provider.collections().item(0), Some("C1"));
    assert_eq!(provider.collections().item(1), Some("C2"));
    assert_eq!(provider.collections().n_items(), 2);
    assert_eq!(provider.name(), "Local");
}

#[test]
fn collection_is_a_list_of_its_calendars() {
    let mut collection = Collection::new("Prov1", "C1", "Personal");
    assert_eq!(collection.n_items(), 0);
    assert_eq!(collection.item(0), None);
    assert_eq!(collection.add_calendar("Cal1"), Delta { position: 0, removed: 0, added: 1 });
    assert_eq!(collection.add_calendar("Cal2"), Delta { position: 1, removed: 0, added: 1 });
    assert_eq!(collection.n_items(), 2);
    assert_eq!(collection.item(1), Some("Cal2"));
    assert_eq!(collection.item(2), None);
    assert_eq!(collection.calendars().find("Cal2"), Some(1));
    assert_eq!(collection.name(), "Personal");
}

#[test]
fn collection_lets_a_deleted_calendar_go() {
    let mut collection = Collection::new("Prov1", "C1", "Personal");
    collection.add_calendar("Cal1");
    collection.add_calendar("Cal2");
    collection.add_calendar("Cal3");
    assert_eq!(collection.remove_calendar("Cal2"), Delta { position: 1, removed: 1, added: 0 });
    assert_eq!(collection.n_items(), 2);
    assert_eq!(collection.item(0), Some("Cal1"));
    assert_eq!(collection.item(1), Some("Cal3"));
}

#[test]
fn calendar_takes_over_name_and_colour() {
    let mut calendar = Calendar::new("C1", "Cal1", "Home", Color::from_bits(1, 2, 3, 4));
    calendar.add_event("E1");
    calendar.emit_updated("Work", Color::from_bits(5, 6, 7, 8));
    assert_eq!(calendar.name(), "Work");
    assert_eq!(calendar.color(), Color::from_bits(5, 6, 7, 8));
    assert_eq!(calendar.uri(), "Cal1");
    assert_eq!(calendar.collection_uri(), "C1");
    assert_eq!(calendar.events().n_items(), 1);
    assert_eq!(calendar.events().item(0), Some("E1"));
}

#[test]
fn calendar_announces_its_deletion() {
    let calendar = Calendar::new("C1", "Cal1", "Home", Color::from_bits(1, 2, 3, 4));
    assert_eq!(calendar.emit_deleted(), Notice::Deleted { uri: "Cal1".to_string() });
}

#[test]
fn calendar_update_asks_for_what_is_given() {
    let calendar = Calendar::new("C1", "Cal1", "Home", Color::from_bits(1, 2, 3, 4));
    let blue = Color::from_bits(0, 0, 0x3f80_0000, 0x3f80_0000);
    assert_eq!(calendar.update(None, None), Vec::<WriteCommand>::new());
    assert_eq!(
        calendar.update(Some("Work"), None),
        vec![WriteCommand::UpdateCalendarName { uri: "Cal1".to_string(), name: "Work".to_string() }]
    );
    assert_eq!(
        calendar.update(None, Some(blue)),
        vec![WriteCommand::UpdateCalendarColor { uri: "Cal1".to_string(), color: blue }]
    );
    assert_eq!(
        calendar.update(Some("Work"), Some(blue)),
        vec![
            WriteCommand::UpdateCalendarName { uri: "Cal1".to_string(), name: "Work".to_string() },
            WriteCommand::UpdateCalendarColor { uri: "Cal1".to_string(), color: blue },
        ]
    );
    // Asking changes nothing here: the store has to report the change first.
    assert_eq!(calendar.name(), "Home");
}

#[test]
fn calendar_delete_and_collection_create_ask_the_store() {
    let calendar = Calendar::new("C1", "Cal1", "Home", Color::from_bits(1, 2, 3, 4));
    assert_eq!(calendar.delete(), WriteCommand::DeleteCalendar { uri: "Cal1".to_string() });
    let collection = Collection::new("Prov1", "C1", "Personal");
    let green = Color::from_bits(0, 0x3f80_0000, 0, 0x3f80_0000);
    assert_eq!(
        collection.create_calendar("Garden", green),
        WriteCommand::CreateCalendar {
            collection_uri: "C1".to_string(),
            name: "Garden".to_string(),
            color: green,
        }
    );
}

#[test]
fn manager_builds_the_requests() {
    let grey = Color::from_bits(7, 7, 7, 7);
    assert_eq!(
        Manager::create_calendar("C1", "Garden", grey),
        WriteCommand::CreateCalendar {
            collection_uri: "C1".to_string(),
            name: "Garden".to_string(),
            color: grey,
        }
    );
    assert_eq!(
        Manager::update_calendar("Cal1", Some("n"), Some(grey)).len(),
        2
    );
    assert_eq!(Manager::update_calendar("Cal1", None, None).len(), 0);
    assert_eq!(
        Manager::delete_calendar("Cal1"),
        WriteCommand::DeleteCalendar { uri: "Cal1".to_string() }
    );
    assert_eq!(
        Manager::create_event("Cal1", "Lunch", "With Ada"),
        WriteCommand::CreateEvent {
            calendar_uri: "Cal1".to_string(),
            name: "Lunch".to_string(),
            description: "With Ada".to_string(),
        }
    );
}

#[test]
fn requests_name_their_method() {
    let grey = Color::from_bits(7, 7, 7, 7);
    assert_eq!(Manager::create_calendar("C1", "n", grey).method(), "CreateCalendar");
    let updates = Manager::update_calendar("Cal1", Some("n"), Some(grey));
    assert_eq!(updates[0].method(), "UpdateCalendarName");
    assert_eq!(updates[1].method(), "UpdateCalendarColor");
    assert_eq!(Manager::delete_calendar("Cal1").method(), "DeleteCalendar");
    assert_eq!(Manager::create_event("Cal1", "n", "d").method(), "CreateEvent");
}

#[test]
fn colour_keeps_every_bit() {
    let color = Color::from_bits(
        0.25f32.to_bits(),
        0.5f32.to_bits(),
        0.1f32.to_bits(),
        1.0f32.to_bits(),
    );
    assert_eq!(f32::from_bits(color.red), 0.25);
    assert_eq!(f32::from_bits(color.green), 0.5);
    assert_eq!(f32::from_bits(color.blue), 0.1);
    assert_eq!(f32::from_bits(color.alpha), 1.0);
    assert_eq!(color, Color { red: 0x3e80_0000, green: 0x3f00_0000, blue: 0x3dcc_cccd, alpha: 0x3f80_0000 });
}
