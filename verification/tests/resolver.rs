use ccm::{
    Change, Color, Failure, Lookup, Notification, PreCalendar, PreCollection, PreEvent,
    PreProvider, PreResource, Predicates,
};

fn calendar_answer(color: Option<Color>) -> Lookup {
    Lookup::Calendar { collection_uri: "C1".to_string(), name: "Home".to_string(), color }
}

fn event_answer() -> Lookup {
    Lookup::Event {
        calendar_uri: "Cal1".to_string(),
        name: "Lunch".to_string(),
        description: "With Ada".to_string(),
    }
}

#[test]
fn a_calendar_is_read_from_its_answer() {
    let color = Color::from_bits(1, 2, 3, 4);
    assert_eq!(
        PreCalendar::from_uri("Cal1", &calendar_answer(Some(color))),
        Ok(PreCalendar {
            uri: "Cal1".to_string(),
            collection_uri: "C1".to_string(),
            name: "Home".to_string(),
            color,
        })
    );
}

#[test]
fn a_calendar_without_a_colour_cannot_be_read() {
    assert_eq!(PreCalendar::from_uri("Cal1", &calendar_answer(None)), Err(Failure::ParseFailure));
    assert_eq!(PreResource::from_uri("Cal1", &calendar_answer(None)), Err(Failure::ParseFailure));
}

#[test]
fn a_failed_lookup_is_a_query_failure() {
    assert_eq!(PreCalendar::from_uri("x", &Lookup::Failed), Err(Failure::QueryFailure));
    assert_eq!(PreEvent::from_uri("x", &Lookup::Failed), Err(Failure::QueryFailure));
    assert_eq!(PreProvider::from_uri("x", &Lookup::Failed), Err(Failure::QueryFailure));
    assert_eq!(PreCollection::from_uri("x", &Lookup::Failed), Err(Failure::QueryFailure));
    assert_eq!(PreResource::from_uri("x", &Lookup::Failed), Err(Failure::QueryFailure));
}

#[test]
fn an_empty_answer_is_not_found() {
    assert_eq!(PreCalendar::from_uri("x", &Lookup::Missing), Err(Failure::ResolutionNotFound));
    assert_eq!(PreEvent::from_uri("x", &Lookup::Missing), Err(Failure::ResolutionNotFound));
    assert_eq!(PreProvider::from_uri("x", &Lookup::Missing), Err(Failure::ResolutionNotFound));
    assert_eq!(PreCollection::from_uri("x", &Lookup::Missing), Err(Failure::ResolutionNotFound));
    assert_eq!(PreResource::from_uri("x", &Lookup::Missing), Err(Failure::ResolutionNotFound));
}

#[test]
fn an_answer_of_another_kind_is_not_found() {
    assert_eq!(PreCalendar::from_uri("x", &event_answer()), Err(Failure::ResolutionNotFound));
    assert_eq!(
        PreEvent::from_uri("x", &calendar_answer(Some(Color::from_bits(0, 0, 0, 0)))),
        Err(Failure::ResolutionNotFound)
    );
    // Even a calendar that cannot be read is no event.
    assert_eq!(PreEvent::from_uri("x", &calendar_answer(None)), Err(Failure::ResolutionNotFound));
    assert_eq!(
        PreProvider::from_uri("x", &event_answer()),
        Err(Failure::ResolutionNotFound)
    );
    assert_eq!(
        PreCollection::from_uri("x", &Lookup::Provider { name: "p".to_string() }),
        Err(Failure::ResolutionNotFound)
    );
}

#[test]
fn an_event_is_read_from_its_answer() {
    assert_eq!(
        PreEvent::from_uri("E1", &event_answer()),
        Ok(PreEvent {
            uri: "E1".to_string(),
            calendar_uri: "Cal1".to_string(),
            name: "Lunch".to_string(),
            description: "With Ada".to_string(),
        })
    );
}

#[test]
fn provider_and_collection_are_read_from_their_answers() {
    assert_eq!(
        PreProvider::from_uri("Prov1", &Lookup::Provider { name: "Local".to_string() }),
        Ok(PreProvider { uri: "Prov1".to_string(), name: "Local".to_string() })
    );
    assert_eq!(
        PreCollection::from_uri(
            "C1",
            &Lookup::Collection { provider_uri: "Prov1".to_string(), name: "Personal".to_string() }
        ),
        Ok(PreCollection {
            uri: "C1".to_string(),
            provider_uri: "Prov1".to_string(),
            name: "Personal".to_string(),
        })
    );
}

#[test]
fn the_answer_names_the_kind() {
    let provider = PreResource::from_uri("Prov1", &Lookup::Provider { name: "Local".to_string() });
    assert!(matches!(&provider, Ok(PreResource::Provider(p)) if p.uri == "Prov1" && p.name == "Local"));
    let collection = PreResource::from_uri(
        "C1",
        &Lookup::Collection { provider_uri: "Prov1".to_string(), name: "Personal".to_string() },
    );
    assert!(matches!(&collection, Ok(PreResource::Collection(c)) if c.provider_uri == "Prov1"));
    let calendar = PreResource::from_uri("Cal1", &calendar_answer(Some(Color::from_bits(1, 1, 1, 1))));
    assert!(matches!(&calendar, Ok(PreResource::Calendar(c)) if c.collection_uri == "C1" && c.color.red == 1));
    let event = PreResource::from_uri("E1", &event_answer());
    assert!(matches!(&event, Ok(PreResource::Event(e)) if e.calendar_uri == "Cal1" && e.description == "With Ada"));
    let event = event.unwrap();
    assert_eq!(event.uri(), "E1");
    assert_eq!(event.kind(), ccm::Kind::Event);
}

#[test]
fn a_batch_is_sorted_by_change_and_keeps_its_order() {
    let batch = vec![
        Notification::new(Change::Delete, "d1", Lookup::Missing),
        Notification::new(Change::Create, "c1", Lookup::Missing),
        Notification::new(Change::Update, "u1", Lookup::Missing),
        Notification::new(Change::Create, "c2", Lookup::Missing),
        Notification::new(Change::Delete, "d2", Lookup::Missing),
        Notification::new(Change::Create, "c1", Lookup::Failed),
    ];
    let sorted = Notification::partition(&batch);
    let uris = |list: &Vec<&Notification>| list.iter().map(|n| n.uri.clone()).collect::<Vec<_>>();
    assert_eq!(uris(&sorted.created), vec!["c1", "c2", "c1"]);
    assert_eq!(uris(&sorted.updated), vec!["u1"]);
    assert_eq!(uris(&sorted.deleted), vec!["d1", "d2"]);
    assert_eq!(sorted.created[2].lookup, Lookup::Failed);
}

#[test]
fn an_empty_batch_sorts_into_nothing() {
    let batch: Vec<Notification> = Vec::new();
    let sorted = Notification::partition(&batch);
    assert!(sorted.created.is_empty());
    assert!(sorted.updated.is_empty());
    assert!(sorted.deleted.is_empty());
}

fn nothing() -> Predicates {
    Predicates {
        provider_name: None,
        collection_name: None,
        provider: None,
        calendar_name: None,
        color: None,
        collection: None,
        event_name: None,
        event_description: None,
        calendar: None,
    }
}

#[test]
fn predicates_of_no_kind_describe_nothing() {
    assert_eq!(Lookup::from_predicates(&nothing()), Lookup::Missing);
    // Half a collection, half a calendar and half an event are nothing either.
    let halves = Predicates {
        collection_name: Some("c".to_string()),
        calendar_name: Some("k".to_string()),
        collection: Some("C1".to_string()),
        event_name: Some("e".to_string()),
        calendar: Some("Cal1".to_string()),
        ..nothing()
    };
    assert_eq!(Lookup::from_predicates(&halves), Lookup::Missing);
}

#[test]
fn predicates_tell_the_kind() {
    let provider = Predicates { provider_name: Some("Local".to_string()), ..nothing() };
    assert_eq!(
        Lookup::from_predicates(&provider),
        Lookup::Provider { name: "Local".to_string() }
    );
    let collection = Predicates {
        collection_name: Some("Personal".to_string()),
        provider: Some("Prov1".to_string()),
        ..nothing()
    };
    assert_eq!(
        Lookup::from_predicates(&collection),
        Lookup::Collection { provider_uri: "Prov1".to_string(), name: "Personal".to_string() }
    );
    let color = Color::from_bits(1, 2, 3, 4);
    let calendar = Predicates {
        calendar_name: Some("Home".to_string()),
        color: Some(Some(color)),
        collection: Some("C1".to_string()),
        ..nothing()
    };
    assert_eq!(Lookup::from_predicates(&calendar), calendar_answer(Some(color)));
    let event = Predicates {
        event_name: Some("Lunch".to_string()),
        event_description: Some("With Ada".to_string()),
        calendar: Some("Cal1".to_string()),
        ..nothing()
    };
    assert_eq!(Lookup::from_predicates(&event), event_answer());
}

#[test]
fn a_colour_that_is_none_still_tells_a_calendar() {
    let calendar = Predicates {
        calendar_name: Some("Home".to_string()),
        color: Some(None),
        collection: Some("C1".to_string()),
        ..nothing()
    };
    assert_eq!(Lookup::from_predicates(&calendar), calendar_answer(None));
    assert_eq!(
        PreResource::from_uri("Cal1", &Lookup::from_predicates(&calendar)),
        Err(Failure::ParseFailure)
    );
}

#[test]
fn the_kind_nearest_the_root_wins() {
    let mixed = Predicates {
        provider_name: Some("Local".to_string()),
        event_name: Some("Lunch".to_string()),
        event_description: Some("With Ada".to_string()),
        calendar: Some("Cal1".to_string()),
        ..nothing()
    };
    assert_eq!(Lookup::from_predicates(&mixed), Lookup::Provider { name: "Local".to_string() });
    let mixed = Predicates {
        calendar_name: Some("Home".to_string()),
        color: Some(None),
        collection: Some("C1".to_string()),
        event_name: Some("Lunch".to_string()),
        event_description: Some("With Ada".to_string()),
        calendar: Some("Cal1".to_string()),
        ..nothing()
    };
    assert_eq!(Lookup::from_predicates(&mixed), calendar_answer(None));
}
