use ticket_store::store::{CreateTicketError, PatchTicketError, TicketStore};
use ticket_store::ticket::{
    validate_description, validate_title, Status, TicketDescription, TicketDescriptionError,
    TicketDraft, TicketId, TicketTitle, TicketTitleError,
};

fn draft(title: &str, description: &str) -> TicketDraft {
    TicketDraft {
        title: TicketTitle::try_from(title.to_string()).unwrap(),
        description: TicketDescription::try_from(description.to_string()).unwrap(),
    }
}

#[test]
fn title_round_trips_within_bounds() {
    for s in ["a", "Fix bug", &"x".repeat(50)] {
        let t = TicketTitle::try_from(s.to_string()).unwrap();
        assert_eq!(t.as_str(), s);
    }
}

#[test]
fn title_rejected_outside_bounds() {
    assert_eq!(
        TicketTitle::try_from(String::new()).unwrap_err(),
        TicketTitleError::Empty
    );
    assert_eq!(
        TicketTitle::try_from("x".repeat(51)).unwrap_err(),
        TicketTitleError::TooLong
    );
}

#[test]
fn title_length_is_measured_in_bytes() {
    // 26 two-byte characters: 26 chars but 52 bytes, over the 50-byte bound.
    let two_byte = "\u{e9}".repeat(26);
    assert_eq!(two_byte.len(), 52);
    assert_eq!(
        TicketTitle::try_from(two_byte).unwrap_err(),
        TicketTitleError::TooLong
    );
    // 25 two-byte characters fill exactly 50 bytes and pass.
    let fits = "\u{e9}".repeat(25);
    let t = TicketTitle::try_from(fits.clone()).unwrap();
    assert_eq!(t.as_str(), fits);
}

#[test]
fn validate_title_matches_try_from() {
    assert_eq!(validate_title(""), Err(TicketTitleError::Empty));
    assert_eq!(validate_title(&"y".repeat(51)), Err(TicketTitleError::TooLong));
    assert_eq!(validate_title("ok"), Ok(()));
}

#[test]
fn description_round_trips_within_bounds() {
    for s in ["a", "NPE on login", &"x".repeat(500)] {
        let d = TicketDescription::try_from(s.to_string()).unwrap();
        assert_eq!(d.as_str(), s);
    }
}

#[test]
fn description_rejected_outside_bounds() {
    assert_eq!(
        TicketDescription::try_from(String::new()).unwrap_err(),
        TicketDescriptionError::Empty
    );
    assert_eq!(
        TicketDescription::try_from("x".repeat(501)).unwrap_err(),
        TicketDescriptionError::TooLong
    );
}

#[test]
fn validate_description_matches_try_from() {
    assert_eq!(validate_description(""), Err(TicketDescriptionError::Empty));
    assert_eq!(
        validate_description(&"y".repeat(501)),
        Err(TicketDescriptionError::TooLong)
    );
    assert_eq!(validate_description("ok"), Ok(()));
}

#[test]
fn values_compare_by_underlying_string() {
    let a = TicketTitle::try_from("Same".to_string()).unwrap();
    let b = TicketTitle::try_from("Same".to_string()).unwrap();
    let c = TicketTitle::try_from("same".to_string()).unwrap();
    assert_eq!(a, b);
    assert_ne!(a, c);
    let d = TicketDescription::try_from("Body".to_string()).unwrap();
    let e = TicketDescription::try_from("Body".to_string()).unwrap();
    assert_eq!(d, e);
    assert_eq!(draft("t", "d"), draft("t", "d"));
    assert_ne!(draft("t", "d"), draft("t", "other"));

    let mut store = TicketStore::new();
    let id = store.add_ticket(draft("t", "d"));
    let fetched_twice = (store.get(id).unwrap().clone(), store.get(id).unwrap().clone());
    assert_eq!(fetched_twice.0, fetched_twice.1);
}

#[test]
fn error_messages_name_the_reason() {
    assert_eq!(TicketTitleError::Empty.message(), "The title cannot be empty");
    assert_eq!(
        TicketTitleError::TooLong.message(),
        "The title cannot be longer than 50 bytes"
    );
    assert_eq!(
        TicketDescriptionError::Empty.message(),
        "The description cannot be empty"
    );
    assert_eq!(
        TicketDescriptionError::TooLong.message(),
        "The description cannot be longer than 500 bytes"
    );
}

#[test]
fn add_ticket_allocates_increasing_ids_from_zero() {
    let mut store = TicketStore::new();
    assert_eq!(store.counter(), 0);
    let mut ids = Vec::new();
    for i in 0..5u64 {
        let id = store.add_ticket(draft(&format!("t{}", i), "d"));
        ids.push(id.0);
    }
    assert_eq!(ids, vec![0, 1, 2, 3, 4]);
    assert_eq!(store.counter(), 5);
}

#[test]
fn get_on_never_allocated_id_is_absent() {
    let mut store = TicketStore::new();
    assert!(store.get(TicketId(0)).is_none());
    store.add_ticket(draft("only", "one"));
    assert!(store.get(TicketId(1)).is_none());
    assert!(store.get(TicketId(999)).is_none());
    assert!(store.get(TicketId(u64::MAX)).is_none());
}

#[test]
fn add_then_get_returns_the_draft_as_todo() {
    let mut store = TicketStore::new();
    let id = store.add_ticket(draft("Fix bug", "NPE on login"));
    let t = store.get(id).unwrap();
    assert_eq!(t.id(), id);
    assert_eq!(t.title().as_str(), "Fix bug");
    assert_eq!(t.description().as_str(), "NPE on login");
    assert_eq!(t.status(), Status::ToDo);
}

#[test]
fn get_mut_mutates_the_stored_record() {
    let mut store = TicketStore::new();
    let id = store.add_ticket(draft("before", "body"));
    {
        let t = store.get_mut(id).unwrap();
        t.set_status(Status::Done);
        t.set_title(TicketTitle::try_from("after".to_string()).unwrap());
    }
    let t = store.get(id).unwrap();
    assert_eq!(t.title().as_str(), "after");
    assert_eq!(t.description().as_str(), "body");
    assert_eq!(t.status(), Status::Done);
    assert!(store.get_mut(TicketId(7)).is_none());
}

#[test]
fn patch_only_status_keeps_title_and_description() {
    let mut store = TicketStore::new();
    let id = store.add_ticket(draft("title", "description"));
    let t = store
        .patch_ticket(id, None, None, Some(Status::InProgress))
        .unwrap();
    assert_eq!(t.title().as_str(), "title");
    assert_eq!(t.description().as_str(), "description");
    assert_eq!(t.status(), Status::InProgress);
}

#[test]
fn patch_only_title_keeps_description_and_status() {
    let mut store = TicketStore::new();
    let id = store.add_ticket(draft("old title", "description"));
    store
        .patch_ticket(id, None, None, Some(Status::Done))
        .unwrap();
    let t = store
        .patch_ticket(id, Some("new title".to_string()), None, None)
        .unwrap();
    assert_eq!(t.title().as_str(), "new title");
    assert_eq!(t.description().as_str(), "description");
    assert_eq!(t.status(), Status::Done);
}

#[test]
fn patch_with_invalid_field_changes_nothing() {
    let mut store = TicketStore::new();
    let id = store.add_ticket(draft("title", "description"));

    let r = store.patch_ticket(id, Some(String::new()), None, Some(Status::Done));
    assert_eq!(r.unwrap_err(), PatchTicketError::Title(TicketTitleError::Empty));

    // A valid title beside an invalid description must not be applied either.
    let r = store.patch_ticket(
        id,
        Some("would be fine".to_string()),
        Some("z".repeat(501)),
        Some(Status::Done),
    );
    assert_eq!(
        r.unwrap_err(),
        PatchTicketError::Description(TicketDescriptionError::TooLong)
    );

    let t = store.get(id).unwrap();
    assert_eq!(t.title().as_str(), "title");
    assert_eq!(t.description().as_str(), "description");
    assert_eq!(t.status(), Status::ToDo);
}

#[test]
fn patch_missing_ticket_is_not_found() {
    let mut store = TicketStore::new();
    let r = store.patch_ticket(TicketId(0), None, None, Some(Status::Done));
    assert_eq!(r.unwrap_err(), PatchTicketError::NotFound);
}

#[test]
fn create_ticket_validates_then_stores() {
    let mut store = TicketStore::new();
    let t = store
        .create_ticket("Fix bug".to_string(), "NPE on login".to_string())
        .unwrap();
    assert_eq!(t.id(), TicketId(0));
    assert_eq!(t.title().as_str(), "Fix bug");
    assert_eq!(t.description().as_str(), "NPE on login");
    assert_eq!(t.status(), Status::ToDo);
    assert_eq!(store.counter(), 1);
}

#[test]
fn create_ticket_reports_each_invalid_field() {
    let mut store = TicketStore::new();
    assert_eq!(
        store
            .create_ticket(String::new(), "x".to_string())
            .unwrap_err(),
        CreateTicketError::Title(TicketTitleError::Empty)
    );
    assert_eq!(
        store
            .create_ticket("t".repeat(51), "x".to_string())
            .unwrap_err(),
        CreateTicketError::Title(TicketTitleError::TooLong)
    );
    assert_eq!(
        store
            .create_ticket("t".to_string(), String::new())
            .unwrap_err(),
        CreateTicketError::Description(TicketDescriptionError::Empty)
    );
    assert_eq!(
        store
            .create_ticket("t".to_string(), "d".repeat(501))
            .unwrap_err(),
        CreateTicketError::Description(TicketDescriptionError::TooLong)
    );
    // A failed create allocates nothing.
    assert_eq!(store.counter(), 0);
}

#[test]
fn end_to_end_scenario() {
    // The request flow the HTTP layer drives, at the level of the core.
    let mut store = TicketStore::new();

    // POST /tickets {"title":"Fix bug","description":"NPE on login"} -> 201
    let created = store
        .create_ticket("Fix bug".to_string(), "NPE on login".to_string())
        .unwrap();
    assert_eq!(created.id(), TicketId(0));
    assert_eq!(created.title().as_str(), "Fix bug");
    assert_eq!(created.description().as_str(), "NPE on login");
    assert_eq!(created.status(), Status::ToDo);

    // GET /tickets/0 -> 200, same record
    let fetched = store.get(TicketId(0)).unwrap();
    assert_eq!(fetched.id(), TicketId(0));
    assert_eq!(fetched.title().as_str(), "Fix bug");
    assert_eq!(fetched.description().as_str(), "NPE on login");
    assert_eq!(fetched.status(), Status::ToDo);

    // PATCH /tickets/0 {"status":"InProgress"} -> 200, only status moved
    let patched = store
        .patch_ticket(TicketId(0), None, None, Some(Status::InProgress))
        .unwrap();
    assert_eq!(patched.title().as_str(), "Fix bug");
    assert_eq!(patched.description().as_str(), "NPE on login");
    assert_eq!(patched.status(), Status::InProgress);

    // GET /tickets/999 -> 404
    assert!(store.get(TicketId(999)).is_none());

    // POST /tickets {"title":"","description":"x"} -> 400
    assert_eq!(
        store
            .create_ticket(String::new(), "x".to_string())
            .unwrap_err(),
        CreateTicketError::Title(TicketTitleError::Empty)
    );
}
