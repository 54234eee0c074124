use smart_door_lock::forms::{FormEvent, PersonForm, PhotoForm};

fn field(name: &str) -> FormEvent {
    FormEvent::FieldFound(Some(name.to_string()))
}

fn text(text: &str) -> FormEvent {
    FormEvent::TextRead(text.to_string())
}

fn bytes(bytes: &[u8]) -> FormEvent {
    FormEvent::BytesRead(bytes.to_vec())
}

fn person(events: Vec<FormEvent>) -> PersonForm {
    events.into_iter().fold(PersonForm::new(), |form, event| form.advance(event))
}

fn photo(events: Vec<FormEvent>) -> PhotoForm {
    events.into_iter().fold(PhotoForm::new(), |form, event| form.advance(event))
}

#[test]
fn a_person_is_a_name_and_a_photo() {
    let form = person(vec![
        field("name"),
        text("Ann"),
        field("photo"),
        bytes(&[1, 2]),
        FormEvent::EndOfForm,
    ]);
    match form {
        PersonForm::Complete { name, photo } => {
            assert_eq!(name, "Ann");
            assert_eq!(photo, vec![1, 2]);
        }
        _ => panic!(),
    }
}

#[test]
fn the_last_name_and_the_last_photo_count() {
    let form = person(vec![
        field("photo"),
        bytes(&[1]),
        field("name"),
        text("Ann"),
        field("other"),
        FormEvent::FieldFound(None),
        field("photo"),
        bytes(&[2]),
        field("name"),
        text("Bea"),
        FormEvent::EndOfForm,
    ]);
    match form {
        PersonForm::Complete { name, photo } => {
            assert_eq!(name, "Bea");
            assert_eq!(photo, vec![2]);
        }
        _ => panic!(),
    }
}

#[test]
fn fields_are_read_by_their_names() {
    assert!(matches!(person(vec![field("name")]), PersonForm::ReadName { .. }));
    assert!(matches!(person(vec![field("photo")]), PersonForm::ReadPhoto { .. }));
    assert!(matches!(person(vec![field("Name")]), PersonForm::NextField { .. }));
    assert!(matches!(person(vec![field("")]), PersonForm::NextField { .. }));
    assert!(matches!(person(vec![FormEvent::FieldFound(None)]), PersonForm::NextField { .. }));
    assert!(matches!(photo(vec![field("photo")]), PhotoForm::ReadPhoto));
    assert!(matches!(photo(vec![field("name")]), PhotoForm::NextField));
    assert!(matches!(photo(vec![FormEvent::FieldFound(None)]), PhotoForm::NextField));
}

#[test]
fn a_person_without_name_or_photo_is_rejected() {
    for events in [
        vec![FormEvent::EndOfForm],
        vec![field("name"), text("Ann"), FormEvent::EndOfForm],
        vec![field("photo"), bytes(&[1]), FormEvent::EndOfForm],
        vec![FormEvent::Broken],
        vec![field("name"), FormEvent::Broken],
        vec![field("photo"), FormEvent::Broken],
    ] {
        match person(events) {
            PersonForm::Rejected { status } => assert_eq!(status.code(), 400),
            _ => panic!(),
        }
    }
}

#[test]
fn the_first_photo_counts() {
    let form = photo(vec![
        field("name"),
        field("photo"),
        bytes(&[1]),
        field("photo"),
        bytes(&[2]),
        FormEvent::EndOfForm,
    ]);
    match form {
        PhotoForm::Complete { photo } => assert_eq!(photo, vec![1]),
        _ => panic!(),
    }
}

#[test]
fn a_form_without_a_photo_is_rejected() {
    for events in [
        vec![FormEvent::EndOfForm],
        vec![field("name"), FormEvent::EndOfForm],
        vec![FormEvent::Broken],
        vec![field("photo"), FormEvent::Broken],
    ] {
        match photo(events) {
            PhotoForm::Rejected { status } => assert_eq!(status.code(), 400),
            _ => panic!(),
        }
    }
}

#[test]
fn what_a_form_came_to_stays() {
    let form = photo(vec![field("photo"), bytes(&[1]), FormEvent::Broken]);
    assert!(matches!(form, PhotoForm::Complete { .. }));
    let form = person(vec![FormEvent::Broken, field("name"), text("Ann"), FormEvent::EndOfForm]);
    assert!(matches!(form, PersonForm::Rejected { .. }));
}
