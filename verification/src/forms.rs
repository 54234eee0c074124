//! Reading the forms that are sent in, field by field.
use crate::status::{HttpStatus, BAD_REQUEST};
use crate::text::{optional_text, same_text};
use vstd::prelude::*;
use vstd::string::*;

verus! {

/// The field that holds the name of a person.
pub const NAME_FIELD: &'static str = "name";

/// The field that holds a photo.
pub const PHOTO_FIELD: &'static str = "photo";

/// What came of the last thing done with a form.
pub enum FormEvent {
    /// There is a next field, with this name where it has one.
    FieldFound(Option<String>),
    /// There is no next field.
    EndOfForm,
    /// The field was read as text.
    TextRead(String),
    /// The field was read as bytes.
    BytesRead(Vec<u8>),
    /// The form cannot be read on.
    Broken,
}

/// What a [`FormEvent`] holds.
pub enum FormEventView {
    FieldFound(Option<Seq<char>>),
    EndOfForm,
    TextRead(Seq<char>),
    BytesRead(Seq<u8>),
    Broken,
}

impl View for FormEvent {
    type V = FormEventView;

    open spec fn view(&self) -> FormEventView {
        match self {
            FormEvent::FieldFound(name) => FormEventView::FieldFound(optional_text(*name)),
            FormEvent::EndOfForm => FormEventView::EndOfForm,
            FormEvent::TextRead(text) => FormEventView::TextRead(text@),
            FormEvent::BytesRead(bytes) => FormEventView::BytesRead(bytes@),
            FormEvent::Broken => FormEventView::Broken,
        }
    }
}

/// How far a form with a photo is read, by what has to be done next.
pub enum PhotoForm {
    /// Go to the next field.
    NextField,
    /// Read the field as bytes.
    ReadPhoto,
    /// Nothing: this is the photo. The rest of the form is not looked at.
    Complete { photo: Vec<u8> },
    /// Nothing: the form is not in order, and is answered with this status.
    Rejected { status: HttpStatus },
}

/// What a [`PhotoForm`] holds.
pub enum PhotoFormView {
    NextField,
    ReadPhoto,
    Complete { photo: Seq<u8> },
    Rejected { status: int },
}

impl View for PhotoForm {
    type V = PhotoFormView;

    open spec fn view(&self) -> PhotoFormView {
        match self {
            PhotoForm::NextField => PhotoFormView::NextField,
            PhotoForm::ReadPhoto => PhotoFormView::ReadPhoto,
            PhotoForm::Complete { photo } => PhotoFormView::Complete { photo: photo@ },
            PhotoForm::Rejected { status } => PhotoFormView::Rejected {
                status: status.spec_code(),
            },
        }
    }
}

/// One step of reading a form with a photo.
pub open spec fn photo_form_step(form: PhotoFormView, event: FormEventView) -> PhotoFormView {
    match (form, event) {
        (PhotoFormView::NextField, FormEventView::FieldFound(name)) => if name == Some(
            PHOTO_FIELD@,
        ) {
            PhotoFormView::ReadPhoto
        } else {
            PhotoFormView::NextField
        },
        (PhotoFormView::NextField, FormEventView::EndOfForm) => PhotoFormView::Rejected {
            status: BAD_REQUEST as int,
        },
        (PhotoFormView::NextField, FormEventView::Broken) => PhotoFormView::Rejected {
            status: BAD_REQUEST as int,
        },
        (PhotoFormView::ReadPhoto, FormEventView::BytesRead(bytes)) => PhotoFormView::Complete {
            photo: bytes,
        },
        (PhotoFormView::ReadPhoto, FormEventView::Broken) => PhotoFormView::Rejected {
            status: BAD_REQUEST as int,
        },
        _ => form,
    }
}

/// The fields of a form with a person that were read so far.
pub struct PersonFields {
    pub name: Option<String>,
    pub photo: Option<Vec<u8>>,
}

/// What [`PersonFields`] hold.
pub struct PersonFieldsView {
    pub name: Option<Seq<char>>,
    pub photo: Option<Seq<u8>>,
}

impl View for PersonFields {
    type V = PersonFieldsView;

    open spec fn view(&self) -> PersonFieldsView {
        PersonFieldsView {
            name: optional_text(self.name),
            photo: match self.photo {
                Some(photo) => Some(photo@),
                None => None,
            },
        }
    }
}

/// How far a form with a person is read, by what has to be done next.
pub enum PersonForm {
    /// Go to the next field.
    NextField { fields: PersonFields },
    /// Read the field as text.
    ReadName { fields: PersonFields },
    /// Read the field as bytes.
    ReadPhoto { fields: PersonFields },
    /// Nothing: this is the person.
    Complete { name: String, photo: Vec<u8> },
    /// Nothing: the form is not in order, and is answered with this status.
    Rejected { status: HttpStatus },
}

/// What a [`PersonForm`] holds.
pub enum PersonFormView {
    NextField { fields: PersonFieldsView },
    ReadName { fields: PersonFieldsView },
    ReadPhoto { fields: PersonFieldsView },
    Complete { name: Seq<char>, photo: Seq<u8> },
    Rejected { status: int },
}

impl View for PersonForm {
    type V = PersonFormView;

    open spec fn view(&self) -> PersonFormView {
        match self {
            PersonForm::NextField { fields } => PersonFormView::NextField { fields: fields@ },
            PersonForm::ReadName { fields } => PersonFormView::ReadName { fields: fields@ },
            PersonForm::ReadPhoto { fields } => PersonFormView::ReadPhoto { fields: fields@ },
            PersonForm::Complete { name, photo } => PersonFormView::Complete {
                name: name@,
                photo: photo@,
            },
            PersonForm::Rejected { status } => PersonFormView::Rejected {
                status: status.spec_code(),
            },
        }
    }
}

/// What a form with a person comes to once all its fields are read.
pub open spec fn person_form_end(fields: PersonFieldsView) -> PersonFormView {
    match (fields.name, fields.photo) {
        (Some(name), Some(photo)) => PersonFormView::Complete { name, photo },
        _ => PersonFormView::Rejected { status: BAD_REQUEST as int },
    }
}

/// One step of reading a form with a person.
pub open spec fn person_form_step(form: PersonFormView, event: FormEventView) -> PersonFormView {
    match (form, event) {
        (PersonFormView::NextField { fields }, FormEventView::FieldFound(name)) => if name == Some(
            NAME_FIELD@,
        ) {
            PersonFormView::ReadName { fields }
        } else if name == Some(PHOTO_FIELD@) {
            PersonFormView::ReadPhoto { fields }
        } else {
            PersonFormView::NextField { fields }
        },
        (PersonFormView::NextField { fields }, FormEventView::EndOfForm) => person_form_end(fields),
        (PersonFormView::ReadName { fields }, FormEventView::TextRead(text)) =>
            PersonFormView::NextField { fields: PersonFieldsView { name: Some(text), ..fields } },
        (PersonFormView::ReadPhoto { fields }, FormEventView::BytesRead(bytes)) =>
            PersonFormView::NextField { fields: PersonFieldsView { photo: Some(bytes), ..fields } },
        (PersonFormView::Complete { .. }, _) => form,
        (PersonFormView::Rejected { .. }, _) => form,
        (_, FormEventView::Broken) => PersonFormView::Rejected { status: BAD_REQUEST as int },
        _ => form,
    }
}

/// Whether a field has the given name.
fn is_named(name: &Option<String>, expected: &str) -> (named: bool)
    ensures
        named == (optional_text(*name) == Some(expected@)),
{
    match name {
        Some(name) => same_text(name.as_str(), expected),
        None => false,
    }
}

impl PhotoForm {
    /// A form with a photo of which nothing is read yet.
    pub fn new() -> (form: PhotoForm)
        ensures
            form@ == PhotoFormView::NextField,
    {
        PhotoForm::NextField
    }

    /// Takes the reading of the form one step further.
    pub fn advance(self, event: FormEvent) -> (next: PhotoForm)
        ensures
            next@ == photo_form_step(self@, event@),
    {
        match (self, event) {
            (PhotoForm::NextField, FormEvent::FieldFound(name)) => if is_named(&name, PHOTO_FIELD) {
                PhotoForm::ReadPhoto
            } else {
                PhotoForm::NextField
            },
            (PhotoForm::NextField, FormEvent::EndOfForm) => PhotoForm::Rejected {
                status: HttpStatus::bad_request(),
            },
            (PhotoForm::NextField, FormEvent::Broken) => PhotoForm::Rejected {
                status: HttpStatus::bad_request(),
            },
            (PhotoForm::ReadPhoto, FormEvent::BytesRead(photo)) => PhotoForm::Complete { photo },
            (PhotoForm::ReadPhoto, FormEvent::Broken) => PhotoForm::Rejected {
                status: HttpStatus::bad_request(),
            },
            (form, _) => form,
        }
    }
}

impl PersonForm {
    /// A form with a person of which nothing is read yet.
    pub fn new() -> (form: PersonForm)
        ensures
            form@ == (PersonFormView::NextField {
                fields: PersonFieldsView { name: None, photo: None },
            }),
    {
        PersonForm::NextField { fields: PersonFields { name: None, photo: None } }
    }

    /// Takes the reading of the form one step further.
    pub fn advance(self, event: FormEvent) -> (next: PersonForm)
        ensures
            next@ == person_form_step(self@, event@),
    {
        match (self, event) {
            (PersonForm::NextField { fields }, FormEvent::FieldFound(name)) => if is_named(
                &name,
                NAME_FIELD,
            ) {
                PersonForm::ReadName { fields }
            } else if is_named(&name, PHOTO_FIELD) {
                PersonForm::ReadPhoto { fields }
            } else {
                PersonForm::NextField { fields }
            },
            (PersonForm::NextField { fields }, FormEvent::EndOfForm) => {
                match (fields.name, fields.photo) {
                    (Some(name), Some(photo)) => PersonForm::Complete { name, photo },
                    _ => PersonForm::Rejected { status: HttpStatus::bad_request() },
                }
            },
            (PersonForm::ReadName { fields }, FormEvent::TextRead(text)) => PersonForm::NextField {
                fields: PersonFields { name: Some(text), photo: fields.photo },
            },
            (
                PersonForm::ReadPhoto { fields },
                FormEvent::BytesRead(bytes),
            ) => PersonForm::NextField {
                fields: PersonFields { name: fields.name, photo: Some(bytes) },
            },
            (PersonForm::Complete { name, photo }, _) => PersonForm::Complete { name, photo },
            (PersonForm::Rejected { status }, _) => PersonForm::Rejected { status },
            (_, FormEvent::Broken) => PersonForm::Rejected { status: HttpStatus::bad_request() },
            (form, _) => form,
        }
    }
}

/// A field of a form, by its name and by what it reads as: as text, and as bytes.
pub struct FormField {
    pub name: Option<Seq<char>>,
    pub text: Seq<char>,
    pub bytes: Seq<u8>,
}

/// What is seen of a form with a photo as its fields are read.
pub open spec fn photo_form_events(fields: Seq<FormField>) -> Seq<FormEventView>
    decreases fields.len(),
{
    if fields.len() == 0 {
        Seq::empty()
    } else {
        let found = photo_form_events(fields.drop_last()).push(
            FormEventView::FieldFound(fields.last().name),
        );
        if fields.last().name == Some(PHOTO_FIELD@) {
            found.push(FormEventView::BytesRead(fields.last().bytes))
        } else {
            found
        }
    }
}

/// What is seen of a form with a person as its fields are read.
pub open spec fn person_form_events(fields: Seq<FormField>) -> Seq<FormEventView>
    decreases fields.len(),
{
    if fields.len() == 0 {
        Seq::empty()
    } else {
        let found = person_form_events(fields.drop_last()).push(
            FormEventView::FieldFound(fields.last().name),
        );
        if fields.last().name == Some(NAME_FIELD@) {
            found.push(FormEventView::TextRead(fields.last().text))
        } else if fields.last().name == Some(PHOTO_FIELD@) {
            found.push(FormEventView::BytesRead(fields.last().bytes))
        } else {
            found
        }
    }
}

/// A form with a photo after several events.
pub open spec fn photo_form_run(
    form: PhotoFormView,
    events: Seq<FormEventView>,
) -> PhotoFormView
    decreases events.len(),
{
    if events.len() == 0 {
        form
    } else {
        photo_form_step(photo_form_run(form, events.drop_last()), events.last())
    }
}

/// A form with a person after several events.
pub open spec fn person_form_run(
    form: PersonFormView,
    events: Seq<FormEventView>,
) -> PersonFormView
    decreases events.len(),
{
    if events.len() == 0 {
        form
    } else {
        person_form_step(person_form_run(form, events.drop_last()), events.last())
    }
}

/// The first field with the given name.
pub open spec fn first_named(fields: Seq<FormField>, name: Seq<char>) -> Option<FormField>
    decreases fields.len(),
{
    if fields.len() == 0 {
        None
    } else if first_named(fields.drop_last(), name) is Some {
        first_named(fields.drop_last(), name)
    } else if fields.last().name == Some(name) {
        Some(fields.last())
    } else {
        None
    }
}

/// The last field with the given name.
pub open spec fn last_named(fields: Seq<FormField>, name: Seq<char>) -> Option<FormField>
    decreases fields.len(),
{
    if fields.len() == 0 {
        None
    } else if fields.last().name == Some(name) {
        Some(fields.last())
    } else {
        last_named(fields.drop_last(), name)
    }
}

/// The photo of a form is its first field of that name, and a form without one is rejected.
pub proof fn law_photo_form_takes_the_first_photo(fields: Seq<FormField>)
    ensures
        photo_form_run(
            PhotoFormView::NextField,
            photo_form_events(fields).push(FormEventView::EndOfForm),
        ) == match first_named(fields, PHOTO_FIELD@) {
            Some(field) => PhotoFormView::Complete { photo: field.bytes },
            None => PhotoFormView::Rejected { status: BAD_REQUEST as int },
        },
{
    lemma_photo_form_fields(fields);
    lemma_photo_form_last_event(
        PhotoFormView::NextField,
        photo_form_events(fields),
        FormEventView::EndOfForm,
    );
}

/// The last event comes last.
proof fn lemma_photo_form_last_event(
    form: PhotoFormView,
    events: Seq<FormEventView>,
    event: FormEventView,
)
    ensures
        photo_form_run(form, events.push(event)) == photo_form_step(
            photo_form_run(form, events),
            event,
        ),
{
    assert(events.push(event).drop_last() =~= events);
}

/// What the fields alone bring a form with a photo to.
proof fn lemma_photo_form_fields(fields: Seq<FormField>)
    ensures
        photo_form_run(PhotoFormView::NextField, photo_form_events(fields)) == match first_named(
            fields,
            PHOTO_FIELD@,
        ) {
            Some(field) => PhotoFormView::Complete { photo: field.bytes },
            None => PhotoFormView::NextField,
        },
    decreases fields.len(),
{
    if fields.len() > 0 {
        lemma_photo_form_fields(fields.drop_last());
        let before = photo_form_events(fields.drop_last());
        let found = before.push(FormEventView::FieldFound(fields.last().name));
        let start = PhotoFormView::NextField;
        lemma_photo_form_last_event(start, before, FormEventView::FieldFound(fields.last().name));
        lemma_photo_form_last_event(start, found, FormEventView::BytesRead(fields.last().bytes));
    }
}

/// The person of a form is its last name with its last photo, and a form that lacks either
/// is rejected. Other fields make no difference.
pub proof fn law_person_form_takes_the_last_of_each(fields: Seq<FormField>)
    ensures
        person_form_run(
            PersonFormView::NextField { fields: PersonFieldsView { name: None, photo: None } },
            person_form_events(fields).push(FormEventView::EndOfForm),
        ) == match (last_named(fields, NAME_FIELD@), last_named(fields, PHOTO_FIELD@)) {
            (Some(name), Some(photo)) => PersonFormView::Complete {
                name: name.text,
                photo: photo.bytes,
            },
            _ => PersonFormView::Rejected { status: BAD_REQUEST as int },
        },
{
    lemma_person_form_fields(fields);
    lemma_person_form_last_event(
        PersonFormView::NextField { fields: PersonFieldsView { name: None, photo: None } },
        person_form_events(fields),
        FormEventView::EndOfForm,
    );
}

/// The last event comes last.
proof fn lemma_person_form_last_event(
    form: PersonFormView,
    events: Seq<FormEventView>,
    event: FormEventView,
)
    ensures
        person_form_run(form, events.push(event)) == person_form_step(
            person_form_run(form, events),
            event,
        ),
{
    assert(events.push(event).drop_last() =~= events);
}

/// What the fields alone bring a form with a person to.
proof fn lemma_person_form_fields(fields: Seq<FormField>)
    ensures
        person_form_run(
            PersonFormView::NextField { fields: PersonFieldsView { name: None, photo: None } },
            person_form_events(fields),
        ) == (PersonFormView::NextField {
            fields: PersonFieldsView {
                name: match last_named(fields, NAME_FIELD@) {
                    Some(field) => Some(field.text),
                    None => None,
                },
                photo: match last_named(fields, PHOTO_FIELD@) {
                    Some(field) => Some(field.bytes),
                    None => None,
                },
            },
        }),
    decreases fields.len(),
{
    reveal_strlit("name");
    reveal_strlit("photo");
    assert(NAME_FIELD@.len() != PHOTO_FIELD@.len());
    if fields.len() > 0 {
        lemma_person_form_fields(fields.drop_last());
        let before = person_form_events(fields.drop_last());
        let found = before.push(FormEventView::FieldFound(fields.last().name));
        let start = PersonFormView::NextField {
            fields: PersonFieldsView { name: None, photo: None },
        };
        lemma_person_form_last_event(start, before, FormEventView::FieldFound(fields.last().name));
        lemma_person_form_last_event(start, found, FormEventView::TextRead(fields.last().text));
        lemma_person_form_last_event(start, found, FormEventView::BytesRead(fields.last().bytes));
    }
}

/// A form that cannot be read on is rejected, unless all that it is read for was found.
pub proof fn law_broken_forms_are_rejected(photo: PhotoFormView, person: PersonFormView)
    ensures
        !(photo is Complete) && !(photo is Rejected) ==> photo_form_step(
            photo,
            FormEventView::Broken,
        ) == (PhotoFormView::Rejected { status: BAD_REQUEST as int }),
        !(person is Complete) && !(person is Rejected) ==> person_form_step(
            person,
            FormEventView::Broken,
        ) == (PersonFormView::Rejected { status: BAD_REQUEST as int }),
{
}

/// What a form has come to stays, whatever else is seen of it.
pub proof fn law_form_outcomes_are_final(
    photo: PhotoFormView,
    person: PersonFormView,
    event: FormEventView,
)
    ensures
        photo is Complete || photo is Rejected ==> photo_form_step(photo, event) == photo,
        person is Complete || person is Rejected ==> person_form_step(person, event) == person,
{
}

/// A field is read as a photo exactly where its name is "photo", and as a name exactly where
/// it is "name"; any other field, and one without a name, is passed over.
pub proof fn law_fields_are_read_by_their_names(fields: PersonFieldsView, name: Option<Seq<char>>)
    ensures
        name == Some("photo"@) ==> {
            &&& photo_form_step(PhotoFormView::NextField, FormEventView::FieldFound(name))
                is ReadPhoto
            &&& person_form_step(
                PersonFormView::NextField { fields },
                FormEventView::FieldFound(name),
            ) == (PersonFormView::ReadPhoto { fields })
        },
        name != Some("photo"@) ==> photo_form_step(
            PhotoFormView::NextField,
            FormEventView::FieldFound(name),
        ) is NextField,
        name == Some("name"@) ==> person_form_step(
            PersonFormView::NextField { fields },
            FormEventView::FieldFound(name),
        ) == (PersonFormView::ReadName { fields }),
        name != Some("photo"@) && name != Some("name"@) ==> person_form_step(
            PersonFormView::NextField { fields },
            FormEventView::FieldFound(name),
        ) == (PersonFormView::NextField { fields }),
{
    reveal_strlit("name");
    reveal_strlit("photo");
    assert("name"@.len() != "photo"@.len());
}

/// What was read is kept as it is, in place of what was read for the same field before, and
/// the other field stays.
pub proof fn law_fields_are_kept_as_read(
    fields: PersonFieldsView,
    text: Seq<char>,
    bytes: Seq<u8>,
)
    ensures
        photo_form_step(PhotoFormView::ReadPhoto, FormEventView::BytesRead(bytes)) == (
        PhotoFormView::Complete { photo: bytes }),
        person_form_step(PersonFormView::ReadName { fields }, FormEventView::TextRead(text)) == (
        PersonFormView::NextField {
            fields: PersonFieldsView { name: Some(text), photo: fields.photo },
        }),
        person_form_step(PersonFormView::ReadPhoto { fields }, FormEventView::BytesRead(bytes)) == (
        PersonFormView::NextField {
            fields: PersonFieldsView { name: fields.name, photo: Some(bytes) },
        }),
{
}

/// At its end a form with a person is complete exactly where both fields were read, whatever
/// they hold; a form with a photo that comes to its end without one is not in order.
pub proof fn law_forms_end_complete_or_rejected(fields: PersonFieldsView)
    ensures
        fields.name is Some && fields.photo is Some ==> person_form_step(
            PersonFormView::NextField { fields },
            FormEventView::EndOfForm,
        ) == (PersonFormView::Complete { name: fields.name->0, photo: fields.photo->0 }),
        fields.name is None || fields.photo is None ==> person_form_step(
            PersonFormView::NextField { fields },
            FormEventView::EndOfForm,
        ) == (PersonFormView::Rejected { status: 400 }),
        photo_form_step(PhotoFormView::NextField, FormEventView::EndOfForm) == (
        PhotoFormView::Rejected { status: 400 }),
{
}

/// A form that cannot be read on is answered as a request that is not in order, wherever the
/// reading stands.
pub proof fn law_broken_forms_are_bad_requests(fields: PersonFieldsView)
    ensures
        photo_form_step(PhotoFormView::NextField, FormEventView::Broken) == (
        PhotoFormView::Rejected { status: 400 }),
        photo_form_step(PhotoFormView::ReadPhoto, FormEventView::Broken) == (
        PhotoFormView::Rejected { status: 400 }),
        person_form_step(PersonFormView::NextField { fields }, FormEventView::Broken) == (
        PersonFormView::Rejected { status: 400 }),
        person_form_step(PersonFormView::ReadName { fields }, FormEventView::Broken) == (
        PersonFormView::Rejected { status: 400 }),
        person_form_step(PersonFormView::ReadPhoto { fields }, FormEventView::Broken) == (
        PersonFormView::Rejected { status: 400 }),
{
}

/// The first field of a name is a field of that name before which there is none.
pub proof fn law_first_named_is_first(fields: Seq<FormField>, name: Seq<char>)
    ensures
        first_named(fields, name) is Some ==> exists|i: int|
            0 <= i < fields.len() && #[trigger] fields[i] == first_named(fields, name)->0
                && fields[i].name == Some(name) && forall|j: int|
                0 <= j < i ==> (#[trigger] fields[j]).name != Some(name),
        first_named(fields, name) is None ==> forall|j: int|
            0 <= j < fields.len() ==> (#[trigger] fields[j]).name != Some(name),
    decreases fields.len(),
{
    if fields.len() > 0 {
        let shorter = fields.drop_last();
        let last = fields.len() - 1;
        law_first_named_is_first(shorter, name);
        if first_named(shorter, name) is Some {
            let i = choose|i: int|
                0 <= i < shorter.len() && #[trigger] shorter[i] == first_named(shorter, name)->0
                    && shorter[i].name == Some(name) && forall|j: int|
                    0 <= j < i ==> (#[trigger] shorter[j]).name != Some(name);
            assert(fields[i] == shorter[i]);
            assert forall|j: int| 0 <= j < i implies (#[trigger] fields[j]).name != Some(name) by {
                assert(shorter[j].name != Some(name));
            }
        } else {
            assert forall|j: int| 0 <= j < last implies (#[trigger] fields[j]).name != Some(
                name,
            ) by {
                assert(shorter[j].name != Some(name));
            }
            assert(fields[last] == fields.last());
        }
    }
}

/// The last field of a name is a field of that name after which there is none.
pub proof fn law_last_named_is_last(fields: Seq<FormField>, name: Seq<char>)
    ensures
        last_named(fields, name) is Some ==> exists|i: int|
            0 <= i < fields.len() && #[trigger] fields[i] == last_named(fields, name)->0
                && fields[i].name == Some(name) && forall|j: int|
                i < j < fields.len() ==> (#[trigger] fields[j]).name != Some(name),
        last_named(fields, name) is None ==> forall|j: int|
            0 <= j < fields.len() ==> (#[trigger] fields[j]).name != Some(name),
    decreases fields.len(),
{
    if fields.len() > 0 {
        let shorter = fields.drop_last();
        let last = fields.len() - 1;
        assert(fields[last] == fields.last());
        if fields.last().name != Some(name) {
            law_last_named_is_last(shorter, name);
            if last_named(shorter, name) is Some {
                let i = choose|i: int|
                    0 <= i < shorter.len() && #[trigger] shorter[i] == last_named(shorter, name)->0
                        && shorter[i].name == Some(name) && forall|j: int|
                        i < j < shorter.len() ==> (#[trigger] shorter[j]).name != Some(name);
                assert(fields[i] == shorter[i]);
                assert forall|j: int| i < j < fields.len() implies (#[trigger] fields[j]).name
                    != Some(name) by {
                    if j < last {
                        assert(shorter[j].name != Some(name));
                    }
                }
            } else {
                assert forall|j: int| 0 <= j < fields.len() implies (#[trigger] fields[j]).name
                    != Some(name) by {
                    if j < last {
                        assert(shorter[j].name != Some(name));
                    }
                }
            }
        }
    }
}

/// What is seen of a form, and how far it is read, show all that they hold.
pub proof fn law_forms_show_all_they_hold(event: FormEvent, photo: PhotoForm, person: PersonForm)
    ensures
        match event {
            FormEvent::FieldFound(name) => {
                &&& name is Some ==> event@ == FormEventView::FieldFound(Some(name->0@))
                &&& name is None ==> event@ == FormEventView::FieldFound(None)
            },
            FormEvent::EndOfForm => event@ is EndOfForm,
            FormEvent::TextRead(text) => event@ == FormEventView::TextRead(text@),
            FormEvent::BytesRead(bytes) => event@ == FormEventView::BytesRead(bytes@),
            FormEvent::Broken => event@ is Broken,
        },
        match photo {
            PhotoForm::NextField => photo@ is NextField,
            PhotoForm::ReadPhoto => photo@ is ReadPhoto,
            PhotoForm::Complete { photo: bytes } => photo@ == (PhotoFormView::Complete {
                photo: bytes@,
            }),
            PhotoForm::Rejected { status } => photo@ == (PhotoFormView::Rejected {
                status: status.spec_code(),
            }),
        },
        match person {
            PersonForm::NextField { fields } => person@ == (PersonFormView::NextField {
                fields: fields@,
            }),
            PersonForm::ReadName { fields } => person@ == (PersonFormView::ReadName {
                fields: fields@,
            }),
            PersonForm::ReadPhoto { fields } => person@ == (PersonFormView::ReadPhoto {
                fields: fields@,
            }),
            PersonForm::Complete { name, photo: bytes } => person@ == (PersonFormView::Complete {
                name: name@,
                photo: bytes@,
            }),
            PersonForm::Rejected { status } => person@ == (PersonFormView::Rejected {
                status: status.spec_code(),
            }),
        },
{
}

/// The fields read so far show all that they hold.
pub proof fn law_fields_show_all_they_hold(fields: PersonFields)
    ensures
        fields.name is Some ==> fields@.name == Some(fields.name->0@),
        fields.name is None ==> fields@.name is None,
        fields.photo is Some ==> fields@.photo == Some(fields.photo->0@),
        fields.photo is None ==> fields@.photo is None,
{
}

} // verus!
