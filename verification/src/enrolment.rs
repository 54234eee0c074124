//! Adding a person: from a name and a photo to an entry on the roster.
use crate::access_log::AccessLogView;
use crate::api::{api_failure, api_success, ApiResponse, ApiView};
use crate::rekognition::{IndexReply, IndexRequest, IndexRequestView, QualityFilter, MAX_FACES};
use crate::roster::{
    by_face, distinct_faces, enrolled, has_face, law_adding_names_by_external_id,
    law_enrolling_is_map_insertion, named_by_external_id, names_of, newcomers_named_by_external_id,
    person, PersonView,
};
use crate::settings::SettingsView;
use crate::state::{with_entry, with_person, AppState, StateView};
use crate::text::joined;
use crate::time::{lemma_some_reading, Timestamp};
use vstd::prelude::*;
use vstd::string::*;

verus! {

/// The answer to a request to add a person.
pub struct AddPersonResponse {
    pub face_id: String,
    pub message: String,
}

/// What an [`AddPersonResponse`] holds.
pub struct AddPersonView {
    pub face_id: Seq<char>,
    pub message: Seq<char>,
}

impl View for AddPersonResponse {
    type V = AddPersonView;

    open spec fn view(&self) -> AddPersonView {
        AddPersonView { face_id: self.face_id@, message: self.message@ }
    }
}

impl DeepView for AddPersonResponse {
    type V = AddPersonView;

    open spec fn deep_view(&self) -> AddPersonView {
        self@
    }
}

/// What precedes the name in the log when a person is added.
pub const PERSON_ADDED: &'static str = "➕ Added authorized person: ";

/// What precedes the name in the answer when a person is added.
pub const ADDED_MESSAGE: &'static str = "✅ Successfully added ";

/// Why nobody is added when the photo shows no face.
pub const NO_FACE: &'static str = "No face detected in image";

/// The request to store the face on a photo under a name.
pub open spec fn index_request(
    settings: SettingsView,
    name: Seq<char>,
    image: Seq<u8>,
) -> IndexRequestView {
    IndexRequestView {
        collection_id: settings.collection_id,
        image,
        external_image_id: name,
        max_faces: MAX_FACES,
        quality_filter: QualityFilter::Auto,
    }
}

/// The identifier of the stored face: that of the first record, where the record comes with
/// a face and the face with an identifier.
pub open spec fn indexed_face(reply: IndexReply) -> Option<Seq<char>> {
    match reply.face_records {
        Some(records) => if records@.len() > 0 {
            match records@[0].face {
                Some(face) => match face.face_id {
                    Some(face_id) => Some(face_id@),
                    None => None,
                },
                None => None,
            }
        } else {
            None
        },
        None => None,
    }
}

/// The entry for a person who was added.
pub open spec fn added_entry(name: Seq<char>, logged_at: Timestamp) -> AccessLogView {
    AccessLogView {
        timestamp: logged_at,
        action: PERSON_ADDED@ + name,
        person_name: Some(name),
        confidence: None,
        access_granted: false,
    }
}

/// The answer when a person was added.
pub open spec fn added_answer(name: Seq<char>, face_id: Seq<char>) -> AddPersonView {
    AddPersonView { face_id, message: ADDED_MESSAGE@ + name }
}

/// The state once the person is on the roster, as of `added_at`, and the log tells of it, as
/// of `logged_at`.
pub open spec fn person_added(
    state: StateView,
    name: Seq<char>,
    face_id: Seq<char>,
    added_at: Timestamp,
    logged_at: Timestamp,
) -> StateView {
    with_entry(with_person(state, person(name, face_id, added_at)), added_entry(name, logged_at))
}

/// What comes of a request to add a person, given what the face-recognition service replied
/// or why it did not: the state after it, and the answer.
pub open spec fn enrolment(
    state: StateView,
    name: Seq<char>,
    indexed: Result<IndexReply, String>,
    added_at: Timestamp,
    logged_at: Timestamp,
) -> (StateView, ApiView<AddPersonView>) {
    match indexed {
        Ok(reply) => match indexed_face(reply) {
            Some(face_id) => (
                person_added(state, name, face_id, added_at, logged_at),
                api_success(added_answer(name, face_id)),
            ),
            None => (state, api_failure(NO_FACE@)),
        },
        Err(error) => (state, api_failure(error@)),
    }
}

/// The identifier of the first record, where it has all its parts.
fn first_face_id(reply: IndexReply) -> (face_id: Option<String>)
    ensures
        match indexed_face(reply) {
            Some(expected) => face_id is Some && face_id->0@ == expected,
            None => face_id is None,
        },
{
    if let Some(records) = reply.face_records {
        if records.len() > 0 {
            if let Some(face) = &records[0].face {
                if let Some(face_id) = &face.face_id {
                    return Some(face_id.clone());
                }
            }
        }
    }
    None
}

impl AppState {
    /// The request to store the face on a photo under a name.
    pub fn add_person(&self, name: &str, image: Vec<u8>) -> (request: IndexRequest)
        ensures
            request@ == index_request(self@.settings, name@, image@),
    {
        IndexRequest {
            collection_id: self.settings().collection_id.clone(),
            image,
            external_image_id: name.to_string(),
            max_faces: MAX_FACES,
            quality_filter: QualityFilter::Auto,
        }
    }

    /// Logs that a person was added, as of `logged_at`, and says so.
    fn log_added_at(
        &mut self,
        name: String,
        face_id: String,
        logged_at: Timestamp,
    ) -> (added: AddPersonResponse)
        ensures
            final(self)@ == with_entry(old(self)@, added_entry(name@, logged_at)),
            added@ == added_answer(name@, face_id@),
    {
        let message = joined(ADDED_MESSAGE, name.as_str());
        let action = joined(PERSON_ADDED, name.as_str());
        self.log_access_at(logged_at, action, Some(name), None, false);
        AddPersonResponse { face_id, message }
    }

    /// Adds the person whose face was stored, with the clock read at `added_at` and then at
    /// `logged_at`. Where no face was stored, nothing changes.
    pub fn faces_indexed_at(
        &mut self,
        name: String,
        reply: IndexReply,
        added_at: Timestamp,
        logged_at: Timestamp,
    ) -> (added: Result<AddPersonResponse, String>)
        ensures
            match indexed_face(reply) {
                Some(face_id) => {
                    &&& final(self)@ == person_added(
                        old(self)@,
                        name@,
                        face_id,
                        added_at,
                        logged_at,
                    )
                    &&& added is Ok
                    &&& added->Ok_0@ == added_answer(name@, face_id)
                },
                None => {
                    &&& final(self)@ == old(self)@
                    &&& added is Err
                    &&& added->Err_0@ == NO_FACE@
                },
            },
    {
        match first_face_id(reply) {
            Some(face_id) => {
                self.authorize_face(face_id.clone(), name.clone(), added_at);
                Ok(self.log_added_at(name, face_id, logged_at))
            },
            None => Err(NO_FACE.to_string()),
        }
    }

    /// Answers a request to add a person, with the clock read at `added_at` and then at
    /// `logged_at`.
    pub fn add_person_handler_at(
        &mut self,
        name: String,
        indexed: Result<IndexReply, String>,
        added_at: Timestamp,
        logged_at: Timestamp,
    ) -> (answer: ApiResponse<AddPersonResponse>)
        ensures
            (final(self)@, answer@) == enrolment(
                old(self)@,
                name@,
                indexed,
                added_at,
                logged_at,
            ),
    {
        match indexed {
            Ok(reply) => match self.faces_indexed_at(name, reply, added_at, logged_at) {
                Ok(added) => ApiResponse::success(added),
                Err(error) => ApiResponse::failure(error),
            },
            Err(error) => ApiResponse::failure(error),
        }
    }

    /// Answers a request to add a person, by the system clock. The clock is read only where
    /// somebody is added.
    pub fn add_person_handler(
        &mut self,
        name: String,
        indexed: Result<IndexReply, String>,
    ) -> (answer: ApiResponse<AddPersonResponse>)
        ensures
            exists|added_at: Timestamp, logged_at: Timestamp|
                added_at.is_reading() && logged_at.is_reading() && (final(self)@, answer@)
                    == #[trigger] enrolment(old(self)@, name@, indexed, added_at, logged_at),
    {
        let ghost before = self@;
        let ghost some = lemma_some_reading();
        match indexed {
            Ok(reply) => match first_face_id(reply) {
                Some(face_id) => {
                    let ghost added_name = name@;
                    let added_at: Timestamp = Timestamp::now();
                    self.authorize_face(face_id.clone(), name.clone(), added_at);
                    let logged_at: Timestamp = Timestamp::now();
                    let answer = ApiResponse::success(self.log_added_at(name, face_id, logged_at));
                    assert((self@, answer@) == enrolment(
                        before,
                        added_name,
                        indexed,
                        added_at,
                        logged_at,
                    ));
                    answer
                },
                None => {
                    let answer = ApiResponse::failure(NO_FACE.to_string());
                    assert((self@, answer@) == enrolment(before, name@, indexed, some, some));
                    answer
                },
            },
            Err(error) => {
                let answer = ApiResponse::failure(error);
                assert((self@, answer@) == enrolment(before, name@, indexed, some, some));
                answer
            },
        }
    }
}

/// Somebody is added exactly when the answer reports success. They are then registered under
/// the face that the answer names, their name is among those listed, every other face is
/// registered as before, and the log has one new entry, which grants nothing. Otherwise
/// nothing changes. The settings never do.
pub proof fn law_enrolment_is_all_or_nothing(
    state: StateView,
    name: Seq<char>,
    indexed: Result<IndexReply, String>,
    added_at: Timestamp,
    logged_at: Timestamp,
)
    requires
        distinct_faces(state.people),
    ensures
        ({
            let (after, answer) = enrolment(state, name, indexed, added_at, logged_at);
            &&& after.settings == state.settings
            &&& answer.success == (answer.data is Some)
            &&& answer.success == (answer.error is None)
            &&& match answer.data {
                Some(added) => {
                    &&& by_face(after.people) == by_face(state.people).insert(
                        added.face_id,
                        person(name, added.face_id, added_at),
                    )
                    &&& names_of(after.people).contains(name)
                    &&& after.log.len() == state.log.len() + 1
                    &&& after.log.drop_last() == state.log
                    &&& after.log.last().person_name == Some(name)
                    &&& !after.log.last().access_granted
                },
                None => after == state,
            }
        }),
{
    let (after, answer) = enrolment(state, name, indexed, added_at, logged_at);
    if let Some(added) = answer.data {
        let newcomer = person(name, added.face_id, added_at);
        law_enrolling_is_map_insertion(state.people, newcomer);
        lemma_newcomer_is_listed(state.people, newcomer);
        assert(after.log.drop_last() =~= state.log);
    }
}

/// However a request to add a person ends, entries that were not there before have their
/// names as their external identifiers.
pub proof fn law_enrolment_names_by_external_id(
    state: StateView,
    name: Seq<char>,
    indexed: Result<IndexReply, String>,
    added_at: Timestamp,
    logged_at: Timestamp,
)
    ensures
        ({
            let after = enrolment(state, name, indexed, added_at, logged_at).0;
            &&& newcomers_named_by_external_id(state.people, after.people)
            &&& named_by_external_id(state.people) ==> named_by_external_id(after.people)
        }),
{
    if let Ok(reply) = indexed {
        if let Some(face_id) = indexed_face(reply) {
            law_adding_names_by_external_id(state.people, name, face_id, added_at);
        }
    }
}

/// The name of a newcomer is among the names of the entries.
proof fn lemma_newcomer_is_listed(
    people: Seq<PersonView>,
    newcomer: PersonView,
)
    ensures
        names_of(enrolled(people, newcomer)).contains(newcomer.name),
{
    let after = enrolled(people, newcomer);
    if has_face(people, newcomer.face_id) {
        let i = choose|i: int|
            0 <= i < people.len() && #[trigger] people[i].face_id == newcomer.face_id;
        assert(names_of(after)[i] == newcomer.name);
    } else {
        assert(names_of(after)[people.len() as int] == newcomer.name);
    }
}

/// Only the first record of a reply counts.
pub proof fn law_only_the_first_record_counts(one: IndexReply, other: IndexReply)
    requires
        one.face_records is Some,
        other.face_records is Some,
        one.face_records->0@.len() > 0,
        other.face_records->0@.len() > 0,
        one.face_records->0@[0] == other.face_records->0@[0],
    ensures
        indexed_face(one) == indexed_face(other),
{
}

/// A reply whose first record holds a face with an identifier adds the person, whatever else
/// the reply holds: the answer is a success with exactly that identifier, the person is
/// registered under it, by their name, and the log tells of it in one entry at its end.
pub proof fn law_any_stored_face_adds_the_person(
    state: StateView,
    name: Seq<char>,
    reply: IndexReply,
    added_at: Timestamp,
    logged_at: Timestamp,
)
    requires
        reply.face_records is Some,
        reply.face_records->0@.len() > 0,
        reply.face_records->0@[0].face is Some,
        reply.face_records->0@[0].face->0.face_id is Some,
    ensures
        ({
            let face_id = reply.face_records->0@[0].face->0.face_id->0@;
            let (after, answer) = enrolment(state, name, Ok(reply), added_at, logged_at);
            &&& answer.success
            &&& answer.error is None
            &&& answer.data is Some
            &&& answer.data->0.face_id == face_id
            &&& answer.data->0.message == "✅ Successfully added "@ + name
            &&& after.settings == state.settings
            &&& after.people == enrolled(
                state.people,
                PersonView { name, face_id, external_image_id: name, added_at },
            )
            &&& after.log == state.log.push(
                AccessLogView {
                    timestamp: logged_at,
                    action: "➕ Added authorized person: "@ + name,
                    person_name: Some(name),
                    confidence: None,
                    access_granted: false,
                },
            )
        }),
{
}

/// Any other reply adds nobody, changes nothing, and is answered with the same reason; and so
/// is a request that failed, with what it failed by.
pub proof fn law_without_a_stored_face_nobody_is_added(
    state: StateView,
    name: Seq<char>,
    reply: IndexReply,
    error: String,
    added_at: Timestamp,
    logged_at: Timestamp,
)
    ensures
        reply.face_records is None || reply.face_records->0@.len() == 0
            || reply.face_records->0@[0].face is None || reply.face_records->0@[0].face->0.face_id
            is None ==> ({
            let (after, answer) = enrolment(state, name, Ok(reply), added_at, logged_at);
            &&& after == state
            &&& !answer.success
            &&& answer.data is None
            &&& answer.error == Some("No face detected in image"@)
        }),
        ({
            let (after, answer) = enrolment(state, name, Err(error), added_at, logged_at);
            &&& after == state
            &&& !answer.success
            &&& answer.data is None
            &&& answer.error == Some(error@)
        }),
{
}

/// A request to store a face is for the photo and the name as they are, in the collection of
/// the settings, for one face, with the service's own filter.
pub proof fn law_storing_asks_for_photo_and_name(
    settings: SettingsView,
    name: Seq<char>,
    image: Seq<u8>,
)
    ensures
        index_request(settings, name, image).image == image,
        index_request(settings, name, image).external_image_id == name,
        index_request(settings, name, image).collection_id == settings.collection_id,
        index_request(settings, name, image).max_faces == 1,
        index_request(settings, name, image).quality_filter is Auto,
{
}

/// The stored face is the one of the first record, by its identifier, whatever else the reply
/// holds.
pub proof fn law_stored_face_is_that_of_the_first_record(reply: IndexReply)
    ensures
        reply.face_records is Some && reply.face_records->0@.len() > 0
            && reply.face_records->0@[0].face is Some
            && reply.face_records->0@[0].face->0.face_id is Some ==> indexed_face(reply) == Some(
            reply.face_records->0@[0].face->0.face_id->0@,
        ),
        reply.face_records is None || reply.face_records->0@.len() == 0
            || reply.face_records->0@[0].face is None || reply.face_records->0@[0].face->0.face_id
            is None ==> indexed_face(reply) is None,
{
}

/// An answer shows all that it holds.
pub proof fn law_added_answer_shows_all_it_holds(answer: AddPersonResponse)
    ensures
        answer@.face_id == answer.face_id@,
        answer@.message == answer.message@,
        answer.deep_view() == answer@,
{
}

} // verus!
