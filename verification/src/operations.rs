//! What each operation of the service does, told of any call of it: of what went in, what
//! came out, and the state before and after.
use crate::access::{access_step, capture_answered, AccessEvent, AccessFlow};
use crate::access_laws::{
    law_any_named_first_match_opens_the_door, law_any_other_search_refuses,
    law_every_successful_capture_is_read, law_whoever_the_door_opens_for_is_let_in,
};
use crate::access_log::{AccessLog, AccessLogView};
use crate::api::ApiResponse;
use crate::dashboard::{law_page_shows_counts_and_newest_entries, log_items};
use crate::door::{law_command_tells_what_was_asked, DoorRequest};
use crate::enrolment::{
    enrolment, law_any_stored_face_adds_the_person, law_without_a_stored_face_nobody_is_added,
    AddPersonResponse,
};
use crate::forms::{FormEvent, PersonForm, PhotoForm};
use crate::page::{PAGE_AFTER_ATTEMPTS, PAGE_AFTER_PEOPLE, PAGE_HEAD, PAGE_TAIL};
use crate::rekognition::{
    Confidence, Face, IndexReply, IndexRequest, ListReply, QualityFilter, SearchReply,
};
use crate::roster::{
    distinct_faces, enrolled_all, law_adding_replaces_or_appends,
    law_loaded_people_go_by_their_external_ids, PersonView,
};
use crate::settings::{Environment, MissingVariable, Settings};
use crate::startup::StartFlow;
use crate::state::{listed_faces, AppState, StateView};
use crate::status::{status_reason, HttpStatus};
use crate::text::{decimal, signed_decimal};
use crate::time::Timestamp;
use vstd::prelude::*;

verus! {

/// A new state has the settings it was given, an empty log and nobody on its roster.
pub proof fn law_new_state_is_empty(settings: Settings, state: AppState)
    requires
        call_ensures(AppState::new, (settings,), state),
    ensures
        state@.settings.collection_id == settings.collection_id@,
        state@.settings.esp32_cam_url == settings.esp32_cam_url@,
        state@.settings.pico2_door_url == settings.pico2_door_url@,
        state@.settings.threshold_bits == settings.threshold_bits,
        state@.log.len() == 0,
        state@.people.len() == 0,
{
}

/// The start begins with the collection of the settings.
pub proof fn law_start_begins_with_the_collection(state: &AppState, flow: StartFlow)
    requires
        call_ensures(AppState::ensure_collection_exists, (state,), flow),
    ensures
        flow is DescribeCollection,
        flow->DescribeCollection_collection_id@ == state@.settings.collection_id,
{
}

/// A check with the camera begins by asking the camera of the settings.
pub proof fn law_camera_check_asks_the_camera(state: &AppState, flow: AccessFlow)
    requires
        call_ensures(AppState::check_access_esp32_handler, (state,), flow),
    ensures
        flow is FetchImage,
        flow->url@ == state@.settings.esp32_cam_url,
{
}

/// A check with a photo begins with a search for that photo, in the collection and with the
/// threshold of the settings, for one face.
pub proof fn law_photo_check_searches_for_the_photo(
    state: &AppState,
    image: Vec<u8>,
    flow: AccessFlow,
)
    requires
        call_ensures(AppState::recognize_face, (state, image), flow),
    ensures
        flow is SearchFaces,
        flow->request.image@ == image@,
        flow->request.collection_id@ == state@.settings.collection_id,
        flow->request.face_match_threshold_bits == state@.settings.threshold_bits,
        flow->request.max_faces == 1,
{
}

/// A camera's answer has the picture read exactly where its status is one from 200 to 299,
/// and is refused with the status otherwise.
pub proof fn law_camera_answers_are_judged_by_status(
    status: HttpStatus,
    answered: Result<(), String>,
)
    requires
        call_ensures(capture_answered, (status,), answered),
    ensures
        answered is Ok <==> 200 <= status.spec_code() <= 299,
        answered is Err ==> answered->Err_0@ == "ESP32-CAM capture failed: "@ + (decimal(
            status.spec_code() as nat,
        ) + " "@ + status_reason(status.spec_code())),
{
}

/// A camera's answer takes a check to the reading of the picture exactly where its status is
/// one from 200 to 299, and to its end otherwise. The state stays as it is.
pub proof fn law_camera_step_goes_by_status(
    state: &mut AppState,
    url: String,
    status: HttpStatus,
    decided_at: Timestamp,
    acted_at: Timestamp,
    next: AccessFlow,
)
    requires
        call_ensures(
            AppState::advance_access_at,
            (
                state,
                AccessFlow::FetchImage { url },
                AccessEvent::CameraAnswered(Ok(status)),
                decided_at,
                acted_at,
            ),
            next,
        ),
    ensures
        final(state)@ == old(state)@,
        next is ReadImage <==> 200 <= status.spec_code() <= 299,
        !(next is ReadImage) ==> next is Finished && !next->reply.success && next->reply.data
            is None,
{
    law_every_successful_capture_is_read(
        old(state)@,
        AccessFlow::FetchImage { url }@,
        status,
        decided_at,
        acted_at,
    );
}

/// A search takes a check to the door exactly where its first match has a similarity, a face
/// and the name of that face: the door is then told to unlock for the person of that name.
/// Otherwise it takes the check to an answer that refuses. Nothing but the log changes, and
/// that only with a refusal.
pub proof fn law_search_step_goes_by_the_first_match(
    state: &mut AppState,
    flow: AccessFlow,
    reply: SearchReply,
    decided_at: Timestamp,
    acted_at: Timestamp,
    next: AccessFlow,
)
    requires
        flow is SearchFaces,
        call_ensures(
            AppState::advance_access_at,
            (state, flow, AccessEvent::FacesSearched(Ok(reply)), decided_at, acted_at),
            next,
        ),
    ensures
        ({
            let matches = reply.face_matches->0@;
            if reply.face_matches is Some && matches.len() > 0 && matches[0].similarity is Some
                && matches[0].face is Some && matches[0].face->0.external_image_id is Some {
                &&& next is UnlockDoor
                &&& next->grant.name@ == matches[0].face->0.external_image_id->0@
                &&& next->grant.confidence == matches[0].similarity->0
                &&& next->grant.decided_at == decided_at
                &&& next->command.url@ == old(state)@.settings.pico2_door_url
                &&& next->command.body@ == "{\"action\":\"unlock\",\"timestamp\":"@
                    + signed_decimal(acted_at.spec_seconds()) + "}"@
                &&& final(state)@ == old(state)@
            } else {
                &&& next is Finished
                &&& next->reply.success
                &&& next->reply.error is None
                &&& next->reply.data is Some
                &&& !next->reply.data->0.access_granted
                &&& next->reply.data->0.person_name is None
                &&& next->reply.data->0.confidence is None
                &&& next->reply.data->0.timestamp == decided_at
                &&& final(state)@.settings == old(state)@.settings
                &&& final(state)@.people == old(state)@.people
                &&& final(state)@.log.len() == old(state)@.log.len() + 1
                &&& final(state)@.log.drop_last() == old(state)@.log
                &&& final(state)@.log.last().action == "🔴 Access DENIED - Face not recognized"@
                &&& !final(state)@.log.last().access_granted
            }
        }),
{
    let matches = reply.face_matches->0@;
    if reply.face_matches is Some && matches.len() > 0 && matches[0].similarity is Some
        && matches[0].face is Some && matches[0].face->0.external_image_id is Some {
        law_any_named_first_match_opens_the_door(
            old(state)@,
            flow@,
            reply,
            decided_at,
            acted_at,
        );
    } else {
        law_any_other_search_refuses(old(state)@, flow@, reply, decided_at, acted_at);
        assert(final(state)@.log.drop_last() =~= old(state)@.log);
    }
}

/// The door's answer takes a check to an answer that lets the person in, and to one entry at
/// the end of the log that says so, whatever the door answered.
pub proof fn law_door_step_lets_the_person_in(
    state: &mut AppState,
    flow: AccessFlow,
    door: Result<HttpStatus, String>,
    decided_at: Timestamp,
    acted_at: Timestamp,
    next: AccessFlow,
)
    requires
        flow is UnlockDoor,
        call_ensures(
            AppState::advance_access_at,
            (state, flow, AccessEvent::DoorAnswered(door), decided_at, acted_at),
            next,
        ),
    ensures
        next is Finished,
        next->reply.success,
        next->reply.error is None,
        next->reply.data is Some,
        next->reply.data->0.access_granted,
        next->reply.data->0.person_name is Some,
        next->reply.data->0.person_name->0@ == flow->grant.name@,
        next->reply.data->0.confidence == Some(flow->grant.confidence),
        next->reply.data->0.timestamp == flow->grant.decided_at,
        final(state)@.settings == old(state)@.settings,
        final(state)@.people == old(state)@.people,
        final(state)@.log == old(state)@.log.push(
            AccessLogView {
                timestamp: acted_at,
                action: "🟢 Access GRANTED - "@ + flow->grant.name@,
                person_name: Some(flow->grant.name@),
                confidence: Some(flow->grant.confidence),
                access_granted: true,
            },
        ),
{
}

/// An entry is written to the end of the log as it was given, and nothing else changes.
pub proof fn law_entries_are_written_as_given(
    state: &mut AppState,
    timestamp: Timestamp,
    action: String,
    person_name: Option<String>,
    confidence: Option<Confidence>,
    access_granted: bool,
)
    requires
        call_ensures(
            AppState::log_access_at,
            (state, timestamp, action, person_name, confidence, access_granted),
            (),
        ),
    ensures
        final(state)@.settings == old(state)@.settings,
        final(state)@.people == old(state)@.people,
        final(state)@.log.len() == old(state)@.log.len() + 1,
        final(state)@.log.drop_last() == old(state)@.log,
        final(state)@.log.last().timestamp == timestamp,
        final(state)@.log.last().action == action@,
        person_name is Some ==> final(state)@.log.last().person_name == Some(person_name->0@),
        person_name is None ==> final(state)@.log.last().person_name is None,
        final(state)@.log.last().confidence == confidence,
        final(state)@.log.last().access_granted == access_granted,
{
    assert(final(state)@.log.drop_last() =~= old(state)@.log);
}

/// What is read back of the log are its last entries, the newest first, as many as there are
/// up to the limit, each as it was written.
pub proof fn law_newest_entries_are_read_back(
    state: &AppState,
    limit: usize,
    recent: Vec<AccessLog>,
    i: int,
)
    requires
        call_ensures(AppState::get_recent_logs, (state, limit), recent),
    ensures
        recent@.len() <= limit,
        recent@.len() == limit || recent@.len() == state@.log.len(),
        recent@.len() <= state@.log.len(),
        0 <= i < recent@.len() ==> {
            let written = state@.log[state@.log.len() - 1 - i];
            &&& recent@[i].timestamp == written.timestamp
            &&& recent@[i].action@ == written.action
            &&& recent@[i].person_name is Some ==> written.person_name == Some(
                recent@[i].person_name->0@,
            )
            &&& recent@[i].person_name is None ==> written.person_name is None
            &&& recent@[i].confidence == written.confidence
            &&& recent@[i].access_granted == written.access_granted
        },
{
    assert(recent.deep_view().len() == recent@.len());
    if 0 <= i < recent@.len() {
        assert(recent.deep_view()[i] == recent@[i]@);
    }
}

/// The names listed are those of the entries on the roster, in their order, one for each, and
/// no two entries are about the same face.
pub proof fn law_names_listed_are_those_on_the_roster(
    state: &AppState,
    names: Vec<String>,
    reply: ApiResponse<Vec<String>>,
    i: int,
)
    requires
        call_ensures(AppState::get_authorized_people, (state,), names),
        call_ensures(AppState::list_people_handler, (state,), reply),
    ensures
        distinct_faces(state@.people),
        names@.len() == state@.people.len(),
        0 <= i < names@.len() ==> names@[i]@ == state@.people[i].name,
        reply.success,
        reply.error is None,
        reply.data is Some,
        reply.data->0@.len() == state@.people.len(),
        0 <= i < reply.data->0@.len() ==> reply.data->0@[i]@ == state@.people[i].name,
{
    assert(names.deep_view().len() == names@.len());
    if 0 <= i < names@.len() {
        assert(names.deep_view()[i] == names@[i]@);
    }
    assert(reply@.data is Some);
    let listed = reply.data->0;
    assert(listed.deep_view() == reply@.data->0);
    assert(listed.deep_view().len() == listed@.len());
    if 0 <= i < listed@.len() {
        assert(listed.deep_view()[i] == listed@[i]@);
    }
}

/// A command to the door goes to the door of the settings, and tells what was asked and when.
pub proof fn law_door_commands_tell_what_was_asked(
    state: &AppState,
    unlock: bool,
    sent_at: Timestamp,
    request: DoorRequest,
)
    requires
        call_ensures(AppState::control_pico2_door_at, (state, unlock, sent_at), request),
    ensures
        request.url@ == state@.settings.pico2_door_url,
        unlock ==> request.body@ == "{\"action\":\"unlock\",\"timestamp\":"@ + signed_decimal(
            sent_at.spec_seconds(),
        ) + "}"@,
        !unlock ==> request.body@ == "{\"action\":\"lock\",\"timestamp\":"@ + signed_decimal(
            sent_at.spec_seconds(),
        ) + "}"@,
{
    law_command_tells_what_was_asked(state@.settings, unlock, sent_at);
}

/// To add a person, their photo is to be stored under their name, both as they are, in the
/// collection of the settings.
pub proof fn law_adding_asks_to_store_the_photo(
    state: &AppState,
    name: &str,
    image: Vec<u8>,
    request: IndexRequest,
)
    requires
        call_ensures(AppState::add_person, (state, name, image), request),
    ensures
        request.collection_id@ == state@.settings.collection_id,
        request.image@ == image@,
        request.external_image_id@ == name@,
        request.max_faces == 1,
        request.quality_filter == QualityFilter::Auto,
{
}

/// A person is added exactly where the first record of the reply holds a face with an
/// identifier, whatever else it holds, and is then registered under that identifier.
/// Otherwise nothing changes and the answer says why.
pub proof fn law_adding_goes_by_the_first_record(
    state: &mut AppState,
    name: String,
    indexed: Result<IndexReply, String>,
    added_at: Timestamp,
    logged_at: Timestamp,
    answer: ApiResponse<AddPersonResponse>,
)
    requires
        call_ensures(
            AppState::add_person_handler_at,
            (state, name, indexed, added_at, logged_at),
            answer,
        ),
    ensures
        ({
            let records = indexed->Ok_0.face_records->0@;
            let face_id = records[0].face->0.face_id->0@;
            if indexed is Ok && indexed->Ok_0.face_records is Some && records.len() > 0
                && records[0].face is Some && records[0].face->0.face_id is Some {
                &&& answer.success
                &&& answer.error is None
                &&& answer.data is Some
                &&& answer.data->0.face_id@ == face_id
                &&& answer.data->0.message@ == "✅ Successfully added "@ + name@
                &&& exists|i: int|
                    0 <= i < final(state)@.people.len() && #[trigger] final(state)@.people[i] == (
                    PersonView { name: name@, face_id, external_image_id: name@, added_at })
                &&& final(state)@.settings == old(state)@.settings
                &&& final(state)@.log == old(state)@.log.push(
                    AccessLogView {
                        timestamp: logged_at,
                        action: "➕ Added authorized person: "@ + name@,
                        person_name: Some(name@),
                        confidence: None,
                        access_granted: false,
                    },
                )
            } else {
                &&& !answer.success
                &&& answer.data is None
                &&& answer.error is Some
                &&& indexed is Ok ==> answer.error->0@ == "No face detected in image"@
                &&& indexed is Err ==> answer.error->0@ == indexed->Err_0@
                &&& final(state)@ == old(state)@
            }
        }),
{
    let records = indexed->Ok_0.face_records->0@;
    let face_id = records[0].face->0.face_id->0@;
    if indexed is Ok && indexed->Ok_0.face_records is Some && records.len() > 0
        && records[0].face is Some && records[0].face->0.face_id is Some {
        law_any_stored_face_adds_the_person(
            old(state)@,
            name@,
            indexed->Ok_0,
            added_at,
            logged_at,
        );
        let newcomer = PersonView { name: name@, face_id, external_image_id: name@, added_at };
        let people = old(state)@.people;
        law_adding_replaces_or_appends(people, newcomer);
        if exists|i: int| 0 <= i < people.len() && #[trigger] people[i].face_id == face_id {
            let i = choose|i: int| 0 <= i < people.len() && #[trigger] people[i].face_id == face_id;
            assert(final(state)@.people[i] == newcomer);
        } else {
            assert(final(state)@.people[people.len() as int] == newcomer);
        }
        assert(answer@.data is Some);
    } else {
        if let Ok(reply) = indexed {
            let unused: String = arbitrary();
            law_without_a_stored_face_nobody_is_added(
                old(state)@,
                name@,
                reply,
                unused,
                added_at,
                logged_at,
            );
        }
    }
}

/// A stored face with both identifiers puts somebody on the roster under the one and by the
/// other, in place of whoever was there under the same; one that lacks either changes
/// nothing. Entries about other faces stay as they are and where they are.
pub proof fn law_stored_faces_are_loaded_by_both_identifiers(
    state: &mut AppState,
    face: Face,
    added_at: Timestamp,
    i: int,
)
    requires
        call_ensures(AppState::load_face, (state, face, added_at), ()),
        0 <= i < old(state)@.people.len(),
    ensures
        final(state)@.settings == old(state)@.settings,
        final(state)@.log == old(state)@.log,
        i < final(state)@.people.len(),
        face.face_id is Some && face.external_image_id is Some
            && old(state)@.people[i].face_id == face.face_id->0@ ==> final(state)@.people[i] == (
        PersonView {
            name: face.external_image_id->0@,
            face_id: face.face_id->0@,
            external_image_id: face.external_image_id->0@,
            added_at,
        }),
        face.face_id is None || face.external_image_id is None || old(state)@.people[i].face_id
            != face.face_id->0@ ==> final(state)@.people[i] == old(state)@.people[i],
        face.face_id is None || face.external_image_id is None ==> final(state)@ == old(state)@,
{
}

/// The settings come from the environment exactly where the three credentials have values:
/// each from its own variable, or from a fixed value where that is not set.
pub proof fn law_settings_follow_the_environment(
    environment: &Environment,
    threshold: Option<u32>,
    settings: Result<Settings, MissingVariable>,
)
    requires
        call_ensures(Environment::settings, (environment, threshold), settings),
    ensures
        settings is Ok <==> environment.aws_access_key_id is Some
            && environment.aws_secret_access_key is Some && environment.aws_region is Some,
        settings is Err ==> settings->Err_0 == if environment.aws_access_key_id is None {
            MissingVariable::AwsAccessKeyId
        } else if environment.aws_secret_access_key is None {
            MissingVariable::AwsSecretAccessKey
        } else {
            MissingVariable::AwsRegion
        },
        settings is Ok ==> {
            &&& settings->Ok_0.collection_id@ == if environment.collection_id is Some {
                environment.collection_id->0@
            } else {
                "smart-door-faces"@
            }
            &&& settings->Ok_0.esp32_cam_url@ == if environment.esp32_cam_capture_url is Some {
                environment.esp32_cam_capture_url->0@
            } else {
                "http://192.168.1.140/capture"@
            }
            &&& settings->Ok_0.pico2_door_url@ == if environment.pico2_door_url is Some {
                environment.pico2_door_url->0@
            } else {
                "http://192.168.1.141/door"@
            }
            &&& settings->Ok_0.threshold_bits == if threshold is Some {
                threshold->0
            } else {
                0x4296_0000
            }
        },
{
}

/// A form moves on by what is seen of it: a field is read as what its name says, what was
/// read is kept as it is, and the end of the form completes it exactly where both a name and
/// a photo were read.
pub proof fn law_person_form_moves_on_by_what_is_seen(
    form: PersonForm,
    event: FormEvent,
    next: PersonForm,
)
    requires
        call_ensures(PersonForm::advance, (form, event), next),
    ensures
        form matches PersonForm::NextField { fields } ==> {
            &&& event matches FormEvent::FieldFound(Some(name)) ==> {
                &&& name@ == "name"@ ==> next is ReadName
                &&& name@ == "photo"@ ==> next is ReadPhoto
                &&& name@ != "name"@ && name@ != "photo"@ ==> next is NextField
            }
            &&& event is EndOfForm ==> {
                &&& next is Complete <==> fields.name is Some && fields.photo is Some
                &&& next matches PersonForm::Complete { name, photo } ==> name@ == fields.name->0@
                    && photo@ == fields.photo->0@
                &&& !(next is Complete) ==> next is Rejected && next->status.spec_code() == 400
            }
        },
        form is ReadName && event is TextRead ==> {
            &&& next is NextField
            &&& next->NextField_fields.name is Some
            &&& next->NextField_fields.name->0@ == event->TextRead_0@
        },
        form is ReadPhoto && event is BytesRead ==> {
            &&& next is NextField
            &&& next->NextField_fields.photo is Some
            &&& next->NextField_fields.photo->0@ == event->BytesRead_0@
        },
        !(form is Complete) && !(form is Rejected) && event is Broken ==> next is Rejected
            && next->status.spec_code() == 400,
{
    reveal_strlit("name");
    reveal_strlit("photo");
    assert("name"@.len() != "photo"@.len());
    if let PersonForm::NextField { fields } = next {
        assert(next@->NextField_fields == fields@);
    }
}

/// A form with a photo is complete with the bytes of its field "photo", as they are.
pub proof fn law_photo_form_moves_on_by_what_is_seen(
    form: PhotoForm,
    event: FormEvent,
    next: PhotoForm,
)
    requires
        call_ensures(PhotoForm::advance, (form, event), next),
    ensures
        form is NextField && (event matches FormEvent::FieldFound(Some(name)) && name@
            == "photo"@) ==> next is ReadPhoto,
        form is NextField && (event matches FormEvent::FieldFound(Some(name)) && name@
            != "photo"@) ==> next is NextField,
        form is NextField && event == FormEvent::FieldFound(None) ==> next is NextField,
        form is ReadPhoto && event is BytesRead ==> next is Complete && next->photo@
            == event->BytesRead_0@,
        form is NextField && event is EndOfForm ==> next is Rejected && next->status.spec_code()
            == 400,
        (form is NextField || form is ReadPhoto) && event is Broken ==> next is Rejected
            && next->status.spec_code() == 400,
{
}

/// The page shows the number of people, the number of entries shown, and those entries: the
/// last ten of the log, or all where there are fewer, the newest first.
pub proof fn law_dashboard_shows_counts_and_newest_entries(state: &AppState, html: String)
    requires
        call_ensures(AppState::dashboard, (state,), html),
    ensures
        ({
            let total = state@.log.len();
            let shown = if total < 10 {
                total
            } else {
                10
            };
            let entries = Seq::new(shown, |i: int| state@.log[total - 1 - i]);
            html@ == PAGE_HEAD@ + decimal(state@.people.len()) + PAGE_AFTER_PEOPLE@ + decimal(shown)
                + PAGE_AFTER_ATTEMPTS@ + log_items(entries) + PAGE_TAIL@
        }),
{
    law_page_shows_counts_and_newest_entries(state@);
}

/// By the clock too, an entry is written to the end of the log as it was given, at a moment
/// that the clock can read, and nothing else changes.
pub proof fn law_clocked_entries_are_written_as_given(
    state: &mut AppState,
    action: String,
    person_name: Option<String>,
    confidence: Option<Confidence>,
    access_granted: bool,
)
    requires
        call_ensures(
            AppState::log_access,
            (state, action, person_name, confidence, access_granted),
            (),
        ),
    ensures
        final(state)@.settings == old(state)@.settings,
        final(state)@.people == old(state)@.people,
        final(state)@.log.len() == old(state)@.log.len() + 1,
        final(state)@.log.drop_last() == old(state)@.log,
        final(state)@.log.last().timestamp.is_reading(),
        final(state)@.log.last().action == action@,
        person_name is Some ==> final(state)@.log.last().person_name == Some(person_name->0@),
        person_name is None ==> final(state)@.log.last().person_name is None,
        final(state)@.log.last().confidence == confidence,
        final(state)@.log.last().access_granted == access_granted,
{
    assert(final(state)@.log.drop_last() =~= old(state)@.log);
}

/// By the clock too, a search takes a check to the door exactly where its first match has a
/// similarity, a face and the name of that face, for the person of that name, and otherwise
/// to an answer that refuses.
pub proof fn law_clocked_search_goes_by_the_first_match(
    state: &mut AppState,
    flow: AccessFlow,
    reply: SearchReply,
    next: AccessFlow,
)
    requires
        flow is SearchFaces,
        call_ensures(
            AppState::advance_access,
            (state, flow, AccessEvent::FacesSearched(Ok(reply))),
            next,
        ),
    ensures
        ({
            let matches = reply.face_matches->0@;
            if reply.face_matches is Some && matches.len() > 0 && matches[0].similarity is Some
                && matches[0].face is Some && matches[0].face->0.external_image_id is Some {
                &&& next is UnlockDoor
                &&& next->grant.name@ == matches[0].face->0.external_image_id->0@
                &&& next->grant.confidence == matches[0].similarity->0
                &&& next->grant.decided_at.is_reading()
                &&& next->command.url@ == old(state)@.settings.pico2_door_url
                &&& final(state)@ == old(state)@
            } else {
                &&& next is Finished
                &&& next->reply.data is Some
                &&& !next->reply.data->0.access_granted
                &&& next->reply.data->0.person_name is None
                &&& next->reply.data->0.confidence is None
                &&& next->reply.data->0.timestamp.is_reading()
                &&& final(state)@.people == old(state)@.people
                &&& final(state)@.log.len() == old(state)@.log.len() + 1
                &&& !final(state)@.log.last().access_granted
            }
        }),
{
    let (decided_at, acted_at) = choose|decided_at: Timestamp, acted_at: Timestamp|
        decided_at.is_reading() && acted_at.is_reading() && (final(state)@, next@)
            == #[trigger] access_step(
            old(state)@,
            flow@,
            AccessEvent::FacesSearched(Ok(reply)),
            decided_at,
            acted_at,
        );
    let matches = reply.face_matches->0@;
    if reply.face_matches is Some && matches.len() > 0 && matches[0].similarity is Some
        && matches[0].face is Some && matches[0].face->0.external_image_id is Some {
        law_any_named_first_match_opens_the_door(
            old(state)@,
            flow@,
            reply,
            decided_at,
            acted_at,
        );
    } else {
        law_any_other_search_refuses(old(state)@, flow@, reply, decided_at, acted_at);
    }
}

/// By the clock too, the door's answer takes a check to an answer that lets the person in,
/// and to one entry at the end of the log that says so.
pub proof fn law_clocked_door_step_lets_the_person_in(
    state: &mut AppState,
    flow: AccessFlow,
    door: Result<HttpStatus, String>,
    next: AccessFlow,
)
    requires
        flow is UnlockDoor,
        call_ensures(
            AppState::advance_access,
            (state, flow, AccessEvent::DoorAnswered(door)),
            next,
        ),
    ensures
        next is Finished,
        next->reply.success,
        next->reply.data is Some,
        next->reply.data->0.access_granted,
        next->reply.data->0.person_name is Some,
        next->reply.data->0.person_name->0@ == flow->grant.name@,
        next->reply.data->0.confidence == Some(flow->grant.confidence),
        next->reply.data->0.timestamp == flow->grant.decided_at,
        final(state)@.people == old(state)@.people,
        final(state)@.log.len() == old(state)@.log.len() + 1,
        final(state)@.log.drop_last() == old(state)@.log,
        final(state)@.log.last().access_granted,
        final(state)@.log.last().person_name == Some(flow->grant.name@),
        final(state)@.log.last().action == "🟢 Access GRANTED - "@ + flow->grant.name@,
{
    let (decided_at, acted_at) = choose|decided_at: Timestamp, acted_at: Timestamp|
        decided_at.is_reading() && acted_at.is_reading() && (final(state)@, next@)
            == #[trigger] access_step(
            old(state)@,
            flow@,
            AccessEvent::DoorAnswered(door),
            decided_at,
            acted_at,
        );
    law_whoever_the_door_opens_for_is_let_in(old(state)@, flow@, door, decided_at, acted_at);
    assert(final(state)@.log.drop_last() =~= old(state)@.log);
}

/// By the clock too, a person is added exactly where the first record of the reply holds a
/// face with an identifier.
pub proof fn law_clocked_adding_goes_by_the_first_record(
    state: &mut AppState,
    name: String,
    indexed: Result<IndexReply, String>,
    answer: ApiResponse<AddPersonResponse>,
)
    requires
        call_ensures(AppState::add_person_handler, (state, name, indexed), answer),
    ensures
        ({
            let after = final(state)@.people;
            let records = indexed->Ok_0.face_records->0@;
            if indexed is Ok && indexed->Ok_0.face_records is Some && records.len() > 0
                && records[0].face is Some && records[0].face->0.face_id is Some {
                &&& answer.success
                &&& answer.error is None
                &&& answer.data is Some
                &&& answer.data->0.face_id@ == records[0].face->0.face_id->0@
                &&& answer.data->0.message@ == "✅ Successfully added "@ + name@
                &&& exists|i: int|
                    0 <= i < after.len() && (#[trigger] after[i]).face_id
                        == records[0].face->0.face_id->0@ && after[i].name == name@
                &&& final(state)@.log.len() == old(state)@.log.len() + 1
            } else {
                &&& !answer.success
                &&& answer.data is None
                &&& answer.error is Some
                &&& indexed is Ok ==> answer.error->0@ == "No face detected in image"@
                &&& indexed is Err ==> answer.error->0@ == indexed->Err_0@
                &&& final(state)@ == old(state)@
            }
        }),
{
    let (added_at, logged_at) = choose|added_at: Timestamp, logged_at: Timestamp|
        added_at.is_reading() && logged_at.is_reading() && (final(state)@, answer@)
            == #[trigger] enrolment(old(state)@, name@, indexed, added_at, logged_at);
    let records = indexed->Ok_0.face_records->0@;
    if indexed is Ok && indexed->Ok_0.face_records is Some && records.len() > 0
        && records[0].face is Some && records[0].face->0.face_id is Some {
        let face_id = records[0].face->0.face_id->0@;
        law_any_stored_face_adds_the_person(
            old(state)@,
            name@,
            indexed->Ok_0,
            added_at,
            logged_at,
        );
        let newcomer = PersonView { name: name@, face_id, external_image_id: name@, added_at };
        let people = old(state)@.people;
        law_adding_replaces_or_appends(people, newcomer);
        if exists|i: int| 0 <= i < people.len() && #[trigger] people[i].face_id == face_id {
            let i = choose|i: int| 0 <= i < people.len() && #[trigger] people[i].face_id == face_id;
            assert(final(state)@.people[i] == newcomer);
        } else {
            assert(final(state)@.people[people.len() as int] == newcomer);
        }
        assert(answer@.data is Some);
    }
}

/// Once a listing is loaded, every entry about a face that it holds with both identifiers goes
/// by the external identifier of the last such face, and there is such an entry.
pub proof fn law_loaded_listings_name_people_by_external_id(
    state: &mut AppState,
    reply: ListReply,
    i: int,
)
    requires
        call_ensures(AppState::load_existing_faces, (state, reply), ()),
        distinct_faces(old(state)@.people),
        reply.faces is Some,
        0 <= i < reply.faces->0@.len(),
        reply.faces->0@[i].face_id is Some,
        reply.faces->0@[i].external_image_id is Some,
        forall|j: int|
            i < j < reply.faces->0@.len() ==> (#[trigger] reply.faces->0@[j]).face_id is None
                || reply.faces->0@[j].external_image_id is None || reply.faces->0@[j].face_id->0@
                != reply.faces->0@[i].face_id->0@,
    ensures
        ({
            let face = reply.faces->0@[i];
            let after = final(state)@.people;
            &&& exists|k: int|
                0 <= k < after.len() && (#[trigger] after[k]).face_id == face.face_id->0@
            &&& forall|k: int|
                0 <= k < after.len() && (#[trigger] after[k]).face_id == face.face_id->0@ ==> {
                    &&& after[k].name == face.external_image_id->0@
                    &&& after[k].external_image_id == face.external_image_id->0@
                    &&& after[k].added_at.is_reading()
                }
            &&& final(state)@.log == old(state)@.log
            &&& final(state)@.settings == old(state)@.settings
        }),
{
    let faces = reply.faces->0@;
    let moments = choose|moments: Seq<Timestamp>|
        moments.len() == listed_faces(reply).len() && (forall|i: int|
            0 <= i < moments.len() ==> (#[trigger] moments[i]).is_reading()) && final(state)@ == (
        StateView {
            people: #[trigger] enrolled_all(old(state)@.people, listed_faces(reply), moments),
            ..old(state)@
        });
    law_loaded_people_go_by_their_external_ids(old(state)@.people, faces, moments, i);
    assert(moments[i].is_reading());
    assert(final(state)@.people == enrolled_all(old(state)@.people, faces, moments));
}

} // verus!
