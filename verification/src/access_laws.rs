//! What holds of every access check.
use crate::access::{
    access_step, denied_answer, recognised, refused_capture, search_request, AccessCheckResponse,
    AccessCheckView, AccessEvent, AccessFlow, FlowView,
};
use crate::access_log::AccessLogView;
use crate::api::api_well_formed;
use crate::door::{door_request, law_command_tells_what_was_asked};
use crate::rekognition::SearchReply;
use crate::settings::SettingsView;
use crate::state::StateView;
use crate::status::{status_reason, HttpStatus};
use crate::text::{decimal, signed_decimal};
use crate::time::Timestamp;
use vstd::prelude::*;

verus! {

/// The state and an access check after several events, each with the two readings of the
/// clock that go with it.
pub open spec fn access_run(
    state: StateView,
    flow: FlowView,
    events: Seq<(AccessEvent, Timestamp, Timestamp)>,
) -> (StateView, FlowView)
    decreases events.len(),
{
    if events.len() == 0 {
        (state, flow)
    } else {
        let before = access_run(state, flow, events.drop_last());
        access_step(before.0, before.1, events.last().0, events.last().1, events.last().2)
    }
}

/// The answer that a check has come to, where it has come to one and did not fail.
pub open spec fn answer_of(flow: FlowView) -> Option<AccessCheckView> {
    match flow {
        FlowView::Finished { reply } => reply.data,
        _ => None,
    }
}

/// Whether an entry tells what an answer says.
pub open spec fn records(entry: AccessLogView, answer: AccessCheckView) -> bool {
    &&& entry.access_granted == answer.access_granted
    &&& entry.person_name == answer.person_name
    &&& entry.confidence == answer.confidence
}

/// Whether a check is about to tell the door, or has let somebody in.
pub open spec fn lets_in(flow: FlowView) -> bool {
    flow is UnlockDoor || (answer_of(flow) is Some && answer_of(flow)->0.access_granted)
}

/// How many things are at most left to do in a check.
pub open spec fn steps_left(flow: FlowView) -> nat {
    match flow {
        FlowView::FetchImage { .. } => 4,
        FlowView::ReadImage => 3,
        FlowView::SearchFaces { .. } => 2,
        FlowView::UnlockDoor { .. } => 1,
        FlowView::Finished { .. } => 0,
    }
}

/// Whether an event tells what came of the thing that a check has to do.
pub open spec fn answers(flow: FlowView, event: AccessEvent) -> bool {
    match flow {
        FlowView::FetchImage { .. } => event is CameraAnswered,
        FlowView::ReadImage => event is ImageRead,
        FlowView::SearchFaces { .. } => event is FacesSearched,
        FlowView::UnlockDoor { .. } => event is DoorAnswered,
        FlowView::Finished { .. } => false,
    }
}

/// A check that has not come to an answer has written nothing to the log; one that has wrote
/// exactly one entry, which tells what the answer says. Earlier entries, the roster and the
/// settings stay as they were.
pub proof fn law_each_answer_is_logged_once(
    state: StateView,
    flow: FlowView,
    events: Seq<(AccessEvent, Timestamp, Timestamp)>,
)
    requires
        !(flow is Finished),
    ensures
        ({
            let (after, reached) = access_run(state, flow, events);
            &&& after.settings == state.settings
            &&& after.people == state.people
            &&& match answer_of(reached) {
                Some(answer) => after.log.len() == state.log.len() + 1 && after.log.drop_last()
                    == state.log && records(after.log.last(), answer),
                None => after.log == state.log,
            }
        }),
    decreases events.len(),
{
    if events.len() > 0 {
        law_each_answer_is_logged_once(state, flow, events.drop_last());
        let (before, reached) = access_run(state, flow, events.drop_last());
        let (after, next) = access_step(
            before,
            reached,
            events.last().0,
            events.last().1,
            events.last().2,
        );
        if answer_of(next) is Some && answer_of(reached) is None {
            assert(after.log.drop_last() =~= before.log);
        }
    }
}

/// The door is told to unlock after a search that recognises somebody, and at no other time.
/// It is told to unlock and not to lock, and the person of the match is the one let in.
pub proof fn law_door_opens_only_for_a_recognised_face(
    state: StateView,
    flow: FlowView,
    event: AccessEvent,
    decided_at: Timestamp,
    acted_at: Timestamp,
)
    requires
        !(flow is UnlockDoor),
    ensures
        access_step(state, flow, event, decided_at, acted_at).1 is UnlockDoor <==> flow
            is SearchFaces && (event matches AccessEvent::FacesSearched(Ok(reply)) && recognised(
            reply,
        ) is Some),
        access_step(state, flow, event, decided_at, acted_at).1 matches FlowView::UnlockDoor {
            command,
            grant,
        } ==> {
            &&& command == door_request(state.settings, true, acted_at)
            &&& event matches AccessEvent::FacesSearched(Ok(reply)) && recognised(reply) == Some(
                (grant.name, grant.confidence),
            )
            &&& grant.decided_at == decided_at
        },
{
}

/// An answer that grants access comes only after the door was told to unlock, and once the
/// door was told, no other answer can come: the door opens exactly for those let in.
pub proof fn law_access_is_granted_exactly_when_the_door_is_told(
    state: StateView,
    flow: FlowView,
    events: Seq<(AccessEvent, Timestamp, Timestamp)>,
)
    requires
        !(flow is Finished),
        !(flow is UnlockDoor),
    ensures
        lets_in(access_run(state, flow, events).1) <==> exists|k: int|
            0 <= k <= events.len() && (#[trigger] access_run(state, flow, events.take(k))).1
                is UnlockDoor,
    decreases events.len(),
{
    let reached = access_run(state, flow, events).1;
    assert(events.take(events.len() as int) =~= events);
    if events.len() > 0 {
        let shorter = events.drop_last();
        law_access_is_granted_exactly_when_the_door_is_told(state, flow, shorter);
        assert forall|k: int| 0 <= k <= shorter.len() implies #[trigger] shorter.take(k)
            == events.take(k) by {
            assert(shorter.take(k) =~= events.take(k));
        }
        if exists|k: int|
            0 <= k <= events.len() && (#[trigger] access_run(state, flow, events.take(k))).1
                is UnlockDoor {
            let k = choose|k: int|
                0 <= k <= events.len() && (#[trigger] access_run(state, flow, events.take(k))).1
                    is UnlockDoor;
            if k < events.len() {
                assert(shorter.take(k) == events.take(k));
            }
        }
        if lets_in(reached) && !(reached is UnlockDoor) {
            assert(lets_in(access_run(state, flow, shorter).1));
            let k = choose|k: int|
                0 <= k <= shorter.len() && (#[trigger] access_run(state, flow, shorter.take(k))).1
                    is UnlockDoor;
            assert(shorter.take(k) == events.take(k));
            assert(access_run(state, flow, events.take(k)).1 is UnlockDoor);
        }
    } else {
        assert(events.take(0) =~= events);
    }
}

/// What the door answers, or that it cannot be reached, makes no difference to the check.
pub proof fn law_door_trouble_changes_nothing(
    state: StateView,
    flow: FlowView,
    one: AccessEvent,
    other: AccessEvent,
    decided_at: Timestamp,
    acted_at: Timestamp,
)
    requires
        flow is UnlockDoor,
        one is DoorAnswered,
        other is DoorAnswered,
    ensures
        access_step(state, flow, one, decided_at, acted_at) == access_step(
            state,
            flow,
            other,
            decided_at,
            acted_at,
        ),
{
}

/// An unrecognised face is refused: the answer names nobody, and comes without a confidence.
pub proof fn law_unrecognised_faces_are_refused(
    state: StateView,
    flow: FlowView,
    reply: SearchReply,
    decided_at: Timestamp,
    acted_at: Timestamp,
)
    requires
        flow is SearchFaces,
        recognised(reply) is None,
    ensures
        answer_of(
            access_step(
                state,
                flow,
                AccessEvent::FacesSearched(Ok(reply)),
                decided_at,
                acted_at,
            ).1,
        ) == Some(denied_answer(decided_at)),
{
}

/// A recognised face is let in, whoever is on the roster and whatever the door answers: the
/// answer names the person of the match, with its confidence and the moment of the decision.
pub proof fn law_recognised_faces_are_let_in(
    state: StateView,
    later: StateView,
    flow: FlowView,
    reply: SearchReply,
    door: AccessEvent,
    decided_at: Timestamp,
    told_at: Timestamp,
    read_at: Timestamp,
    logged_at: Timestamp,
)
    requires
        flow is SearchFaces,
        recognised(reply) is Some,
        door is DoorAnswered,
    ensures
        ({
            let told = access_step(
                state,
                flow,
                AccessEvent::FacesSearched(Ok(reply)),
                decided_at,
                told_at,
            ).1;
            let answer = answer_of(access_step(later, told, door, read_at, logged_at).1);
            &&& answer is Some
            &&& answer->0.access_granted
            &&& answer->0.person_name == Some((recognised(reply)->0).0)
            &&& answer->0.confidence == Some((recognised(reply)->0).1)
            &&& answer->0.timestamp == decided_at
        }),
{
}

/// Only the first match of a search counts.
pub proof fn law_only_the_first_match_counts(one: SearchReply, other: SearchReply)
    requires
        one.face_matches is Some,
        other.face_matches is Some,
        one.face_matches->0@.len() > 0,
        other.face_matches->0@.len() > 0,
        one.face_matches->0@[0] == other.face_matches->0@[0],
    ensures
        recognised(one) == recognised(other),
{
}

/// What a check decides does not depend on the log or the roster, but on the settings alone.
pub proof fn law_decisions_rest_on_the_settings_alone(
    one: StateView,
    other: StateView,
    flow: FlowView,
    event: AccessEvent,
    decided_at: Timestamp,
    acted_at: Timestamp,
)
    requires
        one.settings == other.settings,
    ensures
        access_step(one, flow, event, decided_at, acted_at).1 == access_step(
            other,
            flow,
            event,
            decided_at,
            acted_at,
        ).1,
{
}

/// Each event that tells what came of the thing to be done brings a check closer to its end,
/// and any other event leaves everything as it is.
pub proof fn law_checks_come_to_an_end(
    state: StateView,
    flow: FlowView,
    event: AccessEvent,
    decided_at: Timestamp,
    acted_at: Timestamp,
)
    ensures
        answers(flow, event) ==> steps_left(
            access_step(state, flow, event, decided_at, acted_at).1,
        ) < steps_left(flow),
        !answers(flow, event) ==> access_step(state, flow, event, decided_at, acted_at) == (
            state,
            flow,
        ),
{
}

/// Every reply that a check comes to holds either an answer or an error.
pub proof fn law_replies_hold_an_answer_or_an_error(
    state: StateView,
    flow: FlowView,
    events: Seq<(AccessEvent, Timestamp, Timestamp)>,
)
    requires
        !(flow is Finished),
    ensures
        access_run(state, flow, events).1 matches FlowView::Finished { reply } ==> api_well_formed(
            reply,
        ),
    decreases events.len(),
{
    if events.len() > 0 {
        law_replies_hold_an_answer_or_an_error(state, flow, events.drop_last());
    }
}

/// A search whose first match comes with a similarity and with a face that carries a name
/// opens the door, whatever the similarity, the name and the rest of the reply are: the door
/// of the settings is told to unlock at the moment `acted_at`, for the person of that name,
/// with that similarity. Nothing is logged yet.
pub proof fn law_any_named_first_match_opens_the_door(
    state: StateView,
    flow: FlowView,
    reply: SearchReply,
    decided_at: Timestamp,
    acted_at: Timestamp,
)
    requires
        flow is SearchFaces,
        reply.face_matches is Some,
        reply.face_matches->0@.len() > 0,
        reply.face_matches->0@[0].similarity is Some,
        reply.face_matches->0@[0].face is Some,
        reply.face_matches->0@[0].face->0.external_image_id is Some,
    ensures
        ({
            let (after, next) = access_step(
                state,
                flow,
                AccessEvent::FacesSearched(Ok(reply)),
                decided_at,
                acted_at,
            );
            let first = reply.face_matches->0@[0];
            &&& after == state
            &&& next matches FlowView::UnlockDoor { command, grant }
            &&& grant.name == first.face->0.external_image_id->0@
            &&& grant.confidence == first.similarity->0
            &&& grant.decided_at == decided_at
            &&& command.url == state.settings.pico2_door_url
            &&& command.body == "{\"action\":\"unlock\",\"timestamp\":"@ + signed_decimal(
                acted_at.spec_seconds(),
            ) + "}"@
        }),
{
    law_command_tells_what_was_asked(state.settings, true, acted_at);
}

/// Any other search refuses: the door is not told, the answer grants nothing and names
/// nobody, and one entry that says so is written to the end of the log.
pub proof fn law_any_other_search_refuses(
    state: StateView,
    flow: FlowView,
    reply: SearchReply,
    decided_at: Timestamp,
    acted_at: Timestamp,
)
    requires
        flow is SearchFaces,
        reply.face_matches is None || reply.face_matches->0@.len() == 0
            || reply.face_matches->0@[0].similarity is None || reply.face_matches->0@[0].face
            is None || reply.face_matches->0@[0].face->0.external_image_id is None,
    ensures
        ({
            let (after, next) = access_step(
                state,
                flow,
                AccessEvent::FacesSearched(Ok(reply)),
                decided_at,
                acted_at,
            );
            &&& next matches FlowView::Finished { reply: answered }
            &&& answered.success
            &&& answered.error is None
            &&& answered.data is Some
            &&& !answered.data->0.access_granted
            &&& answered.data->0.person_name is None
            &&& answered.data->0.confidence is None
            &&& answered.data->0.timestamp == decided_at
            &&& after.settings == state.settings
            &&& after.people == state.people
            &&& after.log == state.log.push(
                AccessLogView {
                    timestamp: acted_at,
                    action: "🔴 Access DENIED - Face not recognized"@,
                    person_name: None,
                    confidence: None,
                    access_granted: false,
                },
            )
        }),
{
}

/// Whatever the door answers, whoever it was told to open for is let in: the answer grants
/// access to them by name, with the confidence and the moment of the decision, and one entry
/// that says so is written to the end of the log.
pub proof fn law_whoever_the_door_opens_for_is_let_in(
    state: StateView,
    flow: FlowView,
    door: Result<HttpStatus, String>,
    decided_at: Timestamp,
    acted_at: Timestamp,
)
    requires
        flow is UnlockDoor,
    ensures
        ({
            let (after, next) = access_step(
                state,
                flow,
                AccessEvent::DoorAnswered(door),
                decided_at,
                acted_at,
            );
            let grant = flow->grant;
            &&& next matches FlowView::Finished { reply }
            &&& reply.success
            &&& reply.error is None
            &&& reply.data is Some
            &&& reply.data->0.access_granted
            &&& reply.data->0.person_name == Some(grant.name)
            &&& reply.data->0.confidence == Some(grant.confidence)
            &&& reply.data->0.timestamp == grant.decided_at
            &&& after.settings == state.settings
            &&& after.people == state.people
            &&& after.log == state.log.push(
                AccessLogView {
                    timestamp: acted_at,
                    action: "🟢 Access GRANTED - "@ + grant.name,
                    person_name: Some(grant.name),
                    confidence: Some(grant.confidence),
                    access_granted: true,
                },
            )
        }),
{
}

/// Every status from 200 to 299 has the picture read, and any other ends the check with an
/// error that tells the status. The state stays as it is.
pub proof fn law_every_successful_capture_is_read(
    state: StateView,
    flow: FlowView,
    status: HttpStatus,
    decided_at: Timestamp,
    acted_at: Timestamp,
)
    requires
        flow is FetchImage,
    ensures
        ({
            let (after, next) = access_step(
                state,
                flow,
                AccessEvent::CameraAnswered(Ok(status)),
                decided_at,
                acted_at,
            );
            &&& after == state
            &&& 200 <= status.spec_code() <= 299 ==> next is ReadImage
            &&& status.spec_code() < 200 || status.spec_code() > 299 ==> {
                &&& next matches FlowView::Finished { reply }
                &&& !reply.success
                &&& reply.data is None
                &&& reply.error == Some(
                    "ESP32-CAM capture failed: "@ + ("ESP32-CAM capture failed: "@ + (decimal(
                        status.spec_code() as nat,
                    ) + " "@ + status_reason(status.spec_code()))),
                )
            }
        }),
{
}

/// Every picture that was read is searched for, as it is: in the collection and with the
/// threshold of the settings, for one face. The state stays as it is.
pub proof fn law_every_picture_is_searched(
    state: StateView,
    flow: FlowView,
    image: Vec<u8>,
    decided_at: Timestamp,
    acted_at: Timestamp,
)
    requires
        flow is ReadImage,
    ensures
        ({
            let (after, next) = access_step(
                state,
                flow,
                AccessEvent::ImageRead(Ok(image)),
                decided_at,
                acted_at,
            );
            &&& after == state
            &&& next matches FlowView::SearchFaces { request }
            &&& request.image == image@
            &&& request.collection_id == state.settings.collection_id
            &&& request.face_match_threshold_bits == state.settings.threshold_bits
            &&& request.max_faces == 1
        }),
{
}

/// A search asks for the picture as it is, in the collection and with the threshold of the
/// settings, for one face.
pub proof fn law_searches_ask_for_the_picture(settings: SettingsView, image: Seq<u8>)
    ensures
        search_request(settings, image).image == image,
        search_request(settings, image).collection_id == settings.collection_id,
        search_request(settings, image).face_match_threshold_bits == settings.threshold_bits,
        search_request(settings, image).max_faces == 1,
{
}

/// Whatever goes wrong before the answer is told in it, after what failed where a picture
/// could not be had. The state stays as it is.
pub proof fn law_trouble_is_told(
    state: StateView,
    flow: FlowView,
    error: String,
    decided_at: Timestamp,
    acted_at: Timestamp,
)
    ensures
        flow is FetchImage ==> ({
            let (after, next) = access_step(
                state,
                flow,
                AccessEvent::CameraAnswered(Err(error)),
                decided_at,
                acted_at,
            );
            &&& after == state
            &&& next matches FlowView::Finished { reply }
            &&& !reply.success
            &&& reply.data is None
            &&& reply.error == Some("ESP32-CAM capture failed: "@ + error@)
        }),
        flow is ReadImage ==> ({
            let (after, next) = access_step(
                state,
                flow,
                AccessEvent::ImageRead(Err(error)),
                decided_at,
                acted_at,
            );
            &&& after == state
            &&& next matches FlowView::Finished { reply }
            &&& !reply.success
            &&& reply.data is None
            &&& reply.error == Some("ESP32-CAM capture failed: "@ + error@)
        }),
        flow is SearchFaces ==> ({
            let (after, next) = access_step(
                state,
                flow,
                AccessEvent::FacesSearched(Err(error)),
                decided_at,
                acted_at,
            );
            &&& after == state
            &&& next matches FlowView::Finished { reply }
            &&& !reply.success
            &&& reply.data is None
            &&& reply.error == Some(error@)
        }),
{
}

/// A picture is refused exactly where the camera's status is not one from 200 to 299, and the
/// reason tells the status.
pub proof fn law_captures_are_refused_by_status_alone(status: HttpStatus)
    ensures
        refused_capture(status) is None <==> 200 <= status.spec_code() <= 299,
        refused_capture(status) is Some ==> refused_capture(status)->0
            == "ESP32-CAM capture failed: "@ + (decimal(status.spec_code() as nat) + " "@
            + status_reason(status.spec_code())),
{
}

/// An answer shows all that it holds.
pub proof fn law_answer_shows_all_it_holds(answer: AccessCheckResponse)
    ensures
        answer@.access_granted == answer.access_granted,
        answer.person_name is Some ==> answer@.person_name == Some(answer.person_name->0@),
        answer.person_name is None ==> answer@.person_name is None,
        answer@.confidence == answer.confidence,
        answer@.timestamp == answer.timestamp,
        answer.deep_view() == answer@,
{
}

/// A check shows what has to be done next, with all that it takes.
pub proof fn law_check_shows_all_it_holds(flow: AccessFlow)
    ensures
        match flow {
            AccessFlow::FetchImage { url } => flow@ == (FlowView::FetchImage { url: url@ }),
            AccessFlow::ReadImage => flow@ is ReadImage,
            AccessFlow::SearchFaces { request } => flow@ == (FlowView::SearchFaces {
                request: request@,
            }),
            AccessFlow::UnlockDoor { command, grant } => {
                &&& flow@ matches FlowView::UnlockDoor { command: told, grant: given }
                &&& told == command@
                &&& given.name == grant.name@
                &&& given.confidence == grant.confidence
                &&& given.decided_at == grant.decided_at
            },
            AccessFlow::Finished { reply } => flow@ == (FlowView::Finished { reply: reply@ }),
        },
{
}

} // verus!
