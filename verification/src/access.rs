//! Checking access: from a photo to an open door, or not.
use crate::access_log::AccessLogView;
use crate::api::{api_failure, api_success, ApiResponse, ApiView};
use crate::door::{door_request, DoorRequest, DoorRequestView};
use crate::rekognition::{
    Confidence, SearchReply, SearchRequest, SearchRequestView, MAX_FACES,
};
use crate::settings::SettingsView;
use crate::state::{with_entry, AppState, StateView};
use crate::status::{is_success_code, status_text, HttpStatus};
use crate::text::{joined, optional_text};
use crate::time::{lemma_some_reading, Timestamp};
use vstd::prelude::*;
use vstd::string::*;

verus! {

/// The answer to an access check.
pub struct AccessCheckResponse {
    pub access_granted: bool,
    pub person_name: Option<String>,
    pub confidence: Option<Confidence>,
    pub timestamp: Timestamp,
}

/// What an [`AccessCheckResponse`] holds.
pub struct AccessCheckView {
    pub access_granted: bool,
    pub person_name: Option<Seq<char>>,
    pub confidence: Option<Confidence>,
    pub timestamp: Timestamp,
}

impl View for AccessCheckResponse {
    type V = AccessCheckView;

    open spec fn view(&self) -> AccessCheckView {
        AccessCheckView {
            access_granted: self.access_granted,
            person_name: optional_text(self.person_name),
            confidence: self.confidence,
            timestamp: self.timestamp,
        }
    }
}

impl DeepView for AccessCheckResponse {
    type V = AccessCheckView;

    open spec fn deep_view(&self) -> AccessCheckView {
        self@
    }
}

/// A decision to let somebody in, taken before the door is told.
pub struct Grant {
    pub name: String,
    pub confidence: Confidence,
    pub decided_at: Timestamp,
}

/// What a [`Grant`] holds.
pub struct GrantView {
    pub name: Seq<char>,
    pub confidence: Confidence,
    pub decided_at: Timestamp,
}

impl View for Grant {
    type V = GrantView;

    open spec fn view(&self) -> GrantView {
        GrantView { name: self.name@, confidence: self.confidence, decided_at: self.decided_at }
    }
}

/// How far an access check has come, by what has to be done next.
pub enum AccessFlow {
    /// Ask the camera for a picture.
    FetchImage { url: String },
    /// Read the picture out of the camera's reply.
    ReadImage,
    /// Ask the face-recognition service who is on the picture.
    SearchFaces { request: SearchRequest },
    /// Tell the door to unlock.
    UnlockDoor { command: DoorRequest, grant: Grant },
    /// Nothing: this is the answer.
    Finished { reply: ApiResponse<AccessCheckResponse> },
}

/// What an [`AccessFlow`] holds.
pub enum FlowView {
    FetchImage { url: Seq<char> },
    ReadImage,
    SearchFaces { request: SearchRequestView },
    UnlockDoor { command: DoorRequestView, grant: GrantView },
    Finished { reply: ApiView<AccessCheckView> },
}

impl View for AccessFlow {
    type V = FlowView;

    open spec fn view(&self) -> FlowView {
        match self {
            AccessFlow::FetchImage { url } => FlowView::FetchImage { url: url@ },
            AccessFlow::ReadImage => FlowView::ReadImage,
            AccessFlow::SearchFaces { request } => FlowView::SearchFaces { request: request@ },
            AccessFlow::UnlockDoor { command, grant } => FlowView::UnlockDoor {
                command: command@,
                grant: grant@,
            },
            AccessFlow::Finished { reply } => FlowView::Finished { reply: reply@ },
        }
    }
}

/// What came of the last thing done. An error is told by its message.
pub enum AccessEvent {
    /// The camera was asked.
    CameraAnswered(Result<HttpStatus, String>),
    /// The picture was read.
    ImageRead(Result<Vec<u8>, String>),
    /// The face-recognition service was asked.
    FacesSearched(Result<SearchReply, String>),
    /// The door was told.
    DoorAnswered(Result<HttpStatus, String>),
}

/// What precedes the reason when a picture cannot be had.
pub const CAPTURE_FAILED: &'static str = "ESP32-CAM capture failed: ";

/// What precedes the name when somebody is let in.
pub const ACCESS_GRANTED: &'static str = "🟢 Access GRANTED - ";

/// What is logged when nobody is let in.
pub const ACCESS_DENIED: &'static str = "🔴 Access DENIED - Face not recognized";

/// Whom a search recognises: the person of the first match, where that match comes with a
/// similarity and a face, and the face with a name.
pub open spec fn recognised(reply: SearchReply) -> Option<(Seq<char>, Confidence)> {
    match reply.face_matches {
        Some(matches) => if matches@.len() > 0 {
            match (matches@[0].face, matches@[0].similarity) {
                (Some(face), Some(confidence)) => match face.external_image_id {
                    Some(name) => Some((name@, confidence)),
                    None => None,
                },
                _ => None,
            }
        } else {
            None
        },
        None => None,
    }
}

/// The search for the face on a picture.
pub open spec fn search_request(settings: SettingsView, image: Seq<u8>) -> SearchRequestView {
    SearchRequestView {
        collection_id: settings.collection_id,
        image,
        max_faces: MAX_FACES,
        face_match_threshold_bits: settings.threshold_bits,
    }
}

/// Why a picture cannot be had when the camera answers with `status`: nothing, when the
/// status reports success.
pub open spec fn refused_capture(status: HttpStatus) -> Option<Seq<char>> {
    if is_success_code(status.spec_code()) {
        None
    } else {
        Some(CAPTURE_FAILED@ + status_text(status.spec_code()))
    }
}

/// The end of a check for which no picture could be had.
pub open spec fn capture_failure(reason: Seq<char>) -> FlowView {
    FlowView::Finished { reply: api_failure(CAPTURE_FAILED@ + reason) }
}

/// The entry for somebody who was let in.
pub open spec fn granted_entry(grant: GrantView, logged_at: Timestamp) -> AccessLogView {
    AccessLogView {
        timestamp: logged_at,
        action: ACCESS_GRANTED@ + grant.name,
        person_name: Some(grant.name),
        confidence: Some(grant.confidence),
        access_granted: true,
    }
}

/// The entry for a face that was not recognised.
pub open spec fn denied_entry(logged_at: Timestamp) -> AccessLogView {
    AccessLogView {
        timestamp: logged_at,
        action: ACCESS_DENIED@,
        person_name: None,
        confidence: None,
        access_granted: false,
    }
}

/// The answer to somebody who was let in.
pub open spec fn granted_answer(grant: GrantView) -> AccessCheckView {
    AccessCheckView {
        access_granted: true,
        person_name: Some(grant.name),
        confidence: Some(grant.confidence),
        timestamp: grant.decided_at,
    }
}

/// The answer where the face was not recognised.
pub open spec fn denied_answer(decided_at: Timestamp) -> AccessCheckView {
    AccessCheckView {
        access_granted: false,
        person_name: None,
        confidence: None,
        timestamp: decided_at,
    }
}

/// What follows a search. A recognised person is granted access as of `decided_at`, and the
/// door is told at `acted_at`; otherwise access is denied as of `decided_at`, and the entry is
/// written at `acted_at`.
pub open spec fn after_search(
    state: StateView,
    reply: SearchReply,
    decided_at: Timestamp,
    acted_at: Timestamp,
) -> (StateView, FlowView) {
    match recognised(reply) {
        Some((name, confidence)) => (
            state,
            FlowView::UnlockDoor {
                command: door_request(state.settings, true, acted_at),
                grant: GrantView { name, confidence, decided_at },
            },
        ),
        None => (
            with_entry(state, denied_entry(acted_at)),
            FlowView::Finished { reply: api_success(denied_answer(decided_at)) },
        ),
    }
}

/// One step of an access check: the state and the check after `event`. The clock reads
/// `decided_at` first and `acted_at` then. An event that does not tell what came of the
/// thing to be done changes nothing.
pub open spec fn access_step(
    state: StateView,
    flow: FlowView,
    event: AccessEvent,
    decided_at: Timestamp,
    acted_at: Timestamp,
) -> (StateView, FlowView) {
    match (flow, event) {
        (FlowView::FetchImage { .. }, AccessEvent::CameraAnswered(Err(error))) => (
            state,
            capture_failure(error@),
        ),
        (FlowView::FetchImage { .. }, AccessEvent::CameraAnswered(Ok(status))) => (
            state,
            match refused_capture(status) {
                Some(reason) => capture_failure(reason),
                None => FlowView::ReadImage,
            },
        ),
        (FlowView::ReadImage, AccessEvent::ImageRead(Err(error))) => (
            state,
            capture_failure(error@),
        ),
        (FlowView::ReadImage, AccessEvent::ImageRead(Ok(image))) => (
            state,
            FlowView::SearchFaces { request: search_request(state.settings, image@) },
        ),
        (FlowView::SearchFaces { .. }, AccessEvent::FacesSearched(Err(error))) => (
            state,
            FlowView::Finished { reply: api_failure(error@) },
        ),
        (FlowView::SearchFaces { .. }, AccessEvent::FacesSearched(Ok(reply))) => after_search(
            state,
            reply,
            decided_at,
            acted_at,
        ),
        (FlowView::UnlockDoor { command, grant }, AccessEvent::DoorAnswered(_)) => (
            with_entry(state, granted_entry(grant, acted_at)),
            FlowView::Finished { reply: api_success(granted_answer(grant)) },
        ),
        _ => (state, flow),
    }
}

/// Whether a step of an access check uses what the clock reads.
pub open spec fn needs_clock(flow: FlowView, event: AccessEvent) -> bool {
    match (flow, event) {
        (FlowView::SearchFaces { .. }, AccessEvent::FacesSearched(Ok(_))) => true,
        (FlowView::UnlockDoor { .. }, AccessEvent::DoorAnswered(_)) => true,
        _ => false,
    }
}

/// The person of the first match, where it has all its parts.
fn recognise(reply: SearchReply) -> (person: Option<(String, Confidence)>)
    ensures
        match recognised(reply) {
            Some((name, confidence)) => person matches Some(found) && found.0@ == name && found.1
                == confidence,
            None => person is None,
        },
{
    if let Some(matches) = reply.face_matches {
        if matches.len() > 0 {
            if let (Some(face), Some(confidence)) = (&matches[0].face, matches[0].similarity) {
                if let Some(name) = &face.external_image_id {
                    return Some((name.clone(), confidence));
                }
            }
        }
    }
    None
}

/// Whether the picture can be read when the camera answers with `status`, and why not.
pub fn capture_answered(status: HttpStatus) -> (answered: Result<(), String>)
    ensures
        match refused_capture(status) {
            Some(reason) => answered is Err && answered->Err_0@ == reason,
            None => answered is Ok,
        },
{
    if status.is_success() {
        Ok(())
    } else {
        Err(joined(CAPTURE_FAILED, status.text().as_str()))
    }
}

/// The end of a check for which no picture could be had.
fn finish_without_picture(reason: String) -> (flow: AccessFlow)
    ensures
        flow@ == capture_failure(reason@),
{
    AccessFlow::Finished { reply: ApiResponse::failure(joined(CAPTURE_FAILED, reason.as_str())) }
}

impl AppState {
    /// The start of a check with a picture from the camera.
    pub fn check_access_esp32_handler(&self) -> (flow: AccessFlow)
        ensures
            flow@ == (FlowView::FetchImage { url: self@.settings.esp32_cam_url }),
    {
        AccessFlow::FetchImage { url: self.settings().esp32_cam_url.clone() }
    }

    /// The start of a check with a picture at hand.
    pub fn recognize_face(&self, image: Vec<u8>) -> (flow: AccessFlow)
        ensures
            flow@ == (FlowView::SearchFaces { request: search_request(self@.settings, image@) }),
    {
        AccessFlow::SearchFaces {
            request: SearchRequest {
                collection_id: self.settings().collection_id.clone(),
                image,
                max_faces: MAX_FACES,
                face_match_threshold_bits: self.settings().threshold_bits,
            },
        }
    }

    /// What follows the reply to a search, with the clock read at `decided_at` and then at
    /// `acted_at`.
    pub fn faces_searched_at(
        &mut self,
        reply: SearchReply,
        decided_at: Timestamp,
        acted_at: Timestamp,
    ) -> (next: AccessFlow)
        ensures
            (final(self)@, next@) == after_search(old(self)@, reply, decided_at, acted_at),
    {
        match recognise(reply) {
            Some((name, confidence)) => AccessFlow::UnlockDoor {
                command: self.control_pico2_door_at(true, acted_at),
                grant: Grant { name, confidence, decided_at },
            },
            None => {
                self.log_access_at(acted_at, ACCESS_DENIED.to_string(), None, None, false);
                AccessFlow::Finished {
                    reply: ApiResponse::success(
                        AccessCheckResponse {
                            access_granted: false,
                            person_name: None,
                            confidence: None,
                            timestamp: decided_at,
                        },
                    ),
                }
            },
        }
    }

    /// The end of a check that lets somebody in, logged at `logged_at`. It is the same
    /// whatever the door answered.
    pub fn grant_access_at(&mut self, grant: Grant, logged_at: Timestamp) -> (next: AccessFlow)
        ensures
            final(self)@ == with_entry(old(self)@, granted_entry(grant@, logged_at)),
            next@ == (FlowView::Finished { reply: api_success(granted_answer(grant@)) }),
    {
        self.log_access_at(
            logged_at,
            joined(ACCESS_GRANTED, grant.name.as_str()),
            Some(grant.name.clone()),
            Some(grant.confidence),
            true,
        );
        AccessFlow::Finished {
            reply: ApiResponse::success(
                AccessCheckResponse {
                    access_granted: true,
                    person_name: Some(grant.name),
                    confidence: Some(grant.confidence),
                    timestamp: grant.decided_at,
                },
            ),
        }
    }

    /// Takes an access check one step further where no reading of the clock is needed.
    fn advance_access_unclocked(&self, flow: AccessFlow, event: AccessEvent) -> (next: AccessFlow)
        requires
            !needs_clock(flow@, event),
        ensures
            forall|decided_at: Timestamp, acted_at: Timestamp|
                #[trigger] access_step(self@, flow@, event, decided_at, acted_at) == (self@, next@),
    {
        match (flow, event) {
            (
                AccessFlow::FetchImage { .. },
                AccessEvent::CameraAnswered(Err(error)),
            ) => finish_without_picture(error),
            (
                AccessFlow::FetchImage { .. },
                AccessEvent::CameraAnswered(Ok(status)),
            ) => match capture_answered(status) {
                Err(reason) => finish_without_picture(reason),
                Ok(()) => AccessFlow::ReadImage,
            },
            (AccessFlow::ReadImage, AccessEvent::ImageRead(Err(error))) => finish_without_picture(
                error,
            ),
            (AccessFlow::ReadImage, AccessEvent::ImageRead(Ok(image))) => self.recognize_face(
                image,
            ),
            (
                AccessFlow::SearchFaces { .. },
                AccessEvent::FacesSearched(Err(error)),
            ) => AccessFlow::Finished { reply: ApiResponse::failure(error) },
            (flow, _) => flow,
        }
    }

    /// Takes an access check one step further, with the clock read at `decided_at` and then
    /// at `acted_at`.
    pub fn advance_access_at(
        &mut self,
        flow: AccessFlow,
        event: AccessEvent,
        decided_at: Timestamp,
        acted_at: Timestamp,
    ) -> (next: AccessFlow)
        ensures
            (final(self)@, next@) == access_step(
                old(self)@,
                flow@,
                event,
                decided_at,
                acted_at,
            ),
    {
        match (flow, event) {
            (
                AccessFlow::SearchFaces { .. },
                AccessEvent::FacesSearched(Ok(reply)),
            ) => self.faces_searched_at(reply, decided_at, acted_at),
            (
                AccessFlow::UnlockDoor { grant, .. },
                AccessEvent::DoorAnswered(_),
            ) => self.grant_access_at(grant, acted_at),
            (flow, event) => {
                let next = self.advance_access_unclocked(flow, event);
                assert(access_step(self@, flow@, event, decided_at, acted_at) == (self@, next@));
                next
            },
        }
    }

    /// Takes an access check one step further, by the system clock. The clock is read only
    /// where the step needs it.
    pub fn advance_access(&mut self, flow: AccessFlow, event: AccessEvent) -> (next: AccessFlow)
        ensures
            exists|decided_at: Timestamp, acted_at: Timestamp|
                decided_at.is_reading() && acted_at.is_reading() && (final(self)@, next@)
                    == #[trigger] access_step(old(self)@, flow@, event, decided_at, acted_at),
    {
        let ghost before = self@;
        let ghost doing = flow@;
        match (flow, event) {
            (AccessFlow::SearchFaces { .. }, AccessEvent::FacesSearched(Ok(reply))) => {
                let decided_at: Timestamp = Timestamp::now();
                let acted_at: Timestamp = Timestamp::now();
                let next = self.faces_searched_at(reply, decided_at, acted_at);
                assert((self@, next@) == access_step(before, doing, event, decided_at, acted_at));
                next
            },
            (AccessFlow::UnlockDoor { grant, .. }, AccessEvent::DoorAnswered(_)) => {
                let logged_at: Timestamp = Timestamp::now();
                let next = self.grant_access_at(grant, logged_at);
                assert((self@, next@) == access_step(before, doing, event, logged_at, logged_at));
                next
            },
            (flow, event) => {
                let next = self.advance_access_unclocked(flow, event);
                proof {
                    let some = lemma_some_reading();
                    assert((self@, next@) == access_step(before, doing, event, some, some));
                }
                next
            },
        }
    }
}

} // verus!
