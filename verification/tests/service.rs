use smart_door_lock::access::{AccessCheckResponse, AccessEvent, AccessFlow};
use smart_door_lock::api::ApiResponse;
use smart_door_lock::page::{
    ITEM_AFTER_ACTION, ITEM_AFTER_CLASS, ITEM_AFTER_TIME, ITEM_HEAD, ITEM_TAIL, PAGE_AFTER_ATTEMPTS,
    PAGE_AFTER_PEOPLE, PAGE_HEAD, PAGE_TAIL,
};
use smart_door_lock::rekognition::{
    Confidence, Face, FaceMatch, FaceRecord, IndexReply, ListReply, QualityFilter, SearchReply,
};
use smart_door_lock::settings::Settings;
use smart_door_lock::startup::{StartEvent, StartFlow};
use smart_door_lock::state::AppState;
use smart_door_lock::status::HttpStatus;
use smart_door_lock::time::Timestamp;

fn new_state() -> AppState {
    AppState::new(Settings {
        collection_id: "faces".to_string(),
        esp32_cam_url: "http://cam/capture".to_string(),
        pico2_door_url: "http://door/".to_string(),
        threshold_bits: 80.0f32.to_bits(),
    })
}

fn at(seconds: i64) -> Timestamp {
    Timestamp::new(seconds, 0).unwrap()
}

fn face(face_id: Option<&str>, name: Option<&str>) -> Face {
    Face {
        face_id: face_id.map(|s| s.to_string()),
        external_image_id: name.map(|s| s.to_string()),
    }
}

fn sure(percentage: f32) -> Confidence {
    let fraction = percentage / 100.0;
    Confidence { bits: fraction.to_bits(), percent: (fraction * 100.0) as i32 }
}

fn matching(name: Option<&str>, confidence: Option<Confidence>) -> FaceMatch {
    FaceMatch { face: Some(face(Some("f"), name)), similarity: confidence }
}

fn found(matches: Vec<FaceMatch>) -> AccessEvent {
    AccessEvent::FacesSearched(Ok(SearchReply { face_matches: Some(matches) }))
}

fn indexed(face_id: &str) -> Result<IndexReply, String> {
    Ok(IndexReply { face_records: Some(vec![FaceRecord { face: Some(face(Some(face_id), None)) }]) })
}

fn status(code: u16) -> HttpStatus {
    HttpStatus::new(code).unwrap()
}

fn finished(flow: AccessFlow) -> ApiResponse<AccessCheckResponse> {
    match flow {
        AccessFlow::Finished { reply } => reply,
        _ => panic!(),
    }
}

#[test]
fn a_recognised_face_opens_the_door() {
    let mut state = new_state();
    let flow = state.recognize_face(vec![7, 8, 9]);
    match &flow {
        AccessFlow::SearchFaces { request } => {
            assert_eq!(request.collection_id, "faces");
            assert_eq!(request.image, vec![7, 8, 9]);
            assert_eq!(request.max_faces, 1);
            assert_eq!(f32::from_bits(request.face_match_threshold_bits), 80.0);
        }
        _ => panic!(),
    }
    let matches = vec![matching(Some("Ann"), Some(sure(97.5))), matching(Some("Bea"), None)];
    let flow = state.advance_access_at(flow, found(matches), at(100), at(101));
    assert_eq!(state.get_recent_logs(10).len(), 0);
    match &flow {
        AccessFlow::UnlockDoor { command, .. } => {
            assert_eq!(command.url, "http://door/");
            assert_eq!(command.body, "{\"action\":\"unlock\",\"timestamp\":101}");
        }
        _ => panic!(),
    }
    let opened = AccessEvent::DoorAnswered(Ok(status(200)));
    let reply = finished(state.advance_access_at(flow, opened, at(102), at(103)));
    assert!(reply.success);
    assert!(reply.error.is_none());
    let answer = reply.data.unwrap();
    assert!(answer.access_granted);
    assert_eq!(answer.person_name, Some("Ann".to_string()));
    assert_eq!(f32::from_bits(answer.confidence.unwrap().bits), 0.975);
    assert_eq!(answer.timestamp.seconds(), 100);
    let logs = state.get_recent_logs(10);
    assert_eq!(logs.len(), 1);
    assert_eq!(logs[0].action, "🟢 Access GRANTED - Ann");
    assert_eq!(logs[0].person_name, Some("Ann".to_string()));
    assert_eq!(logs[0].confidence.unwrap().percent, 97);
    assert!(logs[0].access_granted);
    assert_eq!(logs[0].timestamp.seconds(), 103);
}

#[test]
fn door_trouble_does_not_refuse_anybody() {
    for door in [Ok(status(200)), Ok(status(500)), Err("unreachable".to_string())] {
        let mut state = new_state();
        let flow = state.recognize_face(vec![]);
        let flow = state.advance_access(flow, found(vec![matching(Some("Ann"), Some(sure(90.0)))]));
        let reply = finished(state.advance_access(flow, AccessEvent::DoorAnswered(door)));
        assert!(reply.data.unwrap().access_granted);
        assert!(state.get_recent_logs(1)[0].access_granted);
    }
}

#[test]
fn an_unrecognised_face_is_refused() {
    let replies = vec![
        SearchReply { face_matches: None },
        SearchReply { face_matches: Some(vec![]) },
        SearchReply { face_matches: Some(vec![matching(None, Some(sure(90.0)))]) },
        SearchReply { face_matches: Some(vec![matching(Some("Ann"), None)]) },
        SearchReply {
            face_matches: Some(vec![
                FaceMatch { face: None, similarity: Some(sure(90.0)) },
                matching(Some("Ann"), Some(sure(99.0))),
            ]),
        },
    ];
    for searched in replies {
        let mut state = new_state();
        let flow = state.recognize_face(vec![]);
        let event = AccessEvent::FacesSearched(Ok(searched));
        let reply = finished(state.advance_access_at(flow, event, at(5), at(6)));
        assert!(reply.success);
        let answer = reply.data.unwrap();
        assert!(!answer.access_granted);
        assert!(answer.person_name.is_none());
        assert!(answer.confidence.is_none());
        assert_eq!(answer.timestamp.seconds(), 5);
        let logs = state.get_recent_logs(10);
        assert_eq!(logs.len(), 1);
        assert_eq!(logs[0].action, "🔴 Access DENIED - Face not recognized");
        assert!(logs[0].person_name.is_none());
        assert!(logs[0].confidence.is_none());
        assert!(!logs[0].access_granted);
        assert_eq!(logs[0].timestamp.seconds(), 6);
    }
}

#[test]
fn a_failed_search_is_reported_and_not_logged() {
    let mut state = new_state();
    let flow = state.recognize_face(vec![]);
    let event = AccessEvent::FacesSearched(Err("service error".to_string()));
    let reply = finished(state.advance_access(flow, event));
    assert!(!reply.success);
    assert!(reply.data.is_none());
    assert_eq!(reply.error, Some("service error".to_string()));
    assert_eq!(state.get_recent_logs(10).len(), 0);
}

#[test]
fn the_camera_is_asked_for_the_picture() {
    let mut state = new_state();
    let flow = state.check_access_esp32_handler();
    match &flow {
        AccessFlow::FetchImage { url } => assert_eq!(url, "http://cam/capture"),
        _ => panic!(),
    }
    let flow = state.advance_access(flow, AccessEvent::CameraAnswered(Ok(status(204))));
    assert!(matches!(flow, AccessFlow::ReadImage));
    let flow = state.advance_access(flow, AccessEvent::ImageRead(Ok(vec![1, 2])));
    match flow {
        AccessFlow::SearchFaces { request } => assert_eq!(request.image, vec![1, 2]),
        _ => panic!(),
    }
}

#[test]
fn a_picture_that_cannot_be_had_is_reported() {
    let mut state = new_state();
    let flow = state.check_access_esp32_handler();
    let reply = finished(state.advance_access(flow, AccessEvent::CameraAnswered(Ok(status(404)))));
    assert!(!reply.success);
    assert_eq!(
        reply.error,
        Some("ESP32-CAM capture failed: ESP32-CAM capture failed: 404 Not Found".to_string())
    );
    let flow = state.check_access_esp32_handler();
    let event = AccessEvent::CameraAnswered(Err("timed out".to_string()));
    let reply = finished(state.advance_access(flow, event));
    assert_eq!(reply.error, Some("ESP32-CAM capture failed: timed out".to_string()));
    let event = AccessEvent::ImageRead(Err("cut off".to_string()));
    let reply = finished(state.advance_access(AccessFlow::ReadImage, event));
    assert_eq!(reply.error, Some("ESP32-CAM capture failed: cut off".to_string()));
    assert!(reply.data.is_none());
    assert_eq!(state.get_recent_logs(10).len(), 0);
}

#[test]
fn an_event_out_of_turn_changes_nothing() {
    let mut state = new_state();
    let flow = state.check_access_esp32_handler();
    let flow = state.advance_access(flow, AccessEvent::DoorAnswered(Ok(status(200))));
    assert!(matches!(flow, AccessFlow::FetchImage { .. }));
    let flow = state.advance_access(flow, found(vec![matching(Some("Ann"), Some(sure(90.0)))]));
    assert!(matches!(flow, AccessFlow::FetchImage { .. }));
    assert_eq!(state.get_recent_logs(10).len(), 0);
}

#[test]
fn the_door_is_commanded_in_json() {
    let state = new_state();
    let command = state.control_pico2_door_at(false, at(-12));
    assert_eq!(command.body, "{\"action\":\"lock\",\"timestamp\":-12}");
    let parsed: serde_json::Value = serde_json::from_str(&command.body).unwrap();
    assert_eq!(parsed["action"], "lock");
    assert_eq!(parsed["timestamp"], -12);
    let before = chrono::Utc::now().timestamp();
    let command = state.control_pico2_door(true);
    let parsed: serde_json::Value = serde_json::from_str(&command.body).unwrap();
    assert_eq!(parsed["action"], "unlock");
    assert!(parsed["timestamp"].as_i64().unwrap() >= before);
    assert_eq!(command.url, "http://door/");
}

#[test]
fn a_person_is_added_with_their_face() {
    let mut state = new_state();
    let request = state.add_person("Ann", vec![3]);
    assert_eq!(request.collection_id, "faces");
    assert_eq!(request.external_image_id, "Ann");
    assert_eq!(request.image, vec![3]);
    assert_eq!(request.max_faces, 1);
    assert_eq!(request.quality_filter, QualityFilter::Auto);
    let answer = state.add_person_handler_at("Ann".to_string(), indexed("f1"), at(1), at(2));
    assert!(answer.success);
    assert!(answer.error.is_none());
    let added = answer.data.unwrap();
    assert_eq!(added.face_id, "f1");
    assert_eq!(added.message, "✅ Successfully added Ann");
    assert_eq!(state.get_authorized_people(), vec!["Ann"]);
    let logs = state.get_recent_logs(10);
    assert_eq!(logs.len(), 1);
    assert_eq!(logs[0].action, "➕ Added authorized person: Ann");
    assert_eq!(logs[0].person_name, Some("Ann".to_string()));
    assert!(logs[0].confidence.is_none());
    assert!(!logs[0].access_granted);
    assert_eq!(logs[0].timestamp.seconds(), 2);
}

#[test]
fn a_photo_without_a_face_adds_nobody() {
    let replies = vec![
        IndexReply { face_records: None },
        IndexReply { face_records: Some(vec![]) },
        IndexReply { face_records: Some(vec![FaceRecord { face: None }]) },
        IndexReply {
            face_records: Some(vec![
                FaceRecord { face: Some(face(None, Some("Ann"))) },
                FaceRecord { face: Some(face(Some("f"), None)) },
            ]),
        },
    ];
    for reply in replies {
        let mut state = new_state();
        let answer = state.add_person_handler("Ann".to_string(), Ok(reply));
        assert!(!answer.success);
        assert!(answer.data.is_none());
        assert_eq!(answer.error, Some("No face detected in image".to_string()));
        assert_eq!(state.get_authorized_people().len(), 0);
        assert_eq!(state.get_recent_logs(10).len(), 0);
    }
    let mut state = new_state();
    let answer = state.add_person_handler("Ann".to_string(), Err("denied".to_string()));
    assert_eq!(answer.error, Some("denied".to_string()));
    assert_eq!(state.get_authorized_people().len(), 0);
}

#[test]
fn there_is_one_entry_per_face() {
    let mut state = new_state();
    state.add_person_handler("Ann".to_string(), indexed("f1"));
    state.add_person_handler("Bea".to_string(), indexed("f2"));
    state.add_person_handler("Ann".to_string(), indexed("f3"));
    assert_eq!(state.get_authorized_people(), vec!["Ann", "Bea", "Ann"]);
    state.add_person_handler("Cid".to_string(), indexed("f1"));
    assert_eq!(state.get_authorized_people(), vec!["Cid", "Bea", "Ann"]);
}

#[test]
fn recent_logs_are_the_newest_first() {
    let mut state = new_state();
    for i in 0..12 {
        state.log_access_at(at(i), format!("entry {}", i), None, None, false);
    }
    let actions = |limit| -> Vec<String> {
        state.get_recent_logs(limit).into_iter().map(|log| log.action).collect()
    };
    assert_eq!(actions(0).len(), 0);
    assert_eq!(actions(2), vec!["entry 11", "entry 10"]);
    assert_eq!(actions(12).len(), 12);
    assert_eq!(actions(usize::MAX).len(), 12);
    assert_eq!(actions(100)[11], "entry 0");
}

#[test]
fn entries_are_stamped_by_the_clock() {
    let mut state = new_state();
    let before = chrono::Utc::now().timestamp();
    state.log_access("knock".to_string(), Some("Ann".to_string()), Some(sure(50.0)), true);
    let log = state.get_recent_logs(1).remove(0);
    assert!(log.timestamp.seconds() >= before);
    assert_eq!(log.action, "knock");
    assert_eq!(log.person_name, Some("Ann".to_string()));
    assert_eq!(log.confidence.unwrap().percent, 50);
    assert!(log.access_granted);
}

#[test]
fn starting_loads_the_stored_faces() {
    let mut state = new_state();
    let flow = state.ensure_collection_exists();
    match &flow {
        StartFlow::DescribeCollection { collection_id } => assert_eq!(collection_id, "faces"),
        _ => panic!(),
    }
    let flow = state.advance_start(flow, StartEvent::CollectionDescribed(Ok(())));
    match &flow {
        StartFlow::ListFaces { collection_id } => assert_eq!(collection_id, "faces"),
        _ => panic!(),
    }
    let reply = ListReply {
        faces: Some(vec![
            face(Some("f1"), Some("Ann")),
            face(None, Some("Nobody")),
            face(Some("f2"), None),
            face(Some("f3"), Some("Bea")),
            face(Some("f1"), Some("Cid")),
        ]),
    };
    let flow = state.advance_start(flow, StartEvent::FacesListed(Ok(reply)));
    assert!(matches!(flow, StartFlow::Started));
    assert_eq!(state.get_authorized_people(), vec!["Cid", "Bea"]);
    assert_eq!(state.get_recent_logs(10).len(), 0);
}

#[test]
fn a_missing_collection_is_created() {
    let mut state = new_state();
    let flow = state.ensure_collection_exists();
    let missing = StartEvent::CollectionDescribed(Err("not found".to_string()));
    let flow = state.advance_start(flow, missing);
    match &flow {
        StartFlow::CreateCollection { collection_id } => assert_eq!(collection_id, "faces"),
        _ => panic!(),
    }
    let flow = state.advance_start(flow, StartEvent::CollectionCreated(Ok(())));
    assert!(matches!(flow, StartFlow::ListFaces { .. }));
    let flow = state.advance_start(flow, StartEvent::FacesListed(Ok(ListReply { faces: None })));
    assert!(matches!(flow, StartFlow::Started));
    assert_eq!(state.get_authorized_people().len(), 0);
}

#[test]
fn a_start_that_fails_says_why() {
    let mut state = new_state();
    let flow = StartFlow::CreateCollection { collection_id: "faces".to_string() };
    match state.advance_start(flow, StartEvent::CollectionCreated(Err("no right".to_string()))) {
        StartFlow::Failed { error } => assert_eq!(error, "no right"),
        _ => panic!(),
    }
    let flow = StartFlow::ListFaces { collection_id: "faces".to_string() };
    match state.advance_start(flow, StartEvent::FacesListed(Err("too many".to_string()))) {
        StartFlow::Failed { error } => assert_eq!(error, "too many"),
        _ => panic!(),
    }
    let flow = StartFlow::Started;
    let flow = state.advance_start(flow, StartEvent::CollectionDescribed(Ok(())));
    assert!(matches!(flow, StartFlow::Started));
}

#[test]
fn loading_adds_to_the_roster() {
    let mut state = new_state();
    state.load_face(face(Some("f1"), Some("Ann")), at(1));
    state.load_existing_faces(ListReply { faces: Some(vec![face(Some("f2"), Some("Bea"))]) });
    state.load_face(face(None, None), at(2));
    assert_eq!(state.get_authorized_people(), vec!["Ann", "Bea"]);
    let reply = state.list_people_handler();
    assert!(reply.success);
    assert!(reply.error.is_none());
    assert_eq!(reply.data, Some(vec!["Ann".to_string(), "Bea".to_string()]));
}

#[test]
fn loading_twice_is_loading_once() {
    let listing = || ListReply {
        faces: Some(vec![
            face(Some("f1"), Some("Ann")),
            face(Some("f2"), Some("Bea")),
            face(Some("f1"), Some("Cid")),
        ]),
    };
    let mut state = new_state();
    state.load_face(face(Some("f0"), Some("Zoe")), at(1));
    state.load_existing_faces(listing());
    assert_eq!(state.get_authorized_people(), vec!["Zoe", "Cid", "Bea"]);
    state.load_existing_faces(listing());
    assert_eq!(state.get_authorized_people(), vec!["Zoe", "Cid", "Bea"]);
}

#[test]
fn adding_replaces_one_name_at_most() {
    let mut state = new_state();
    state.load_face(face(Some("f1"), Some("Ann")), at(1));
    state.load_face(face(Some("f2"), Some("Ann")), at(2));
    state.add_person_handler("Bea".to_string(), indexed("f2"));
    assert_eq!(state.get_authorized_people(), vec!["Ann", "Bea"]);
    state.add_person_handler("Ann".to_string(), indexed("f3"));
    assert_eq!(state.get_authorized_people(), vec!["Ann", "Bea", "Ann"]);
}

#[test]
fn the_page_shows_counts_and_entries() {
    let mut state = new_state();
    state.load_face(face(Some("f1"), Some("Ann")), at(1));
    state.log_access_at(at(0), "first".to_string(), None, None, false);
    state.log_access_at(at(86_399), "second".to_string(), None, Some(sure(87.5)), true);
    let second = [
        ITEM_HEAD, "access-granted", ITEM_AFTER_CLASS, "01-01 23:59:59", ITEM_AFTER_TIME, "second",
        ITEM_AFTER_ACTION, " (87%)", ITEM_TAIL,
    ]
    .concat();
    let first = [
        ITEM_HEAD, "access-denied", ITEM_AFTER_CLASS, "01-01 00:00:00", ITEM_AFTER_TIME, "first",
        ITEM_AFTER_ACTION, "", ITEM_TAIL,
    ]
    .concat();
    let expected = [
        PAGE_HEAD, "1", PAGE_AFTER_PEOPLE, "2", PAGE_AFTER_ATTEMPTS, &second, &first, PAGE_TAIL,
    ]
    .concat();
    assert_eq!(state.dashboard(), expected);
    assert!(expected.starts_with("\n<!DOCTYPE html>\n<html>\n<head>\n    <title>🦀 Smart Door Lock"));
    assert!(expected.ends_with("</script>\n</body>\n</html>\n    "));
    assert!(expected.contains("<div class=\"stat-number\">1</div>\n"));
    assert!(expected.contains("* { box-sizing: border-box; }\n"));
    assert!(expected.contains("alert(`${result}\\\\n\\\\nPerson: ${person}"));
    assert!(expected.contains(
        "<div class=\"log-entry access-granted\">\n                    <span><strong>01-01 23:59:59\
         </strong> - second</span>\n                    <span> (87%)</span>\n                </div>\
         <div class=\"log-entry access-denied\">"
    ));
}

#[test]
fn the_page_shows_ten_entries_at_most() {
    let mut state = new_state();
    for i in 0..25 {
        state.log_access_at(at(i), format!("entry-{}.", i), None, None, false);
    }
    let html = state.dashboard();
    assert_eq!(html.matches("class=\"log-entry ").count(), 10);
    assert!(html.contains("entry-24."));
    assert!(html.contains("entry-15."));
    assert!(!html.contains("entry-14."));
    assert!(html.contains("<div class=\"stat-number\">10</div>"));
    assert!(html.contains("<div class=\"stat-number\">0</div>"));
}
