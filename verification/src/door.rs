//! Commands to the door.
use crate::settings::SettingsView;
use crate::state::AppState;
use crate::text::signed_decimal;
use crate::time::Timestamp;
use vstd::prelude::*;
use vstd::string::*;

verus! {

/// A command to post to the door.
pub struct DoorRequest {
    pub url: String,
    /// The command, in JSON.
    pub body: String,
}

/// What a [`DoorRequest`] holds.
pub struct DoorRequestView {
    pub url: Seq<char>,
    pub body: Seq<char>,
}

impl View for DoorRequest {
    type V = DoorRequestView;

    open spec fn view(&self) -> DoorRequestView {
        DoorRequestView { url: self.url@, body: self.body@ }
    }
}

/// What the door is told to do.
pub open spec fn door_action(unlock: bool) -> Seq<char> {
    if unlock {
        "unlock"@
    } else {
        "lock"@
    }
}

/// A JSON object of a text field and a number field.
pub open spec fn json_text_and_number(
    first_key: Seq<char>,
    text: Seq<char>,
    second_key: Seq<char>,
    number: int,
) -> Seq<char> {
    "{\""@ + first_key + "\":\""@ + text + "\",\""@ + second_key + "\":"@ + signed_decimal(number)
        + "}"@
}

/// A command to unlock or lock the door, given at the moment `sent_at`.
pub open spec fn door_request(
    settings: SettingsView,
    unlock: bool,
    sent_at: Timestamp,
) -> DoorRequestView {
    DoorRequestView {
        url: settings.pico2_door_url,
        body: json_text_and_number(
            "action"@,
            door_action(unlock),
            "timestamp"@,
            sent_at.spec_seconds(),
        ),
    }
}

/// Whether a text is made of lower-case Latin letters, at least one.
pub open spec fn is_lowercase_word(text: Seq<char>) -> bool {
    text.len() > 0 && forall|i: int| 0 <= i < text.len() ==> 'a' <= #[trigger] text[i] <= 'z'
}

/// Writes out a `serde_json::Value::Object` of two fields, through its `to_string`. Claimed:
/// the object is written without blanks, its fields in the order of their keys, a word
/// between quotation marks, and an integer in decimal notation.
#[verifier::external_body]
fn json_object(first_key: &str, text: &str, second_key: &str, number: i64) -> (json: String)
    requires
        is_lowercase_word(first_key@),
        is_lowercase_word(text@),
        is_lowercase_word(second_key@),
        first_key@[0] < second_key@[0],
    ensures
        json@ == json_text_and_number(first_key@, text@, second_key@, number as int),
{
    let mut fields = serde_json::Map::new();
    fields.insert(first_key.to_string(), serde_json::Value::from(text));
    fields.insert(second_key.to_string(), serde_json::Value::from(number));
    serde_json::Value::Object(fields).to_string()
}

impl AppState {
    /// The command to unlock or lock the door, given at the moment `sent_at`.
    pub fn control_pico2_door_at(&self, unlock: bool, sent_at: Timestamp) -> (request: DoorRequest)
        ensures
            request@ == door_request(self@.settings, unlock, sent_at),
    {
        proof {
            reveal_strlit("unlock");
            reveal_strlit("lock");
            reveal_strlit("action");
            reveal_strlit("timestamp");
        }
        let action: &str = if unlock {
            "unlock"
        } else {
            "lock"
        };
        DoorRequest {
            url: self.settings().pico2_door_url.clone(),
            body: json_object("action", action, "timestamp", sent_at.seconds()),
        }
    }

    /// The command to unlock or lock the door, given now.
    pub fn control_pico2_door(&self, unlock: bool) -> (request: DoorRequest)
        ensures
            exists|sent_at: Timestamp|
                sent_at.is_reading() && request@ == #[trigger] door_request(
                    self@.settings,
                    unlock,
                    sent_at,
                ),
    {
        self.control_pico2_door_at(unlock, Timestamp::now())
    }
}

/// A command goes to the door of the settings. It tells the door to unlock or to lock, as
/// asked, and the second at which it is given, in one JSON object of two fields.
pub proof fn law_command_tells_what_was_asked(
    settings: SettingsView,
    unlock: bool,
    sent_at: Timestamp,
)
    ensures
        door_request(settings, unlock, sent_at).url == settings.pico2_door_url,
        unlock ==> door_request(settings, unlock, sent_at).body
            == "{\"action\":\"unlock\",\"timestamp\":"@ + signed_decimal(sent_at.spec_seconds())
            + "}"@,
        !unlock ==> door_request(settings, unlock, sent_at).body
            == "{\"action\":\"lock\",\"timestamp\":"@ + signed_decimal(sent_at.spec_seconds())
            + "}"@,
{
    reveal_strlit("{\"");
    reveal_strlit("\":\"");
    reveal_strlit("\",\"");
    reveal_strlit("\":");
    reveal_strlit("action");
    reveal_strlit("timestamp");
    reveal_strlit("unlock");
    reveal_strlit("lock");
    reveal_strlit("{\"action\":\"unlock\",\"timestamp\":");
    reveal_strlit("{\"action\":\"lock\",\"timestamp\":");
    let body = door_request(settings, unlock, sent_at).body;
    if unlock {
        assert(body =~= "{\"action\":\"unlock\",\"timestamp\":"@ + signed_decimal(
            sent_at.spec_seconds(),
        ) + "}"@);
    } else {
        assert(body =~= "{\"action\":\"lock\",\"timestamp\":"@ + signed_decimal(
            sent_at.spec_seconds(),
        ) + "}"@);
    }
}

/// A command shows all that it holds.
pub proof fn law_command_shows_all_it_holds(request: DoorRequest)
    ensures
        request@.url == request.url@,
        request@.body == request.body@,
{
}

} // verus!
