//! The state of the service: its settings, its access log and its roster.
use crate::access_log::{newest_first, recent_entries, AccessLog, AccessLogView};
use crate::rekognition::{Confidence, Face, ListReply};
use crate::roster::{
    distinct_faces, enrolled, enrolled_all, enrolled_listed, names_of, person, AuthorizedPerson,
    PersonView, Roster,
};
use crate::settings::{Settings, SettingsView};
use crate::text::optional_text;
use crate::time::{lemma_some_reading, Timestamp};
use vstd::prelude::*;

verus! {

/// The state of the service.
pub struct AppState {
    settings: Settings,
    access_log: Vec<AccessLog>,
    authorized_people: Roster,
}

/// What an [`AppState`] holds.
pub struct StateView {
    pub settings: SettingsView,
    /// The access log, the oldest entry first.
    pub log: Seq<AccessLogView>,
    /// The people on the roster, in the order in which their faces were first added.
    pub people: Seq<PersonView>,
}

impl View for AppState {
    type V = StateView;

    closed spec fn view(&self) -> StateView {
        StateView {
            settings: self.settings@,
            log: self.access_log.deep_view(),
            people: self.authorized_people@,
        }
    }
}

/// A state once `entry` is written to its log.
pub open spec fn with_entry(state: StateView, entry: AccessLogView) -> StateView {
    StateView { log: state.log.push(entry), ..state }
}

/// A state once `newcomer` is on its roster.
pub open spec fn with_person(state: StateView, newcomer: PersonView) -> StateView {
    StateView { people: enrolled(state.people, newcomer), ..state }
}

/// The faces in a reply, none where the reply has no list.
pub open spec fn listed_faces(reply: ListReply) -> Seq<Face> {
    match reply.faces {
        Some(faces) => faces@,
        None => Seq::empty(),
    }
}

impl AppState {
    /// The state at the start: an empty log and an empty roster.
    pub fn new(settings: Settings) -> (state: AppState)
        ensures
            state@ == (StateView {
                settings: settings@,
                log: Seq::empty(),
                people: Seq::empty(),
            }),
    {
        let state = AppState {
            settings,
            access_log: Vec::new(),
            authorized_people: Roster::new(),
        };
        assert(state@.log =~= Seq::<AccessLogView>::empty());
        state
    }

    /// The settings of the service.
    pub fn settings(&self) -> (settings: &Settings)
        ensures
            settings@ == self@.settings,
    {
        &self.settings
    }

    /// Writes an entry with the given moment to the end of the access log.
    pub fn log_access_at(
        &mut self,
        timestamp: Timestamp,
        action: String,
        person_name: Option<String>,
        confidence: Option<Confidence>,
        access_granted: bool,
    )
        ensures
            final(self)@ == with_entry(
                old(self)@,
                AccessLogView {
                    timestamp,
                    action: action@,
                    person_name: optional_text(person_name),
                    confidence,
                    access_granted,
                },
            ),
    {
        let entry = AccessLog { timestamp, action, person_name, confidence, access_granted };
        self.access_log.push(entry);
        assert(self@.log =~= old(self)@.log.push(entry@));
    }

    /// Writes an entry with the current moment to the end of the access log.
    pub fn log_access(
        &mut self,
        action: String,
        person_name: Option<String>,
        confidence: Option<Confidence>,
        access_granted: bool,
    )
        ensures
            exists|timestamp: Timestamp| #[trigger]
                timestamp.is_reading() && final(self)@ == with_entry(
                    old(self)@,
                    AccessLogView {
                        timestamp,
                        action: action@,
                        person_name: optional_text(person_name),
                        confidence,
                        access_granted,
                    },
                ),
    {
        let timestamp: Timestamp = Timestamp::now();
        self.log_access_at(timestamp, action, person_name, confidence, access_granted);
    }

    /// The last `limit` entries of the access log, or all of them where there are fewer, the
    /// newest first.
    pub fn get_recent_logs(&self, limit: usize) -> (recent: Vec<AccessLog>)
        ensures
            recent.deep_view() == newest_first(self@.log, limit as nat),
    {
        recent_entries(&self.access_log, limit)
    }

    /// The names of the people on the roster.
    pub fn get_authorized_people(&self) -> (names: Vec<String>)
        ensures
            names.deep_view() == names_of(self@.people),
            distinct_faces(self@.people),
    {
        self.authorized_people.names()
    }

    /// Puts a person on the roster, in place of whoever is registered under the same face.
    pub fn authorize(&mut self, newcomer: AuthorizedPerson)
        ensures
            final(self)@ == with_person(old(self)@, newcomer@),
            distinct_faces(final(self)@.people),
    {
        self.authorized_people.insert(newcomer);
    }

    /// Puts the person who goes by `name` on the roster, under the face `face_id`, as of
    /// `added_at`.
    pub(crate) fn authorize_face(&mut self, face_id: String, name: String, added_at: Timestamp)
        ensures
            final(self)@ == with_person(old(self)@, person(name@, face_id@, added_at)),
    {
        self.authorize(
            AuthorizedPerson { name: name.clone(), face_id, external_image_id: name, added_at },
        );
    }

    /// Puts the person that a stored face stands for on the roster, as of `added_at`.
    pub fn load_face(&mut self, face: Face, added_at: Timestamp)
        ensures
            final(self)@ == (StateView {
                people: enrolled_listed(old(self)@.people, face, added_at),
                ..old(self)@
            }),
    {
        match (face.face_id, face.external_image_id) {
            (Some(face_id), Some(name)) => self.authorize_face(face_id, name, added_at),
            _ => {},
        }
    }

    /// Puts the people that the stored faces stand for on the roster, each as of the moment
    /// at which it is added. The clock is not read for a face that stands for nobody.
    pub fn load_existing_faces(&mut self, reply: ListReply)
        ensures
            exists|moments: Seq<Timestamp>|
                moments.len() == listed_faces(reply).len() && (forall|i: int|
                    0 <= i < moments.len() ==> (#[trigger] moments[i]).is_reading())
                    && final(self)@ == (StateView {
                    people: #[trigger] enrolled_all(
                        old(self)@.people,
                        listed_faces(reply),
                        moments,
                    ),
                    ..old(self)@
                }),
    {
        let ghost mut moments: Seq<Timestamp> = Seq::empty();
        let ghost listed = listed_faces(reply);
        let ghost before = self@;
        let faces: Vec<Face> = match reply.faces {
            Some(faces) => faces,
            None => Vec::new(),
        };
        assert(faces@ =~= listed);
        assert(enrolled_all(before.people, listed.take(0), moments) == before.people);
        for face in it: faces
            invariant
                it.seq() == listed,
                moments.len() == it.index(),
                forall|i: int| 0 <= i < moments.len() ==> (#[trigger] moments[i]).is_reading(),
                self@ == (StateView {
                    people: enrolled_all(before.people, listed.take(it.index()), moments),
                    ..before
                }),
        {
            let ghost done = it.index();
            let ghost mut moment = lemma_some_reading();
            match (face.face_id, face.external_image_id) {
                (Some(face_id), Some(name)) => {
                    let added_at: Timestamp = Timestamp::now();
                    self.authorize_face(face_id, name, added_at);
                    proof {
                        moment = added_at;
                    }
                },
                _ => {},
            }
            proof {
                assert(listed.take(done + 1).drop_last() =~= listed.take(done));
                assert(moments.push(moment).drop_last() =~= moments);
                moments = moments.push(moment);
            }
        }
        assert(listed.take(listed.len() as int) =~= listed);
        assert(self@.people == enrolled_all(before.people, listed, moments));
    }
}

/// Writing an entry puts it at the end of the log, and changes nothing else.
pub proof fn law_entries_are_appended(state: StateView, entry: AccessLogView)
    ensures
        with_entry(state, entry).log.len() == state.log.len() + 1,
        with_entry(state, entry).log.last() == entry,
        forall|i: int|
            0 <= i < state.log.len() ==> #[trigger] with_entry(state, entry).log[i] == state.log[i],
        with_entry(state, entry).people == state.people,
        with_entry(state, entry).settings == state.settings,
{
}

/// Putting a person on the roster touches neither the log nor the settings.
pub proof fn law_roster_changes_stay_on_the_roster(state: StateView, newcomer: PersonView)
    ensures
        with_person(state, newcomer).people == enrolled(state.people, newcomer),
        with_person(state, newcomer).log == state.log,
        with_person(state, newcomer).settings == state.settings,
{
}

} // verus!
