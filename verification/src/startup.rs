//! Starting up: making sure that the face collection exists, and loading what it holds.
use crate::rekognition::{Face, ListReply};
use crate::roster::{
    distinct_faces, enrolled_all, law_loading_keeps_faces_distinct,
    law_loading_names_by_external_id, named_by_external_id,
};
use crate::state::{listed_faces, AppState, StateView};
use crate::time::Timestamp;
use vstd::prelude::*;

verus! {

/// How far the start has come, by what has to be done next.
pub enum StartFlow {
    /// Ask whether the collection exists.
    DescribeCollection { collection_id: String },
    /// Create the collection.
    CreateCollection { collection_id: String },
    /// Ask for the faces in the collection.
    ListFaces { collection_id: String },
    /// Nothing: the service can run.
    Started,
    /// Nothing: the service cannot run, for this reason.
    Failed { error: String },
}

/// What a [`StartFlow`] holds.
pub enum StartView {
    DescribeCollection { collection_id: Seq<char> },
    CreateCollection { collection_id: Seq<char> },
    ListFaces { collection_id: Seq<char> },
    Started,
    Failed { error: Seq<char> },
}

impl View for StartFlow {
    type V = StartView;

    open spec fn view(&self) -> StartView {
        match self {
            StartFlow::DescribeCollection { collection_id } => StartView::DescribeCollection {
                collection_id: collection_id@,
            },
            StartFlow::CreateCollection { collection_id } => StartView::CreateCollection {
                collection_id: collection_id@,
            },
            StartFlow::ListFaces { collection_id } => StartView::ListFaces {
                collection_id: collection_id@,
            },
            StartFlow::Started => StartView::Started,
            StartFlow::Failed { error } => StartView::Failed { error: error@ },
        }
    }
}

/// What came of the last thing done. An error is told by its message.
pub enum StartEvent {
    CollectionDescribed(Result<(), String>),
    CollectionCreated(Result<(), String>),
    FacesListed(Result<ListReply, String>),
}

/// The faces that a step of the start adds.
pub open spec fn faces_added(flow: StartView, event: StartEvent) -> Seq<Face> {
    match (flow, event) {
        (StartView::ListFaces { .. }, StartEvent::FacesListed(Ok(reply))) => listed_faces(reply),
        _ => Seq::empty(),
    }
}

/// Whether there is one moment for each of `count` faces.
pub open spec fn moments_for(moments: Seq<Timestamp>, count: nat) -> bool {
    moments.len() == count && forall|i: int|
        0 <= i < moments.len() ==> (#[trigger] moments[i]).is_reading()
}

/// One step of the start: the state and the start after `event`, where the clock reads
/// `moments` as the faces are added one by one. A collection that cannot be described is
/// taken not to exist. An event that does not tell what came of the thing to be done changes
/// nothing.
pub open spec fn start_step(
    state: StateView,
    flow: StartView,
    event: StartEvent,
    moments: Seq<Timestamp>,
) -> (StateView, StartView) {
    match (flow, event) {
        (
            StartView::DescribeCollection { collection_id },
            StartEvent::CollectionDescribed(described),
        ) => (
            state,
            if described is Ok {
                StartView::ListFaces { collection_id }
            } else {
                StartView::CreateCollection { collection_id }
            },
        ),
        (
            StartView::CreateCollection { collection_id },
            StartEvent::CollectionCreated(created),
        ) => (
            state,
            match created {
                Ok(_) => StartView::ListFaces { collection_id },
                Err(error) => StartView::Failed { error: error@ },
            },
        ),
        (StartView::ListFaces { .. }, StartEvent::FacesListed(Err(error))) => (
            state,
            StartView::Failed { error: error@ },
        ),
        (StartView::ListFaces { .. }, StartEvent::FacesListed(Ok(reply))) => (
            StateView {
                people: enrolled_all(state.people, listed_faces(reply), moments),
                ..state
            },
            StartView::Started,
        ),
        _ => (state, flow),
    }
}

impl AppState {
    /// The first thing to do: to see whether the collection of the settings exists.
    pub fn ensure_collection_exists(&self) -> (flow: StartFlow)
        ensures
            flow@ == (StartView::DescribeCollection { collection_id: self@.settings.collection_id }),
    {
        StartFlow::DescribeCollection { collection_id: self.settings().collection_id.clone() }
    }

    /// Takes the start one step further.
    pub fn advance_start(&mut self, flow: StartFlow, event: StartEvent) -> (next: StartFlow)
        ensures
            exists|moments: Seq<Timestamp>|
                moments_for(moments, faces_added(flow@, event).len()) && (final(self)@, next@)
                    == #[trigger] start_step(old(self)@, flow@, event, moments),
    {
        let ghost doing = flow@;
        let ghost before = self@;
        let ghost mut moments: Seq<Timestamp> = Seq::empty();
        let next: StartFlow = match (flow, event) {
            (
                StartFlow::DescribeCollection { collection_id },
                StartEvent::CollectionDescribed(described),
            ) => if described.is_ok() {
                StartFlow::ListFaces { collection_id }
            } else {
                StartFlow::CreateCollection { collection_id }
            },
            (
                StartFlow::CreateCollection { collection_id },
                StartEvent::CollectionCreated(created),
            ) => match created {
                Ok(_) => StartFlow::ListFaces { collection_id },
                Err(error) => StartFlow::Failed { error },
            },
            (
                StartFlow::ListFaces { .. },
                StartEvent::FacesListed(Err(error)),
            ) => StartFlow::Failed { error },
            (StartFlow::ListFaces { .. }, StartEvent::FacesListed(Ok(reply))) => {
                self.load_existing_faces(reply);
                proof {
                    moments = choose|read: Seq<Timestamp>|
                        moments_for(read, listed_faces(reply).len()) && self@ == (StateView {
                            people: #[trigger] enrolled_all(
                                before.people,
                                listed_faces(reply),
                                read,
                            ),
                            ..before
                        });
                }
                StartFlow::Started
            },
            (flow, _) => flow,
        };
        assert(moments_for(moments, faces_added(doing, event).len()));
        assert((self@, next@) == start_step(before, doing, event, moments));
        next
    }
}

/// The state and the start after several events, each with the readings of the clock that go
/// with it.
pub open spec fn start_run(
    state: StateView,
    flow: StartView,
    events: Seq<(StartEvent, Seq<Timestamp>)>,
) -> (StateView, StartView)
    decreases events.len(),
{
    if events.len() == 0 {
        (state, flow)
    } else {
        let before = start_run(state, flow, events.drop_last());
        start_step(before.0, before.1, events.last().0, events.last().1)
    }
}

/// Starting changes nothing but the roster, and that only in the step that completes the
/// start; the roster keeps one entry per face.
pub proof fn law_start_fills_the_roster_last(
    state: StateView,
    flow: StartView,
    events: Seq<(StartEvent, Seq<Timestamp>)>,
)
    requires
        distinct_faces(state.people),
        !(flow is Started),
    ensures
        ({
            let (after, reached) = start_run(state, flow, events);
            &&& after.settings == state.settings
            &&& after.log == state.log
            &&& distinct_faces(after.people)
            &&& !(reached is Started) ==> after.people == state.people
        }),
    decreases events.len(),
{
    if events.len() > 0 {
        law_start_fills_the_roster_last(state, flow, events.drop_last());
        let (before, reached) = start_run(state, flow, events.drop_last());
        if let StartEvent::FacesListed(Ok(reply)) = events.last().0 {
            law_loading_keeps_faces_distinct(
                before.people,
                listed_faces(reply),
                events.last().1,
            );
        }
    }
}

/// However far the start comes, every entry has its name as its external identifier where it
/// had so before.
pub proof fn law_start_names_by_external_id(
    state: StateView,
    flow: StartView,
    events: Seq<(StartEvent, Seq<Timestamp>)>,
)
    requires
        named_by_external_id(state.people),
    ensures
        named_by_external_id(start_run(state, flow, events).0.people),
    decreases events.len(),
{
    if events.len() > 0 {
        law_start_names_by_external_id(state, flow, events.drop_last());
        let before = start_run(state, flow, events.drop_last()).0;
        if let StartEvent::FacesListed(Ok(reply)) = events.last().0 {
            law_loading_names_by_external_id(before.people, listed_faces(reply), events.last().1);
        }
    }
}

/// Whether an event says that the collection exists: it could be described, or it was
/// created.
pub open spec fn collection_exists(event: StartEvent) -> bool {
    event matches StartEvent::CollectionDescribed(Ok(_)) || event
        matches StartEvent::CollectionCreated(Ok(_))
}

/// The faces are asked for only once the collection is known to exist, and the service runs
/// only once they came.
pub proof fn law_start_needs_the_collection(
    state: StateView,
    flow: StartView,
    events: Seq<(StartEvent, Seq<Timestamp>)>,
)
    requires
        flow is DescribeCollection,
    ensures
        start_run(state, flow, events).1 is ListFaces || start_run(state, flow, events).1
            is Started ==> exists|i: int|
            0 <= i < events.len() && collection_exists((#[trigger] events[i]).0),
        start_run(state, flow, events).1 is Started ==> exists|i: int|
            0 <= i < events.len() && ((#[trigger] events[i]).0 matches StartEvent::FacesListed(
                Ok(_),
            )),
    decreases events.len(),
{
    if events.len() > 0 {
        let shorter = events.drop_last();
        law_start_needs_the_collection(state, flow, shorter);
        let reached = start_run(state, flow, shorter).1;
        let last = events.len() - 1;
        if reached is ListFaces || reached is Started {
            let i = choose|i: int|
                0 <= i < shorter.len() && collection_exists((#[trigger] shorter[i]).0);
            assert(collection_exists(events[i].0));
        }
        if reached is Started {
            let i = choose|i: int|
                0 <= i < shorter.len() && ((#[trigger] shorter[i]).0
                    matches StartEvent::FacesListed(Ok(_)));
            assert(events[i].0 matches StartEvent::FacesListed(Ok(_)));
        }
        assert(events[last].0 == events.last().0);
    }
}

/// A collection that can be described is not created, and one that cannot is, under the same
/// name. The state stays as it is.
pub proof fn law_only_missing_collections_are_created(
    state: StateView,
    flow: StartView,
    described: Result<(), String>,
    moments: Seq<Timestamp>,
)
    requires
        flow is DescribeCollection,
    ensures
        ({
            let (after, next) = start_step(
                state,
                flow,
                StartEvent::CollectionDescribed(described),
                moments,
            );
            let collection_id = flow->DescribeCollection_collection_id;
            &&& after == state
            &&& described is Ok ==> next == (StartView::ListFaces { collection_id })
            &&& described is Err ==> next == (StartView::CreateCollection { collection_id })
        }),
{
}

/// Once the collection is created, its faces are asked for; where it cannot be, the start
/// fails with what it failed by. The state stays as it is.
pub proof fn law_creation_decides_the_start(
    state: StateView,
    flow: StartView,
    created: Result<(), String>,
    moments: Seq<Timestamp>,
)
    requires
        flow is CreateCollection,
    ensures
        ({
            let (after, next) = start_step(
                state,
                flow,
                StartEvent::CollectionCreated(created),
                moments,
            );
            let collection_id = flow->CreateCollection_collection_id;
            &&& after == state
            &&& created is Ok ==> next == (StartView::ListFaces { collection_id })
            &&& created is Err ==> next == (StartView::Failed { error: created->Err_0@ })
        }),
{
}

/// A listing of faces completes the start, whatever it holds: all its faces are loaded, or
/// none where it has no list. Where there is no listing, the start fails with what it failed
/// by, and nothing changes.
pub proof fn law_every_listing_completes_the_start(
    state: StateView,
    flow: StartView,
    listed: Result<ListReply, String>,
    moments: Seq<Timestamp>,
)
    requires
        flow is ListFaces,
    ensures
        ({
            let (after, next) = start_step(state, flow, StartEvent::FacesListed(listed), moments);
            &&& after.settings == state.settings
            &&& after.log == state.log
            &&& listed is Ok ==> next is Started
            &&& listed is Ok && listed->Ok_0.faces is Some ==> after.people == enrolled_all(
                state.people,
                listed->Ok_0.faces->0@,
                moments,
            )
            &&& listed is Ok && listed->Ok_0.faces is None ==> after.people == state.people
            &&& listed is Err ==> next == (StartView::Failed { error: listed->Err_0@ })
            &&& listed is Err ==> after == state
        }),
{
}

/// An event that does not tell what came of the thing to be done leaves everything as it is.
pub proof fn law_start_waits_for_its_own_events(
    state: StateView,
    flow: StartView,
    event: StartEvent,
    moments: Seq<Timestamp>,
)
    requires
        !(flow is DescribeCollection && event is CollectionDescribed),
        !(flow is CreateCollection && event is CollectionCreated),
        !(flow is ListFaces && event is FacesListed),
    ensures
        start_step(state, flow, event, moments) == (state, flow),
{
}

/// The start shows what has to be done next, with all that it takes.
pub proof fn law_start_shows_all_it_holds(flow: StartFlow)
    ensures
        match flow {
            StartFlow::DescribeCollection { collection_id } => flow@
                == (StartView::DescribeCollection { collection_id: collection_id@ }),
            StartFlow::CreateCollection { collection_id } => flow@
                == (StartView::CreateCollection { collection_id: collection_id@ }),
            StartFlow::ListFaces { collection_id } => flow@ == (StartView::ListFaces {
                collection_id: collection_id@,
            }),
            StartFlow::Started => flow@ is Started,
            StartFlow::Failed { error } => flow@ == (StartView::Failed { error: error@ }),
        },
{
}

} // verus!
