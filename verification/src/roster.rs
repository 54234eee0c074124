//! The people whose faces are known, one entry per face.
use crate::rekognition::Face;
use crate::text::same_text;
use crate::time::Timestamp;
use vstd::prelude::*;

verus! {

/// A person who may open the door, by one known face.
pub struct AuthorizedPerson {
    pub name: String,
    pub face_id: String,
    pub external_image_id: String,
    pub added_at: Timestamp,
}

/// What an [`AuthorizedPerson`] holds.
pub struct PersonView {
    pub name: Seq<char>,
    pub face_id: Seq<char>,
    pub external_image_id: Seq<char>,
    pub added_at: Timestamp,
}

impl View for AuthorizedPerson {
    type V = PersonView;

    open spec fn view(&self) -> PersonView {
        PersonView {
            name: self.name@,
            face_id: self.face_id@,
            external_image_id: self.external_image_id@,
            added_at: self.added_at,
        }
    }
}

/// A person known by the face `face_id` who goes by `name`, as of the moment `added_at`.
pub open spec fn person(name: Seq<char>, face_id: Seq<char>, added_at: Timestamp) -> PersonView {
    PersonView { name, face_id, external_image_id: name, added_at }
}

/// Whether some entry is about the face `face_id`.
pub open spec fn has_face(people: Seq<PersonView>, face_id: Seq<char>) -> bool {
    exists|i: int| 0 <= i < people.len() && #[trigger] people[i].face_id == face_id
}

/// Whether no two entries are about the same face.
pub open spec fn distinct_faces(people: Seq<PersonView>) -> bool {
    forall|i: int, j: int|
        #![trigger people[i], people[j]]
        0 <= i < j < people.len() ==> people[i].face_id != people[j].face_id
}

/// The entries with `newcomer` added: in place of the entry about the same face where there
/// is one, and last otherwise.
pub open spec fn enrolled(people: Seq<PersonView>, newcomer: PersonView) -> Seq<PersonView> {
    if has_face(people, newcomer.face_id) {
        Seq::new(
            people.len(),
            |i: int|
                if people[i].face_id == newcomer.face_id {
                    newcomer
                } else {
                    people[i]
                },
        )
    } else {
        people.push(newcomer)
    }
}

/// The person that a stored face stands for: nobody, unless the face comes with both
/// identifiers.
pub open spec fn listed_person(face: Face, added_at: Timestamp) -> Option<PersonView> {
    match (face.face_id, face.external_image_id) {
        (Some(face_id), Some(name)) => Some(person(name@, face_id@, added_at)),
        _ => None,
    }
}

/// The entries once the person that a stored face stands for is added.
pub open spec fn enrolled_listed(
    people: Seq<PersonView>,
    face: Face,
    added_at: Timestamp,
) -> Seq<PersonView> {
    match listed_person(face, added_at) {
        Some(newcomer) => enrolled(people, newcomer),
        None => people,
    }
}

/// The entries once stored faces are added one after the other, each at its own moment.
pub open spec fn enrolled_all(
    people: Seq<PersonView>,
    faces: Seq<Face>,
    moments: Seq<Timestamp>,
) -> Seq<PersonView>
    decreases faces.len(),
{
    if faces.len() == 0 {
        people
    } else {
        enrolled_listed(
            enrolled_all(people, faces.drop_last(), moments.drop_last()),
            faces.last(),
            moments.last(),
        )
    }
}

/// The names of the entries, in their order.
pub open spec fn names_of(people: Seq<PersonView>) -> Seq<Seq<char>> {
    people.map_values(|p: PersonView| p.name)
}

/// Who is registered under each face.
pub open spec fn by_face(people: Seq<PersonView>) -> Map<Seq<char>, PersonView> {
    Map::new(
        |face_id: Seq<char>| has_face(people, face_id),
        |face_id: Seq<char>|
            people[choose|i: int| 0 <= i < people.len() && #[trigger] people[i].face_id == face_id],
    )
}

/// The people whose faces are known. There is one entry per face.
pub struct Roster {
    people: Vec<AuthorizedPerson>,
}

impl View for Roster {
    type V = Seq<PersonView>;

    closed spec fn view(&self) -> Seq<PersonView> {
        self.people@.map_values(|p: AuthorizedPerson| p@)
    }
}

impl Roster {
    #[verifier::type_invariant]
    pub open spec fn well_formed(self) -> bool {
        distinct_faces(self@)
    }

    /// A roster with nobody on it.
    pub fn new() -> (roster: Roster)
        ensures
            roster@ == Seq::<PersonView>::empty(),
    {
        let roster = Roster { people: Vec::new() };
        assert(roster@ =~= Seq::<PersonView>::empty());
        roster
    }

    /// Adds a person, in place of whoever was registered under the same face.
    pub fn insert(&mut self, newcomer: AuthorizedPerson)
        ensures
            final(self)@ == enrolled(old(self)@, newcomer@),
            distinct_faces(final(self)@),
    {
        proof {
            use_type_invariant(&*self);
        }
        let ghost before = self@;
        let mut people: Vec<AuthorizedPerson> = Vec::new();
        std::mem::swap(&mut people, &mut self.people);
        let ghost held = people@;
        assert(before =~= held.map_values(|p: AuthorizedPerson| p@));
        let i: usize = position(&people, newcomer.face_id.as_str());
        proof {
            assert(forall|j: int| 0 <= j < held.len() ==> before[j] == (#[trigger] held[j])@);
            law_enrolling_keeps_faces_distinct(before, newcomer@);
        }
        if i < people.len() {
            assert(before[i as int].face_id == newcomer@.face_id);
            people[i] = newcomer;
        } else {
            assert(!has_face(before, newcomer@.face_id));
            people.push(newcomer);
        }
        assert(people@.map_values(|p: AuthorizedPerson| p@) =~= enrolled(before, newcomer@));
        self.people = people;
    }

    /// The names of the entries, in the order in which their faces were first added.
    pub fn names(&self) -> (names: Vec<String>)
        ensures
            names.deep_view() == names_of(self@),
            distinct_faces(self@),
    {
        proof {
            use_type_invariant(self);
        }
        let mut names: Vec<String> = Vec::new();
        let mut i: usize = 0;
        while i < self.people.len()
            invariant
                i <= self.people.len(),
                names@.len() == i,
                forall|j: int| 0 <= j < i ==> (#[trigger] names@[j])@ == self@[j].name,
            decreases self.people.len() - i,
        {
            names.push(self.people[i].name.clone());
            i = i + 1;
        }
        assert(names.deep_view() =~= names_of(self@));
        names
    }
}

/// The place of the entry about the face `face_id`, or the number of entries where there is
/// none.
fn position(people: &Vec<AuthorizedPerson>, face_id: &str) -> (place: usize)
    ensures
        place <= people@.len(),
        place < people@.len() ==> people@[place as int]@.face_id == face_id@,
        forall|j: int| 0 <= j < place ==> (#[trigger] people@[j])@.face_id != face_id@,
{
    let mut i: usize = 0;
    while i < people.len()
        invariant
            i <= people@.len(),
            forall|j: int| 0 <= j < i ==> (#[trigger] people@[j])@.face_id != face_id@,
        decreases people@.len() - i,
    {
        if same_text(people[i].face_id.as_str(), face_id) {
            return i;
        }
        i = i + 1;
    }
    i
}

/// Adding a person keeps one entry per face.
pub proof fn law_enrolling_keeps_faces_distinct(people: Seq<PersonView>, newcomer: PersonView)
    requires
        distinct_faces(people),
    ensures
        distinct_faces(enrolled(people, newcomer)),
{
    let after = enrolled(people, newcomer);
    assert forall|i: int, j: int|
        #![trigger after[i], after[j]]
        0 <= i < j < after.len() implies after[i].face_id != after[j].face_id by {
        if has_face(people, newcomer.face_id) {
            assert(people[i].face_id != people[j].face_id);
        } else if j < people.len() {
            assert(people[i].face_id != people[j].face_id);
        }
    }
}

/// In a sequence of entries with one entry per face, an entry is what its face leads to.
proof fn lemma_entry_by_face(people: Seq<PersonView>, i: int)
    requires
        distinct_faces(people),
        0 <= i < people.len(),
    ensures
        by_face(people).contains_key(people[i].face_id),
        by_face(people)[people[i].face_id] == people[i],
{
    let face_id = people[i].face_id;
    assert(has_face(people, face_id));
    let k = choose|k: int| 0 <= k < people.len() && #[trigger] people[k].face_id == face_id;
    if k < i {
        assert(people[k].face_id != people[i].face_id);
    } else if i < k {
        assert(people[i].face_id != people[k].face_id);
    }
}

/// Adding a person registers them under their face and leaves every other face as it was:
/// the entries behave as a map from faces to people.
pub proof fn law_enrolling_is_map_insertion(people: Seq<PersonView>, newcomer: PersonView)
    requires
        distinct_faces(people),
    ensures
        by_face(enrolled(people, newcomer)) == by_face(people).insert(newcomer.face_id, newcomer),
{
    let after = enrolled(people, newcomer);
    law_enrolling_keeps_faces_distinct(people, newcomer);
    let expected = by_face(people).insert(newcomer.face_id, newcomer);
    assert forall|face_id: Seq<char>| by_face(after).contains_key(face_id)
        == expected.contains_key(face_id) by {
        if has_face(after, face_id) {
            let i = choose|i: int| 0 <= i < after.len() && #[trigger] after[i].face_id == face_id;
            if face_id != newcomer.face_id {
                assert(people[i].face_id == face_id);
            }
        }
        if has_face(people, face_id) {
            let i = choose|i: int| 0 <= i < people.len() && #[trigger] people[i].face_id == face_id;
            assert(after[i].face_id == face_id);
        }
        if face_id == newcomer.face_id && !has_face(people, face_id) {
            assert(after[people.len() as int].face_id == face_id);
        }
    }
    assert forall|face_id: Seq<char>| by_face(after).contains_key(face_id) implies by_face(
        after,
    )[face_id] == expected[face_id] by {
        let i = choose|i: int| 0 <= i < after.len() && #[trigger] after[i].face_id == face_id;
        lemma_entry_by_face(after, i);
        if face_id != newcomer.face_id {
            assert(people[i] == after[i]);
            lemma_entry_by_face(people, i);
        }
    }
    assert(by_face(after) =~= expected);
}

/// There are as many entries as there are registered faces.
pub proof fn law_one_entry_per_face(people: Seq<PersonView>)
    requires
        distinct_faces(people),
    ensures
        by_face(people).dom().finite(),
        by_face(people).len() == people.len(),
    decreases people.len(),
{
    if people.len() == 0 {
        assert(by_face(people) =~= Map::<Seq<char>, PersonView>::empty());
    } else {
        let before = people.drop_last();
        assert(distinct_faces(before)) by {
            assert forall|i: int, j: int|
                #![trigger before[i], before[j]]
                0 <= i < j < before.len() implies before[i].face_id != before[j].face_id by {
                assert(people[i].face_id != people[j].face_id);
            }
        }
        law_one_entry_per_face(before);
        assert(!has_face(before, people.last().face_id)) by {
            if has_face(before, people.last().face_id) {
                let i = choose|i: int|
                    0 <= i < before.len() && #[trigger] before[i].face_id == people.last().face_id;
                assert(people[i].face_id != people[people.len() - 1].face_id);
            }
        }
        law_enrolling_is_map_insertion(before, people.last());
        assert(enrolled(before, people.last()) =~= people);
    }
}

/// Loading stored faces keeps one entry per face.
pub proof fn law_loading_keeps_faces_distinct(
    people: Seq<PersonView>,
    faces: Seq<Face>,
    moments: Seq<Timestamp>,
)
    requires
        distinct_faces(people),
    ensures
        distinct_faces(enrolled_all(people, faces, moments)),
    decreases faces.len(),
{
    if faces.len() > 0 {
        law_loading_keeps_faces_distinct(people, faces.drop_last(), moments.drop_last());
        if let Some(newcomer) = listed_person(faces.last(), moments.last()) {
            law_enrolling_keeps_faces_distinct(
                enrolled_all(people, faces.drop_last(), moments.drop_last()),
                newcomer,
            );
        }
    }
}

/// Whether a stored face stands for somebody under `face_id`.
pub open spec fn lists_face(face: Face, face_id: Seq<char>) -> bool {
    face.face_id is Some && face.external_image_id is Some && face.face_id->0@ == face_id
}

/// Where several stored faces carry the same identifier, the last of them decides who is
/// registered under it.
pub proof fn law_last_listed_face_wins(
    people: Seq<PersonView>,
    faces: Seq<Face>,
    moments: Seq<Timestamp>,
    i: int,
    face_id: Seq<char>,
)
    requires
        distinct_faces(people),
        moments.len() == faces.len(),
        0 <= i < faces.len(),
        lists_face(faces[i], face_id),
        forall|j: int| i < j < faces.len() ==> !lists_face(#[trigger] faces[j], face_id),
    ensures
        by_face(enrolled_all(people, faces, moments)).contains_key(face_id),
        Some(by_face(enrolled_all(people, faces, moments))[face_id]) == listed_person(
            faces[i],
            moments[i],
        ),
    decreases faces.len(),
{
    let before = enrolled_all(people, faces.drop_last(), moments.drop_last());
    law_loading_keeps_faces_distinct(people, faces.drop_last(), moments.drop_last());
    if let Some(newcomer) = listed_person(faces.last(), moments.last()) {
        law_enrolling_is_map_insertion(before, newcomer);
    }
    if i < faces.len() - 1 {
        assert forall|j: int| i < j < faces.drop_last().len() implies !lists_face(
            #[trigger] faces.drop_last()[j],
            face_id,
        ) by {
            assert(!lists_face(faces[j], face_id));
        }
        law_last_listed_face_wins(people, faces.drop_last(), moments.drop_last(), i, face_id);
        assert(!lists_face(faces[faces.len() - 1], face_id));
    }
}

/// A face that no stored face lists with both identifiers is registered as it was before
/// the load, or not at all.
pub proof fn law_unlisted_faces_are_untouched(
    people: Seq<PersonView>,
    faces: Seq<Face>,
    moments: Seq<Timestamp>,
    face_id: Seq<char>,
)
    requires
        distinct_faces(people),
        moments.len() == faces.len(),
        forall|j: int| 0 <= j < faces.len() ==> !lists_face(#[trigger] faces[j], face_id),
    ensures
        by_face(enrolled_all(people, faces, moments)).contains_key(face_id) == by_face(
            people,
        ).contains_key(face_id),
        by_face(people).contains_key(face_id) ==> by_face(
            enrolled_all(people, faces, moments),
        )[face_id] == by_face(people)[face_id],
    decreases faces.len(),
{
    if faces.len() > 0 {
        let before = enrolled_all(people, faces.drop_last(), moments.drop_last());
        law_loading_keeps_faces_distinct(people, faces.drop_last(), moments.drop_last());
        assert forall|j: int| 0 <= j < faces.drop_last().len() implies !lists_face(
            #[trigger] faces.drop_last()[j],
            face_id,
        ) by {
            assert(!lists_face(faces[j], face_id));
        }
        law_unlisted_faces_are_untouched(people, faces.drop_last(), moments.drop_last(), face_id);
        assert(!lists_face(faces[faces.len() - 1], face_id));
        if let Some(newcomer) = listed_person(faces.last(), moments.last()) {
            law_enrolling_is_map_insertion(before, newcomer);
        }
    }
}

/// Whether two entries tell the same of a person, apart from the moment at which they were
/// added.
pub open spec fn same_person(one: PersonView, other: PersonView) -> bool {
    &&& one.name == other.name
    &&& one.face_id == other.face_id
    &&& one.external_image_id == other.external_image_id
}

/// Whether two sequences of entries tell the same of the same people in the same order, apart
/// from the moments at which they were added.
pub open spec fn same_people(one: Seq<PersonView>, other: Seq<PersonView>) -> bool {
    one.len() == other.len() && forall|i: int|
        #![trigger one[i], other[i]]
        0 <= i < one.len() ==> same_person(one[i], other[i])
}

/// The place of the last stored face that stands for somebody under `face_id`.
proof fn lemma_last_listing(faces: Seq<Face>, face_id: Seq<char>) -> (place: int)
    requires
        exists|j: int| 0 <= j < faces.len() && lists_face(#[trigger] faces[j], face_id),
    ensures
        0 <= place < faces.len(),
        lists_face(faces[place], face_id),
        forall|j: int| place < j < faces.len() ==> !lists_face(#[trigger] faces[j], face_id),
    decreases faces.len(),
{
    let last = faces.len() - 1;
    if lists_face(faces[last], face_id) {
        last
    } else {
        let j = choose|j: int| 0 <= j < faces.len() && lists_face(#[trigger] faces[j], face_id);
        let shorter = faces.drop_last();
        assert(lists_face(shorter[j], face_id));
        let place = lemma_last_listing(shorter, face_id);
        assert forall|j: int| place < j < faces.len() implies !lists_face(
            #[trigger] faces[j],
            face_id,
        ) by {
            if j < last {
                assert(!lists_face(shorter[j], face_id));
            }
        }
        place
    }
}

/// Loading stored faces that all have an entry adds no entry and moves none.
proof fn lemma_loading_known_faces_keeps_places(
    people: Seq<PersonView>,
    faces: Seq<Face>,
    moments: Seq<Timestamp>,
)
    requires
        forall|j: int, face_id: Seq<char>|
            0 <= j < faces.len() && #[trigger] lists_face(faces[j], face_id) ==> has_face(
                people,
                face_id,
            ),
    ensures
        enrolled_all(people, faces, moments).len() == people.len(),
        forall|i: int|
            0 <= i < people.len() ==> (#[trigger] enrolled_all(people, faces, moments)[i]).face_id
                == people[i].face_id,
    decreases faces.len(),
{
    if faces.len() > 0 {
        let shorter = faces.drop_last();
        assert forall|j: int, face_id: Seq<char>|
            0 <= j < shorter.len() && #[trigger] lists_face(
                shorter[j],
                face_id,
            ) implies has_face(people, face_id) by {
            assert(lists_face(faces[j], face_id));
        }
        lemma_loading_known_faces_keeps_places(people, shorter, moments.drop_last());
        let before = enrolled_all(people, shorter, moments.drop_last());
        if let Some(newcomer) = listed_person(faces.last(), moments.last()) {
            assert(lists_face(faces[faces.len() - 1], newcomer.face_id));
            let i = choose|i: int|
                0 <= i < people.len() && #[trigger] people[i].face_id == newcomer.face_id;
            assert(before[i].face_id == newcomer.face_id);
            assert(has_face(before, newcomer.face_id));
        }
    }
}

/// Loading the same stored faces a second time changes no entry but for the moments: the same
/// faces, names and external identifiers stay in the same order.
pub proof fn law_loading_twice_is_loading_once(
    people: Seq<PersonView>,
    faces: Seq<Face>,
    first_moments: Seq<Timestamp>,
    second_moments: Seq<Timestamp>,
)
    requires
        distinct_faces(people),
        first_moments.len() == faces.len(),
        second_moments.len() == faces.len(),
    ensures
        same_people(
            enrolled_all(people, faces, first_moments),
            enrolled_all(enrolled_all(people, faces, first_moments), faces, second_moments),
        ),
{
    let once = enrolled_all(people, faces, first_moments);
    let twice = enrolled_all(once, faces, second_moments);
    law_loading_keeps_faces_distinct(people, faces, first_moments);
    law_loading_keeps_faces_distinct(once, faces, second_moments);
    assert forall|j: int, face_id: Seq<char>|
        0 <= j < faces.len() && #[trigger] lists_face(faces[j], face_id) implies has_face(
        once,
        face_id,
    ) by {
        let place = lemma_last_listing(faces, face_id);
        law_last_listed_face_wins(people, faces, first_moments, place, face_id);
    }
    lemma_loading_known_faces_keeps_places(once, faces, second_moments);
    assert forall|i: int|
        #![trigger once[i], twice[i]]
        0 <= i < once.len() implies same_person(once[i], twice[i]) by {
        let face_id = once[i].face_id;
        lemma_entry_by_face(once, i);
        lemma_entry_by_face(twice, i);
        assert(twice[i].face_id == face_id);
        if exists|j: int| 0 <= j < faces.len() && lists_face(#[trigger] faces[j], face_id) {
            let place = lemma_last_listing(faces, face_id);
            law_last_listed_face_wins(people, faces, first_moments, place, face_id);
            law_last_listed_face_wins(once, faces, second_moments, place, face_id);
        } else {
            law_unlisted_faces_are_untouched(once, faces, second_moments, face_id);
        }
    }
}

/// Putting a value in place of another takes the one out of the multiset and the other in.
proof fn lemma_update_to_multiset<A>(s: Seq<A>, i: int, value: A)
    requires
        0 <= i < s.len(),
    ensures
        s.update(i, value).to_multiset() == s.to_multiset().remove(s[i]).insert(value),
{
    broadcast use vstd::seq_lib::group_to_multiset_ensures;

    let updated = s.update(i, value);
    assert(updated.remove(i) =~= s.remove(i));
    assert(updated.to_multiset().remove(value) == s.to_multiset().remove(s[i]));
    assert(updated[i] == value);
    assert(updated.contains(value));
    assert(updated.to_multiset() =~= updated.to_multiset().remove(value).insert(value));
}

/// Adding a person adds their name to the names listed, and takes out one name where their
/// face was registered before: the name that it was registered under. Nothing else about the
/// names changes.
pub proof fn law_adding_changes_one_name(people: Seq<PersonView>, newcomer: PersonView)
    requires
        distinct_faces(people),
    ensures
        names_of(enrolled(people, newcomer)).to_multiset() == if by_face(people).contains_key(
            newcomer.face_id,
        ) {
            names_of(people).to_multiset().remove(by_face(people)[newcomer.face_id].name).insert(
                newcomer.name,
            )
        } else {
            names_of(people).to_multiset().insert(newcomer.name)
        },
{
    let after = enrolled(people, newcomer);
    if has_face(people, newcomer.face_id) {
        let i = choose|i: int|
            0 <= i < people.len() && #[trigger] people[i].face_id == newcomer.face_id;
        lemma_entry_by_face(people, i);
        assert forall|j: int| 0 <= j < people.len() implies #[trigger] after[j] == people.update(
            i,
            newcomer,
        )[j] by {
            if j < i {
                assert(people[j].face_id != people[i].face_id);
            } else if i < j {
                assert(people[i].face_id != people[j].face_id);
            }
        }
        assert(names_of(after) =~= names_of(people).update(i, newcomer.name));
        lemma_update_to_multiset(names_of(people), i, newcomer.name);
        assert(names_of(people)[i] == people[i].name);
    } else {
        broadcast use vstd::seq_lib::group_to_multiset_ensures;

        assert(names_of(after) =~= names_of(people).push(newcomer.name));
    }
}

/// Whether every entry has its name as its external identifier.
pub open spec fn named_by_external_id(people: Seq<PersonView>) -> bool {
    forall|i: int|
        0 <= i < people.len() ==> (#[trigger] people[i]).external_image_id == people[i].name
}

/// Whether every entry of `after` that is not one of `before` has its name as its external
/// identifier.
pub open spec fn newcomers_named_by_external_id(
    before: Seq<PersonView>,
    after: Seq<PersonView>,
) -> bool {
    forall|i: int|
        0 <= i < after.len() ==> (#[trigger] after[i]).external_image_id == after[i].name
            || before.contains(after[i])
}

/// The entry made for an added person has its name as its external identifier. So where all
/// entries had so before, all have so after.
pub proof fn law_adding_names_by_external_id(
    people: Seq<PersonView>,
    name: Seq<char>,
    face_id: Seq<char>,
    added_at: Timestamp,
)
    ensures
        newcomers_named_by_external_id(people, enrolled(people, person(name, face_id, added_at))),
        named_by_external_id(people) ==> named_by_external_id(
            enrolled(people, person(name, face_id, added_at)),
        ),
{
}

/// The entries made by loading stored faces have their names as their external identifiers.
/// So where all entries had so before, all have so after.
pub proof fn law_loading_names_by_external_id(
    people: Seq<PersonView>,
    faces: Seq<Face>,
    moments: Seq<Timestamp>,
)
    ensures
        newcomers_named_by_external_id(people, enrolled_all(people, faces, moments)),
        named_by_external_id(people) ==> named_by_external_id(enrolled_all(people, faces, moments)),
    decreases faces.len(),
{
    if faces.len() > 0 {
        let before = enrolled_all(people, faces.drop_last(), moments.drop_last());
        law_loading_names_by_external_id(people, faces.drop_last(), moments.drop_last());
        if let Some(newcomer) = listed_person(faces.last(), moments.last()) {
            let after = enrolled(before, newcomer);
            assert forall|i: int| 0 <= i < after.len() implies (
            #[trigger] after[i]).external_image_id == after[i].name || people.contains(
                after[i],
            ) by {
                if after[i] != newcomer {
                    assert(after[i] == before[i]);
                }
            }
        }
    }
}

/// Adding a person leaves every entry about another face in its place as it is. The entry
/// about their face, where there is one, becomes theirs; where there is none, theirs comes
/// last.
pub proof fn law_adding_replaces_or_appends(people: Seq<PersonView>, newcomer: PersonView)
    ensures
        forall|i: int|
            0 <= i < people.len() && people[i].face_id != newcomer.face_id ==> (
            #[trigger] enrolled(people, newcomer)[i]) == people[i],
        forall|i: int|
            0 <= i < people.len() && people[i].face_id == newcomer.face_id ==> (
            #[trigger] enrolled(people, newcomer)[i]) == newcomer,
        (exists|i: int| 0 <= i < people.len() && #[trigger] people[i].face_id == newcomer.face_id)
            ==> enrolled(people, newcomer).len() == people.len(),
        (forall|i: int| 0 <= i < people.len() ==> #[trigger] people[i].face_id != newcomer.face_id)
            ==> enrolled(people, newcomer) == people.push(newcomer),
{
}

/// Whoever a stored face with both identifiers stands for goes by its external identifier,
/// which is also theirs, and is known by its own. A face that lacks either adds nobody.
pub proof fn law_stored_faces_name_people_by_external_id(
    people: Seq<PersonView>,
    face: Face,
    added_at: Timestamp,
)
    ensures
        face.face_id is Some && face.external_image_id is Some ==> enrolled_listed(
            people,
            face,
            added_at,
        ) == enrolled(
            people,
            PersonView {
                name: face.external_image_id->0@,
                face_id: face.face_id->0@,
                external_image_id: face.external_image_id->0@,
                added_at,
            },
        ),
        face.face_id is None || face.external_image_id is None ==> enrolled_listed(
            people,
            face,
            added_at,
        ) == people,
{
}

/// Once stored faces are loaded, each face that was stored with both identifiers has an
/// entry, and every entry about it has as its name and as its external identifier the
/// external identifier of the last such face, and as its moment the one of that face.
pub proof fn law_loaded_people_go_by_their_external_ids(
    people: Seq<PersonView>,
    faces: Seq<Face>,
    moments: Seq<Timestamp>,
    i: int,
)
    requires
        distinct_faces(people),
        moments.len() == faces.len(),
        0 <= i < faces.len(),
        faces[i].face_id is Some,
        faces[i].external_image_id is Some,
        forall|j: int|
            i < j < faces.len() ==> (#[trigger] faces[j]).face_id is None
                || faces[j].external_image_id is None || faces[j].face_id->0@
                != faces[i].face_id->0@,
    ensures
        ({
            let after = enrolled_all(people, faces, moments);
            &&& exists|k: int|
                0 <= k < after.len() && (#[trigger] after[k]).face_id == faces[i].face_id->0@
            &&& forall|k: int|
                0 <= k < after.len() && (#[trigger] after[k]).face_id == faces[i].face_id->0@ ==> {
                    &&& after[k].name == faces[i].external_image_id->0@
                    &&& after[k].external_image_id == faces[i].external_image_id->0@
                    &&& after[k].added_at == moments[i]
                }
        }),
{
    let after = enrolled_all(people, faces, moments);
    let face_id = faces[i].face_id->0@;
    assert forall|j: int| i < j < faces.len() implies !lists_face(#[trigger] faces[j], face_id) by {
    }
    law_loading_keeps_faces_distinct(people, faces, moments);
    law_last_listed_face_wins(people, faces, moments, i, face_id);
    assert(has_face(after, face_id));
    assert forall|k: int| 0 <= k < after.len() && (#[trigger] after[k]).face_id == face_id implies {
        &&& after[k].name == faces[i].external_image_id->0@
        &&& after[k].external_image_id == faces[i].external_image_id->0@
        &&& after[k].added_at == moments[i]
    } by {
        lemma_entry_by_face(after, k);
    }
}

/// Loading adds nobody but those whom the stored faces stand for: every entry was there
/// before, or is about a stored face with both identifiers, whose external identifier is its
/// name.
pub proof fn law_loading_adds_nobody_else(
    people: Seq<PersonView>,
    faces: Seq<Face>,
    moments: Seq<Timestamp>,
    k: int,
)
    requires
        moments.len() == faces.len(),
        0 <= k < enrolled_all(people, faces, moments).len(),
    ensures
        ({
            let entry = enrolled_all(people, faces, moments)[k];
            ||| people.contains(entry)
            ||| exists|j: int|
                0 <= j < faces.len() && (#[trigger] faces[j]).face_id is Some
                    && faces[j].external_image_id is Some && entry.face_id == faces[j].face_id->0@
                    && entry.name == faces[j].external_image_id->0@ && entry.external_image_id
                    == faces[j].external_image_id->0@ && entry.added_at == moments[j]
        }),
    decreases faces.len(),
{
    if faces.len() == 0 {
        assert(people[k] == enrolled_all(people, faces, moments)[k]);
    } else {
        let before = enrolled_all(people, faces.drop_last(), moments.drop_last());
        let entry = enrolled_all(people, faces, moments)[k];
        let last = faces.len() - 1;
        if k < before.len() && entry == before[k] {
            law_loading_adds_nobody_else(people, faces.drop_last(), moments.drop_last(), k);
            if !people.contains(entry) {
                let shorter = faces.drop_last();
                let j = choose|j: int|
                    0 <= j < shorter.len() && (#[trigger] shorter[j]).face_id is Some
                        && shorter[j].external_image_id is Some && entry.face_id
                        == shorter[j].face_id->0@ && entry.name
                        == shorter[j].external_image_id->0@ && entry.external_image_id
                        == shorter[j].external_image_id->0@ && entry.added_at
                        == moments.drop_last()[j];
                assert(faces[j] == shorter[j]);
            }
        } else {
            assert(faces[last] == faces.last());
        }
    }
}

/// Loading leaves every entry in its place, and as it is where no stored face with both
/// identifiers is about the same face.
pub proof fn law_loading_leaves_other_entries(
    people: Seq<PersonView>,
    faces: Seq<Face>,
    moments: Seq<Timestamp>,
    i: int,
)
    requires
        0 <= i < people.len(),
    ensures
        i < enrolled_all(people, faces, moments).len(),
        enrolled_all(people, faces, moments)[i].face_id == people[i].face_id,
        (forall|j: int|
            0 <= j < faces.len() ==> (#[trigger] faces[j]).face_id is None
                || faces[j].external_image_id is None || faces[j].face_id->0@ != people[i].face_id)
            ==> enrolled_all(people, faces, moments)[i] == people[i],
    decreases faces.len(),
{
    if faces.len() > 0 {
        let shorter = faces.drop_last();
        law_loading_leaves_other_entries(people, shorter, moments.drop_last(), i);
        if forall|j: int|
            0 <= j < faces.len() ==> (#[trigger] faces[j]).face_id is None
                || faces[j].external_image_id is None || faces[j].face_id->0@
                != people[i].face_id {
            assert forall|j: int| 0 <= j < shorter.len() implies (#[trigger] shorter[j]).face_id
                is None || shorter[j].external_image_id is None || shorter[j].face_id->0@
                != people[i].face_id by {
                assert(shorter[j] == faces[j]);
            }
            assert(faces[faces.len() - 1] == faces.last());
        }
    }
}

/// The names listed are those of the entries, one for each, in their order.
pub proof fn law_names_are_those_of_the_entries(people: Seq<PersonView>)
    ensures
        names_of(people).len() == people.len(),
        forall|i: int| 0 <= i < people.len() ==> #[trigger] names_of(people)[i] == people[i].name,
{
}

/// An entry shows all that it holds.
pub proof fn law_person_shows_all_they_hold(entry: AuthorizedPerson)
    ensures
        entry@.name == entry.name@,
        entry@.face_id == entry.face_id@,
        entry@.external_image_id == entry.external_image_id@,
        entry@.added_at == entry.added_at,
{
}

} // verus!
