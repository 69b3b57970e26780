//! Persons as the record service knows them, and finding them by name.

use vstd::prelude::*;

verus! {

/// A person: the identifier under which the record service files them, and
/// the name they are shown with.
#[derive(Debug, PartialEq, Eq)]
pub struct Person {
    pub id: u64,
    pub name: String,
}

/// A person, with the name as the text it holds.
pub struct PersonView {
    pub id: u64,
    pub name: Seq<char>,
}

impl View for Person {
    type V = PersonView;

    open spec fn view(&self) -> PersonView {
        PersonView { id: self.id, name: self.name@ }
    }
}

impl Clone for Person {
    fn clone(&self) -> (out: Person)
        ensures
            out@ == self@,
    {
        Person { id: self.id, name: self.name.clone() }
    }
}

/// A list of persons, each as its view.
pub open spec fn people(roster: Seq<Person>) -> Seq<PersonView> {
    roster.map_values(|person: Person| person@)
}

/// An optional person as its view.
pub open spec fn person_of(found: Option<Person>) -> Option<PersonView> {
    match found {
        Some(person) => Some(person@),
        None => None,
    }
}

/// The test that picks the persons called `name`.
pub open spec fn is_named(name: Seq<char>) -> spec_fn(PersonView) -> bool {
    |person: PersonView| person.name == name
}

/// The identifier of a person.
pub open spec fn id_of() -> spec_fn(PersonView) -> u64 {
    |person: PersonView| person.id
}

/// The identifiers of the persons in `roster` whose name is exactly `name`,
/// in the order of the roster. Nobody of that name leaves it empty.
pub open spec fn ids_named(roster: Seq<PersonView>, name: Seq<char>) -> Seq<u64> {
    roster.filter(is_named(name)).map_values(id_of())
}

/// Looks `name` up in the roster and hands out the identifiers of all who
/// bear it.
pub fn proposers_named(roster: &Vec<Person>, name: &str) -> (ids: Vec<u64>)
    ensures
        ids@ == ids_named(people(roster@), name@),
{
    let wanted = name.to_owned();
    let mut ids: Vec<u64> = Vec::new();
    let mut i: usize = 0;
    proof {
        reveal(Seq::filter);
        assert(people(roster@.take(0)) =~= Seq::<PersonView>::empty());
    }
    while i < roster.len()
        invariant
            i <= roster.len(),
            wanted@ == name@,
            ids@ == ids_named(people(roster@.take(i as int)), name@),
        decreases roster.len() - i,
    {
        proof {
            let before = people(roster@.take(i as int));
            let person = roster@[i as int]@;
            assert(people(roster@.take(i + 1)) =~= before.push(person));
            before.lemma_filter_push(person, is_named(name@));
            before.filter(is_named(name@)).lemma_push_map_commute(id_of(), person);
        }
        if roster[i].name == wanted {
            ids.push(roster[i].id);
        }
        i += 1;
    }
    assert(roster@.take(i as int) =~= roster@);
    ids
}

} // verus!
