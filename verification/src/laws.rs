//! Properties that relate several operations of the planner.
use crate::editing::{detach_members, stays_not_of, stays_outside_housing};
use crate::date::Date;
use crate::i18n::{translation, Lang};
use crate::journal::describe_text;
use crate::model::{headcount, occupancy_of};
use crate::journal::{
    after_inverse, cascaded_ids, changes_between, flat_map, group_deletions, group_edits,
    housing_deletions, housing_edits, housing_removed, journaled, stacked, InverseOp, lemma_stays_in_housing, lemma_stays_of,
    person_deletions, person_edits, stay_edits, stay_removals, stays_in_housing, stays_of,
    with_members, with_person_group, without_group, without_housing, without_person, without_stay,
    ChangeView, InverseOpView,
};
use crate::timeline::{first_fit, insert_by_arrival, lane_free, overlaps, sorted_by_arrival};
use crate::model::{
    clash, double_booked, entity_ids, find_group, find_housing, find_person, find_stay, group_has_id, group_pos,
    housing_has_id, housing_pos, lemma_clash_symmetric, lemma_group_pos, lemma_housing_pos, lemma_max_of, lemma_member_ids,
    lemma_person_pos, lemma_stay_pos, log_ids, max_of, member_ids, person_has_id, person_pos,
    reseeded, stay_has_id, stay_pos, subject_person_ids, Group, Housing, Id, LogEntry, LogKindView, Person, PlanModel,
    Stay, Subject,
};
use crate::seqs::{is_first_match, lemma_contains_push, lemma_contains_split_last, lemma_first_index_is};
use vstd::prelude::*;

verus! {

/// Within each list of `m` (housings, groups, persons, stays) no id is used twice.
pub open spec fn ids_unique(m: PlanModel) -> bool {
    &&& forall|i: int, j: int|
        0 <= i < j < m.housings.len() ==> (#[trigger] m.housings[i]).id != (#[trigger] m.housings[j]).id
    &&& forall|i: int, j: int|
        0 <= i < j < m.groups.len() ==> (#[trigger] m.groups[i]).id != (#[trigger] m.groups[j]).id
    &&& forall|i: int, j: int|
        0 <= i < j < m.persons.len() ==> (#[trigger] m.persons[i]).id != (#[trigger] m.persons[j]).id
    &&& forall|i: int, j: int|
        0 <= i < j < m.stays.len() ==> (#[trigger] m.stays[i]).id != (#[trigger] m.stays[j]).id
}

/// A list whose every element reports nothing reports nothing.
proof fn lemma_flat_map_silent<A>(s: Seq<A>, f: spec_fn(A) -> Seq<ChangeView>)
    requires
        forall|i: int| 0 <= i < s.len() ==> (#[trigger] f(s[i])).len() == 0,
    ensures
        flat_map(s, f).len() == 0,
    decreases s.len(),
{
    if s.len() > 0 {
        assert forall|i: int| 0 <= i < s.drop_last().len() implies (#[trigger] f(s.drop_last()[i])).len() == 0 by {
            assert(s.drop_last()[i] == s[i]);
        }
        lemma_flat_map_silent(s.drop_last(), f);
        assert(f(s[s.len() - 1]).len() == 0);
    }
}

/// In a plan without repeated ids, looking an entity up by its own id finds it.
proof fn lemma_lookup_finds_self(m: PlanModel)
    requires
        ids_unique(m),
    ensures
        forall|i: int| 0 <= i < m.housings.len() ==> housing_pos(m.housings, (#[trigger] m.housings[i]).id) == i,
        forall|i: int| 0 <= i < m.groups.len() ==> group_pos(m.groups, (#[trigger] m.groups[i]).id) == i,
        forall|i: int| 0 <= i < m.persons.len() ==> person_pos(m.persons, (#[trigger] m.persons[i]).id) == i,
        forall|i: int| 0 <= i < m.stays.len() ==> stay_pos(m.stays, (#[trigger] m.stays[i]).id) == i,
{
    assert forall|i: int| 0 <= i < m.housings.len() implies housing_pos(m.housings, (#[trigger] m.housings[i]).id)
        == i by {
        assert(is_first_match(m.housings, crate::model::housing_has_id(m.housings[i].id), i));
        lemma_first_index_is(m.housings, crate::model::housing_has_id(m.housings[i].id), i);
    }
    assert forall|i: int| 0 <= i < m.groups.len() implies group_pos(m.groups, (#[trigger] m.groups[i]).id) == i by {
        assert(is_first_match(m.groups, crate::model::group_has_id(m.groups[i].id), i));
        lemma_first_index_is(m.groups, crate::model::group_has_id(m.groups[i].id), i);
    }
    assert forall|i: int| 0 <= i < m.persons.len() implies person_pos(m.persons, (#[trigger] m.persons[i]).id)
        == i by {
        assert(is_first_match(m.persons, crate::model::person_has_id(m.persons[i].id), i));
        lemma_first_index_is(m.persons, crate::model::person_has_id(m.persons[i].id), i);
    }
    assert forall|i: int| 0 <= i < m.stays.len() implies stay_pos(m.stays, (#[trigger] m.stays[i]).id) == i by {
        assert(is_first_match(m.stays, crate::model::stay_has_id(m.stays[i].id), i));
        lemma_first_index_is(m.stays, crate::model::stay_has_id(m.stays[i].id), i);
    }
}

/// Diffing a plan against itself reports no change, as long as no list of the
/// plan uses an id twice. (So a commit right after a commit journals nothing.)
pub proof fn lemma_diff_unchanged_is_empty(m: PlanModel)
    requires
        ids_unique(m),
    ensures
        changes_between(m, m).len() == 0,
{
    lemma_lookup_finds_self(m);
    assert forall|i: int| 0 <= i < m.housings.len() implies (#[trigger] housing_deletions(m, m)(m.housings[i])).len()
        == 0 by {
        assert(housing_pos(m.housings, m.housings[i].id) == i);
    }
    assert forall|i: int| 0 <= i < m.housings.len() implies (#[trigger] housing_edits(m, m)(m.housings[i])).len()
        == 0 by {
        assert(find_housing(m.housings, m.housings[i].id) == Some(m.housings[i]));
    }
    assert forall|i: int| 0 <= i < m.groups.len() implies (#[trigger] group_deletions(m, m)(m.groups[i])).len()
        == 0 by {
        assert(group_pos(m.groups, m.groups[i].id) == i);
    }
    assert forall|i: int| 0 <= i < m.groups.len() implies (#[trigger] group_edits(m, m)(m.groups[i])).len()
        == 0 by {
        assert(find_group(m.groups, m.groups[i].id) == Some(m.groups[i]));
    }
    assert forall|i: int| 0 <= i < m.persons.len() implies (#[trigger] person_deletions(m, m)(m.persons[i])).len()
        == 0 by {
        assert(person_pos(m.persons, m.persons[i].id) == i);
    }
    assert forall|i: int| 0 <= i < m.persons.len() implies (#[trigger] person_edits(m, m)(m.persons[i])).len()
        == 0 by {
        assert(find_person(m.persons, m.persons[i].id) == Some(m.persons[i]));
    }
    assert forall|i: int| 0 <= i < m.stays.len() implies (#[trigger] stay_removals(m, m)(m.stays[i])).len()
        == 0 by {
        assert(stay_pos(m.stays, m.stays[i].id) == i);
    }
    assert forall|i: int| 0 <= i < m.stays.len() implies (#[trigger] stay_edits(m, m)(m.stays[i])).len()
        == 0 by {
        assert(find_stay(m.stays, m.stays[i].id) == Some(m.stays[i]));
    }
    lemma_flat_map_silent(m.housings, housing_deletions(m, m));
    lemma_flat_map_silent(m.housings, housing_edits(m, m));
    lemma_flat_map_silent(m.groups, group_deletions(m, m));
    lemma_flat_map_silent(m.groups, group_edits(m, m));
    lemma_flat_map_silent(m.persons, person_deletions(m, m));
    lemma_flat_map_silent(m.persons, person_edits(m, m));
    lemma_flat_map_silent(m.stays, stay_removals(m, m));
    lemma_flat_map_silent(m.stays, stay_edits(m, m));
}

/// The first housing with an id depends only on the ids, position by position.
proof fn lemma_housing_pos_same_ids(s: Seq<Housing>, u: Seq<Housing>, id: Id)
    requires
        s.len() == u.len(),
        forall|j: int| 0 <= j < s.len() ==> (#[trigger] s[j]).id == u[j].id,
    ensures
        housing_pos(s, id) == housing_pos(u, id),
{
    lemma_housing_pos(s, id);
    lemma_housing_pos(u, id);
    if housing_pos(s, id) != -1 {
        let k = housing_pos(s, id);
        assert(u[k].id == s[k].id);
        assert(is_first_match(u, housing_has_id(id), k)) by {
            assert forall|j: int| 0 <= j < k implies !housing_has_id(id)(#[trigger] u[j]) by {
                assert(s[j].id == u[j].id);
            }
        }
        lemma_first_index_is(u, housing_has_id(id), k);
    } else {
        assert forall|j: int| 0 <= j < u.len() implies (#[trigger] u[j]).id != id by {
            assert(s[j].id == u[j].id);
        }
    }
}

/// Dropping the housings with an id leaves none with it, and only housings of the list.
proof fn lemma_without_housing(s: Seq<Housing>, id: Id)
    ensures
        forall|j: int| 0 <= j < without_housing(s, id).len() ==> (#[trigger] without_housing(s, id)[j]).id != id,
    decreases s.len(),
{
    if s.len() > 0 {
        lemma_without_housing(s.drop_last(), id);
        let rest = without_housing(s.drop_last(), id);
        assert forall|j: int| 0 <= j < without_housing(s, id).len() implies (#[trigger] without_housing(s, id)[j]).id != id by {
            if j < rest.len() {
                assert(without_housing(s, id)[j] == rest[j]);
            }
        }
    }
}

/// The first group with an id depends only on the ids, position by position.
proof fn lemma_group_pos_same_ids(s: Seq<Group>, u: Seq<Group>, id: Id)
    requires
        s.len() == u.len(),
        forall|j: int| 0 <= j < s.len() ==> (#[trigger] s[j]).id == u[j].id,
    ensures
        group_pos(s, id) == group_pos(u, id),
{
    lemma_group_pos(s, id);
    lemma_group_pos(u, id);
    if group_pos(s, id) != -1 {
        let k = group_pos(s, id);
        assert(u[k].id == s[k].id);
        assert(is_first_match(u, group_has_id(id), k)) by {
            assert forall|j: int| 0 <= j < k implies !group_has_id(id)(#[trigger] u[j]) by {
                assert(s[j].id == u[j].id);
            }
        }
        lemma_first_index_is(u, group_has_id(id), k);
    } else {
        assert forall|j: int| 0 <= j < u.len() implies (#[trigger] u[j]).id != id by {
            assert(s[j].id == u[j].id);
        }
    }
}

/// Dropping the groups with an id leaves none with it, and only groups of the list.
proof fn lemma_without_group(s: Seq<Group>, id: Id)
    ensures
        forall|j: int| 0 <= j < without_group(s, id).len() ==> (#[trigger] without_group(s, id)[j]).id != id,
    decreases s.len(),
{
    if s.len() > 0 {
        lemma_without_group(s.drop_last(), id);
        let rest = without_group(s.drop_last(), id);
        assert forall|j: int| 0 <= j < without_group(s, id).len() implies (#[trigger] without_group(s, id)[j]).id != id by {
            if j < rest.len() {
                assert(without_group(s, id)[j] == rest[j]);
            }
        }
    }
}

/// The first person with an id depends only on the ids, position by position.
proof fn lemma_person_pos_same_ids(s: Seq<Person>, u: Seq<Person>, id: Id)
    requires
        s.len() == u.len(),
        forall|j: int| 0 <= j < s.len() ==> (#[trigger] s[j]).id == u[j].id,
    ensures
        person_pos(s, id) == person_pos(u, id),
{
    lemma_person_pos(s, id);
    lemma_person_pos(u, id);
    if person_pos(s, id) != -1 {
        let k = person_pos(s, id);
        assert(u[k].id == s[k].id);
        assert(is_first_match(u, person_has_id(id), k)) by {
            assert forall|j: int| 0 <= j < k implies !person_has_id(id)(#[trigger] u[j]) by {
                assert(s[j].id == u[j].id);
            }
        }
        lemma_first_index_is(u, person_has_id(id), k);
    } else {
        assert forall|j: int| 0 <= j < u.len() implies (#[trigger] u[j]).id != id by {
            assert(s[j].id == u[j].id);
        }
    }
}

/// Dropping the persons with an id leaves none with it, and only persons of the list.
proof fn lemma_without_person(s: Seq<Person>, id: Id)
    ensures
        forall|j: int| 0 <= j < without_person(s, id).len() ==> (#[trigger] without_person(s, id)[j]).id != id,
    decreases s.len(),
{
    if s.len() > 0 {
        lemma_without_person(s.drop_last(), id);
        let rest = without_person(s.drop_last(), id);
        assert forall|j: int| 0 <= j < without_person(s, id).len() implies (#[trigger] without_person(s, id)[j]).id != id by {
            if j < rest.len() {
                assert(without_person(s, id)[j] == rest[j]);
            }
        }
    }
}

/// The first stay with an id depends only on the ids, position by position.
proof fn lemma_stay_pos_same_ids(s: Seq<Stay>, u: Seq<Stay>, id: Id)
    requires
        s.len() == u.len(),
        forall|j: int| 0 <= j < s.len() ==> (#[trigger] s[j]).id == u[j].id,
    ensures
        stay_pos(s, id) == stay_pos(u, id),
{
    lemma_stay_pos(s, id);
    lemma_stay_pos(u, id);
    if stay_pos(s, id) != -1 {
        let k = stay_pos(s, id);
        assert(u[k].id == s[k].id);
        assert(is_first_match(u, stay_has_id(id), k)) by {
            assert forall|j: int| 0 <= j < k implies !stay_has_id(id)(#[trigger] u[j]) by {
                assert(s[j].id == u[j].id);
            }
        }
        lemma_first_index_is(u, stay_has_id(id), k);
    } else {
        assert forall|j: int| 0 <= j < u.len() implies (#[trigger] u[j]).id != id by {
            assert(s[j].id == u[j].id);
        }
    }
}

/// Dropping the stays with an id leaves none with it, and only stays of the list.
proof fn lemma_without_stay(s: Seq<Stay>, id: Id)
    ensures
        forall|j: int| 0 <= j < without_stay(s, id).len() ==> (#[trigger] without_stay(s, id)[j]).id != id,
    decreases s.len(),
{
    if s.len() > 0 {
        lemma_without_stay(s.drop_last(), id);
        let rest = without_stay(s.drop_last(), id);
        assert forall|j: int| 0 <= j < without_stay(s, id).len() implies (#[trigger] without_stay(s, id)[j]).id != id by {
            if j < rest.len() {
                assert(without_stay(s, id)[j] == rest[j]);
            }
        }
    }
}

/// Every stay of `old` selected by `sel` is in `after`.
pub open spec fn keeps_stays(old: Seq<Stay>, after: Seq<Stay>, sel: spec_fn(Stay) -> bool) -> bool {
    forall|s: Stay| old.contains(s) && sel(s) ==> after.contains(s)
}

/// Applied to `new`, the inverse operation `op` puts back what `old` had: a
/// deleted entity returns as it was in `old` (with its stays, and a group with
/// its members), an added one is gone again, and an edited field holds its
/// value from `old`.
pub open spec fn reverts(old: PlanModel, new: PlanModel, op: InverseOpView) -> bool {
    let after = after_inverse(new, op);
    match op {
        InverseOpView::InsertHousing { housing, stays } => {
            &&& find_housing(old.housings, housing.id) == Some(housing)
            &&& after.housings.contains(housing)
            &&& keeps_stays(old.stays, after.stays, |s: Stay| s.housing == housing.id)
        },
        InverseOpView::RemoveHousing { id } => find_housing(old.housings, id) is None && find_housing(
            after.housings,
            id,
        ) is None,
        InverseOpView::SetHousingName { id, name } => match (find_housing(old.housings, id), find_housing(after.housings, id)) {
            (Some(o), Some(h)) => h.name == o.name,
            _ => false,
        },
        InverseOpView::SetHousingCapacity { id, capacity } => match (find_housing(old.housings, id), find_housing(after.housings, id)) {
            (Some(o), Some(h)) => h.capacity == o.capacity,
            _ => false,
        },
        InverseOpView::SetHousingNotes { id, notes } => match (find_housing(old.housings, id), find_housing(after.housings, id)) {
            (Some(o), Some(h)) => h.notes == o.notes,
            _ => false,
        },
        InverseOpView::InsertGroup { group, members, stays } => {
            &&& find_group(old.groups, group.id) == Some(group)
            &&& after.groups.contains(group)
            &&& keeps_stays(old.stays, after.stays, |s: Stay| s.subject == Subject::Group(group.id))
            &&& forall|pid: Id| #[trigger] members.contains(pid) ==> member_ids(old.persons, group.id).contains(pid)
                && (find_person(after.persons, pid) matches Some(p) ==> p.group == Some(group.id))
        },
        InverseOpView::RemoveGroup { id } => find_group(old.groups, id) is None && find_group(after.groups, id) is None,
        InverseOpView::SetGroupName { id, name } => match (find_group(old.groups, id), find_group(after.groups, id)) {
            (Some(o), Some(g)) => g.name == o.name,
            _ => false,
        },
        InverseOpView::SetGroupColor { id, color } => match (find_group(old.groups, id), find_group(after.groups, id)) {
            (Some(o), Some(g)) => g.color == o.color,
            _ => false,
        },
        InverseOpView::InsertPerson { person, stays } => {
            &&& find_person(old.persons, person.id) == Some(person)
            &&& after.persons.contains(person)
            &&& keeps_stays(old.stays, after.stays, |s: Stay| s.subject == Subject::Person(person.id))
        },
        InverseOpView::RemovePerson { id } => find_person(old.persons, id) is None && find_person(after.persons, id) is None,
        InverseOpView::SetPersonName { id, name } => match (find_person(old.persons, id), find_person(after.persons, id)) {
            (Some(o), Some(p)) => p.name == o.name,
            _ => false,
        },
        InverseOpView::SetPersonGroup { id, group } => match (find_person(old.persons, id), find_person(after.persons, id)) {
            (Some(o), Some(p)) => p.group == o.group,
            _ => false,
        },
        InverseOpView::InsertStay { stay } => find_stay(old.stays, stay.id) == Some(stay) && after.stays.contains(stay),
        InverseOpView::RemoveStay { id } => find_stay(old.stays, id) is None && find_stay(after.stays, id) is None,
        InverseOpView::SetStayHousing { id, housing } => match (find_stay(old.stays, id), find_stay(after.stays, id)) {
            (Some(o), Some(x)) => x.housing == o.housing,
            _ => false,
        },
        InverseOpView::SetStaySubject { id, subject } => match (find_stay(old.stays, id), find_stay(after.stays, id)) {
            (Some(o), Some(x)) => x.subject == o.subject,
            _ => false,
        },
        InverseOpView::SetStayDates { id, arrival, departure } => match (find_stay(old.stays, id), find_stay(after.stays, id)) {
            (Some(o), Some(x)) => x.arrival == o.arrival && x.departure == o.departure,
            _ => false,
        },
    }
}

/// Where an element of a flattened list comes from.
proof fn lemma_flat_map_member<A>(s: Seq<A>, f: spec_fn(A) -> Seq<ChangeView>, k: int) -> (ij: (int, int))
    requires
        0 <= k < flat_map(s, f).len(),
    ensures
        0 <= ij.0 < s.len(),
        0 <= ij.1 < f(s[ij.0]).len(),
        flat_map(s, f)[k] == f(s[ij.0])[ij.1],
    decreases s.len(),
{
    let rest = flat_map(s.drop_last(), f);
    if k < rest.len() {
        let ij = lemma_flat_map_member(s.drop_last(), f, k);
        assert(s.drop_last()[ij.0] == s[ij.0]);
        ij
    } else {
        (s.len() - 1, k - rest.len())
    }
}

/// Moving one person to a group keeps every position's id, and leaves every
/// other first-by-id person as it was.
proof fn lemma_with_person_group(ps: Seq<Person>, id: Id, g: Option<Id>)
    ensures
        with_person_group(ps, id, g).len() == ps.len(),
        forall|j: int| 0 <= j < ps.len() ==> (#[trigger] with_person_group(ps, id, g)[j]).id == ps[j].id,
        forall|q: Id| person_pos(with_person_group(ps, id, g), q) == person_pos(ps, q),
        find_person(ps, id) is Some ==> (find_person(with_person_group(ps, id, g), id) matches Some(p) && p.group == g),
        forall|q: Id| q != id ==> find_person(with_person_group(ps, id, g), q) == find_person(ps, q),
{
    let u = with_person_group(ps, id, g);
    assert forall|q: Id| person_pos(u, q) == person_pos(ps, q) by {
        lemma_person_pos_same_ids(ps, u, q);
    }
    lemma_person_pos(ps, id);
    assert forall|q: Id| q != id implies find_person(u, q) == find_person(ps, q) by {
        lemma_person_pos(ps, q);
        if person_pos(ps, q) != -1 && person_pos(ps, id) != -1 {
            assert(person_pos(ps, q) != person_pos(ps, id));
        }
    }
}

/// Moving listed members into a group keeps every position's id, and leaves each
/// listed member (found by id) in that group.
proof fn lemma_with_members(ps: Seq<Person>, members: Seq<Id>, gid: Id)
    ensures
        with_members(ps, members, gid).len() == ps.len(),
        forall|j: int| 0 <= j < ps.len() ==> (#[trigger] with_members(ps, members, gid)[j]).id == ps[j].id,
        forall|pid: Id|
            #[trigger] members.contains(pid) ==> (find_person(with_members(ps, members, gid), pid) matches Some(p)
                ==> p.group == Some(gid)),
    decreases members.len(),
{
    if members.len() > 0 {
        let prior = with_members(ps, members.drop_last(), gid);
        lemma_with_members(ps, members.drop_last(), gid);
        lemma_with_person_group(prior, members.last(), Some(gid));
        assert forall|pid: Id| #[trigger] members.contains(pid) implies (find_person(
            with_members(ps, members, gid),
            pid,
        ) matches Some(p) ==> p.group == Some(gid)) by {
            if pid != members.last() {
                let t = choose|t: int| 0 <= t < members.len() && members[t] == pid;
                assert(members.drop_last()[t] == pid);
                assert(members.drop_last().contains(pid));
            } else {
                lemma_person_pos(prior, pid);
            }
        }
    }
}

/// Every inverse reported for a housing deletion restores the housing and its stays.
proof fn lemma_housing_deletions_revert(old: PlanModel, new: PlanModel, k: int)
    requires
        ids_unique(old),
        0 <= k < flat_map(old.housings, housing_deletions(old, new)).len(),
    ensures
        reverts(old, new, flat_map(old.housings, housing_deletions(old, new))[k].inverse),
{
    let f = housing_deletions(old, new);
    let (i, j) = lemma_flat_map_member(old.housings, f, k);
    let h = old.housings[i];
    lemma_lookup_finds_self(old);
    assert(housing_pos(old.housings, h.id) == i);
    let stays = stays_in_housing(old.stays, h.id);
    let op = InverseOpView::InsertHousing { housing: h, stays };
    assert(f(h)[j].inverse == op);
    let after = after_inverse(new, op);
    assert(after.housings[new.housings.len() as int] == h);
    lemma_stays_in_housing(old.stays, h.id);
    assert forall|x: Stay| old.stays.contains(x) && (|s: Stay| s.housing == h.id)(x) implies after.stays.contains(x) by {
        assert(stays.contains(x));
        let t = choose|t: int| 0 <= t < stays.len() && stays[t] == x;
        assert(after.stays[new.stays.len() + t] == x);
    }
}

/// Every inverse reported for an added or edited housing removes or restores it.
proof fn lemma_housing_edits_revert(old: PlanModel, new: PlanModel, k: int)
    requires
        0 <= k < flat_map(new.housings, housing_edits(old, new)).len(),
    ensures
        reverts(old, new, flat_map(new.housings, housing_edits(old, new))[k].inverse),
{
    let f = housing_edits(old, new);
    let (i, j) = lemma_flat_map_member(new.housings, f, k);
    let h = new.housings[i];
    let op = f(h)[j].inverse;
    lemma_housing_pos(new.housings, h.id);
    let q = housing_pos(new.housings, h.id);
    match find_housing(old.housings, h.id) {
        None => {
            lemma_without_housing(new.housings, h.id);
            lemma_housing_pos(without_housing(new.housings, h.id), h.id);
        },
        Some(o) => {
            let after = after_inverse(new, op);
            assert(q != -1);
            lemma_housing_pos_same_ids(new.housings, after.housings, h.id);
        },
    }
}

/// Every inverse reported for a group deletion restores the group, its members and its stays.
proof fn lemma_group_deletions_revert(old: PlanModel, new: PlanModel, k: int)
    requires
        ids_unique(old),
        0 <= k < flat_map(old.groups, group_deletions(old, new)).len(),
    ensures
        reverts(old, new, flat_map(old.groups, group_deletions(old, new))[k].inverse),
{
    let f = group_deletions(old, new);
    let (i, j) = lemma_flat_map_member(old.groups, f, k);
    let g = old.groups[i];
    lemma_lookup_finds_self(old);
    assert(group_pos(old.groups, g.id) == i);
    let members = member_ids(old.persons, g.id);
    let stays = stays_of(old.stays, Subject::Group(g.id));
    let op = InverseOpView::InsertGroup { group: g, members, stays };
    assert(f(g)[j].inverse == op);
    let after = after_inverse(new, op);
    assert(after.groups[new.groups.len() as int] == g);
    lemma_with_members(new.persons, members, g.id);
    lemma_stays_of(old.stays, Subject::Group(g.id));
    assert forall|x: Stay| old.stays.contains(x) && (|s: Stay| s.subject == Subject::Group(g.id))(x) implies after.stays.contains(x) by {
        assert(stays.contains(x));
        let t = choose|t: int| 0 <= t < stays.len() && stays[t] == x;
        assert(after.stays[new.stays.len() + t] == x);
    }
}

/// Every inverse reported for an added or edited group removes or restores it.
proof fn lemma_group_edits_revert(old: PlanModel, new: PlanModel, k: int)
    requires
        0 <= k < flat_map(new.groups, group_edits(old, new)).len(),
    ensures
        reverts(old, new, flat_map(new.groups, group_edits(old, new))[k].inverse),
{
    let f = group_edits(old, new);
    let (i, j) = lemma_flat_map_member(new.groups, f, k);
    let g = new.groups[i];
    let op = f(g)[j].inverse;
    lemma_group_pos(new.groups, g.id);
    let q = group_pos(new.groups, g.id);
    match find_group(old.groups, g.id) {
        None => {
            lemma_without_group(new.groups, g.id);
            lemma_group_pos(without_group(new.groups, g.id), g.id);
        },
        Some(o) => {
            let after = after_inverse(new, op);
            assert(q != -1);
            lemma_group_pos_same_ids(new.groups, after.groups, g.id);
        },
    }
}

/// Every inverse reported for a person deletion restores the person and their stays.
proof fn lemma_person_deletions_revert(old: PlanModel, new: PlanModel, k: int)
    requires
        ids_unique(old),
        0 <= k < flat_map(old.persons, person_deletions(old, new)).len(),
    ensures
        reverts(old, new, flat_map(old.persons, person_deletions(old, new))[k].inverse),
{
    let f = person_deletions(old, new);
    let (i, j) = lemma_flat_map_member(old.persons, f, k);
    let p = old.persons[i];
    lemma_lookup_finds_self(old);
    assert(person_pos(old.persons, p.id) == i);
    let stays = stays_of(old.stays, Subject::Person(p.id));
    let op = InverseOpView::InsertPerson { person: p, stays };
    assert(f(p)[j].inverse == op);
    let after = after_inverse(new, op);
    assert(after.persons[new.persons.len() as int] == p);
    lemma_stays_of(old.stays, Subject::Person(p.id));
    assert forall|x: Stay| old.stays.contains(x) && (|s: Stay| s.subject == Subject::Person(p.id))(x) implies after.stays.contains(x) by {
        assert(stays.contains(x));
        let t = choose|t: int| 0 <= t < stays.len() && stays[t] == x;
        assert(after.stays[new.stays.len() + t] == x);
    }
}

/// Every inverse reported for an added or edited person removes or restores them.
proof fn lemma_person_edits_revert(old: PlanModel, new: PlanModel, k: int)
    requires
        0 <= k < flat_map(new.persons, person_edits(old, new)).len(),
    ensures
        reverts(old, new, flat_map(new.persons, person_edits(old, new))[k].inverse),
{
    let f = person_edits(old, new);
    let (i, j) = lemma_flat_map_member(new.persons, f, k);
    let p = new.persons[i];
    let op = f(p)[j].inverse;
    lemma_person_pos(new.persons, p.id);
    let q = person_pos(new.persons, p.id);
    match find_person(old.persons, p.id) {
        None => {
            lemma_without_person(new.persons, p.id);
            lemma_person_pos(without_person(new.persons, p.id), p.id);
        },
        Some(o) => {
            let after = after_inverse(new, op);
            assert(q != -1);
            lemma_person_pos_same_ids(new.persons, after.persons, p.id);
            lemma_with_person_group(new.persons, p.id, o.group);
        },
    }
}

/// Every inverse reported for a stay removal restores the stay.
proof fn lemma_stay_removals_revert(old: PlanModel, new: PlanModel, k: int)
    requires
        ids_unique(old),
        0 <= k < flat_map(old.stays, stay_removals(old, new)).len(),
    ensures
        reverts(old, new, flat_map(old.stays, stay_removals(old, new))[k].inverse),
{
    let f = stay_removals(old, new);
    let (i, j) = lemma_flat_map_member(old.stays, f, k);
    let s = old.stays[i];
    lemma_lookup_finds_self(old);
    assert(stay_pos(old.stays, s.id) == i);
    let op = InverseOpView::InsertStay { stay: s };
    assert(f(s)[j].inverse == op);
    let after = after_inverse(new, op);
    assert(after.stays[new.stays.len() as int] == s);
}

/// Every inverse reported for an added or edited stay removes or restores it.
proof fn lemma_stay_edits_revert(old: PlanModel, new: PlanModel, k: int)
    requires
        0 <= k < flat_map(new.stays, stay_edits(old, new)).len(),
    ensures
        reverts(old, new, flat_map(new.stays, stay_edits(old, new))[k].inverse),
{
    let f = stay_edits(old, new);
    let (i, j) = lemma_flat_map_member(new.stays, f, k);
    let s = new.stays[i];
    let op = f(s)[j].inverse;
    lemma_stay_pos(new.stays, s.id);
    let q = stay_pos(new.stays, s.id);
    match find_stay(old.stays, s.id) {
        None => {
            lemma_without_stay(new.stays, s.id);
            lemma_stay_pos(without_stay(new.stays, s.id), s.id);
        },
        Some(o) => {
            let after = after_inverse(new, op);
            assert(q != -1);
            lemma_stay_pos_same_ids(new.stays, after.stays, s.id);
        },
    }
}

/// Undo reverts a change: every inverse operation the diff of `old` to `new`
/// reports, applied to `new`, puts back what `old` had (see [`reverts`]).
/// Lists of `old` must not repeat an id, so that an entity is found by its id.
pub proof fn lemma_diff_inverses_revert(old: PlanModel, new: PlanModel, k: int)
    requires
        ids_unique(old),
        0 <= k < changes_between(old, new).len(),
    ensures
        reverts(old, new, changes_between(old, new)[k].inverse),
{
    let a = flat_map(old.housings, housing_deletions(old, new));
    let b = flat_map(new.housings, housing_edits(old, new));
    let c = flat_map(old.groups, group_deletions(old, new));
    let d = flat_map(new.groups, group_edits(old, new));
    let e = flat_map(old.persons, person_deletions(old, new));
    let g = flat_map(new.persons, person_edits(old, new));
    let h = flat_map(old.stays, stay_removals(old, new));
    let t = flat_map(new.stays, stay_edits(old, new));
    let all = changes_between(old, new);
    assert(all == a + b + c + d + e + g + h + t);
    if k < a.len() {
        lemma_housing_deletions_revert(old, new, k);
        assert(all[k] == a[k]);
    } else if k < a.len() + b.len() {
        lemma_housing_edits_revert(old, new, k - a.len());
        assert(all[k] == b[k - a.len()]);
    } else if k < a.len() + b.len() + c.len() {
        let q = k - a.len() - b.len();
        lemma_group_deletions_revert(old, new, q);
        assert(all[k] == c[q]);
    } else if k < a.len() + b.len() + c.len() + d.len() {
        let q = k - a.len() - b.len() - c.len();
        lemma_group_edits_revert(old, new, q);
        assert(all[k] == d[q]);
    } else if k < a.len() + b.len() + c.len() + d.len() + e.len() {
        let q = k - a.len() - b.len() - c.len() - d.len();
        lemma_person_deletions_revert(old, new, q);
        assert(all[k] == e[q]);
    } else if k < a.len() + b.len() + c.len() + d.len() + e.len() + g.len() {
        let q = k - a.len() - b.len() - c.len() - d.len() - e.len();
        lemma_person_edits_revert(old, new, q);
        assert(all[k] == g[q]);
    } else if k < a.len() + b.len() + c.len() + d.len() + e.len() + g.len() + h.len() {
        let q = k - a.len() - b.len() - c.len() - d.len() - e.len() - g.len();
        lemma_stay_removals_revert(old, new, q);
        assert(all[k] == h[q]);
    } else {
        let q = k - a.len() - b.len() - c.len() - d.len() - e.len() - g.len() - h.len();
        lemma_stay_edits_revert(old, new, q);
        assert(all[k] == t[q]);
    }
}

/// Every id in use in `m` is below the counter that hands out the next one:
/// entity ids below `next_id`, journal ids below `next_log_id`.
pub open spec fn ids_below_counters(m: PlanModel) -> bool {
    &&& forall|i: int| 0 <= i < m.housings.len() ==> (#[trigger] m.housings[i]).id < m.next_id
    &&& forall|i: int| 0 <= i < m.groups.len() ==> (#[trigger] m.groups[i]).id < m.next_id
    &&& forall|i: int| 0 <= i < m.persons.len() ==> (#[trigger] m.persons[i]).id < m.next_id
    &&& forall|i: int| 0 <= i < m.stays.len() ==> (#[trigger] m.stays[i]).id < m.next_id
    &&& forall|i: int| 0 <= i < m.changelog.len() ==> (#[trigger] m.changelog[i]).id < m.next_log_id
}

/// After reseeding, every id in use lies below its counter, so the ids handed
/// out next collide with none of the loaded ones.
pub proof fn lemma_reseed_makes_counters_fresh(m: PlanModel)
    requires
        max_of(entity_ids(m)) < u64::MAX,
        max_of(log_ids(m.changelog)) < u64::MAX,
    ensures
        ids_below_counters(reseeded(m)),
        reseeded(m).next_id >= m.next_id,
        reseeded(m).next_log_id >= m.next_log_id,
{
    let ids = entity_ids(m);
    lemma_max_of(ids);
    lemma_max_of(log_ids(m.changelog));
    let nh = m.housings.len() as int;
    let ng = m.groups.len() as int;
    let np = m.persons.len() as int;
    assert forall|i: int| 0 <= i < m.housings.len() implies (#[trigger] m.housings[i]).id <= max_of(ids) by {
        assert(ids[i] == m.housings[i].id);
    }
    assert forall|i: int| 0 <= i < m.groups.len() implies (#[trigger] m.groups[i]).id <= max_of(ids) by {
        assert(ids[nh + i] == m.groups[i].id);
    }
    assert forall|i: int| 0 <= i < m.persons.len() implies (#[trigger] m.persons[i]).id <= max_of(ids) by {
        assert(ids[nh + ng + i] == m.persons[i].id);
    }
    assert forall|i: int| 0 <= i < m.stays.len() implies (#[trigger] m.stays[i]).id <= max_of(ids) by {
        assert(ids[nh + ng + np + i] == m.stays[i].id);
    }
    assert forall|i: int| 0 <= i < m.changelog.len() implies (#[trigger] m.changelog[i]).id <= max_of(
        log_ids(m.changelog),
    ) by {
        assert(log_ids(m.changelog)[i] == m.changelog[i].id);
    }
}

/// Handing out an id keeps every id in use below the counter, and the id handed
/// out is used by nothing yet.
pub proof fn lemma_new_id_is_fresh(m: PlanModel)
    requires
        ids_below_counters(m),
        m.next_id < u64::MAX,
    ensures
        ids_below_counters(PlanModel { next_id: (m.next_id + 1) as u64, ..m }),
        forall|i: int| 0 <= i < m.housings.len() ==> (#[trigger] m.housings[i]).id != m.next_id,
        forall|i: int| 0 <= i < m.groups.len() ==> (#[trigger] m.groups[i]).id != m.next_id,
        forall|i: int| 0 <= i < m.persons.len() ==> (#[trigger] m.persons[i]).id != m.next_id,
        forall|i: int| 0 <= i < m.stays.len() ==> (#[trigger] m.stays[i]).id != m.next_id,
{
}

/// Journaling keeps every journal id below the counter, and the new entry's id
/// differs from every earlier entry's.
pub proof fn lemma_log_entry_id_is_fresh(m: PlanModel, entry: LogEntry)
    requires
        ids_below_counters(m),
        m.next_log_id < u64::MAX,
        entry.id == m.next_log_id,
    ensures
        ids_below_counters(PlanModel {
            next_log_id: (m.next_log_id + 1) as u64,
            changelog: m.changelog.push(entry),
            ..m
        }),
        forall|i: int| 0 <= i < m.changelog.len() ==> (#[trigger] m.changelog[i]).id != entry.id,
{
    let after = m.changelog.push(entry);
    assert forall|i: int| 0 <= i < after.len() implies (#[trigger] after[i]).id < m.next_log_id + 1 by {
        if i < m.changelog.len() {
            assert(after[i] == m.changelog[i]);
        }
    }
}

/// What `without_housing` holds.
proof fn lemma_without_housing_contains(hs: Seq<Housing>, id: Id)
    ensures
        forall|x: Housing| without_housing(hs, id).contains(x) <==> (hs.contains(x) && x.id != id),
    decreases hs.len(),
{
    if hs.len() > 0 {
        lemma_without_housing_contains(hs.drop_last(), id);
        lemma_contains_split_last(hs);
        let rest = without_housing(hs.drop_last(), id);
        if hs.last().id != id {
            lemma_contains_push(rest, hs.last());
            assert(without_housing(hs, id) == rest.push(hs.last()));
        } else {
            assert(without_housing(hs, id) == rest);
        }
    }
}

/// What `stays_outside_housing` holds.
proof fn lemma_stays_outside_housing(ss: Seq<Stay>, hid: Id)
    ensures
        forall|x: Stay| stays_outside_housing(ss, hid).contains(x) <==> (ss.contains(x) && x.housing != hid),
    decreases ss.len(),
{
    if ss.len() > 0 {
        lemma_stays_outside_housing(ss.drop_last(), hid);
        lemma_contains_split_last(ss);
        let rest = stays_outside_housing(ss.drop_last(), hid);
        if ss.last().housing != hid {
            lemma_contains_push(rest, ss.last());
            assert(stays_outside_housing(ss, hid) == rest.push(ss.last()));
        } else {
            assert(stays_outside_housing(ss, hid) == rest);
        }
    }
}

/// A list in which only the element at `i` reports anything reports just that.
proof fn lemma_flat_map_single<A>(s: Seq<A>, f: spec_fn(A) -> Seq<ChangeView>, i: int)
    requires
        0 <= i < s.len(),
        forall|j: int| 0 <= j < s.len() && j != i ==> (#[trigger] f(s[j])).len() == 0,
    ensures
        flat_map(s, f) == f(s[i]),
    decreases s.len(),
{
    let d = s.drop_last();
    if i == s.len() - 1 {
        assert forall|j: int| 0 <= j < d.len() implies (#[trigger] f(d[j])).len() == 0 by {
            assert(d[j] == s[j]);
        }
        lemma_flat_map_silent(d, f);
        assert(flat_map(s, f) =~= f(s[i]));
    } else {
        assert forall|j: int| 0 <= j < d.len() && j != i implies (#[trigger] f(d[j])).len() == 0 by {
            assert(d[j] == s[j]);
        }
        lemma_flat_map_single(d, f, i);
        assert(f(s[s.len() - 1]).len() == 0);
        assert(d[i] == s[i]);
        assert(flat_map(s, f) =~= f(s[i]));
    }
}

/// The plan `m` after the Housings editor deletes housing `hid` (with its stays).
pub open spec fn housing_deleted(m: PlanModel, hid: Id) -> PlanModel {
    PlanModel {
        housings: without_housing(m.housings, hid),
        stays: stays_outside_housing(m.stays, hid),
        ..m
    }
}

/// Deleting a housing is journaled as one change, a `DeleteHousing` that folds
/// in the housing's stays, and undoing it restores exactly the housings and
/// stays the plan had (order aside). Lists of `m` must not repeat an id.
pub proof fn lemma_delete_housing_is_one_change(m: PlanModel, i: int)
    requires
        ids_unique(m),
        0 <= i < m.housings.len(),
    ensures
        ({
            let h = m.housings[i];
            let q = housing_deleted(m, h.id);
            let op = InverseOpView::InsertHousing { housing: h, stays: stays_in_housing(m.stays, h.id) };
            let after = after_inverse(q, op);
            &&& changes_between(m, q) == seq![ChangeView { kind: LogKindView::DeleteHousing { name: h.name@ }, inverse: op }]
            &&& forall|x: Housing| after.housings.contains(x) <==> m.housings.contains(x)
            &&& forall|x: Stay| after.stays.contains(x) <==> m.stays.contains(x)
        }),
{
    broadcast use vstd::seq_lib::group_seq_properties;

    let h = m.housings[i];
    let q = housing_deleted(m, h.id);
    let op = InverseOpView::InsertHousing { housing: h, stays: stays_in_housing(m.stays, h.id) };
    lemma_lookup_finds_self(m);
    lemma_without_housing_contains(m.housings, h.id);
    lemma_without_housing(m.housings, h.id);
    lemma_stays_outside_housing(m.stays, h.id);
    lemma_stays_in_housing(m.stays, h.id);
    lemma_housing_pos(q.housings, h.id);
    assert(housing_pos(q.housings, h.id) == -1);
    assert(housing_pos(m.housings, h.id) == i);
    // Housing deletions: only `h` is gone.
    let f1 = housing_deletions(m, q);
    assert forall|j: int| 0 <= j < m.housings.len() && j != i implies (#[trigger] f1(m.housings[j])).len() == 0 by {
        let x = m.housings[j];
        assert(x.id != h.id);
        assert(m.housings.contains(x));
        assert(q.housings.contains(x));
        let t = choose|t: int| 0 <= t < q.housings.len() && q.housings[t] == x;
        lemma_housing_pos(q.housings, x.id);
    }
    lemma_flat_map_single(m.housings, f1, i);
    // Housing edits: every remaining housing is unchanged.
    let f2 = housing_edits(m, q);
    assert forall|j: int| 0 <= j < q.housings.len() implies (#[trigger] f2(q.housings[j])).len() == 0 by {
        let x = q.housings[j];
        assert(q.housings.contains(x));
        assert(without_housing(m.housings, h.id).contains(x));
        assert(m.housings.contains(x));
        let t = choose|t: int| 0 <= t < m.housings.len() && m.housings[t] == x;
        assert(find_housing(m.housings, x.id) == Some(x));
    }
    lemma_flat_map_silent(q.housings, f2);
    // Groups and persons are untouched.
    let f3 = group_deletions(m, q);
    assert forall|j: int| 0 <= j < m.groups.len() implies (#[trigger] f3(m.groups[j])).len() == 0 by {
        assert(group_pos(m.groups, m.groups[j].id) == j);
    }
    lemma_flat_map_silent(m.groups, f3);
    let f4 = group_edits(m, q);
    assert forall|j: int| 0 <= j < m.groups.len() implies (#[trigger] f4(m.groups[j])).len() == 0 by {
        assert(find_group(m.groups, m.groups[j].id) == Some(m.groups[j]));
    }
    lemma_flat_map_silent(m.groups, f4);
    let f5 = person_deletions(m, q);
    assert forall|j: int| 0 <= j < m.persons.len() implies (#[trigger] f5(m.persons[j])).len() == 0 by {
        assert(person_pos(m.persons, m.persons[j].id) == j);
    }
    lemma_flat_map_silent(m.persons, f5);
    let f6 = person_edits(m, q);
    assert forall|j: int| 0 <= j < m.persons.len() implies (#[trigger] f6(m.persons[j])).len() == 0 by {
        assert(find_person(m.persons, m.persons[j].id) == Some(m.persons[j]));
    }
    lemma_flat_map_silent(m.persons, f6);
    // Stays in `h` are folded into the deletion; the others remain.
    let f7 = stay_removals(m, q);
    assert forall|j: int| 0 <= j < m.stays.len() implies (#[trigger] f7(m.stays[j])).len() == 0 by {
        let x = m.stays[j];
        assert(m.stays.contains(x));
        if x.housing == h.id {
            assert(housing_removed(m, q, x.housing));
            assert(cascaded_ids(m, q).contains(x.id));
        } else {
            assert(q.stays.contains(x));
            let t = choose|t: int| 0 <= t < q.stays.len() && q.stays[t] == x;
            lemma_stay_pos(q.stays, x.id);
        }
    }
    lemma_flat_map_silent(m.stays, f7);
    let f8 = stay_edits(m, q);
    assert forall|j: int| 0 <= j < q.stays.len() implies (#[trigger] f8(q.stays[j])).len() == 0 by {
        let x = q.stays[j];
        assert(q.stays.contains(x));
        assert(stays_outside_housing(m.stays, h.id).contains(x));
        assert(m.stays.contains(x));
        let t = choose|t: int| 0 <= t < m.stays.len() && m.stays[t] == x;
        assert(find_stay(m.stays, x.id) == Some(x));
    }
    lemma_flat_map_silent(q.stays, f8);
    assert(changes_between(m, q) =~= f1(h));
    // Undo puts the housing and its stays back.
    let after = after_inverse(q, op);
    assert forall|x: Housing| after.housings.contains(x) <==> m.housings.contains(x) by {
        if x == h {
            assert(after.housings[q.housings.len() as int] == h);
        }
    }
    assert forall|x: Stay| after.stays.contains(x) <==> m.stays.contains(x) by {
        let a = stays_outside_housing(m.stays, h.id);
        let b = stays_in_housing(m.stays, h.id);
        assert(after.stays == a + b);
        if after.stays.contains(x) {
            let t = choose|t: int| 0 <= t < after.stays.len() && after.stays[t] == x;
            if t < a.len() {
                assert(a.contains(x));
            } else {
                assert(b[t - a.len()] == x);
                assert(b.contains(x));
            }
        }
        if m.stays.contains(x) {
            if x.housing == h.id {
                assert(b.contains(x));
                let t = choose|t: int| 0 <= t < b.len() && b[t] == x;
                assert(after.stays[a.len() + t] == x);
            } else {
                assert(a.contains(x));
                let t = choose|t: int| 0 <= t < a.len() && a[t] == x;
                assert(after.stays[t] == x);
            }
        }
    }
}

/// The stays of `s` come in order of arrival.
pub open spec fn arrivals_ordered(s: Seq<Stay>) -> bool {
    forall|i: int, j: int| 0 <= i < j < s.len() ==> (#[trigger] s[i]).arrival@ <= (#[trigger] s[j]).arrival@
}

/// Inserting into an ordered row keeps it ordered and adds just that stay.
proof fn lemma_insert_keeps_order(sorted: Seq<Stay>, s: Stay)
    requires
        arrivals_ordered(sorted),
    ensures
        arrivals_ordered(insert_by_arrival(sorted, s)),
        insert_by_arrival(sorted, s).to_multiset() == sorted.to_multiset().insert(s),
    decreases sorted.len(),
{
    broadcast use vstd::seq_lib::group_to_multiset_ensures;

    if sorted.len() == 0 {
        assert(seq![s] =~= Seq::<Stay>::empty().push(s));
    } else if sorted.last().arrival@ <= s.arrival@ {
    } else {
        let d = sorted.drop_last();
        let l = sorted.last();
        assert(arrivals_ordered(d)) by {
            assert forall|i: int, j: int| 0 <= i < j < d.len() implies (#[trigger] d[i]).arrival@ <= (#[trigger] d[j]).arrival@ by {
                assert(d[i] == sorted[i] && d[j] == sorted[j]);
            }
        }
        lemma_insert_keeps_order(d, s);
        let r = insert_by_arrival(d, s);
        assert(d.push(l) =~= sorted);
        assert forall|x: Stay| r.contains(x) implies x.arrival@ <= l.arrival@ by {
            assert(r.to_multiset().count(x) > 0);
            if x != s {
                assert(d.to_multiset().count(x) > 0);
                assert(d.contains(x));
                let t = choose|t: int| 0 <= t < d.len() && d[t] == x;
                assert(sorted[t] == x);
                assert(sorted[sorted.len() - 1] == l);
            }
        }
        let rl = r.push(l);
        assert forall|i: int, j: int| 0 <= i < j < rl.len() implies (#[trigger] rl[i]).arrival@ <= (#[trigger] rl[j]).arrival@ by {
            if j == rl.len() - 1 {
                assert(r.contains(rl[i]));
            } else {
                assert(rl[i] == r[i] && rl[j] == r[j]);
            }
        }
    }
}

/// A housing's row is ordered by arrival and holds exactly the housing's stays.
pub proof fn lemma_row_is_ordered(ss: Seq<Stay>)
    ensures
        arrivals_ordered(sorted_by_arrival(ss)),
        sorted_by_arrival(ss).to_multiset() == ss.to_multiset(),
    decreases ss.len(),
{
    broadcast use vstd::seq_lib::group_to_multiset_ensures;

    if ss.len() > 0 {
        lemma_row_is_ordered(ss.drop_last());
        lemma_insert_keeps_order(sorted_by_arrival(ss.drop_last()), ss.last());
        assert(ss.drop_last().push(ss.last()) =~= ss);
    }
}

/// A person can't be in two places at once, so when two stays clash both are
/// reported as double-booked, not just one of them.
pub proof fn lemma_double_booking_flags_both(m: PlanModel, i: int, j: int)
    requires
        0 <= i < m.stays.len(),
        0 <= j < m.stays.len(),
        i != j,
        clash(m.persons, m.stays[i], m.stays[j]),
    ensures
        double_booked(m).contains(m.stays[i].id),
        double_booked(m).contains(m.stays[j].id),
{
    lemma_clash_symmetric(m.persons, m.stays[i], m.stays[j]);
    assert(clash(m.persons, m.stays[j], m.stays[i]));
}

/// Groups are expanded to their members: a person booked on their own in one
/// housing while their group is booked in another on overlapping dates makes
/// both stays double-booked.
pub proof fn lemma_member_clashes_with_group_elsewhere(m: PlanModel, i: int, j: int, k: int)
    requires
        0 <= i < m.stays.len(),
        0 <= j < m.stays.len(),
        0 <= k < m.persons.len(),
        m.stays[i].subject == Subject::Person(m.persons[k].id),
        m.persons[k].group matches Some(g) && m.stays[j].subject == Subject::Group(g),
        m.stays[i].housing != m.stays[j].housing,
        m.stays[i].arrival@ < m.stays[j].departure@,
        m.stays[j].arrival@ < m.stays[i].departure@,
    ensures
        double_booked(m).contains(m.stays[i].id),
        double_booked(m).contains(m.stays[j].id),
{
    let p = m.persons[k].id;
    let g = m.persons[k].group.unwrap();
    lemma_member_ids(m.persons, g);
    assert(member_ids(m.persons, g).contains(p));
    assert(subject_person_ids(m.persons, m.stays[i].subject).contains(p)) by {
        assert(subject_person_ids(m.persons, m.stays[i].subject)[0] == p);
    }
    assert(subject_person_ids(m.persons, m.stays[j].subject).contains(p));
    assert(clash(m.persons, m.stays[i], m.stays[j]));
    lemma_double_booking_flags_both(m, i, j);
}

/// Undo works on the latest commit: once a commit has journaled the changes
/// between `old` and `new` (journal ids from `first`), the top of the undo
/// stack carries the journal id of the last change's entry, and its inverse,
/// applied to `new`, puts back what `old` had. Lists of `old` must not repeat an
/// id.
pub proof fn lemma_undo_follows_last_commit(
    old: PlanModel,
    new: PlanModel,
    log: Seq<LogEntry>,
    logged: Seq<LogEntry>,
    stack: Seq<(u64, InverseOp)>,
    after: Seq<(u64, InverseOp)>,
    first: u64,
)
    requires
        ids_unique(old),
        changes_between(old, new).len() > 0,
        journaled(log, logged, changes_between(old, new), first),
        stacked(stack, after, changes_between(old, new), first),
    ensures
        after.last().0 == logged.last().id,
        logged.last().kind@ == changes_between(old, new).last().kind,
        reverts(old, new, after.last().1@),
{
    let cs = changes_between(old, new);
    let k = cs.len() - 1;
    assert(after.last() == after[stack.len() + k]);
    assert(logged.last() == logged[log.len() + k]);
    lemma_diff_inverses_revert(old, new, k);
}

/// No bar hides another: in a first-fit stacking of a row, two stays that
/// share a night never share a lane.
pub proof fn lemma_lanes_keep_overlaps_apart(row: Seq<Stay>, lanes: Seq<usize>)
    requires
        first_fit(row, lanes),
    ensures
        forall|a: int, b: int|
            0 <= a < row.len() && 0 <= b < row.len() && a != b && overlaps(#[trigger] row[a], #[trigger] row[b])
                ==> lanes[a] != lanes[b],
{
    assert forall|a: int, b: int|
        0 <= a < row.len() && 0 <= b < row.len() && a != b && overlaps(#[trigger] row[a], #[trigger] row[b])
            implies lanes[a] != lanes[b] by {
        if a < b {
            assert(lane_free(row, lanes, b, lanes[b] as int));
        } else {
            assert(lane_free(row, lanes, a, lanes[a] as int));
            assert(overlaps(row[b], row[a]));
        }
    }
}

/// A stay is double-booked only together with another stay, in a different
/// housing, that shares at least one night with it (each arrives before the
/// other departs) and puts some same person there. Departure is the checkout
/// day, so two stays that merely touch never clash.
pub proof fn lemma_double_booked_shares_a_night(m: PlanModel, id: Id)
    requires
        double_booked(m).contains(id),
    ensures
        exists|i: int, j: int|
            #![trigger m.stays[i], m.stays[j]]
            0 <= i < m.stays.len() && 0 <= j < m.stays.len() && i != j && m.stays[i].id == id
                && m.stays[i].housing != m.stays[j].housing && m.stays[i].arrival@ < m.stays[j].departure@
                && m.stays[j].arrival@ < m.stays[i].departure@ && (exists|p: Id|
                subject_person_ids(m.persons, m.stays[i].subject).contains(p) && subject_person_ids(
                    m.persons,
                    m.stays[j].subject,
                ).contains(p)),
{
    let (i, j) = choose|i: int, j: int|
        0 <= i < m.stays.len() && 0 <= j < m.stays.len() && i != j && (#[trigger] m.stays[i]).id == id && clash(
            m.persons,
            m.stays[i],
            #[trigger] m.stays[j],
        );
    assert(m.stays[i].id == id);
}

/// Stays that merely touch (one departs the day the other arrives), or that
/// do not meet at all, never clash, whoever they book.
pub proof fn lemma_touching_stays_never_clash(ps: Seq<Person>, a: Stay, b: Stay)
    requires
        a.departure@ <= b.arrival@,
    ensures
        !clash(ps, a, b),
        !clash(ps, b, a),
{
}

/// Only stays in the housing itself that cover the day count towards a
/// housing's occupancy on that day: adding a stay in another housing, or one
/// that does not cover the day (arrival counts, the departure day does not),
/// leaves the occupancy as it was.
pub proof fn lemma_occupancy_ignores_other_stays(ss: Seq<Stay>, ps: Seq<Person>, hid: Id, date: Date, s: Stay)
    requires
        s.housing != hid || date@ < s.arrival@ || s.departure@ <= date@,
    ensures
        occupancy_of(ss.push(s), ps, hid, date) == occupancy_of(ss, ps, hid, date),
{
    assert(ss.push(s).drop_last() =~= ss);
}

/// A stay in the housing that covers the day adds its subject's headcount to
/// the housing's occupancy that day.
pub proof fn lemma_occupancy_counts_covering_stays(ss: Seq<Stay>, ps: Seq<Person>, hid: Id, date: Date, s: Stay)
    requires
        s.housing == hid,
        s.arrival@ <= date@ < s.departure@,
        headcount(ps, s.subject) <= u32::MAX,
    ensures
        occupancy_of(ss.push(s), ps, hid, date) == occupancy_of(ss, ps, hid, date) + headcount(ps, s.subject),
{
    assert(ss.push(s).drop_last() =~= ss);
}

/// A housing's occupancy depends only on its own stays: keeping just the stays
/// in that housing does not change it.
pub proof fn lemma_occupancy_of_own_stays(ss: Seq<Stay>, ps: Seq<Person>, hid: Id, date: Date)
    ensures
        occupancy_of(stays_in_housing(ss, hid), ps, hid, date) == occupancy_of(ss, ps, hid, date),
    decreases ss.len(),
{
    if ss.len() > 0 {
        lemma_occupancy_of_own_stays(ss.drop_last(), ps, hid, date);
        let rest = stays_in_housing(ss.drop_last(), hid);
        if ss.last().housing == hid {
            assert(rest.push(ss.last()).drop_last() =~= rest);
        }
    }
}

/// Deleting a group detaches exactly its members: each person keeps their
/// place, a member of the group keeps everything but the group (now none),
/// and every other person is left exactly as they were.
pub proof fn lemma_delete_group_detaches_only_members(ps: Seq<Person>, gid: Id)
    ensures
        detach_members(ps, gid).len() == ps.len(),
        forall|k: int| 0 <= k < ps.len() && ps[k].group != Some(gid) ==> (#[trigger] detach_members(ps, gid)[k]) == ps[k],
        forall|k: int|
            0 <= k < ps.len() && ps[k].group == Some(gid) ==> (#[trigger] detach_members(ps, gid)[k]).group is None
                && detach_members(ps, gid)[k].id == ps[k].id && detach_members(ps, gid)[k].name == ps[k].name,
{
}

/// Deleting a group takes away exactly the stays booked for that group.
pub proof fn lemma_delete_group_drops_only_its_stays(ss: Seq<Stay>, gid: Id)
    ensures
        forall|x: Stay| #[trigger] stays_not_of(ss, Subject::Group(gid)).contains(x) <==> (ss.contains(x) && x.subject != Subject::Group(gid)),
    decreases ss.len(),
{
    let g = Subject::Group(gid);
    if ss.len() > 0 {
        lemma_delete_group_drops_only_its_stays(ss.drop_last(), gid);
        lemma_contains_split_last(ss);
        let rest = stays_not_of(ss.drop_last(), g);
        lemma_contains_push(rest, ss.last());
        assert forall|x: Stay| #[trigger] stays_not_of(ss, g).contains(x) <==> (ss.contains(x) && x.subject != g) by {
            assert(rest.contains(x) <==> (ss.drop_last().contains(x) && x.subject != g));
            assert(ss.contains(x) <==> (ss.drop_last().contains(x) || x == ss.last()));
            assert(rest.push(ss.last()).contains(x) <==> (rest.contains(x) || x == ss.last()));
            if ss.last().subject != g {
                assert(stays_not_of(ss, g) == rest.push(ss.last()));
            } else {
                assert(stays_not_of(ss, g) == rest);
            }
        }
    }
}

/// Deleting a group takes away exactly the groups with its id.
pub proof fn lemma_delete_group_drops_only_that_group(gs: Seq<Group>, gid: Id)
    ensures
        forall|x: Group| #[trigger] without_group(gs, gid).contains(x) <==> (gs.contains(x) && x.id != gid),
    decreases gs.len(),
{
    if gs.len() > 0 {
        lemma_delete_group_drops_only_that_group(gs.drop_last(), gid);
        lemma_contains_split_last(gs);
        let rest = without_group(gs.drop_last(), gid);
        lemma_contains_push(rest, gs.last());
        assert forall|x: Group| #[trigger] without_group(gs, gid).contains(x) <==> (gs.contains(x) && x.id != gid) by {
            assert(rest.contains(x) <==> (gs.drop_last().contains(x) && x.id != gid));
            assert(gs.contains(x) <==> (gs.drop_last().contains(x) || x == gs.last()));
            assert(rest.push(gs.last()).contains(x) <==> (rest.contains(x) || x == gs.last()));
            if gs.last().id != gid {
                assert(without_group(gs, gid) == rest.push(gs.last()));
            } else {
                assert(without_group(gs, gid) == rest);
            }
        }
    }
}

/// A journal entry moving a person between groups is described with both
/// groups named the same way: a group name that is empty (no group) shows as
/// the localized "(no group)", on either side of the arrow.
pub proof fn lemma_group_move_description(person: Seq<char>, from: Seq<char>, to: Seq<char>, log: Seq<LogEntry>, lang: Lang)
    ensures
        describe_text(LogKindView::SetPersonGroup { person, from, to }, log, lang) == translation(
            lang,
            "Changed group of"@,
        ) + " "@ + person + ": "@ + (if from.len() == 0 {
            translation(lang, "(no group)"@)
        } else {
            from
        }) + " → "@ + (if to.len() == 0 {
            translation(lang, "(no group)"@)
        } else {
            to
        }),
{
}

/// Where the change at `k` of a journal-ordered list of parts comes from.
proof fn lemma_index_in_parts(a: Seq<ChangeView>, b: Seq<ChangeView>, c: Seq<ChangeView>, d: Seq<ChangeView>,
    e: Seq<ChangeView>, g: Seq<ChangeView>, h: Seq<ChangeView>, t: Seq<ChangeView>, k: int)
    requires
        0 <= k < (a + b + c + d + e + g + h + t).len(),
    ensures
        ({
            let all = a + b + c + d + e + g + h + t;
            let o1 = a.len() as int;
            let o2 = o1 + b.len();
            let o3 = o2 + c.len();
            let o4 = o3 + d.len();
            let o5 = o4 + e.len();
            let o6 = o5 + g.len();
            let o7 = o6 + h.len();
            &&& k < o1 ==> all[k] == a[k]
            &&& o1 <= k < o2 ==> all[k] == b[k - o1]
            &&& o2 <= k < o3 ==> all[k] == c[k - o2]
            &&& o3 <= k < o4 ==> all[k] == d[k - o3]
            &&& o4 <= k < o5 ==> all[k] == e[k - o4]
            &&& o5 <= k < o6 ==> all[k] == g[k - o5]
            &&& o6 <= k < o7 ==> all[k] == h[k - o6]
            &&& o7 <= k ==> all[k] == t[k - o7]
        }),
{
}

/// Each element of a flattened list sits at a position of the whole.
proof fn lemma_flat_map_has<A>(s: Seq<A>, f: spec_fn(A) -> Seq<ChangeView>, i: int, t: int) -> (k: int)
    requires
        0 <= i < s.len(),
        0 <= t < f(s[i]).len(),
    ensures
        0 <= k < flat_map(s, f).len(),
        flat_map(s, f)[k] == f(s[i])[t],
    decreases s.len(),
{
    let d = s.drop_last();
    let rest = flat_map(d, f);
    if i == s.len() - 1 {
        rest.len() + t
    } else {
        assert(d[i] == s[i]);
        let k = lemma_flat_map_has(d, f, i, t);
        k
    }
}

/// A group rename is journaled from the old name to the new one: every
/// `RenameGroup` change of the diff belongs to a group kept from `old` to `new`
/// whose name changed, and reads from the name the group had in `old` to the
/// name it has in `new`.
pub proof fn lemma_group_renames_run_old_to_new(old: PlanModel, new: PlanModel, k: int)
    requires
        0 <= k < changes_between(old, new).len(),
        changes_between(old, new)[k].kind is RenameGroup,
    ensures
        exists|j: int|
            0 <= j < new.groups.len() && (find_group(old.groups, (#[trigger] new.groups[j]).id) matches Some(o)
                && o.name@ != new.groups[j].name@ && changes_between(old, new)[k].kind == (LogKindView::RenameGroup {
                from: o.name@,
                to: new.groups[j].name@,
            })),
{
    let a = flat_map(old.housings, housing_deletions(old, new));
    let b = flat_map(new.housings, housing_edits(old, new));
    let c = flat_map(old.groups, group_deletions(old, new));
    let d = flat_map(new.groups, group_edits(old, new));
    let e = flat_map(old.persons, person_deletions(old, new));
    let g = flat_map(new.persons, person_edits(old, new));
    let h = flat_map(old.stays, stay_removals(old, new));
    let t = flat_map(new.stays, stay_edits(old, new));
    let all = changes_between(old, new);
    assert(all == a + b + c + d + e + g + h + t);
    lemma_index_in_parts(a, b, c, d, e, g, h, t, k);
    let o1 = a.len() as int;
    let o2 = o1 + b.len();
    let o3 = o2 + c.len();
    let o4 = o3 + d.len();
    let o5 = o4 + e.len();
    let o6 = o5 + g.len();
    let o7 = o6 + h.len();
    if k < o1 {
        let (i, q) = lemma_flat_map_member(old.housings, housing_deletions(old, new), k);
    } else if k < o2 {
        let (i, q) = lemma_flat_map_member(new.housings, housing_edits(old, new), k - o1);
    } else if k < o3 {
        let (i, q) = lemma_flat_map_member(old.groups, group_deletions(old, new), k - o2);
    } else if k < o4 {
        let (i, q) = lemma_flat_map_member(new.groups, group_edits(old, new), k - o3);
        let gr = new.groups[i];
        assert(all[k] == group_edits(old, new)(gr)[q]);
        match find_group(old.groups, gr.id) {
            None => {},
            Some(o) => {
                assert(o.name@ != gr.name@);
                assert(all[k].kind == (LogKindView::RenameGroup { from: o.name@, to: gr.name@ }));
            },
        }
    } else if k < o5 {
        let (i, q) = lemma_flat_map_member(old.persons, person_deletions(old, new), k - o4);
    } else if k < o6 {
        let (i, q) = lemma_flat_map_member(new.persons, person_edits(old, new), k - o5);
    } else if k < o7 {
        let (i, q) = lemma_flat_map_member(old.stays, stay_removals(old, new), k - o6);
    } else {
        let (i, q) = lemma_flat_map_member(new.stays, stay_edits(old, new), k - o7);
        let st = new.stays[i];
        assert(all[k] == stay_edits(old, new)(st)[q]);
    }
}

/// Every renamed group is journaled: for a group kept from `old` to `new`
/// whose name changed, the diff holds a `RenameGroup` change from the name the
/// group had in `old` to the name it has in `new`.
pub proof fn lemma_group_renames_are_journaled(old: PlanModel, new: PlanModel, j: int)
    requires
        0 <= j < new.groups.len(),
        find_group(old.groups, new.groups[j].id) matches Some(o) && o.name@ != new.groups[j].name@,
    ensures
        exists|k: int|
            0 <= k < changes_between(old, new).len() && #[trigger] changes_between(old, new)[k].kind == (
            LogKindView::RenameGroup { from: find_group(old.groups, new.groups[j].id).unwrap().name@, to: new.groups[j].name@ }),
{
    let a = flat_map(old.housings, housing_deletions(old, new));
    let b = flat_map(new.housings, housing_edits(old, new));
    let c = flat_map(old.groups, group_deletions(old, new));
    let d = flat_map(new.groups, group_edits(old, new));
    let e = flat_map(old.persons, person_deletions(old, new));
    let g = flat_map(new.persons, person_edits(old, new));
    let h = flat_map(old.stays, stay_removals(old, new));
    let t = flat_map(new.stays, stay_edits(old, new));
    let all = changes_between(old, new);
    assert(all == a + b + c + d + e + g + h + t);
    let gr = new.groups[j];
    let o = find_group(old.groups, gr.id).unwrap();
    let ch = group_edits(old, new)(gr);
    assert(ch[0].kind == (LogKindView::RenameGroup { from: o.name@, to: gr.name@ }));
    let q = lemma_flat_map_has(new.groups, group_edits(old, new), j, 0);
    let k = a.len() + b.len() + c.len() + q;
    lemma_index_in_parts(a, b, c, d, e, g, h, t, k);
    assert(all[k] == d[q]);
}

/// Where the change at `k` of the diff comes from: the part (in journal order)
/// and the element of that part's list that reported it.
proof fn lemma_change_source(old: PlanModel, new: PlanModel, k: int) -> (r: (int, int, int))
    requires
        0 <= k < changes_between(old, new).len(),
    ensures
        0 <= r.0 < 8,
        0 <= r.2,
        r.0 == 0 ==> r.1 < old.housings.len() && r.2 < housing_deletions(old, new)(old.housings[r.1]).len()
            && changes_between(old, new)[k] == housing_deletions(old, new)(old.housings[r.1])[r.2],
        r.0 == 1 ==> r.1 < new.housings.len() && r.2 < housing_edits(old, new)(new.housings[r.1]).len()
            && changes_between(old, new)[k] == housing_edits(old, new)(new.housings[r.1])[r.2],
        r.0 == 2 ==> r.1 < old.groups.len() && r.2 < group_deletions(old, new)(old.groups[r.1]).len()
            && changes_between(old, new)[k] == group_deletions(old, new)(old.groups[r.1])[r.2],
        r.0 == 3 ==> r.1 < new.groups.len() && r.2 < group_edits(old, new)(new.groups[r.1]).len()
            && changes_between(old, new)[k] == group_edits(old, new)(new.groups[r.1])[r.2],
        r.0 == 4 ==> r.1 < old.persons.len() && r.2 < person_deletions(old, new)(old.persons[r.1]).len()
            && changes_between(old, new)[k] == person_deletions(old, new)(old.persons[r.1])[r.2],
        r.0 == 5 ==> r.1 < new.persons.len() && r.2 < person_edits(old, new)(new.persons[r.1]).len()
            && changes_between(old, new)[k] == person_edits(old, new)(new.persons[r.1])[r.2],
        r.0 == 6 ==> r.1 < old.stays.len() && r.2 < stay_removals(old, new)(old.stays[r.1]).len()
            && changes_between(old, new)[k] == stay_removals(old, new)(old.stays[r.1])[r.2],
        r.0 == 7 ==> r.1 < new.stays.len() && r.2 < stay_edits(old, new)(new.stays[r.1]).len()
            && changes_between(old, new)[k] == stay_edits(old, new)(new.stays[r.1])[r.2],
        0 <= r.1,
{
    let a = flat_map(old.housings, housing_deletions(old, new));
    let b = flat_map(new.housings, housing_edits(old, new));
    let c = flat_map(old.groups, group_deletions(old, new));
    let d = flat_map(new.groups, group_edits(old, new));
    let e = flat_map(old.persons, person_deletions(old, new));
    let g = flat_map(new.persons, person_edits(old, new));
    let h = flat_map(old.stays, stay_removals(old, new));
    let t = flat_map(new.stays, stay_edits(old, new));
    assert(changes_between(old, new) == a + b + c + d + e + g + h + t);
    lemma_index_in_parts(a, b, c, d, e, g, h, t, k);
    let o1 = a.len() as int;
    let o2 = o1 + b.len();
    let o3 = o2 + c.len();
    let o4 = o3 + d.len();
    let o5 = o4 + e.len();
    let o6 = o5 + g.len();
    let o7 = o6 + h.len();
    if k < o1 {
        let (i, q) = lemma_flat_map_member(old.housings, housing_deletions(old, new), k);
        (0, i, q)
    } else if k < o2 {
        let (i, q) = lemma_flat_map_member(new.housings, housing_edits(old, new), k - o1);
        (1, i, q)
    } else if k < o3 {
        let (i, q) = lemma_flat_map_member(old.groups, group_deletions(old, new), k - o2);
        (2, i, q)
    } else if k < o4 {
        let (i, q) = lemma_flat_map_member(new.groups, group_edits(old, new), k - o3);
        (3, i, q)
    } else if k < o5 {
        let (i, q) = lemma_flat_map_member(old.persons, person_deletions(old, new), k - o4);
        (4, i, q)
    } else if k < o6 {
        let (i, q) = lemma_flat_map_member(new.persons, person_edits(old, new), k - o5);
        (5, i, q)
    } else if k < o7 {
        let (i, q) = lemma_flat_map_member(old.stays, stay_removals(old, new), k - o6);
        (6, i, q)
    } else {
        let (i, q) = lemma_flat_map_member(new.stays, stay_edits(old, new), k - o7);
        (7, i, q)
    }
}

/// Housing edits are journaled from the old value to the new one: a
/// `RenameHousing` change belongs to a housing kept from `old` to `new` whose
/// name changed and reads from its old name to its new one; a `SetCapacity`
/// change belongs to a kept housing whose capacity changed, names it by its new
/// name, and reads from the old capacity to the new one.
pub proof fn lemma_housing_edits_run_old_to_new(old: PlanModel, new: PlanModel, k: int)
    requires
        0 <= k < changes_between(old, new).len(),
        changes_between(old, new)[k].kind is RenameHousing || changes_between(old, new)[k].kind is SetCapacity,
    ensures
        exists|j: int|
            0 <= j < new.housings.len() && (find_housing(old.housings, (#[trigger] new.housings[j]).id) matches Some(o)
                && ((o.name@ != new.housings[j].name@ && changes_between(old, new)[k].kind == (
            LogKindView::RenameHousing { from: o.name@, to: new.housings[j].name@ })) || (o.capacity
                != new.housings[j].capacity && changes_between(old, new)[k].kind == (LogKindView::SetCapacity {
                name: new.housings[j].name@,
                from: o.capacity,
                to: new.housings[j].capacity,
            })))),
{
    let r = lemma_change_source(old, new, k);
    if r.0 == 1 {
        let hh = new.housings[r.1];
        match find_housing(old.housings, hh.id) {
            None => {},
            Some(o) => {
                assert(changes_between(old, new)[k] == housing_edits(old, new)(hh)[r.2]);
            },
        }
    } else if r.0 == 7 {
        assert(changes_between(old, new)[k] == stay_edits(old, new)(new.stays[r.1])[r.2]);
    } else if r.0 == 5 {
        assert(changes_between(old, new)[k] == person_edits(old, new)(new.persons[r.1])[r.2]);
    } else if r.0 == 3 {
        assert(changes_between(old, new)[k] == group_edits(old, new)(new.groups[r.1])[r.2]);
    }
}

/// Person edits are journaled from the old value to the new one: a
/// `RenamePerson` change belongs to a person kept from `old` to `new` whose
/// name changed and reads from the old name to the new one; a `SetPersonGroup`
/// change belongs to a kept person whose group changed (not by a deletion of
/// the group), names them by their new name, and reads from the label of the
/// old group in `old` to the label of the new group in `new`.
pub proof fn lemma_person_edits_run_old_to_new(old: PlanModel, new: PlanModel, k: int)
    requires
        0 <= k < changes_between(old, new).len(),
        changes_between(old, new)[k].kind is RenamePerson || changes_between(old, new)[k].kind is SetPersonGroup,
    ensures
        exists|j: int|
            0 <= j < new.persons.len() && (find_person(old.persons, (#[trigger] new.persons[j]).id) matches Some(o)
                && ((o.name@ != new.persons[j].name@ && changes_between(old, new)[k].kind == (
            LogKindView::RenamePerson { from: o.name@, to: new.persons[j].name@ })) || (o.group
                != new.persons[j].group && changes_between(old, new)[k].kind == (LogKindView::SetPersonGroup {
                person: new.persons[j].name@,
                from: crate::journal::group_label_text(old, o.group),
                to: crate::journal::group_label_text(new, new.persons[j].group),
            })))),
{
    let r = lemma_change_source(old, new, k);
    if r.0 == 5 {
        let p = new.persons[r.1];
        match find_person(old.persons, p.id) {
            None => {},
            Some(o) => {
                assert(changes_between(old, new)[k] == person_edits(old, new)(p)[r.2]);
            },
        }
    } else if r.0 == 7 {
        assert(changes_between(old, new)[k] == stay_edits(old, new)(new.stays[r.1])[r.2]);
    } else if r.0 == 1 {
        assert(changes_between(old, new)[k] == housing_edits(old, new)(new.housings[r.1])[r.2]);
    } else if r.0 == 3 {
        assert(changes_between(old, new)[k] == group_edits(old, new)(new.groups[r.1])[r.2]);
    }
}

/// Stay edits are journaled from the old value to the new one: a `MoveStay`
/// change belongs to a stay kept from `old` to `new` whose housing changed and
/// reads from the old housing's name in `old` to the new housing's name in
/// `new`; a `ChangeStaySubject` change, to a kept stay whose subject changed,
/// from the old subject's name to the new one's; a `ChangeStayDates` change,
/// to a kept stay whose dates changed, from the old date range to the new one.
pub proof fn lemma_stay_edits_run_old_to_new(old: PlanModel, new: PlanModel, k: int)
    requires
        0 <= k < changes_between(old, new).len(),
        changes_between(old, new)[k].kind is MoveStay || changes_between(old, new)[k].kind is ChangeStaySubject
            || changes_between(old, new)[k].kind is ChangeStayDates,
    ensures
        exists|j: int|
            0 <= j < new.stays.len() && (find_stay(old.stays, (#[trigger] new.stays[j]).id) matches Some(o) && ({
                let n = new.stays[j];
                let kind = changes_between(old, new)[k].kind;
                ||| (o.housing != n.housing && (kind matches LogKindView::MoveStay { from, to, .. } && from
                    == crate::journal::housing_name_text(old, o.housing) && to == crate::journal::housing_name_text(
                    new,
                    n.housing,
                )))
                ||| (o.subject != n.subject && (kind matches LogKindView::ChangeStaySubject { from, to, .. } && from
                    == crate::journal::subject_name_text(old, o.subject) && to == crate::journal::subject_name_text(
                    new,
                    n.subject,
                )))
                ||| ((o.arrival != n.arrival || o.departure != n.departure) && (kind matches LogKindView::ChangeStayDates {
                    from,
                    to,
                    ..
                } && from == crate::journal::range_text(o.arrival, o.departure) && to == crate::journal::range_text(
                    n.arrival,
                    n.departure,
                )))
            })),
{
    let r = lemma_change_source(old, new, k);
    if r.0 == 7 {
        let n = new.stays[r.1];
        assert(changes_between(old, new)[k] == stay_edits(old, new)(n)[r.2]);
        if !cascaded_ids(old, new).contains(n.id) {
            match find_stay(old.stays, n.id) {
                None => {},
                Some(o) => {},
            }
        }
    } else if r.0 == 5 {
        assert(changes_between(old, new)[k] == person_edits(old, new)(new.persons[r.1])[r.2]);
    } else if r.0 == 1 {
        assert(changes_between(old, new)[k] == housing_edits(old, new)(new.housings[r.1])[r.2]);
    } else if r.0 == 3 {
        assert(changes_between(old, new)[k] == group_edits(old, new)(new.groups[r.1])[r.2]);
    }
}

/// Deleting a housing takes away exactly the stays in that housing.
pub proof fn lemma_delete_housing_drops_only_its_stays(ss: Seq<Stay>, hid: Id)
    ensures
        forall|x: Stay| #[trigger] stays_outside_housing(ss, hid).contains(x) <==> (ss.contains(x) && x.housing != hid),
    decreases ss.len(),
{
    if ss.len() > 0 {
        lemma_delete_housing_drops_only_its_stays(ss.drop_last(), hid);
        lemma_contains_split_last(ss);
        let rest = stays_outside_housing(ss.drop_last(), hid);
        lemma_contains_push(rest, ss.last());
        assert forall|x: Stay| #[trigger] stays_outside_housing(ss, hid).contains(x) <==> (ss.contains(x) && x.housing != hid) by {
            assert(rest.contains(x) <==> (ss.drop_last().contains(x) && x.housing != hid));
            assert(ss.contains(x) <==> (ss.drop_last().contains(x) || x == ss.last()));
            assert(rest.push(ss.last()).contains(x) <==> (rest.contains(x) || x == ss.last()));
            if ss.last().housing != hid {
                assert(stays_outside_housing(ss, hid) == rest.push(ss.last()));
            } else {
                assert(stays_outside_housing(ss, hid) == rest);
            }
        }
    }
}

/// Deleting a person takes away exactly the stays booked for that person.
pub proof fn lemma_delete_person_drops_only_their_stays(ss: Seq<Stay>, pid: Id)
    ensures
        forall|x: Stay| #[trigger] stays_not_of(ss, Subject::Person(pid)).contains(x) <==> (ss.contains(x) && x.subject != Subject::Person(pid)),
    decreases ss.len(),
{
    if ss.len() > 0 {
        lemma_delete_person_drops_only_their_stays(ss.drop_last(), pid);
        lemma_contains_split_last(ss);
        let rest = stays_not_of(ss.drop_last(), Subject::Person(pid));
        lemma_contains_push(rest, ss.last());
        assert forall|x: Stay| #[trigger] stays_not_of(ss, Subject::Person(pid)).contains(x) <==> (ss.contains(x) && x.subject != Subject::Person(pid)) by {
            assert(rest.contains(x) <==> (ss.drop_last().contains(x) && x.subject != Subject::Person(pid)));
            assert(ss.contains(x) <==> (ss.drop_last().contains(x) || x == ss.last()));
            assert(rest.push(ss.last()).contains(x) <==> (rest.contains(x) || x == ss.last()));
            if ss.last().subject != Subject::Person(pid) {
                assert(stays_not_of(ss, Subject::Person(pid)) == rest.push(ss.last()));
            } else {
                assert(stays_not_of(ss, Subject::Person(pid)) == rest);
            }
        }
    }
}

/// Deleting a housing takes away exactly the housings with its id.
pub proof fn lemma_delete_housing_drops_only_that_housing(gs: Seq<Housing>, gid: Id)
    ensures
        forall|x: Housing| #[trigger] without_housing(gs, gid).contains(x) <==> (gs.contains(x) && x.id != gid),
    decreases gs.len(),
{
    if gs.len() > 0 {
        lemma_delete_housing_drops_only_that_housing(gs.drop_last(), gid);
        lemma_contains_split_last(gs);
        let rest = without_housing(gs.drop_last(), gid);
        lemma_contains_push(rest, gs.last());
        assert forall|x: Housing| #[trigger] without_housing(gs, gid).contains(x) <==> (gs.contains(x) && x.id != gid) by {
            assert(rest.contains(x) <==> (gs.drop_last().contains(x) && x.id != gid));
            assert(gs.contains(x) <==> (gs.drop_last().contains(x) || x == gs.last()));
            assert(rest.push(gs.last()).contains(x) <==> (rest.contains(x) || x == gs.last()));
            if gs.last().id != gid {
                assert(without_housing(gs, gid) == rest.push(gs.last()));
            } else {
                assert(without_housing(gs, gid) == rest);
            }
        }
    }
}

/// Deleting a person takes away exactly the persons with its id.
pub proof fn lemma_delete_person_drops_only_that_person(gs: Seq<Person>, gid: Id)
    ensures
        forall|x: Person| #[trigger] without_person(gs, gid).contains(x) <==> (gs.contains(x) && x.id != gid),
    decreases gs.len(),
{
    if gs.len() > 0 {
        lemma_delete_person_drops_only_that_person(gs.drop_last(), gid);
        lemma_contains_split_last(gs);
        let rest = without_person(gs.drop_last(), gid);
        lemma_contains_push(rest, gs.last());
        assert forall|x: Person| #[trigger] without_person(gs, gid).contains(x) <==> (gs.contains(x) && x.id != gid) by {
            assert(rest.contains(x) <==> (gs.drop_last().contains(x) && x.id != gid));
            assert(gs.contains(x) <==> (gs.drop_last().contains(x) || x == gs.last()));
            assert(rest.push(gs.last()).contains(x) <==> (rest.contains(x) || x == gs.last()));
            if gs.last().id != gid {
                assert(without_person(gs, gid) == rest.push(gs.last()));
            } else {
                assert(without_person(gs, gid) == rest);
            }
        }
    }
}

/// A journal entry recording a change from one value to another is described
/// with the old value first, an arrow, then the new value (and, for the
/// entries that name it, the thing changed before them).
pub proof fn lemma_changes_are_described_old_to_new(name: Seq<char>, from: Seq<char>, to: Seq<char>, cap_from: u32,
    cap_to: u32, log: Seq<LogEntry>, lang: Lang)
    ensures
        describe_text(LogKindView::RenameHousing { from, to }, log, lang) == translation(lang, "Renamed housing"@) + ": "@
            + from + " → "@ + to,
        describe_text(LogKindView::RenameGroup { from, to }, log, lang) == translation(lang, "Renamed group"@) + ": "@
            + from + " → "@ + to,
        describe_text(LogKindView::RenamePerson { from, to }, log, lang) == translation(lang, "Renamed person"@) + ": "@
            + from + " → "@ + to,
        describe_text(LogKindView::SetCapacity { name, from: cap_from, to: cap_to }, log, lang) == translation(
            lang,
            "Changed capacity of"@,
        ) + " "@ + name + ": "@ + crate::journal::decimal_text(cap_from as nat) + " → "@ + crate::journal::decimal_text(
            cap_to as nat,
        ),
        describe_text(LogKindView::MoveStay { subject: name, from, to }, log, lang) == translation(lang, "Moved stay"@)
            + ": "@ + name + " ("@ + from + " → "@ + to + ")"@,
        describe_text(LogKindView::ChangeStaySubject { from, to, housing: name }, log, lang) == translation(
            lang,
            "Changed occupant of stay"@,
        ) + " ("@ + name + "): "@ + from + " → "@ + to,
{
}

} // verus!
